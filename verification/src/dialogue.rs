//! A conversation held line by line: which lines count, and how the running
//! prompt grows with each question and each answer.

use vstd::prelude::*;
use vstd::string::*;
use crate::chat::{ChatCompletionRequest, ChatCompletionRequestView};
use crate::presets::{create_chat_request, single_user_message};

verus! {

/// Whether `c` is white space in the sense of Unicode's property `White_Space`.
pub open spec fn is_white_space(c: char) -> bool {
    let n = c as u32;
    ||| 0x09 <= n <= 0x0d
    ||| n == 0x20
    ||| n == 0x85
    ||| n == 0xa0
    ||| n == 0x1680
    ||| 0x2000 <= n <= 0x200a
    ||| n == 0x2028
    ||| n == 0x2029
    ||| n == 0x202f
    ||| n == 0x205f
    ||| n == 0x3000
}

/// Whether `c` is white space in the sense of Unicode's property `White_Space`.
pub fn is_whitespace(c: char) -> (b: bool)
    ensures
        b == is_white_space(c),
{
    let n: u32 = c as u32;
    (0x09 <= n && n <= 0x0d) || n == 0x20 || n == 0x85 || n == 0xa0 || n == 0x1680 || (0x2000 <= n
        && n <= 0x200a) || n == 0x2028 || n == 0x2029 || n == 0x202f || n == 0x205f || n
        == 0x3000
}

/// `s` without the white space at its start.
pub open spec fn trim_start(s: Seq<char>) -> Seq<char>
    decreases s.len(),
{
    if s.len() > 0 && is_white_space(s.first()) {
        trim_start(s.drop_first())
    } else {
        s
    }
}

/// `s` without the white space at its end.
pub open spec fn trim_end(s: Seq<char>) -> Seq<char>
    decreases s.len(),
{
    if s.len() > 0 && is_white_space(s.last()) {
        trim_end(s.drop_last())
    } else {
        s
    }
}

/// `s` without the white space at its start and at its end.
pub open spec fn trimmed(s: Seq<char>) -> Seq<char> {
    trim_end(trim_start(s))
}

proof fn lemma_trim_start(s: Seq<char>, a: int)
    requires
        0 <= a <= s.len(),
        forall|j: int| 0 <= j < a ==> is_white_space(s[j]),
        a < s.len() ==> !is_white_space(s[a]),
    ensures
        trim_start(s) == s.subrange(a, s.len() as int),
    decreases a,
{
    if a == 0 {
        assert(s.subrange(0, s.len() as int) =~= s);
    } else {
        let rest = s.drop_first();
        assert forall|j: int| 0 <= j < a - 1 implies is_white_space(rest[j]) by {
            assert(rest[j] == s[j + 1]);
        }
        lemma_trim_start(rest, a - 1);
        assert(rest.subrange(a - 1, rest.len() as int) =~= s.subrange(a, s.len() as int));
    }
}

proof fn lemma_trim_end(s: Seq<char>, b: int)
    requires
        0 <= b <= s.len(),
        forall|j: int| b <= j < s.len() ==> is_white_space(s[j]),
        b > 0 ==> !is_white_space(s[b - 1]),
    ensures
        trim_end(s) == s.subrange(0, b),
    decreases s.len() - b,
{
    if b == s.len() {
        assert(s.subrange(0, b) =~= s);
    } else {
        let rest = s.drop_last();
        lemma_trim_end(rest, b);
        assert(rest.subrange(0, b) =~= s.subrange(0, b));
    }
}

/// `s` without the white space at its start and at its end.
#[verifier::loop_isolation(false)]
pub fn trim(s: &str) -> (t: &str)
    ensures
        t@ == trimmed(s@),
{
    let length: usize = s.unicode_len();
    if length == 0 {
        return s;
    }
    let mut start: usize = 0;
    let mut end: usize = 0;
    let mut i: usize = 0;
    for c in it: s.chars()
        invariant
            i == it.index(),
            it.seq() == s@,
            end == 0 ==> start == 0,
            end == 0 ==> forall|j: int| 0 <= j < i ==> is_white_space(s@[j]),
            end > 0 ==> start < end <= i,
            end > 0 ==> forall|j: int| 0 <= j < start ==> is_white_space(s@[j]),
            end > 0 ==> !is_white_space(s@[start as int]) && !is_white_space(s@[end - 1]),
            end > 0 ==> forall|j: int| end <= j < i ==> is_white_space(s@[j]),
    {
        if !is_whitespace(c) {
            if end == 0 {
                start = i;
            }
            end = i + 1;
        }
        i += 1;
    }
    proof {
        if end == 0 {
            lemma_trim_start(s@, s@.len() as int);
        } else {
            lemma_trim_start(s@, start as int);
            lemma_trim_end(s@.subrange(start as int, s@.len() as int), end - start);
            assert(s@.subrange(start as int, s@.len() as int).subrange(0, end - start)
                =~= s@.subrange(start as int, end as int));
        }
    }
    s.substring_char(start, end)
}

/// What a line that was read means for the conversation.
#[derive(Clone, Copy, Debug, PartialEq, Eq, Structural)]
pub enum LineKind {
    /// The line asks to end the conversation.
    Quit,
    /// The line holds nothing and is passed over.
    Blank,
    /// The line holds a question.
    Question,
}

/// The character that ends the conversation when it stands alone on a
/// line: the control character that Ctrl + Q sends.
pub const QUIT: char = '\u{11}';

/// Whether a line is passed over: it is empty or holds a line ending only.
pub open spec fn blank(line: Seq<char>) -> bool {
    line.len() == 0 || line == seq!['\n'] || line == seq!['\r', '\n']
}

/// What the line means: a line that is [`QUIT`] after trimming ends the
/// conversation, a blank one is passed over, any other holds a question.
pub open spec fn classify(line: Seq<char>) -> LineKind {
    if trimmed(line) == seq![QUIT] {
        LineKind::Quit
    } else if blank(line) {
        LineKind::Blank
    } else {
        LineKind::Question
    }
}

/// Whether a line is passed over: it is empty or holds a line ending only.
pub fn is_blank(line: &str) -> (b: bool)
    ensures
        b == blank(line@),
{
    let n: usize = line.unicode_len();
    if n == 0 {
        true
    } else if n == 1 {
        let only = line.get_char(0);
        assert(line@ =~= seq![only]);
        only == '\n'
    } else if n == 2 {
        let first = line.get_char(0);
        let second = line.get_char(1);
        assert(line@ =~= seq![first, second]);
        first == '\r' && second == '\n'
    } else {
        false
    }
}

/// What the line means for the conversation.
pub fn classify_line(line: &str) -> (kind: LineKind)
    ensures
        kind == classify(line@),
{
    let word = trim(line);
    let quits = if word.unicode_len() == 1 {
        let only = word.get_char(0);
        assert(word@ =~= seq![only]);
        only == QUIT
    } else {
        false
    };
    if quits {
        LineKind::Quit
    } else if is_blank(line) {
        LineKind::Blank
    } else {
        LineKind::Question
    }
}

/// A conversation with a model that is sent, each turn, everything said so
/// far as one running prompt.
#[derive(Debug)]
pub struct Conversation {
    system_prompt: String,
    prompt: String,
}

/// What a [`Conversation`] holds, as a mathematical value.
pub struct ConversationView {
    /// The instructions that open the first turn.
    pub system_prompt: Seq<char>,
    /// Everything said so far; empty before the first question.
    pub prompt: Seq<char>,
}

impl ConversationView {
    /// The conversation after the user asked `question`: the first question
    /// opens the prompt together with the instructions, a later one is
    /// appended to it.
    pub open spec fn asked(self, question: Seq<char>) -> ConversationView {
        ConversationView {
            prompt: if self.prompt.len() == 0 {
                "<s>[INST] "@ + self.system_prompt + " "@ + question + " [/INST]"@
            } else {
                self.prompt + "<s>[INST] "@ + question + " [/INST]"@
            },
            ..self
        }
    }

    /// The conversation after the model gave `answer`.
    pub open spec fn answered(self, answer: Seq<char>) -> ConversationView {
        ConversationView { prompt: self.prompt + " "@ + answer + " </s>"@, ..self }
    }
}

impl View for Conversation {
    type V = ConversationView;

    closed spec fn view(&self) -> ConversationView {
        ConversationView { system_prompt: self.system_prompt@, prompt: self.prompt@ }
    }
}

/// What is to be done after a line was read.
#[derive(Debug, PartialEq, Eq)]
pub enum Action {
    /// End the conversation.
    Stop,
    /// Read the next line; nothing is sent.
    ReadAgain,
    /// Send the request and hand the answer to [`Conversation::on_answer`].
    Send(ChatCompletionRequest),
}

impl Conversation {
    /// A conversation in which nothing was said yet.
    pub fn new(system_prompt: &str) -> (c: Conversation)
        ensures
            c@ == (ConversationView {
                system_prompt: system_prompt@,
                prompt: Seq::<char>::empty(),
            }),
    {
        Conversation { system_prompt: String::from_str(system_prompt), prompt: String::new() }
    }

    /// Everything said so far.
    pub fn prompt(&self) -> (p: &String)
        ensures
            p@ == self@.prompt,
    {
        &self.prompt
    }

    /// Takes a line that was read and says what to do next.
    ///
    /// A line that asks to quit, or a blank one, leaves the conversation as
    /// it was. A question is trimmed and added to the prompt, and the action
    /// carries the request that sends the whole prompt as the one message
    /// of the user.
    pub fn on_line(&mut self, line: &str) -> (action: Action)
        ensures
            classify(line@) == LineKind::Quit ==> action is Stop && final(self)@ == old(self)@,
            classify(line@) == LineKind::Blank ==> action is ReadAgain && final(self)@ == old(
                self,
            )@,
            classify(line@) == LineKind::Question ==> {
                &&& final(self)@ == old(self)@.asked(trimmed(line@))
                &&& action matches Action::Send(request)
                &&& request@ == ChatCompletionRequestView::initial(
                    "gpt-3.5-turbo"@,
                    single_user_message(final(self)@.prompt),
                )
            },
    {
        match classify_line(line) {
            LineKind::Quit => Action::Stop,
            LineKind::Blank => Action::ReadAgain,
            LineKind::Question => {
                let question = trim(line);
                if self.prompt.as_str().is_empty() {
                    let mut opened = String::from_str("<s>[INST] ");
                    opened.append(self.system_prompt.as_str());
                    opened.append(" ");
                    opened.append(question);
                    opened.append(" [/INST]");
                    self.prompt = opened;
                } else {
                    self.prompt.append("<s>[INST] ");
                    self.prompt.append(question);
                    self.prompt.append(" [/INST]");
                }
                Action::Send(create_chat_request(self.prompt.as_str()))
            },
        }
    }

    /// Takes the answer of the model, adds it to the prompt without the
    /// white space around it, and returns it so.
    pub fn on_answer<'a>(&mut self, answer: &'a str) -> (shown: &'a str)
        ensures
            shown@ == trimmed(answer@),
            final(self)@ == old(self)@.answered(trimmed(answer@)),
    {
        let shown = trim(answer);
        self.prompt.append(" ");
        self.prompt.append(shown);
        self.prompt.append(" </s>");
        shown
    }
}

} // verus!
