//! The logical shape of a payload as it travels: a tree of texts, numbers,
//! lists and keyed objects.

use vstd::prelude::*;
use vstd::string::*;
use crate::number::Decimal;

verus! {

/// A structured value as it is put on the wire.
#[derive(Debug, PartialEq, Eq)]
pub enum WireValue {
    Null,
    Bool(bool),
    Number(Decimal),
    Text(String),
    List(Vec<WireValue>),
    /// Keyed members, in the order in which they are written.
    Object(Vec<(String, WireValue)>),
}

/// What a [`WireValue`] holds, as a mathematical value.
pub enum WireTree {
    Null,
    Bool(bool),
    Number(Decimal),
    Text(Seq<char>),
    List(Seq<WireTree>),
    Object(Seq<(Seq<char>, WireTree)>),
}

impl View for WireValue {
    type V = WireTree;

    open spec fn view(&self) -> WireTree
        decreases self, 0nat,
    {
        match self {
            WireValue::Null => WireTree::Null,
            WireValue::Bool(b) => WireTree::Bool(*b),
            WireValue::Number(n) => WireTree::Number(*n),
            WireValue::Text(s) => WireTree::Text(s@),
            WireValue::List(items) => WireTree::List(items_view(items@, items@.len())),
            WireValue::Object(members) => WireTree::Object(
                members_view(members@, members@.len()),
            ),
        }
    }
}

/// What the first `n` items of a list hold, in order.
pub open spec fn items_view(items: Seq<WireValue>, n: nat) -> Seq<WireTree>
    decreases items, n,
{
    if n == 0 || n > items.len() {
        Seq::empty()
    } else {
        items_view(items, (n - 1) as nat).push(items[n - 1]@)
    }
}

/// What the first `n` members of an object hold, in order: each key with
/// what its value holds.
pub open spec fn members_view(members: Seq<(String, WireValue)>, n: nat) -> Seq<
    (Seq<char>, WireTree),
>
    decreases members, n,
{
    if n == 0 || n > members.len() {
        Seq::empty()
    } else {
        members_view(members, (n - 1) as nat).push((members[n - 1].0@, members[n - 1].1@))
    }
}

impl DeepView for WireValue {
    type V = WireTree;

    open spec fn deep_view(&self) -> WireTree {
        self@
    }
}

proof fn lemma_items_view(items: Seq<WireValue>, n: nat)
    requires
        n <= items.len(),
    ensures
        items_view(items, n).len() == n,
        forall|i: int| 0 <= i < n ==> (#[trigger] items_view(items, n)[i]) == items[i]@,
    decreases n,
{
    if n > 0 {
        lemma_items_view(items, (n - 1) as nat);
        assert(items_view(items, n) == items_view(items, (n - 1) as nat).push(items[n - 1]@));
    } else {
        assert(items_view(items, n) == Seq::<WireTree>::empty());
    }
}

proof fn lemma_members_view(members: Seq<(String, WireValue)>, n: nat)
    requires
        n <= members.len(),
    ensures
        members_view(members, n).len() == n,
        forall|i: int|
            0 <= i < n ==> (#[trigger] members_view(members, n)[i]) == (
                members[i].0@,
                members[i].1@,
            ),
    decreases n,
{
    if n > 0 {
        lemma_members_view(members, (n - 1) as nat);
        assert(members_view(members, n) == members_view(members, (n - 1) as nat).push(
            (members[n - 1].0@, members[n - 1].1@),
        ));
    } else {
        assert(members_view(members, n) == Seq::<(Seq<char>, WireTree)>::empty());
    }
}

/// A list holds the views of its items, in order.
pub proof fn lemma_list_view(items: Vec<WireValue>)
    ensures
        WireValue::List(items)@ == WireTree::List(items.deep_view()),
{
    lemma_items_view(items@, items@.len());
    assert(WireValue::List(items)@ == WireTree::List(items_view(items@, items@.len())));
    assert(items_view(items@, items@.len()) =~= items.deep_view());
}

/// An object holds its keys and the views of their values, in order.
pub proof fn lemma_object_view(members: Vec<(String, WireValue)>)
    ensures
        WireValue::Object(members)@ == WireTree::Object(members.deep_view()),
{
    lemma_members_view(members@, members@.len());
    assert(WireValue::Object(members)@ == WireTree::Object(
        members_view(members@, members@.len()),
    ));
    assert(members_view(members@, members@.len()) =~= members.deep_view());
}

/// A copy of the members of an object.
pub fn copy_members(members: &Vec<(String, WireValue)>) -> (r: Vec<(String, WireValue)>)
    ensures
        r.deep_view() == members.deep_view(),
    decreases members,
{
    let mut out: Vec<(String, WireValue)> = Vec::new();
    let mut i: usize = 0;
    while i < members.len()
        invariant
            i <= members.len(),
            out.len() == i,
            forall|j: int|
                0 <= j < i ==> out@[j].0@ == members@[j].0@ && out@[j].1@ == members@[j].1@,
        decreases members.len() - i,
    {
        assert(decreases_to!(members => members[i as int]));
        assert(decreases_to!(members[i as int] => members[i as int].1));
        let key = members[i].0.clone();
        let value = members[i].1.clone();
        out.push((key, value));
        i += 1;
    }
    assert(out.deep_view() =~= members.deep_view());
    out
}

/// A copy of the items of a list.
pub fn copy_items(items: &Vec<WireValue>) -> (r: Vec<WireValue>)
    ensures
        r.deep_view() == items.deep_view(),
    decreases items,
{
    let mut out: Vec<WireValue> = Vec::new();
    let mut i: usize = 0;
    while i < items.len()
        invariant
            i <= items.len(),
            out.len() == i,
            forall|j: int| 0 <= j < i ==> out@[j]@ == items@[j]@,
        decreases items.len() - i,
    {
        assert(decreases_to!(items => items[i as int]));
        let item = items[i].clone();
        out.push(item);
        i += 1;
    }
    assert(out.deep_view() =~= items.deep_view());
    out
}

impl Clone for WireValue {
    fn clone(&self) -> (r: WireValue)
        ensures
            r@ == self@,
        decreases self,
    {
        match self {
            WireValue::Null => WireValue::Null,
            WireValue::Bool(b) => WireValue::Bool(*b),
            WireValue::Number(n) => WireValue::Number(*n),
            WireValue::Text(s) => WireValue::Text(s.clone()),
            WireValue::List(items) => {
                let copy = copy_items(items);
                proof {
                    lemma_list_view(*items);
                    lemma_list_view(copy);
                }
                WireValue::List(copy)
            },
            WireValue::Object(members) => {
                let copy = copy_members(members);
                proof {
                    lemma_object_view(*members);
                    lemma_object_view(copy);
                }
                WireValue::Object(copy)
            },
        }
    }
}

/// The value of the first member with the given key, if there is one.
pub open spec fn lookup(members: Seq<(Seq<char>, WireTree)>, key: Seq<char>) -> Option<WireTree>
    decreases members.len(),
{
    if members.len() == 0 {
        None
    } else if members.first().0 == key {
        Some(members.first().1)
    } else {
        lookup(members.drop_first(), key)
    }
}

/// The value of the first member with the given key, if there is one.
pub fn find<'a>(members: &'a Vec<(String, WireValue)>, key: &str) -> (r: Option<&'a WireValue>)
    ensures
        r.deep_view() == lookup(members.deep_view(), key@),
{
    let wanted = String::from_str(key);
    let mut i: usize = 0;
    assert(members.deep_view().subrange(0, members.len() as int) =~= members.deep_view());
    while i < members.len()
        invariant
            i <= members.len(),
            wanted@ == key@,
            lookup(members.deep_view(), key@) == lookup(
                members.deep_view().subrange(i as int, members.len() as int),
                key@,
            ),
        decreases members.len() - i,
    {
        let ghost rest = members.deep_view().subrange(i as int, members.len() as int);
        assert(rest.first() == members@[i as int].deep_view());
        assert(rest.drop_first() =~= members.deep_view().subrange(
            i + 1,
            members.len() as int,
        ));
        if members[i].0 == wanted {
            return Some(&members[i].1);
        }
        i += 1;
    }
    None
}

/// One member under `key` where there is a value, none where there is not.
pub open spec fn optional_member(key: Seq<char>, value: Option<WireTree>) -> Seq<
    (Seq<char>, WireTree),
> {
    match value {
        Some(v) => seq![(key, v)],
        None => Seq::empty(),
    }
}

/// Looking a key up in members written one after the other finds what the
/// first part holds under it, and else what the second part holds.
pub broadcast proof fn lemma_lookup_concat(
    first: Seq<(Seq<char>, WireTree)>,
    second: Seq<(Seq<char>, WireTree)>,
    key: Seq<char>,
)
    ensures
        #[trigger] lookup(first + second, key) == if lookup(first, key) is Some {
            lookup(first, key)
        } else {
            lookup(second, key)
        },
    decreases first.len(),
{
    if first.len() == 0 {
        assert(first + second =~= second);
    } else {
        assert((first + second).drop_first() =~= first.drop_first() + second);
        lemma_lookup_concat(first.drop_first(), second, key);
    }
}

/// Looking a key up in an optional member finds its value under its own key
/// and nothing under any other.
pub broadcast proof fn lemma_lookup_optional(
    member_key: Seq<char>,
    value: Option<WireTree>,
    key: Seq<char>,
)
    ensures
        #[trigger] lookup(optional_member(member_key, value), key) == if key == member_key {
            value
        } else {
            None
        },
{
    reveal_with_fuel(lookup, 2);
}

/// Appends a member under `key` where there is a value.
pub fn put(members: &mut Vec<(String, WireValue)>, key: &str, value: Option<WireValue>)
    ensures
        final(members).deep_view() == old(members).deep_view() + optional_member(
            key@,
            value.deep_view(),
        ),
{
    match value {
        Some(v) => {
            members.push((String::from_str(key), v));
        },
        None => {},
    }
    assert(members.deep_view() =~= old(members).deep_view() + optional_member(
        key@,
        value.deep_view(),
    ));
}

/// The list that holds each text as a value.
pub open spec fn texts_wire(texts: Seq<Seq<char>>) -> WireTree {
    WireTree::List(Seq::new(texts.len(), |i: int| WireTree::Text(texts[i])))
}

/// The texts that a list holds, if it is a list and holds nothing else.
pub open spec fn texts_parse(doc: WireTree) -> Option<Seq<Seq<char>>> {
    match doc {
        WireTree::List(items) => if forall|i: int|
            0 <= i < items.len() ==> (#[trigger] items[i]) is Text {
            Some(Seq::new(items.len(), |i: int| items[i]->Text_0))
        } else {
            None
        },
        _ => None,
    }
}

/// A list of texts is read back as the texts it was made of.
pub broadcast proof fn lemma_texts_round_trip(texts: Seq<Seq<char>>)
    ensures
        #[trigger] texts_parse(texts_wire(texts)) == Some(texts),
{
    assert(texts_parse(texts_wire(texts))->0 =~= texts);
}

/// The list that holds each text as a value.
pub fn texts_to_wire(texts: &Vec<String>) -> (doc: WireValue)
    ensures
        doc@ == texts_wire(texts.deep_view()),
{
    let mut items: Vec<WireValue> = Vec::new();
    let mut i: usize = 0;
    while i < texts.len()
        invariant
            i <= texts.len(),
            items.len() == i,
            forall|j: int| 0 <= j < i ==> items@[j]@ == WireTree::Text(texts@[j]@),
        decreases texts.len() - i,
    {
        items.push(WireValue::Text(texts[i].clone()));
        i += 1;
    }
    proof {
        lemma_list_view(items);
        assert(items.deep_view() =~= texts_wire(texts.deep_view())->List_0);
    }
    WireValue::List(items)
}

/// The texts that a list holds, if it is a list and holds nothing else.
pub fn texts_from_wire(doc: &WireValue) -> (r: Option<Vec<String>>)
    ensures
        r.deep_view() == texts_parse(doc@),
{
    match doc {
        WireValue::List(items) => {
            proof {
                lemma_list_view(*items);
            }
            let mut texts: Vec<String> = Vec::new();
            let mut i: usize = 0;
            while i < items.len()
                invariant
                    i <= items.len(),
                    texts.len() == i,
                    doc@ == WireTree::List(items.deep_view()),
                    forall|j: int| 0 <= j < i ==> items@[j]@ == WireTree::Text(texts@[j]@),
                decreases items.len() - i,
            {
                match &items[i] {
                    WireValue::Text(t) => {
                        texts.push(t.clone());
                    },
                    _ => {
                        assert(!(items.deep_view()[i as int] is Text));
                        return None;
                    },
                }
                i += 1;
            }
            proof {
                assert forall|j: int| 0 <= j < items.len() implies (#[trigger] items.deep_view()[j]) is Text by {
                    assert(items@[j]@ == WireTree::Text(texts@[j]@));
                }
                assert(texts.deep_view() =~= texts_parse(doc@)->0);
            }
            Some(texts)
        },
        _ => None,
    }
}

} // verus!
