//! Text completion requests: one model and a batch of prompts.

use vstd::prelude::*;
use vstd::string::*;
use crate::error::ConfigurationError;

verus! {

/// A text completion request, ready to be put on the wire.
///
/// A value of this type always holds at least one prompt.
#[derive(Debug, PartialEq, Eq)]
pub struct CompletionRequest {
    model: String,
    prompts: Vec<String>,
}

/// What a [`CompletionRequest`] holds, as a mathematical value.
pub struct CompletionRequestView {
    pub model: Seq<char>,
    pub prompts: Seq<Seq<char>>,
}

impl CompletionRequestView {
    /// Whether the payload is well formed: it has a prompt.
    pub open spec fn wf(self) -> bool {
        self.prompts.len() > 0
    }
}

impl View for CompletionRequest {
    type V = CompletionRequestView;

    closed spec fn view(&self) -> CompletionRequestView {
        CompletionRequestView { model: self.model@, prompts: self.prompts.deep_view() }
    }
}

impl CompletionRequest {
    #[verifier::type_invariant]
    spec fn well_formed(self) -> bool {
        self@.wf()
    }

    /// The model that is asked.
    pub fn model(&self) -> (m: &String)
        ensures
            m@ == self@.model,
    {
        &self.model
    }

    /// The prompts, in the order in which they were given.
    pub fn prompts(&self) -> (ps: &Vec<String>)
        ensures
            ps.deep_view() == self@.prompts,
            ps.len() > 0,
    {
        proof {
            use_type_invariant(self);
        }
        &self.prompts
    }
}

/// A text completion request under construction.
#[derive(Debug)]
pub struct CompletionRequestBuilder {
    request: CompletionRequest,
}

impl View for CompletionRequestBuilder {
    type V = CompletionRequestView;

    /// The payload that `build` would return now.
    closed spec fn view(&self) -> CompletionRequestView {
        self.request@
    }
}

/// Starts a completion request to `model` with the given prompts.
///
/// There must be a prompt: an empty batch is refused with
/// [`ConfigurationError::EmptyPrompts`].
pub fn new_completion_request(model: &str, prompts: Vec<String>) -> (r: Result<
    CompletionRequestBuilder,
    ConfigurationError,
>)
    ensures
        prompts.len() > 0 ==> r is Ok && r->Ok_0@ == (CompletionRequestView {
            model: model@,
            prompts: prompts.deep_view(),
        }),
        prompts.len() == 0 ==> r == Err::<CompletionRequestBuilder, ConfigurationError>(
            ConfigurationError::EmptyPrompts,
        ),
{
    if prompts.len() == 0 {
        return Err(ConfigurationError::EmptyPrompts);
    }
    let request = CompletionRequest { model: String::from_str(model), prompts };
    Ok(CompletionRequestBuilder { request })
}

impl CompletionRequestBuilder {
    /// The payload that holds what was recorded.
    pub fn build(self) -> (request: CompletionRequest)
        ensures
            request@ == self@,
            request@.wf(),
    {
        proof {
            use_type_invariant(&self.request);
        }
        self.request
    }
}

} // verus!
