//! Embeddings requests: one model and the texts to embed.

use vstd::prelude::*;
use vstd::string::*;
use crate::error::ConfigurationError;

verus! {

/// An embeddings request, ready to be put on the wire.
///
/// A value of this type always holds at least one input text.
#[derive(Debug, PartialEq, Eq)]
pub struct EmbeddingsRequest {
    model: String,
    inputs: Vec<String>,
}

/// What an [`EmbeddingsRequest`] holds, as a mathematical value.
pub struct EmbeddingsRequestView {
    pub model: Seq<char>,
    pub inputs: Seq<Seq<char>>,
}

impl EmbeddingsRequestView {
    /// Whether the payload is well formed: it has an input text.
    pub open spec fn wf(self) -> bool {
        self.inputs.len() > 0
    }
}

impl View for EmbeddingsRequest {
    type V = EmbeddingsRequestView;

    closed spec fn view(&self) -> EmbeddingsRequestView {
        EmbeddingsRequestView { model: self.model@, inputs: self.inputs.deep_view() }
    }
}

impl EmbeddingsRequest {
    #[verifier::type_invariant]
    spec fn well_formed(self) -> bool {
        self@.wf()
    }

    /// The model that is asked.
    pub fn model(&self) -> (m: &String)
        ensures
            m@ == self@.model,
    {
        &self.model
    }

    /// The texts to embed, in the order in which they were given.
    pub fn inputs(&self) -> (texts: &Vec<String>)
        ensures
            texts.deep_view() == self@.inputs,
            texts.len() > 0,
    {
        proof {
            use_type_invariant(self);
        }
        &self.inputs
    }
}

/// An embeddings request under construction.
#[derive(Debug)]
pub struct EmbeddingsRequestBuilder {
    request: EmbeddingsRequest,
}

impl View for EmbeddingsRequestBuilder {
    type V = EmbeddingsRequestView;

    /// The payload that `build` would return now.
    closed spec fn view(&self) -> EmbeddingsRequestView {
        self.request@
    }
}

/// Starts an embeddings request to `model` for the given texts.
///
/// There must be a text: an empty batch is refused with
/// [`ConfigurationError::EmptyInputs`].
pub fn new_embeddings_request(model: &str, inputs: Vec<String>) -> (r: Result<
    EmbeddingsRequestBuilder,
    ConfigurationError,
>)
    ensures
        inputs.len() > 0 ==> r is Ok && r->Ok_0@ == (EmbeddingsRequestView {
            model: model@,
            inputs: inputs.deep_view(),
        }),
        inputs.len() == 0 ==> r == Err::<EmbeddingsRequestBuilder, ConfigurationError>(
            ConfigurationError::EmptyInputs,
        ),
{
    if inputs.len() == 0 {
        return Err(ConfigurationError::EmptyInputs);
    }
    let request = EmbeddingsRequest { model: String::from_str(model), inputs };
    Ok(EmbeddingsRequestBuilder { request })
}

impl EmbeddingsRequestBuilder {
    /// The payload that holds what was recorded.
    pub fn build(self) -> (request: EmbeddingsRequest)
        ensures
            request@ == self@,
            request@.wf(),
    {
        proof {
            use_type_invariant(&self.request);
        }
        self.request
    }
}

} // verus!
