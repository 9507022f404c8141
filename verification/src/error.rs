//! What can be wrong with the inputs handed to a builder.

use vstd::prelude::*;
use vstd::string::*;

verus! {

/// A required input of a builder is missing or out of its range.
#[derive(Clone, Copy, Debug, PartialEq, Eq, Structural)]
pub enum ConfigurationError {
    /// A chat request was started without any message.
    EmptyMessages,
    /// A completion request was started without any prompt.
    EmptyPrompts,
    /// An embeddings request was started without any input text.
    EmptyInputs,
    /// A sampling temperature lies outside `0.0..=2.0`.
    TemperatureOutOfRange,
    /// A nucleus-sampling mass lies outside `0.0..=1.0`.
    TopPOutOfRange,
}

impl ConfigurationError {
    /// The sentence that describes the error.
    pub open spec fn text(self) -> Seq<char> {
        match self {
            ConfigurationError::EmptyMessages => "a chat request needs at least one message"@,
            ConfigurationError::EmptyPrompts => "a completion request needs at least one prompt"@,
            ConfigurationError::EmptyInputs => "an embeddings request needs at least one input"@,
            ConfigurationError::TemperatureOutOfRange => "temperature must lie between 0 and 2"@,
            ConfigurationError::TopPOutOfRange => "top_p must lie between 0 and 1"@,
        }
    }

    /// The sentence that describes the error, for display.
    pub fn message(&self) -> (s: String)
        ensures
            s@ == self.text(),
    {
        match self {
            ConfigurationError::EmptyMessages => String::from_str(
                "a chat request needs at least one message",
            ),
            ConfigurationError::EmptyPrompts => String::from_str(
                "a completion request needs at least one prompt",
            ),
            ConfigurationError::EmptyInputs => String::from_str(
                "an embeddings request needs at least one input",
            ),
            ConfigurationError::TemperatureOutOfRange => String::from_str(
                "temperature must lie between 0 and 2",
            ),
            ConfigurationError::TopPOutOfRange => String::from_str(
                "top_p must lie between 0 and 1",
            ),
        }
    }
}

} // verus!
