use vstd::prelude::*;

verus! {

/// What can go wrong while turning stored messages into a provider
/// conversation, or while assembling a streamed answer.
#[derive(Debug, Clone, Copy, PartialEq, Eq, Structural)]
pub enum CognitionError {
    /// The message content is not a JSON object with a string `role`.
    MalformedMessage,
    /// The message names a role that has no provider turn here.
    UnsupportedRole,
    /// The provider failed, or its stream could not be read.
    ProviderFailure,
    /// A drained stream produced no chunk at all.
    EmptyStream,
    /// Accumulated tool-call arguments are not valid JSON.
    MalformedToolArguments,
}

} // verus!
