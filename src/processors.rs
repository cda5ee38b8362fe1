use vstd::prelude::*;

use crate::chat::ChatResponseChunk;
use crate::error::CognitionError;
use crate::stream::{last_chunk, open_step, ChatAssembler, DeltaEvent, StepOutcome};

verus! {

/// Serves one-shot questions: task suggestions and subdivisions.
#[derive(Default)]
pub struct AIProcessorGraphQLQuery;

/// Serves chat creation and chat turns answered in one piece.
#[derive(Default)]
pub struct AIProcessorGraphQLMutation;

/// Serves chat turns forwarded chunk by chunk.
#[derive(Default)]
pub struct AIProcessorGraphQLSubscription;

impl AIProcessorGraphQLMutation {
    /// The answer to a chat turn asked for in one piece: the last chunk of
    /// the drained stream, or an error if it produced none.
    pub fn chat(&self, chunks: Vec<ChatResponseChunk>) -> (r: Result<ChatResponseChunk, CognitionError>)
        ensures
            chunks@.len() == 0 ==> r == Err::<ChatResponseChunk, CognitionError>(CognitionError::EmptyStream),
            chunks@.len() > 0 ==> r == Ok::<ChatResponseChunk, CognitionError>(chunks@.last()),
    {
        last_chunk(chunks)
    }
}

impl AIProcessorGraphQLSubscription {
    /// One step of a chat turn forwarded chunk by chunk. Once the subscriber
    /// has cancelled the turn, no event yields a chunk and the turn stays as
    /// it was, so the caller stops reading and drops the provider's stream.
    pub fn chat(&self, turn: &mut ChatAssembler, event: &DeltaEvent) -> (r: StepOutcome)
        ensures
            old(turn).closed ==> r is Finished && *final(turn) == *old(turn),
            !old(turn).closed ==> open_step(*old(turn), *event, *final(turn), r),
    {
        turn.on_event(event)
    }
}

} // verus!
