use vstd::prelude::*;

verus! {

/// The ways a generation run can fail. The "no relevant content" reply is not
/// among them: it is a successful outcome with a fixed message.
#[derive(Debug)]
pub enum EngineError {
    /// The query was empty or whitespace-only; rejected before any model work.
    EmptyQuery,
    /// Encoding the prompt yielded zero tokens; an input error, not a system fault.
    EmptyPrompt,
    /// The vocabulary has no end-of-text entry: the model and tokenizer do not
    /// belong together. Fatal for the run.
    MissingStopToken,
    /// A tokenizer or model call failed during the run; the message carries the
    /// underlying cause. No partial response is returned.
    Generation(String),
}

} // verus!
