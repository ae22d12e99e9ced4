use vstd::prelude::*;

verus! {

/// One log line bound for the host UI: the text and its severity tag. The
/// transport that prints it and emits it to a window is an external
/// collaborator; this core only carries the payload.
#[derive(Clone, Debug)]
pub struct LoggerPayload {
    pub message: String,
    pub message_type: String,
}

impl LoggerPayload {
    /// Pair a log message with its severity tag.
    pub fn new(message: String, message_type: String) -> (p: LoggerPayload)
        ensures
            p.message@ == message@,
            p.message_type@ == message_type@,
    {
        LoggerPayload { message, message_type }
    }
}

} // verus!
