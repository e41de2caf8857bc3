use vstd::prelude::*;

verus! {

/// The single error value a command hands back to the UI: one human-readable
/// message.
#[derive(Debug)]
pub struct CommandError {
    pub message: String,
}

impl CommandError {
    /// An error carrying `message` as it is.
    pub fn new(message: &str) -> (r: CommandError)
        ensures
            r.message@ == message@,
    {
        CommandError { message: message.to_string() }
    }
}

} // verus!
