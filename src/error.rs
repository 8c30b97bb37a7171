use vstd::prelude::*;

verus! {

/// The two ways a call can fail.
#[derive(Debug)]
pub enum ClientError {
    /// The request could not be sent, or no valid HTTP response came back.
    Transport(String),
    /// A body arrived but does not have the shape the operation expects;
    /// the text names what was missing or of the wrong type.
    Decode(String),
}

} // verus!
