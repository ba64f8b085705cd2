//! The request-handling seam the server programs against: parse a request
//! out of a byte buffer, execute it, note how many bytes were consumed.

use vstd::prelude::*;

verus! {

pub const CRLF: &'static str = "\r\n";

/// Why a byte buffer could not be parsed into a request.
#[derive(Clone, Copy, Debug, PartialEq, Eq, Structural)]
pub enum ParseError {
    /// The buffer holds a malformed request.
    Invalid,
    /// The buffer holds the start of a request; more bytes are needed.
    Incomplete,
    /// The buffer holds a complete but unrecognized command.
    UnknownCommand,
}

/// A successfully parsed message together with how many buffer bytes it
/// consumed.
#[derive(Debug, PartialEq)]
pub struct ParseOk<T> {
    message: T,
    consumed: usize,
}

impl<T> ParseOk<T> {
    /// The parsed message.
    pub closed spec fn spec_message(&self) -> T {
        self.message
    }

    /// How many bytes of the buffer the parse consumed.
    pub closed spec fn spec_consumed(&self) -> usize {
        self.consumed
    }

    /// Pairs a parsed message with the number of bytes it consumed.
    pub fn new(message: T, consumed: usize) -> (r: ParseOk<T>)
        ensures
            r.spec_message() == message,
            r.spec_consumed() == consumed,
    {
        ParseOk { message, consumed }
    }

    /// Surrenders the parsed message.
    pub fn into_inner(self) -> (r: T)
        ensures
            r == self.spec_message(),
    {
        self.message
    }

    /// How many bytes of the buffer the parse consumed.
    pub fn consumed(&self) -> (r: usize)
        ensures
            r == self.spec_consumed(),
    {
        self.consumed
    }
}

/// Executes a parsed request, producing a response unless the request calls
/// for none.
pub trait Execute<Request, Response> {
    fn execute(&mut self, request: Request) -> Option<Response>;
}

/// Parses a request out of the front of a byte buffer.
pub trait Parse<T> {
    fn parse(&self, buffer: &[u8]) -> Result<ParseOk<T>, ParseError>;
}

} // verus!
