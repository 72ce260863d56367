//! The byte-exchange seam between the register protocols and a serial port.
use vstd::prelude::*;

verus! {

/// A failed serial exchange, described by the port layer.
#[derive(Clone, Debug, PartialEq, Eq)]
pub struct SerialConnectionError {
    message: String,
}

impl SerialConnectionError {
    pub fn new(message: String) -> (error: Self)
        ensures
            error.message_view() == message@,
    {
        SerialConnectionError { message }
    }

    pub closed spec fn message_view(&self) -> Seq<char> {
        self.message@
    }

    /// The description of the failure.
    pub fn to_string(&self) -> (text: String)
        ensures
            text@ == self.message_view(),
    {
        self.message.clone()
    }
}

/// One serial exchange: the bytes sent, the length of response asked for, and the response, or
/// `None` when the exchange failed.
pub struct SerialAttempt {
    pub request: Seq<u8>,
    pub response_length: nat,
    pub response: Option<Seq<u8>>,
}

/// A request/response exchange over a serial line: write `request`, then read exactly
/// `response_length` bytes. Implemented by the serial-port connection of the application.
///
/// `exchanges` is the record of the exchanges made over the connection, which each
/// `exchange_exact` extends by its own. Only an implementation that defines `exchanges` can meet
/// that contract: the default, which names no particular record, cannot grow, and exists only so
/// that an implementation outside Verus compiles. Verus does not take the default for a
/// connection of an unknown type, so what is proved over `SerialExchange` holds for every
/// implementation that defines it.
pub trait SerialExchange {
    /// The exchanges made so far, in order.
    closed spec fn exchanges(&self) -> Seq<SerialAttempt> {
        vstd::pervasive::arbitrary()
    }

    fn exchange_exact(&mut self, request: &[u8], response_length: usize) -> (result: Result<
        Vec<u8>,
        SerialConnectionError,
    >)
        ensures
            final(self).exchanges() == old(self).exchanges().push(
                SerialAttempt {
                    request: request@,
                    response_length: response_length as nat,
                    response: match result {
                        Ok(bytes) => Some(bytes@),
                        Err(_) => None,
                    },
                },
            ),
    ;
}

} // verus!
