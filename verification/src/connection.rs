//! The loop of a server that serves one connection at a time, as a state
//! machine: the caller performs the operation that a state waits for and
//! reports how it went, and `step` decides what comes next.

use vstd::prelude::*;
use crate::httpresponse::{
    default_fields,
    encoded,
    new_model,
    wire_text,
    HttpResponse,
    ResponseModel,
};

verus! {

/// The number of bytes that one read may take from a connection.
pub const READ_BUFFER_SIZE: usize = 1024;

/// Where the loop stands.
#[derive(Debug, Clone, Copy, PartialEq, Eq)]
pub enum ConnectionState {
    /// The address is about to be bound.
    Listening,
    /// The listener is bound and waits for the next client.
    Accepted,
    /// A client is connected and its bytes are about to be read.
    Reading,
    /// Bytes were read and the reply is about to be written.
    Writing,
    /// The connection is done and about to be released.
    Closed,
}

/// The operation that a state waits for.
#[derive(Debug, Clone, Copy, PartialEq, Eq)]
pub enum Operation {
    /// Bind the listener to the configured address.
    Bind,
    /// Wait until a client connects.
    Accept,
    /// Read at most `READ_BUFFER_SIZE` bytes from the client.
    Read,
    /// Write the reply to the client.
    Write,
    /// Release the connection.
    Release,
}

/// How an operation went.
#[derive(Debug, Clone, Copy, PartialEq, Eq)]
pub enum Outcome {
    /// The operation succeeded. After a read, `bytes` is the number of bytes
    /// that it took; after any other operation it has no meaning.
    Done { bytes: usize },
    /// The operation failed.
    Failed,
}

/// What went wrong on the transport.
#[derive(Debug, Clone, Copy, PartialEq, Eq)]
pub enum TransportError {
    /// The address could not be bound. The loop cannot start.
    BindError,
    /// No client could be accepted. The loop waits for the next one.
    AcceptError,
    /// Reading, writing or releasing failed. The connection is given up.
    IoError,
}

/// One step of the loop: the state that follows, and the fault that the
/// step has recovered from, if there was one.
#[derive(Debug, Clone, Copy, PartialEq, Eq)]
pub struct Step {
    pub next: ConnectionState,
    pub fault: Option<TransportError>,
}

/// The operation that `state` waits for.
pub open spec fn operation_of(state: ConnectionState) -> Operation {
    match state {
        ConnectionState::Listening => Operation::Bind,
        ConnectionState::Accepted => Operation::Accept,
        ConnectionState::Reading => Operation::Read,
        ConnectionState::Writing => Operation::Write,
        ConnectionState::Closed => Operation::Release,
    }
}

/// What follows when the operation of `state` ends with `outcome`.
///
/// Only a failed bind ends the loop. A failed accept leaves the loop waiting
/// for the next client. A read of no bytes means that the peer has closed
/// the connection, which is then closed without a reply and without a
/// fault. Any failure on a connection closes that connection, and a closed
/// connection makes way for the next client.
pub open spec fn step_of(state: ConnectionState, outcome: Outcome) -> Result<
    Step,
    TransportError,
> {
    match (state, outcome) {
        (ConnectionState::Listening, Outcome::Done { .. }) => Ok(
            Step { next: ConnectionState::Accepted, fault: None },
        ),
        (ConnectionState::Listening, Outcome::Failed) => Err(TransportError::BindError),
        (ConnectionState::Accepted, Outcome::Done { .. }) => Ok(
            Step { next: ConnectionState::Reading, fault: None },
        ),
        (ConnectionState::Accepted, Outcome::Failed) => Ok(
            Step { next: ConnectionState::Accepted, fault: Some(TransportError::AcceptError) },
        ),
        (ConnectionState::Reading, Outcome::Done { bytes }) => if bytes == 0 {
            Ok(Step { next: ConnectionState::Closed, fault: None })
        } else {
            Ok(Step { next: ConnectionState::Writing, fault: None })
        },
        (ConnectionState::Reading, Outcome::Failed) => Ok(
            Step { next: ConnectionState::Closed, fault: Some(TransportError::IoError) },
        ),
        (ConnectionState::Writing, Outcome::Done { .. }) => Ok(
            Step { next: ConnectionState::Closed, fault: None },
        ),
        (ConnectionState::Writing, Outcome::Failed) => Ok(
            Step { next: ConnectionState::Closed, fault: Some(TransportError::IoError) },
        ),
        (ConnectionState::Closed, Outcome::Done { .. }) => Ok(
            Step { next: ConnectionState::Accepted, fault: None },
        ),
        (ConnectionState::Closed, Outcome::Failed) => Ok(
            Step { next: ConnectionState::Accepted, fault: Some(TransportError::IoError) },
        ),
    }
}

/// The operation that the caller has to perform in `state`.
pub fn operation_for(state: ConnectionState) -> (operation: Operation)
    ensures
        operation == operation_of(state),
{
    match state {
        ConnectionState::Listening => Operation::Bind,
        ConnectionState::Accepted => Operation::Accept,
        ConnectionState::Reading => Operation::Read,
        ConnectionState::Writing => Operation::Write,
        ConnectionState::Closed => Operation::Release,
    }
}

/// Decides what follows when the operation of `state` has ended with
/// `outcome`. `Err` ends the loop; it comes for a failed bind and for
/// nothing else.
pub fn step(state: ConnectionState, outcome: Outcome) -> (result: Result<Step, TransportError>)
    ensures
        result == step_of(state, outcome),
{
    let failed = match outcome {
        Outcome::Done { .. } => false,
        Outcome::Failed => true,
    };
    match state {
        ConnectionState::Listening => {
            if failed {
                Err(TransportError::BindError)
            } else {
                Ok(Step { next: ConnectionState::Accepted, fault: None })
            }
        },
        ConnectionState::Accepted => {
            if failed {
                Ok(
                    Step {
                        next: ConnectionState::Accepted,
                        fault: Some(TransportError::AcceptError),
                    },
                )
            } else {
                Ok(Step { next: ConnectionState::Reading, fault: None })
            }
        },
        ConnectionState::Reading => {
            match outcome {
                Outcome::Failed => Ok(
                    Step { next: ConnectionState::Closed, fault: Some(TransportError::IoError) },
                ),
                Outcome::Done { bytes } => {
                    if bytes == 0 {
                        Ok(Step { next: ConnectionState::Closed, fault: None })
                    } else {
                        Ok(Step { next: ConnectionState::Writing, fault: None })
                    }
                },
            }
        },
        ConnectionState::Writing => {
            if failed {
                Ok(Step { next: ConnectionState::Closed, fault: Some(TransportError::IoError) })
            } else {
                Ok(Step { next: ConnectionState::Closed, fault: None })
            }
        },
        ConnectionState::Closed => {
            if failed {
                Ok(Step { next: ConnectionState::Accepted, fault: Some(TransportError::IoError) })
            } else {
                Ok(Step { next: ConnectionState::Accepted, fault: None })
            }
        },
    }
}

/// The state after `step_of`, where the loop goes on.
pub open spec fn next_state(state: ConnectionState, outcome: Outcome) -> ConnectionState
    recommends
        step_of(state, outcome) is Ok,
{
    step_of(state, outcome)->Ok_0.next
}

/// The loop ends on a failed bind and on nothing else: no client and no
/// failed transfer can end it.
pub proof fn lemma_only_bind_is_fatal(state: ConnectionState, outcome: Outcome)
    ensures
        step_of(state, outcome) is Err <==> state == ConnectionState::Listening && outcome
            == Outcome::Failed,
        step_of(state, outcome) is Err ==> step_of(state, outcome) == Err::<
            Step,
            TransportError,
        >(TransportError::BindError),
{
}

/// Once the listener is bound the loop never binds again.
pub proof fn lemma_binds_once(state: ConnectionState, outcome: Outcome)
    requires
        step_of(state, outcome) is Ok,
    ensures
        next_state(state, outcome) != ConnectionState::Listening,
{
}

/// Every connection is closed after at most two operations, whatever their
/// outcomes, and a reply is written only after a read that took bytes.
pub proof fn lemma_connection_closes(first: Outcome, second: Outcome)
    ensures
        next_state(ConnectionState::Reading, first) == ConnectionState::Closed || next_state(
            next_state(ConnectionState::Reading, first),
            second,
        ) == ConnectionState::Closed,
        next_state(ConnectionState::Reading, first) == ConnectionState::Writing <==> (first
            matches Outcome::Done { bytes } && bytes > 0),
{
}

/// The response that stands in for one that has no text on the wire: a
/// `500` with the default header field and an empty body.
pub open spec fn server_error_model() -> ResponseModel {
    new_model("500"@, None, Some(Seq::<char>::empty()))
}

/// The text that the server writes for a response: the text of the response
/// itself or, where it has none, the text of the `500` that stands in for it.
pub open spec fn reply_of(m: ResponseModel) -> Seq<char> {
    match encoded(m) {
        Ok(text) => text,
        Err(_) => wire_text(server_error_model(), default_fields(), Seq::<char>::empty()),
    }
}

/// The text to write for `response`. A response that cannot be encoded is
/// answered with a `500` made on the spot, so that the loop always has a
/// reply to write.
pub fn reply_for(response: &HttpResponse) -> (text: String)
    ensures
        text@ == reply_of(response@),
{
    match response.encode() {
        Ok(text) => text,
        Err(_) => {
            let stand_in = HttpResponse::new("500", None, Some(String::new()));
            match stand_in.encode() {
                Ok(text) => text,
                // The stand-in has header fields and a body.
                Err(_) => String::new(),
            }
        },
    }
}

} // verus!
