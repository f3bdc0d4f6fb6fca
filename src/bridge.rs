//! The one-shot bridge that carries the outcome of a blocking call, made on a
//! thread of its own, back to the caller that awaits it.
use vstd::prelude::*;
use vstd::string::StringExecFns;
use futures::channel::oneshot::{Canceled, Sender};
use crate::text::{decimal_i64, signed_decimal_of};

verus! {

/// futures' `oneshot::Sender`, the sending half of a one-message channel,
/// carried through unopened.
#[verifier::external_type_specification]
#[verifier::external_body]
#[verifier::reject_recursive_types(T)]
pub struct ExSender<T>(Sender<T>);

/// futures' `oneshot::Canceled`: the receiver's error when the sender was
/// dropped without sending.
#[verifier::external_type_specification]
#[verifier::external_body]
pub struct ExCanceled(Canceled);

/// Why a bridged operation failed.
#[derive(Debug, Clone, Copy, PartialEq, Eq, Structural)]
pub enum BridgeError {
    /// The init system refused the readiness notification with this code.
    Notify { code: i32 },
    /// The worker went away without sending its outcome.
    Channel,
}

/// What the worker of a bridged operation sends, exactly once.
pub type Completion = Result<(), BridgeError>;

pub open spec fn bridge_error_message(e: BridgeError) -> Seq<char> {
    match e {
        BridgeError::Notify { code } => "Error notifying SystemD, code: ["@ + signed_decimal_of(
            code as int,
        ) + "]"@,
        BridgeError::Channel => "Async op channel receive failure"@,
    }
}

impl BridgeError {
    /// The description handed to the awaiting caller.
    pub fn message(&self) -> (r: String)
        ensures
            r@ == bridge_error_message(*self),
    {
        match self {
            BridgeError::Notify { code } => {
                let mut s = String::from_str("Error notifying SystemD, code: [");
                s.append(decimal_i64(*code as i64).as_str());
                s.append("]");
                s
            },
            BridgeError::Channel => String::from_str("Async op channel receive failure"),
        }
    }
}

/// The outcome of a readiness notification whose call returned `code`: any
/// positive code is success.
pub open spec fn notify_outcome_spec(code: i32) -> Completion {
    if code > 0 {
        Ok(())
    } else {
        Err(BridgeError::Notify { code })
    }
}

pub fn notify_outcome(code: i32) -> (r: Completion)
    ensures
        r == notify_outcome_spec(code),
{
    if code > 0 {
        Ok(())
    } else {
        Err(BridgeError::Notify { code })
    }
}

/// Relies on futures' `oneshot::Sender::send`, which consumes the sender and
/// hands the value back when the receiver is gone.
#[verifier::external_body]
fn oneshot_send(tx: Sender<Completion>, value: Completion) -> (r: Result<(), Completion>)
    ensures
        r matches Err(back) ==> back == value,
{
    tx.send(value)
}

/// Sends the outcome of a readiness notification that returned `code`: the
/// one message of the channel. When the receiver is gone the outcome comes
/// back instead.
pub fn deliver_notify_outcome(tx: Sender<Completion>, code: i32) -> (r: Result<(), Completion>)
    ensures
        r matches Err(back) ==> back == notify_outcome_spec(code),
{
    oneshot_send(tx, notify_outcome(code))
}

/// What the awaiting caller resolves to: the worker's outcome, or a channel
/// error when the worker ended without sending one.
pub fn settle(received: Result<Completion, Canceled>) -> (r: Completion)
    ensures
        received matches Ok(v) ==> r == v,
        received is Err ==> r == Err::<(), BridgeError>(BridgeError::Channel),
{
    match received {
        Ok(v) => v,
        Err(_) => Err(BridgeError::Channel),
    }
}

} // verus!
