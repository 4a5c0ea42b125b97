//! Reply envelopes and how a reply becomes a typed result or a classified
//! error.

use vstd::prelude::*;

use crate::client::Operation;

verus! {

/// What the service answers: success with an optional payload, or failure
/// with a machine-readable code and a message.
#[derive(Debug)]
pub enum Envelope<T> {
    Success { data: Option<T> },
    Failure { code: String, message: String },
}

/// What came back from one call, as the transport and the decoder saw it.
#[derive(Debug)]
pub enum Reply<T> {
    /// The service could not be reached (refused, unreachable, timed out).
    Unreachable { reason: String },
    /// The service answered with `status`; `body` is the decoded envelope, or
    /// why the body did not decode as one.
    Answered { status: u16, body: Result<Envelope<T>, String> },
}

/// The five ways a call can fail, kept apart so that a caller can tell a
/// service that is down from a rejected command and from a malformed reply.
#[derive(Debug)]
pub enum ClientError {
    /// The service could not be reached.
    Transport(String),
    /// A request could not be encoded, or a reply did not decode.
    Encoding(String),
    /// The answer's status lies outside the success range.
    Status(u16),
    /// The service reported a failure.
    Application { code: String, message: String },
    /// A success reply lacks the payload that the operation promises.
    MissingData,
}

/// A status in the success range.
pub open spec fn is_success_status(status: u16) -> bool {
    200 <= status && status < 300
}

/// A reply read as an envelope: the payload it succeeded with, if any, or the
/// error that it stands for.
pub open spec fn reply_outcome<T>(reply: Reply<T>) -> Result<Option<T>, ClientError> {
    match reply {
        Reply::Unreachable { reason } => Err(ClientError::Transport(reason)),
        Reply::Answered { status, body } => {
            if !is_success_status(status) {
                Err(ClientError::Status(status))
            } else {
                match body {
                    Err(reason) => Err(ClientError::Encoding(reason)),
                    Ok(Envelope::Failure { code, message }) => Err(
                        ClientError::Application { code, message },
                    ),
                    Ok(Envelope::Success { data }) => Ok(data),
                }
            }
        },
    }
}

/// The result of an operation that returns a payload.
pub open spec fn data_outcome<T>(reply: Reply<T>) -> Result<T, ClientError> {
    match reply_outcome(reply) {
        Ok(Some(data)) => Ok(data),
        Ok(None) => Err(ClientError::MissingData),
        Err(e) => Err(e),
    }
}

/// The result of an operation that returns nothing.
pub open spec fn unit_outcome<T>(reply: Reply<T>) -> Result<(), ClientError> {
    match reply_outcome(reply) {
        Ok(_) => Ok(()),
        Err(e) => Err(e),
    }
}

/// The result of `op`, its payload in `Some` where it returns one.
pub open spec fn call_outcome<T>(op: Operation, reply: Reply<T>) -> Result<Option<T>, ClientError> {
    if op.expects_data() {
        match data_outcome(reply) {
            Ok(data) => Ok(Some(data)),
            Err(e) => Err(e),
        }
    } else {
        match unit_outcome(reply) {
            Ok(_) => Ok(None),
            Err(e) => Err(e),
        }
    }
}

pub fn is_success(status: u16) -> (r: bool)
    ensures
        r == is_success_status(status),
{
    200 <= status && status < 300
}

/// Reads a reply as an envelope, without asking for a payload.
pub fn unwrap_reply<T>(reply: Reply<T>) -> (r: Result<Option<T>, ClientError>)
    ensures
        r == reply_outcome(reply),
{
    match reply {
        Reply::Unreachable { reason } => Err(ClientError::Transport(reason)),
        Reply::Answered { status, body } => {
            if !is_success(status) {
                Err(ClientError::Status(status))
            } else {
                match body {
                    Err(reason) => Err(ClientError::Encoding(reason)),
                    Ok(Envelope::Failure { code, message }) => Err(
                        ClientError::Application { code, message },
                    ),
                    Ok(Envelope::Success { data }) => Ok(data),
                }
            }
        },
    }
}

/// Finishes a call that returns a payload (status, log inspection and
/// retrieval): a success without one is a `MissingData` error.
pub fn expect_data<T>(reply: Reply<T>) -> (r: Result<T, ClientError>)
    ensures
        r == data_outcome(reply),
{
    match unwrap_reply(reply) {
        Ok(Some(data)) => Ok(data),
        Ok(None) => Err(ClientError::MissingData),
        Err(e) => Err(e),
    }
}

/// Finishes a call that returns nothing (start, stop and restart of the
/// core): whatever payload comes with a success is dropped.
pub fn expect_unit<T>(reply: Reply<T>) -> (r: Result<(), ClientError>)
    ensures
        r == unit_outcome(reply),
{
    match unwrap_reply(reply) {
        Ok(_) => Ok(()),
        Err(e) => Err(e),
    }
}

/// Finishes a call of `op`: its payload in `Some` where the operation returns
/// one, `None` where it returns nothing.
pub fn finish<T>(op: Operation, reply: Reply<T>) -> (r: Result<Option<T>, ClientError>)
    ensures
        r == call_outcome(op, reply),
{
    if op.method() == crate::client::Method::Get {
        match expect_data(reply) {
            Ok(data) => Ok(Some(data)),
            Err(e) => Err(e),
        }
    } else {
        match expect_unit(reply) {
            Ok(_) => Ok(None),
            Err(e) => Err(e),
        }
    }
}

} // verus!

verus! {

/// Whatever the operation, a success status whose body does not decode as an
/// envelope gives an encoding error carrying the decoder's reason.
pub proof fn lemma_malformed_reply_is_encoding_error<T>(op: Operation, status: u16, reason: String)
    requires
        is_success_status(status),
    ensures
        call_outcome::<T>(op, Reply::Answered { status, body: Err(reason) }) == Err::<
            Option<T>,
            ClientError,
        >(ClientError::Encoding(reason)),
{
}

/// An operation that returns a payload fails with `MissingData` on a success
/// envelope without one; it never stands in an empty payload.
pub proof fn lemma_success_without_data_is_contract_violation<T>(op: Operation, status: u16)
    requires
        op.expects_data(),
        is_success_status(status),
    ensures
        call_outcome::<T>(
            op,
            Reply::Answered { status, body: Ok(Envelope::Success { data: None }) },
        ) == Err::<Option<T>, ClientError>(ClientError::MissingData),
{
}

} // verus!
