//! The channels through which a waiting call gets the host's answer, and the token that
//! tells a run to stop.

use futures::channel::{mpsc, oneshot};
use tokio_util::sync::CancellationToken;
use vstd::prelude::*;

verus! {

/// The sending end of a bounded channel, carried opaquely.
#[verifier::external_type_specification]
#[verifier::external_body]
#[verifier::reject_recursive_types(T)]
pub struct ExMpscSender<T>(mpsc::Sender<T>);

/// The receiving end of a bounded channel, carried opaquely.
#[verifier::external_type_specification]
#[verifier::external_body]
#[verifier::reject_recursive_types(T)]
pub struct ExMpscReceiver<T>(mpsc::Receiver<T>);

/// The sending end of a channel for one value, carried opaquely.
#[verifier::external_type_specification]
#[verifier::external_body]
#[verifier::reject_recursive_types(T)]
pub struct ExOneshotSender<T>(oneshot::Sender<T>);

/// The receiving end of a channel for one value, carried opaquely.
#[verifier::external_type_specification]
#[verifier::external_body]
#[verifier::reject_recursive_types(T)]
pub struct ExOneshotReceiver<T>(oneshot::Receiver<T>);

/// What a receiving end yields once its sending end is gone, carried opaquely.
#[verifier::external_type_specification]
#[verifier::external_body]
pub struct ExCanceled(oneshot::Canceled);

/// A handle on a request to stop, carried opaquely. Equal handles share one request.
#[verifier::external_type_specification]
#[verifier::external_body]
pub struct ExCancellationToken(CancellationToken);

/// The channel that a sending end made by `futures::channel::mpsc::channel` belongs to.
pub uninterp spec fn reply_line(sender: mpsc::Sender<String>) -> int;

/// The channel that a receiving end made by `futures::channel::mpsc::channel` belongs to.
pub uninterp spec fn answer_line(receiver: mpsc::Receiver<String>) -> int;

/// Whether a text was handed to `futures::channel::mpsc::Sender::try_send` on a channel, and
/// was accepted or refused there.
pub uninterp spec fn reply_sent(line: int, text: Seq<char>, accepted: bool) -> bool;

/// The channel that a sending end made by `futures::channel::oneshot::channel` belongs to.
pub uninterp spec fn decision_line(sender: oneshot::Sender<bool>) -> int;

/// The channel that a receiving end made by `futures::channel::oneshot::channel` belongs to.
pub uninterp spec fn verdict_line(receiver: oneshot::Receiver<bool>) -> int;

/// Whether a decision was handed to `futures::channel::oneshot::Sender::send` on a channel,
/// and was accepted or refused there.
pub uninterp spec fn decision_sent(line: int, allow: bool, accepted: bool) -> bool;

/// The request to stop that a handle belongs to, by its number in the order in which
/// `tokio_util::sync::CancellationToken::new` makes them.
pub uninterp spec fn stop_request(token: CancellationToken) -> int;

/// Whether `tokio_util::sync::CancellationToken::cancel` was called through a handle, or
/// through the one that it was cloned from, before it was cloned.
pub uninterp spec fn stop_called(token: CancellationToken) -> bool;

/// Whether a request to stop was made, through some handle on it.
pub open spec fn is_stopped(request: int) -> bool {
    exists|token: CancellationToken| #[trigger]
        stop_called(token) && stop_request(token) == request
}

/// `futures::channel::mpsc::channel`, which panics on a buffer of a quarter of the address
/// space. Claimed: the two ends belong to one channel. What comes out of one depends on when
/// the other is used, and nothing is claimed of it.
#[verifier::external_body]
pub(crate) fn reply_channel(buffer: usize) -> (ends: (
    mpsc::Sender<String>,
    mpsc::Receiver<String>,
))
    requires
        buffer < usize::MAX / 4,
    ensures
        reply_line(ends.0) == answer_line(ends.1),
{
    mpsc::channel(buffer)
}

/// `futures::channel::mpsc::Sender::try_send`; an error is handed on as its message. Whether
/// the receiving end is still there depends on the waiting task. Claimed: the text is the one
/// that was handed to the channel, and a failure is described as a full channel or as a
/// receiver that is gone.
#[verifier::external_body]
pub(crate) fn send_reply(sender: mpsc::Sender<String>, reply: String) -> (sent: Result<
    (),
    String,
>)
    ensures
        reply_sent(reply_line(sender), reply@, sent is Ok),
        sent matches Err(message) ==> message@ == "send failed because channel is full"@
            || message@ == "send failed because receiver is gone"@,
{
    let mut sender = sender;
    sender.try_send(reply).map_err(|e| e.to_string())
}

/// `futures::channel::oneshot::channel`. Claimed: the two ends belong to one channel. What
/// comes out of one depends on when the other is used, and nothing is claimed of it.
#[verifier::external_body]
pub(crate) fn decision_channel() -> (ends: (oneshot::Sender<bool>, oneshot::Receiver<bool>))
    ensures
        decision_line(ends.0) == verdict_line(ends.1),
{
    oneshot::channel()
}

/// `futures::channel::oneshot::Sender::send`. Whether the receiving end is still there
/// depends on the waiting task. Claimed: the decision is the one that was handed to the
/// channel, and a failure hands it back.
#[verifier::external_body]
pub(crate) fn send_decision(sender: oneshot::Sender<bool>, allow: bool) -> (sent: Result<(), bool>)
    ensures
        decision_sent(decision_line(sender), allow, sent is Ok),
        sent matches Err(back) ==> back == allow,
{
    sender.send(allow)
}

/// `tokio_util::sync::CancellationToken::new`, which makes a request of its own at each call.
/// Claimed: nobody called `cancel` through the handle yet, and its request is a later one than
/// that of a handle that was there before. That the request is not made holds only until some
/// handle on it is used, and is not stated.
#[verifier::external_body]
fn new_token(_earlier: Option<&CancellationToken>) -> (token: CancellationToken)
    ensures
        !stop_called(token),
        _earlier matches Some(other) ==> stop_request(token) > stop_request(*other),
{
    CancellationToken::new()
}

/// `tokio_util::sync::CancellationToken::clone`. Claimed: the copy is a handle on the same
/// request, so that cancelling one cancels the other; and `cancel` was called through it as
/// far as it was through the handle that it is cloned from.
#[verifier::external_body]
pub(crate) fn share_token(token: &CancellationToken) -> (copy: CancellationToken)
    ensures
        stop_request(copy) == stop_request(*token),
        stop_called(copy) == stop_called(*token),
{
    token.clone()
}

/// `tokio_util::sync::CancellationToken::cancel`. Claimed: the handle stays one on the same
/// request, and `cancel` was called through it.
#[verifier::external_body]
fn cancel_token(token: &mut CancellationToken)
    ensures
        stop_request(*final(token)) == stop_request(*old(token)),
        stop_called(*final(token)),
{
    token.cancel()
}

/// What tells one run to stop: a token of its own.
pub struct StopSwitch {
    token: CancellationToken,
}

impl StopSwitch {
    /// The request to stop that the run listens to.
    pub closed spec fn request(&self) -> int {
        stop_request(self.token)
    }

    /// Whether a stop was requested through this switch.
    pub closed spec fn is_requested(&self) -> bool {
        stop_called(self.token)
    }

    /// A stop that was requested through the switch is one of its request.
    pub proof fn requested_is_stopped(&self)
        ensures
            self.is_requested() ==> is_stopped(self.request()),
    {
    }

    /// A switch with a request of its own. No stop was requested yet.
    pub fn new() -> (switch: StopSwitch)
        ensures
            !switch.is_requested(),
    {
        StopSwitch { token: new_token(None) }
    }

    /// A switch for another run: its request is a later one, and no stop was requested yet.
    pub fn renewed(&self) -> (switch: StopSwitch)
        ensures
            switch.request() > self.request(),
            !switch.is_requested(),
    {
        StopSwitch { token: new_token(Some(&self.token)) }
    }

    /// The handle that the run listens to.
    pub fn token(&self) -> (token: &CancellationToken)
        ensures
            stop_request(*token) == self.request(),
            stop_called(*token) == self.is_requested(),
    {
        &self.token
    }

    /// Requests the stop.
    pub fn cancel(&mut self)
        ensures
            final(self).is_requested(),
            final(self).request() == old(self).request(),
    {
        cancel_token(&mut self.token);
    }
}

} // verus!
