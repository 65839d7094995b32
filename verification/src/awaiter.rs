//! The deferred-result awaiter: given what a host callback returned, decide
//! whether the calling worker gets its reply now, later when a deferred
//! value settles, or a failure because the value had an unexpected shape.
//! Every host value leads to exactly one reply; none is silently dropped,
//! since a dropped reply would park the waiting worker forever.

use vstd::prelude::*;

verus! {

/// The one reply a worker's call receives: the host's text on success, a
/// reason on failure.
pub enum Reply {
    Value(String),
    Failure(String),
}

/// What invoking a host callback produced, as the host-side executor sees
/// it: an immediate text, a deferred value that will settle later, or
/// something of neither shape.
pub enum HostValue {
    Text(String),
    Deferred,
    Unexpected,
}

/// How a deferred host value eventually settled.
pub enum Settlement {
    Resolved(String),
    Rejected(String),
}

/// The awaiter's decision for one host value.
pub enum AwaitAction {
    /// Forward this text to the reply channel now.
    ReplyValue(String),
    /// Reply now with the type-mismatch failure.
    ReplyMismatch,
    /// Attach continuations; the reply is sent when the value settles.
    Attach,
}

/// The decision rule: an immediate text is forwarded as it is, a deferred
/// value waits for its settlement, and a value of unexpected shape becomes a
/// failure reply.
pub open spec fn classify_spec(v: HostValue) -> AwaitAction {
    match v {
        HostValue::Text(s) => AwaitAction::ReplyValue(s),
        HostValue::Deferred => AwaitAction::Attach,
        HostValue::Unexpected => AwaitAction::ReplyMismatch,
    }
}

/// The reply a settlement turns into: a resolution delivers its text
/// unchanged, a rejection delivers its reason as a failure.
pub open spec fn settle_spec(s: Settlement) -> Reply {
    match s {
        Settlement::Resolved(v) => Reply::Value(v),
        Settlement::Rejected(reason) => Reply::Failure(reason),
    }
}

/// The reason given when a host callback returned a value of unexpected
/// shape.
pub open spec fn mismatch_reason() -> Seq<char> {
    "host callback returned a value of an unexpected shape"@
}

/// Classifies one host value.
pub fn classify_host_value(v: HostValue) -> (a: AwaitAction)
    ensures
        a == classify_spec(v),
{
    match v {
        HostValue::Text(s) => AwaitAction::ReplyValue(s),
        HostValue::Deferred => AwaitAction::Attach,
        HostValue::Unexpected => AwaitAction::ReplyMismatch,
    }
}

/// The reply for a settled deferred value.
pub fn settle_reply(s: Settlement) -> (r: Reply)
    ensures
        r == settle_spec(s),
{
    match s {
        Settlement::Resolved(v) => Reply::Value(v),
        Settlement::Rejected(reason) => Reply::Failure(reason),
    }
}

/// The failure reply for a host value of unexpected shape.
pub fn mismatch_reply() -> (r: Reply)
    ensures
        r matches Reply::Failure(m) && m@ == mismatch_reason(),
{
    Reply::Failure(String::from_str("host callback returned a value of an unexpected shape"))
}

/// What became of one attempt to deliver a reply.
pub enum Delivery {
    /// The reply went out.
    Sent,
    /// A deferred value is pending; the reply goes out at settlement.
    Pending,
    /// The waiting side is gone; there is nobody to reply to.
    Abandoned,
}

/// Sends `reply` on the worker's reply channel.
fn send_reply(reply_to: &crossbeam_channel::Sender<Reply>, reply: Reply) -> (d: Delivery)
    ensures
        !(d is Pending),
{
    match reply_to.send(reply) {
        Ok(()) => Delivery::Sent,
        Err(_) => Delivery::Abandoned,
    }
}

/// Handles the value a host callback returned: replies immediately for a
/// text or for an unexpected shape, and reports a pending settlement for a
/// deferred value — in that case, and only that case, the host must call
/// `deliver_settlement` when the value settles.
pub fn deliver_host_value(reply_to: &crossbeam_channel::Sender<Reply>, v: HostValue) -> (d:
    Delivery)
    ensures
        d is Pending <==> classify_spec(v) is Attach,
{
    match classify_host_value(v) {
        AwaitAction::ReplyValue(s) => send_reply(reply_to, Reply::Value(s)),
        AwaitAction::ReplyMismatch => send_reply(reply_to, mismatch_reply()),
        AwaitAction::Attach => Delivery::Pending,
    }
}

/// Delivers the reply for a settled deferred value: exactly one reply, the
/// settlement's own.
pub fn deliver_settlement(reply_to: &crossbeam_channel::Sender<Reply>, s: Settlement) -> (d:
    Delivery)
    ensures
        !(d is Pending),
{
    send_reply(reply_to, settle_reply(s))
}

/// Delivers a failure reply when executing the callback itself failed, so
/// that the waiting worker is released rather than parked forever.
pub fn deliver_execution_failure(reply_to: &crossbeam_channel::Sender<Reply>, reason: String) -> (d:
    Delivery)
    ensures
        !(d is Pending),
{
    send_reply(reply_to, Reply::Failure(reason))
}

/// Handles a whole callback invocation as the host-side executor sees it:
/// a value that came back is classified and answered; a callback that
/// failed to execute at all is answered with its failure, never dropped.
/// Pending is reported exactly for a deferred value of a callback that ran.
pub fn deliver_callback_outcome(
    reply_to: &crossbeam_channel::Sender<Reply>,
    outcome: Result<HostValue, String>,
) -> (d: Delivery)
    ensures
        d is Pending <==> (outcome matches Ok(v) && classify_spec(v) is Attach),
{
    match outcome {
        Ok(v) => deliver_host_value(reply_to, v),
        Err(reason) => deliver_execution_failure(reply_to, reason),
    }
}

/// An immediate host value never takes the deferred path, and its reply
/// carries the host's text unchanged.
pub proof fn lemma_immediate_is_direct(v: String)
    ensures
        classify_spec(HostValue::Text(v)) == AwaitAction::ReplyValue(v),
        !(classify_spec(HostValue::Text(v)) is Attach),
{
}

/// A deferred value that resolves delivers exactly the resolved text; one
/// that rejects delivers exactly its reason as a failure.
pub proof fn lemma_settlement_transparent(v: String, reason: String)
    ensures
        settle_spec(Settlement::Resolved(v)) == Reply::Value(v),
        settle_spec(Settlement::Rejected(reason)) == Reply::Failure(reason),
{
}

} // verus!
