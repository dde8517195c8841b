//! The queue between `send_data` and the read task: a `tokio` unbounded channel.
use std::sync::Arc;
use tokio::sync::mpsc::{UnboundedReceiver, UnboundedSender};
use tokio::sync::Mutex;
use vstd::prelude::*;

verus! {

/// `tokio::sync::mpsc::UnboundedSender`, carried as an opaque value.
#[verifier::external_type_specification]
#[verifier::external_body]
#[verifier::reject_recursive_types(T)]
pub struct ExUnboundedSender<T>(UnboundedSender<T>);

/// `tokio::sync::mpsc::UnboundedReceiver`, carried as an opaque value.
#[verifier::external_type_specification]
#[verifier::external_body]
#[verifier::reject_recursive_types(T)]
pub struct ExUnboundedReceiver<T>(UnboundedReceiver<T>);

/// `tokio::sync::Mutex`, carried as an opaque value.
#[verifier::external_type_specification]
#[verifier::external_body]
#[verifier::reject_recursive_types(T)]
pub struct ExMutex<T: ?Sized>(Mutex<T>);

/// The receive half of a channel, shared by everyone who reads from it.
pub type SharedReceiver = Arc<Mutex<UnboundedReceiver<Vec<u8>>>>;

/// The messages that the channel accepts through this handle over its whole life, each at the
/// position that it has among them, counted from zero.
pub uninterp spec fn accepted(sender: UnboundedSender<Vec<u8>>) -> Map<nat, Seq<u8>>;

/// The messages that the channel has accepted through this handle so far, first to last.
pub uninterp spec fn sent_so_far(sender: UnboundedSender<Vec<u8>>) -> Seq<Seq<u8>>;

/// Whether the receive half of the handle's channel is neither closed nor dropped as long as
/// something is sent through the handle.
pub uninterp spec fn never_closed(sender: UnboundedSender<Vec<u8>>) -> bool;

/// The messages that the channel accepts, over its whole life, through the handle that this receive
/// half was made with, each at the position in which it is received among them.
pub uninterp spec fn deliverable(receiver: UnboundedReceiver<Vec<u8>>) -> Map<nat, Seq<u8>>;

/// What `deliverable` says of the receive half that `lock` was made with.
pub uninterp spec fn guarded(lock: Mutex<UnboundedReceiver<Vec<u8>>>) -> Map<nat, Seq<u8>>;

/// Calls `tokio::sync::mpsc::unbounded_channel`. The two halves belong to one channel: what is
/// accepted through the first, the second delivers in the same order. Nothing has been sent through
/// the first yet.
#[verifier::external_body]
pub(crate) fn unbounded_channel() -> (halves: (
    UnboundedSender<Vec<u8>>,
    UnboundedReceiver<Vec<u8>>,
))
    ensures
        accepted(halves.0) == deliverable(halves.1),
        sent_so_far(halves.0) == Seq::<Seq<u8>>::empty(),
{
    tokio::sync::mpsc::unbounded_channel()
}

/// Calls `tokio::sync::Mutex::new`. The lock guards the receive half that it was given.
#[verifier::external_body]
pub(crate) fn guard(receiver: UnboundedReceiver<Vec<u8>>) -> (lock: Mutex<UnboundedReceiver<Vec<u8>>>)
    ensures
        guarded(lock) == deliverable(receiver),
{
    Mutex::new(receiver)
}

/// Calls `tokio::sync::mpsc::UnboundedSender::send` and hands the sender back.
///
/// The sender stays on its channel. On success the channel has accepted `data`, as it is, once and
/// after everything sent through this handle before; otherwise nothing was sent and the call hands
/// `data` back. It succeeds as long as the receive half is not closed.
#[verifier::external_body]
pub(crate) fn send(sender: UnboundedSender<Vec<u8>>, data: Vec<u8>) -> (answer: (
    UnboundedSender<Vec<u8>>,
    Result<(), Vec<u8>>,
))
    ensures
        accepted(answer.0) == accepted(sender),
        never_closed(answer.0) == never_closed(sender),
        never_closed(sender) ==> answer.1 is Ok,
        match answer.1 {
            Ok(_) => {
                &&& accepted(sender).contains_pair(sent_so_far(sender).len(), data@)
                &&& sent_so_far(answer.0) == sent_so_far(sender).push(data@)
            },
            Err(returned) => {
                &&& returned@ == data@
                &&& sent_so_far(answer.0) == sent_so_far(sender)
            },
        },
{
    let sent = sender.send(data).map_err(|error| error.0);
    (sender, sent)
}

} // verus!
