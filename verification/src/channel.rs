//! The `embassy_sync` channel that buffers the events, and what this crate
//! takes on trust about it.
//!
//! Nothing in this file is proved. Each item names the outside function it
//! stands for and says what is claimed of it.

use embassy_sync::blocking_mutex::raw::NoopRawMutex;
use embassy_sync::channel::{Channel, TryReceiveError, TrySendError};
use vstd::prelude::*;

use crate::event::ButtonEvent;

verus! {

/// Number of events the channel buffers.
pub const QUEUE_CAPACITY: usize = 3;

/// `embassy_sync::channel::TryReceiveError`, whose one variant is `Empty`.
#[verifier::external_type_specification]
pub struct ExTryReceiveError(TryReceiveError);

/// `embassy_sync::channel::TrySendError`, whose one variant `Full` carries the
/// message that was refused.
#[verifier::external_type_specification]
#[verifier::reject_recursive_types(T)]
pub struct ExTrySendError<T>(TrySendError<T>);

/// An `embassy_sync::channel::Channel` of [`QUEUE_CAPACITY`] button events.
///
/// The channel is only ever reached through the functions below, which take
/// it by unique reference where they change it, so it needs no lock of its
/// own: its mutex is `NoopRawMutex`.
#[verifier::external_body]
pub struct EventChannel {
    inner: Channel<NoopRawMutex, ButtonEvent, QUEUE_CAPACITY>,
}

/// The events buffered in a channel, oldest first.
pub uninterp spec fn channel_items(ch: EventChannel) -> Seq<ButtonEvent>;

/// `Channel::new`: a fresh channel buffers nothing.
#[verifier::external_body]
pub(crate) fn channel_new() -> (ch: EventChannel)
    ensures
        channel_items(ch) == Seq::<ButtonEvent>::empty(),
{
    EventChannel { inner: Channel::new() }
}

/// `Channel::len`: the number of buffered events.
#[verifier::external_body]
pub(crate) fn channel_len(ch: &EventChannel) -> (n: usize)
    ensures
        n == channel_items(*ch).len(),
{
    ch.inner.len()
}

/// `Channel::try_send`: while fewer than [`QUEUE_CAPACITY`] events are
/// buffered the event is appended behind them; a channel that holds exactly
/// [`QUEUE_CAPACITY`] hands the event back in `TrySendError::Full` and keeps
/// its buffer as it was.
#[verifier::external_body]
pub(crate) fn channel_try_send(ch: &mut EventChannel, event: ButtonEvent) -> (r: Result<
    (),
    TrySendError<ButtonEvent>,
>)
    ensures
        channel_items(*old(ch)).len() < QUEUE_CAPACITY ==> r is Ok && channel_items(*final(ch))
            == channel_items(*old(ch)).push(event),
        channel_items(*old(ch)).len() == QUEUE_CAPACITY ==> (r matches Err(
            TrySendError::Full(back),
        ) && back == event) && channel_items(*final(ch)) == channel_items(*old(ch)),
    no_unwind
{
    ch.inner.try_send(event)
}

/// `Channel::try_receive`: the oldest buffered event is taken out and
/// returned; an empty channel answers `TryReceiveError::Empty` and stays
/// empty.
#[verifier::external_body]
pub(crate) fn channel_try_receive(ch: &mut EventChannel) -> (r: Result<
    ButtonEvent,
    TryReceiveError,
>)
    ensures
        channel_items(*old(ch)).len() > 0 ==> (r matches Ok(head) && head == channel_items(
            *old(ch),
        )[0]) && channel_items(*final(ch)) == channel_items(*old(ch)).drop_first(),
        channel_items(*old(ch)).len() == 0 ==> r is Err && channel_items(*final(ch))
            == channel_items(*old(ch)),
    no_unwind
{
    ch.inner.try_receive()
}

} // verus!
