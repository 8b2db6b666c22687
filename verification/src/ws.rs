//! The rules of a connection's two loops.
//!
//! A connection is served by an inbound loop, which reads frames, and an
//! outbound loop, which ticks: it pings the peer, closes a connection that
//! has been silent for too long, and drains the topics that the session is
//! subscribed to. Reading, writing and waiting are the caller's; what to do
//! with each frame and at each tick is decided here.

use vstd::prelude::*;
use crate::messages::{
    batch_view, server_messages_text, server_messages_to_text, NitramServerMessage,
};
use crate::nitram::Tunables;

verus! {

/// A frame as the inbound loop sees it.
pub enum Frame {
    Ping(Vec<u8>),
    Pong(Vec<u8>),
    Text(String),
    Close,
    Other,
}

/// The content of a [`Frame`].
pub enum FrameView {
    Ping(Seq<u8>),
    Pong(Seq<u8>),
    Text(Seq<char>),
    Close,
    Other,
}

impl View for Frame {
    type V = FrameView;

    open spec fn view(&self) -> FrameView {
        match self {
            Frame::Ping(payload) => FrameView::Ping(payload@),
            Frame::Pong(payload) => FrameView::Pong(payload@),
            Frame::Text(text) => FrameView::Text(text@),
            Frame::Close => FrameView::Close,
            Frame::Other => FrameView::Other,
        }
    }
}

/// What the inbound loop does with a frame.
pub enum InboundAction {
    /// Answer the ping with a pong of the same payload.
    Pong(Vec<u8>),
    /// Note that the peer is alive now.
    Touch,
    /// Dispatch the text as a request and write the one response to it.
    Dispatch(String),
    /// Echo the close and stop reading.
    Close,
    /// Nothing.
    Ignore,
}

/// The content of an [`InboundAction`].
pub enum InboundActionView {
    Pong(Seq<u8>),
    Touch,
    Dispatch(Seq<char>),
    Close,
    Ignore,
}

impl View for InboundAction {
    type V = InboundActionView;

    open spec fn view(&self) -> InboundActionView {
        match self {
            InboundAction::Pong(payload) => InboundActionView::Pong(payload@),
            InboundAction::Touch => InboundActionView::Touch,
            InboundAction::Dispatch(text) => InboundActionView::Dispatch(text@),
            InboundAction::Close => InboundActionView::Close,
            InboundAction::Ignore => InboundActionView::Ignore,
        }
    }
}

/// What the inbound loop does with a frame: a ping is answered, a pong
/// counts as a sign of life, a text is a request, a close ends the loop, and
/// every other frame is passed over.
pub open spec fn frame_action(frame: FrameView) -> InboundActionView {
    match frame {
        FrameView::Ping(payload) => InboundActionView::Pong(payload),
        FrameView::Pong(_) => InboundActionView::Touch,
        FrameView::Text(text) => InboundActionView::Dispatch(text),
        FrameView::Close => InboundActionView::Close,
        FrameView::Other => InboundActionView::Ignore,
    }
}

/// What the inbound loop does with a frame.
pub fn on_frame(frame: Frame) -> (action: InboundAction)
    ensures
        action@ == frame_action(frame@),
{
    match frame {
        Frame::Ping(payload) => InboundAction::Pong(payload),
        Frame::Pong(_) => InboundAction::Touch,
        Frame::Text(text) => InboundAction::Dispatch(text),
        Frame::Close => InboundAction::Close,
        Frame::Other => InboundAction::Ignore,
    }
}

/// Whether the inbound loop reads on after an action: not after a close,
/// and not after a write that failed.
pub open spec fn reads_on(action: InboundActionView, written: bool) -> bool {
    match action {
        InboundActionView::Close => false,
        InboundActionView::Pong(_) => written,
        InboundActionView::Dispatch(_) => written,
        InboundActionView::Touch => true,
        InboundActionView::Ignore => true,
    }
}

/// Whether the inbound loop reads on after `action`, given whether what the
/// action had to write was written.
pub fn keep_reading(action: &InboundAction, written: bool) -> (on: bool)
    ensures
        on == reads_on(action@, written),
{
    match action {
        InboundAction::Close => false,
        InboundAction::Pong(_) => written,
        InboundAction::Dispatch(_) => written,
        InboundAction::Touch => true,
        InboundAction::Ignore => true,
    }
}

/// The texts among a sequence of frames, in their order.
pub open spec fn texts(frames: Seq<FrameView>) -> Seq<Seq<char>>
    decreases frames.len(),
{
    if frames.len() == 0 {
        Seq::empty()
    } else {
        match frames.last() {
            FrameView::Text(text) => texts(frames.drop_last()).push(text),
            _ => texts(frames.drop_last()),
        }
    }
}

/// The requests that a sequence of actions dispatches, in their order.
pub open spec fn dispatches(actions: Seq<InboundActionView>) -> Seq<Seq<char>>
    decreases actions.len(),
{
    if actions.len() == 0 {
        Seq::empty()
    } else {
        match actions.last() {
            InboundActionView::Dispatch(text) => dispatches(actions.drop_last()).push(text),
            _ => dispatches(actions.drop_last()),
        }
    }
}

/// The inbound loop dispatches each text frame once, in the order in which
/// the frames came, and dispatches nothing else: as each dispatch ends in
/// one response, every request has its one response before the next
/// request has its own.
pub proof fn lemma_one_dispatch_per_text(frames: Seq<FrameView>)
    ensures
        dispatches(frames.map_values(|f: FrameView| frame_action(f))) == texts(frames),
    decreases frames.len(),
{
    let actions = frames.map_values(|f: FrameView| frame_action(f));
    if frames.len() > 0 {
        lemma_one_dispatch_per_text(frames.drop_last());
        assert(actions.drop_last() =~= frames.drop_last().map_values(
            |f: FrameView| frame_action(f),
        ));
        assert(actions.last() == frame_action(frames.last()));
    }
}

/// What the outbound loop does at a tick, once it has tried to ping.
#[derive(Clone, Copy, Debug, PartialEq, Eq, Structural)]
pub enum OutboundAction {
    /// The ping could not be sent: stop.
    Stop,
    /// The peer has been silent for too long: close the connection and stop.
    CloseAndStop,
    /// Drain the session's topics and push what they give.
    Drain,
    /// Nothing until the next tick.
    Wait,
}

/// A number of seconds in nanoseconds.
pub open spec fn seconds_in_nanos(seconds: u64) -> int {
    seconds * 1_000_000_000
}

/// A number of milliseconds in nanoseconds.
pub open spec fn millis_in_nanos(millis: u64) -> int {
    millis * 1_000_000
}

/// Whether a connection that has been silent for `silence_in_nanos` has
/// timed out.
pub open spec fn timed_out(tunables: Tunables, silence_in_nanos: int) -> bool {
    silence_in_nanos > seconds_in_nanos(tunables.timeout_in_seconds)
}

/// Whether a drain is due: always where no spacing is set or nothing was
/// drained yet, else once the spacing has passed since the last drain.
pub open spec fn drain_due(tunables: Tunables, since_last_drain_in_nanos: Option<int>) -> bool {
    match (tunables.server_messages_interval_in_millis, since_last_drain_in_nanos) {
        (Some(spacing), Some(since)) => since >= millis_in_nanos(spacing),
        _ => true,
    }
}

/// What the outbound loop does at a tick.
pub open spec fn tick_action(
    tunables: Tunables,
    ping_sent: bool,
    silence_in_nanos: int,
    since_last_drain_in_nanos: Option<int>,
) -> OutboundAction {
    if !ping_sent {
        OutboundAction::Stop
    } else if timed_out(tunables, silence_in_nanos) {
        OutboundAction::CloseAndStop
    } else if drain_due(tunables, since_last_drain_in_nanos) {
        OutboundAction::Drain
    } else {
        OutboundAction::Wait
    }
}

/// The time since the last drain as a number, where there was a drain.
pub open spec fn since_view(since: Option<u128>) -> Option<int> {
    match since {
        Some(nanos) => Some(nanos as int),
        None => None,
    }
}

/// What the outbound loop does at a tick: it stops where the ping could not
/// be sent, closes the connection where the last pong is longer ago than the
/// timeout, and else drains if a drain is due.
pub fn on_tick(
    tunables: &Tunables,
    ping_sent: bool,
    silence_in_nanos: u128,
    since_last_drain_in_nanos: Option<u128>,
) -> (action: OutboundAction)
    ensures
        action == tick_action(
            *tunables,
            ping_sent,
            silence_in_nanos as int,
            since_view(since_last_drain_in_nanos),
        ),
{
    if !ping_sent {
        return OutboundAction::Stop;
    }
    let timeout: u128 = tunables.timeout_in_seconds as u128;
    assert(timeout * 1_000_000_000 <= 0xffff_ffff_ffff_ffff * 1_000_000_000) by (nonlinear_arith)
        requires
            timeout <= 0xffff_ffff_ffff_ffff,
    ;
    if silence_in_nanos > timeout * 1_000_000_000 {
        return OutboundAction::CloseAndStop;
    }
    match (tunables.server_messages_interval_in_millis, since_last_drain_in_nanos) {
        (Some(spacing), Some(since)) => {
            let spacing: u128 = spacing as u128;
            assert(spacing * 1_000_000 <= 0xffff_ffff_ffff_ffff * 1_000_000) by (nonlinear_arith)
                requires
                    spacing <= 0xffff_ffff_ffff_ffff,
            ;
            if since >= spacing * 1_000_000 {
                OutboundAction::Drain
            } else {
                OutboundAction::Wait
            }
        },
        _ => OutboundAction::Drain,
    }
}

/// The text frame that pushes a batch: none for an empty batch, else the
/// JSON array of its messages.
pub fn push_frame(batch: &Vec<NitramServerMessage>) -> (frame: Option<String>)
    ensures
        frame matches Some(text) ==> batch@.len() > 0 && text@ == server_messages_text(
            batch_view(batch@),
        ),
        frame is None <==> batch@.len() == 0,
{
    if batch.len() == 0 {
        None
    } else {
        Some(server_messages_to_text(batch))
    }
}

/// Whether the ticks of an outbound loop come in order and no further apart
/// than the ping interval.
pub open spec fn ticks_regular(tunables: Tunables, ticks: Seq<int>) -> bool {
    forall|i: int|
        0 <= i < ticks.len() - 1 ==> #[trigger] ticks[i] < ticks[i + 1] && ticks[i + 1]
            <= ticks[i] + seconds_in_nanos(tunables.ping_interval_in_seconds)
}

/// At a tick whose ping was sent, the loop closes the connection exactly
/// when the peer has timed out.
pub proof fn lemma_closes_exactly_on_timeout(
    tunables: Tunables,
    silence_in_nanos: int,
    since_last_drain_in_nanos: Option<int>,
)
    ensures
        tick_action(tunables, true, silence_in_nanos, since_last_drain_in_nanos)
            == OutboundAction::CloseAndStop <==> timed_out(tunables, silence_in_nanos),
{
}

/// An outbound loop closes its connection within the timeout and one ping
/// interval after the last pong.
///
/// Take the times of the loop's ticks, in nanoseconds, starting with a tick
/// that is not later than the last pong, and suppose that every ping can be
/// sent, so that nothing else stops the loop. If one of the ticks is later
/// than the pong by more than the timeout, then there is a first tick at
/// which the peer has timed out, which is where the loop closes the
/// connection, and that tick is no later than the pong plus the timeout plus
/// one interval.
pub proof fn lemma_silent_connection_is_closed_in_time(
    tunables: Tunables,
    ticks: Seq<int>,
    last_pong: int,
    late: int,
) -> (closing: int)
    requires
        ticks_regular(tunables, ticks),
        0 <= late < ticks.len(),
        ticks[0] <= last_pong,
        timed_out(tunables, ticks[late] - last_pong),
    ensures
        0 < closing <= late,
        timed_out(tunables, ticks[closing] - last_pong),
        forall|i: int| 0 <= i < closing ==> !timed_out(tunables, #[trigger] ticks[i] - last_pong),
        ticks[closing] - last_pong <= seconds_in_nanos(tunables.timeout_in_seconds)
            + seconds_in_nanos(tunables.ping_interval_in_seconds),
    decreases late,
{
    assert(!timed_out(tunables, ticks[0] - last_pong));
    assert(late > 0);
    if timed_out(tunables, ticks[late - 1] - last_pong) {
        lemma_silent_connection_is_closed_in_time(tunables, ticks, last_pong, late - 1)
    } else {
        assert(ticks[late - 1] < ticks[late - 1 + 1] && ticks[late - 1 + 1] <= ticks[late - 1]
            + seconds_in_nanos(tunables.ping_interval_in_seconds));
        assert forall|i: int| 0 <= i < late implies !timed_out(
            tunables,
            #[trigger] ticks[i] - last_pong,
        ) by {
            lemma_ticks_ordered(tunables, ticks, i, late - 1);
        }
        late
    }
}

/// Regular ticks are in order.
proof fn lemma_ticks_ordered(tunables: Tunables, ticks: Seq<int>, i: int, j: int)
    requires
        ticks_regular(tunables, ticks),
        0 <= i <= j < ticks.len(),
    ensures
        ticks[i] <= ticks[j],
    decreases j - i,
{
    if i < j {
        lemma_ticks_ordered(tunables, ticks, i, j - 1);
        assert(ticks[j - 1] < ticks[j - 1 + 1]);
    }
}

} // verus!
