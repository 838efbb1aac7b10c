//! The position scale and labels of the player bar: the debounced seek while
//! the user drags the scale, and the updates when the position or the
//! duration of the song changes.
use vstd::prelude::*;

use crate::ui::player_bar::common::{clock_text, format_time};

verus! {

/// The seek that waits for the drag to settle, if any.
#[derive(Debug, PartialEq, Eq)]
pub struct SeekDebounce {
    /// The position of the seek that waits for its timer.
    pub pending: Option<u32>,
}

/// What happens to the position scale.
#[derive(Debug, PartialEq, Eq)]
pub enum SeekEvent {
    /// The user dragged the scale to this position (in seconds).
    Drag(u32),
    /// The timer of the waiting seek ran out.
    TimerFired,
}

/// The delay, in milliseconds, between the last drag and the seek.
pub const SEEK_DELAY_MS: u32 = 150;

/// What the player bar does for one event.
#[derive(Debug, PartialEq, Eq)]
pub struct SeekActions {
    /// Cancel the timer of the waiting seek.
    pub cancel_timer: bool,
    /// Show this text in the position label at once.
    pub label: Option<String>,
    /// Start a timer of this many milliseconds.
    pub schedule_ms: Option<u32>,
    /// Seek the audio to this position.
    pub seek_to: Option<u32>,
    /// Move the scale to the position the audio reports.
    pub sync_scale: bool,
}

/// The waiting seek after an event: a drag replaces it, the timer consumes it.
pub open spec fn next_pending(pending: Option<u32>, e: SeekEvent) -> Option<u32> {
    match e {
        SeekEvent::Drag(p) => Some(p),
        SeekEvent::TimerFired => None,
    }
}

/// The seek that an event makes: only the timer does, to the waiting position.
pub open spec fn seek_made(pending: Option<u32>, e: SeekEvent) -> Option<u32> {
    match e {
        SeekEvent::Drag(_) => None,
        SeekEvent::TimerFired => pending,
    }
}

/// Handles one event of the position scale: a drag cancels the waiting seek,
/// shows the new position and waits 150 ms; when the timer runs out, the
/// audio seeks to the last dragged position and the scale follows the audio.
pub fn seek_step(state: &mut SeekDebounce, event: SeekEvent) -> (r: SeekActions)
    ensures
        final(state).pending == next_pending(old(state).pending, event),
        r.seek_to == seek_made(old(state).pending, event),
        match event {
            SeekEvent::Drag(p) => r.cancel_timer == (old(state).pending is Some) && (r.label matches Some(
                l,
            ) && l@ == clock_text(p as nat)) && r.schedule_ms == Some(SEEK_DELAY_MS) && !r.sync_scale,
            SeekEvent::TimerFired => !r.cancel_timer && r.label is None && r.schedule_ms is None
                && r.sync_scale == (old(state).pending is Some),
        },
{
    match event {
        SeekEvent::Drag(p) => {
            let cancel = state.pending.is_some();
            state.pending = Some(p);
            SeekActions {
                cancel_timer: cancel,
                label: Some(format_time(p)),
                schedule_ms: Some(SEEK_DELAY_MS),
                seek_to: None,
                sync_scale: false,
            }
        },
        SeekEvent::TimerFired => {
            let seek = state.pending;
            state.pending = None;
            SeekActions {
                cancel_timer: false,
                label: None,
                schedule_ms: None,
                seek_to: seek,
                sync_scale: seek.is_some(),
            }
        },
    }
}

/// The seeks made over a run of events, in order.
pub open spec fn seeks_over(pending: Option<u32>, events: Seq<SeekEvent>) -> Seq<u32>
    decreases events.len(),
{
    if events.len() == 0 {
        Seq::empty()
    } else {
        (match seek_made(pending, events[0]) {
            Some(p) => seq![p],
            None => Seq::empty(),
        }) + seeks_over(next_pending(pending, events[0]), events.drop_first())
    }
}

/// The waiting seek after a run of events.
pub open spec fn pending_after(pending: Option<u32>, events: Seq<SeekEvent>) -> Option<u32>
    decreases events.len(),
{
    if events.len() == 0 {
        pending
    } else {
        pending_after(next_pending(pending, events[0]), events.drop_first())
    }
}

/// A burst of drags followed by the timer running out.
pub open spec fn drags_then_timer(positions: Seq<u32>) -> Seq<SeekEvent> {
    positions.map_values(|p: u32| SeekEvent::Drag(p)).push(SeekEvent::TimerFired)
}

/// A burst of drags, however long, ends in exactly one seek, to the last
/// dragged position, and leaves no seek waiting.
pub proof fn lemma_drag_burst_seeks_once(pending: Option<u32>, positions: Seq<u32>)
    requires
        positions.len() > 0,
    ensures
        seeks_over(pending, drags_then_timer(positions)) == seq![positions.last()],
        pending_after(pending, drags_then_timer(positions)) is None,
    decreases positions.len(),
{
    let events = drags_then_timer(positions);
    assert(events[0] == SeekEvent::Drag(positions[0]));
    if positions.len() == 1 {
        let rest = events.drop_first();
        assert(rest =~= seq![SeekEvent::TimerFired]);
        assert(rest.drop_first() =~= Seq::<SeekEvent>::empty());
        assert(rest[0] == SeekEvent::TimerFired);
        assert(seeks_over(None, rest.drop_first()) == Seq::<u32>::empty());
        assert(pending_after(None, rest.drop_first()) is None);
        assert(seeks_over(Some(positions[0]), rest) =~= seq![positions[0]]);
        assert(pending_after(Some(positions[0]), rest) is None);
        assert(positions.last() == positions[0]);
    } else {
        let tail = positions.drop_first();
        assert(events.drop_first() =~= drags_then_timer(tail));
        lemma_drag_burst_seeks_once(Some(positions[0]), tail);
        assert(tail.last() == positions.last());
        assert(seeks_over(pending, events) =~= seeks_over(Some(positions[0]), drags_then_timer(tail)));
        assert(pending_after(pending, events) == pending_after(Some(positions[0]), drags_then_timer(tail)));
    }
}

/// One change that the player bar makes to its widgets, in the order listed.
#[derive(Debug, PartialEq, Eq)]
pub enum BarUpdate {
    SetPositionLabel(String),
    SetDurationLabel(String),
    /// Move the scale to this position (seconds).
    SetScaleValue(u32),
    /// Set the scale's upper bound to this duration (seconds).
    SetScaleUpper(u32),
    /// The bar's own addition to the position update, after the common ones.
    ExtraPositionUpdate(u32),
    /// The bar's own addition to the duration update, after the common ones.
    ExtraDurationUpdate(u32),
}

/// The updates when the position changes, in order: the label; the scale,
/// when the duration is known; then the bar's own hook, after the common
/// updates.
pub fn position_updates(position: u32, duration: u32) -> (r: Vec<BarUpdate>)
    ensures
        r@.len() == (if duration > 0 {
            3int
        } else {
            2int
        }),
        r@[0] matches BarUpdate::SetPositionLabel(l) && l@ == clock_text(position as nat),
        duration > 0 ==> r@[1] == BarUpdate::SetScaleValue(position),
        r@.last() == BarUpdate::ExtraPositionUpdate(position),
{
    let mut r: Vec<BarUpdate> = Vec::new();
    r.push(BarUpdate::SetPositionLabel(format_time(position)));
    if duration > 0 {
        r.push(BarUpdate::SetScaleValue(position));
    }
    r.push(BarUpdate::ExtraPositionUpdate(position));
    r
}

/// The updates when the duration changes, in order: the label; the scale's
/// upper bound, when the duration is nonzero; then the bar's own hook, after
/// the common updates.
pub fn duration_updates(duration: u32) -> (r: Vec<BarUpdate>)
    ensures
        r@.len() == (if duration > 0 {
            3int
        } else {
            2int
        }),
        r@[0] matches BarUpdate::SetDurationLabel(l) && l@ == clock_text(duration as nat),
        duration > 0 ==> r@[1] == BarUpdate::SetScaleUpper(duration),
        r@.last() == BarUpdate::ExtraDurationUpdate(duration),
{
    let mut r: Vec<BarUpdate> = Vec::new();
    r.push(BarUpdate::SetDurationLabel(format_time(duration)));
    if duration > 0 {
        r.push(BarUpdate::SetScaleUpper(duration));
    }
    r.push(BarUpdate::ExtraDurationUpdate(duration));
    r
}

} // verus!
