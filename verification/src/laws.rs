//! What holds of the guard whatever its history.
//!
//! The laws speak of [`SpaceStatus::after`], which the operations of the
//! guard are held to by their contracts.

use crate::state::{expiry_of, Command, SpaceStatus, TimerAction, TimerHandle, Timestamp};
use vstd::prelude::*;

verus! {

/// Closing twice leaves the status as closing once does, and the second call
/// finds no timer to cancel.
pub proof fn lemma_close_idempotent(status: SpaceStatus)
    ensures
        status.after(Command::Close).after(Command::Close) == status.after(Command::Close),
        status.after(Command::Close).timers(Command::Close) == (TimerAction {
            cancel: None,
            arm: None,
        }),
{
}

/// Opening twice leaves the status as opening once does, and the second call
/// finds no timer to cancel.
pub proof fn lemma_open_idempotent(status: SpaceStatus)
    ensures
        status.after(Command::Open).after(Command::Open) == status.after(Command::Open),
        status.after(Command::Open).timers(Command::Open) == (TimerAction {
            cancel: None,
            arm: None,
        }),
{
}

/// Every command leaves a consistent status consistent: no deadline without
/// the space being open, and no pending timer but the one for the deadline.
pub proof fn lemma_step_keeps_consistent(status: SpaceStatus, command: Command)
    requires
        status.consistent(),
    ensures
        status.after(command).consistent(),
{
}

/// At every point of every history a reader finds a consistent status: one
/// with a deadline is open.
pub proof fn lemma_reachable_is_consistent(history: Seq<Command>)
    ensures
        SpaceStatus::initial().after_all(history).consistent(),
        SpaceStatus::initial().after_all(history).opened_until is Some
            ==> SpaceStatus::initial().after_all(history).is_open,
    decreases history.len(),
{
    if history.len() > 0 {
        lemma_reachable_is_consistent(history.drop_last());
        lemma_step_keeps_consistent(
            SpaceStatus::initial().after_all(history.drop_last()),
            history.last(),
        );
    }
}

/// A history in which no timer fires: commands of clients only.
pub open spec fn only_clients(history: Seq<Command>) -> bool {
    forall|i: int| 0 <= i < history.len() ==> !((#[trigger] history[i]) is TimerFired)
}

/// In whatever order the commands of clients take effect, the status at the
/// end is the one that the last of them makes of any status: nothing of what
/// came before it is left.
pub proof fn lemma_last_command_wins(status: SpaceStatus, history: Seq<Command>)
    requires
        history.len() > 0,
        only_clients(history),
    ensures
        status.after_all(history) == SpaceStatus::initial().after(history.last()),
{
    assert(history.last() == history[history.len() - 1]);
}

/// A timer never opens the space: it closes it or changes nothing.
pub proof fn lemma_timer_only_closes(status: SpaceStatus, handle: TimerHandle)
    ensures
        status.timer_fired(handle) == status || status.timer_fired(handle) == status.closed(),
        status.timer_fired(handle).is_open ==> status.is_open,
{
}

/// A history in which nothing happens but timers firing.
pub open spec fn only_timers(history: Seq<Command>) -> bool {
    forall|i: int| 0 <= i < history.len() ==> (#[trigger] history[i]) is TimerFired
}

/// A space that is closed stays closed whatever timers fire, in whatever
/// order.
pub proof fn lemma_closed_ignores_timers(status: SpaceStatus, history: Seq<Command>)
    requires
        status.consistent(),
        !status.is_open,
        only_timers(history),
    ensures
        status.after_all(history) == status,
    decreases history.len(),
{
    if history.len() > 0 {
        let earlier = history.drop_last();
        assert forall|i: int| 0 <= i < earlier.len() implies (#[trigger] earlier[i]) is TimerFired by {
            assert(earlier[i] == history[i]);
        }
        lemma_closed_ignores_timers(status, earlier);
        assert(history.last() == history[history.len() - 1]);
    }
}

/// A close right after a keep-open cancels the timer that the keep-open
/// armed, and the space then stays closed whatever timers fire later, the
/// cancelled one among them.
pub proof fn lemma_close_cancels_keep_open(
    status: SpaceStatus,
    now: Timestamp,
    duration: i64,
    later: Seq<Command>,
)
    requires
        expiry_of(now, duration) <= Timestamp::MAX,
        only_timers(later),
    ensures
        ({
            let keep_open = Command::KeepOpen { now, duration };
            let kept = status.after(keep_open);
            &&& status.timers(keep_open).arm is Some
            &&& kept.timers(Command::Close).cancel == status.timers(keep_open).arm
            &&& kept.after(Command::Close).revert_token is None
            &&& kept.after(Command::Close).after_all(later) == status.closed()
        }),
{
    let kept = status.after(Command::KeepOpen { now, duration });
    lemma_closed_ignores_timers(kept.after(Command::Close), later);
}

/// Of two keep-opens in a row the later one wins: the status is what the
/// later one alone would have made it, the timer of the earlier one is
/// cancelled and, should it fire all the same before the later deadline,
/// changes nothing. The timer of the later one closes the space.
pub proof fn lemma_later_keep_open_wins(
    status: SpaceStatus,
    now0: Timestamp,
    duration0: i64,
    now1: Timestamp,
    duration1: i64,
)
    requires
        expiry_of(now0, duration0) <= Timestamp::MAX,
        expiry_of(now1, duration1) <= Timestamp::MAX,
    ensures
        ({
            let earlier = Command::KeepOpen { now: now0, duration: duration0 };
            let later = Command::KeepOpen { now: now1, duration: duration1 };
            let stale = TimerHandle { deadline: expiry_of(now0, duration0) as Timestamp };
            let awaited = TimerHandle { deadline: expiry_of(now1, duration1) as Timestamp };
            let kept = status.after(earlier).after(later);
            &&& kept == status.after(later)
            &&& kept.is_open && kept.opened_until == Some(awaited.deadline)
            &&& status.after(earlier).timers(later) == (TimerAction {
                cancel: Some(stale),
                arm: Some(awaited),
            })
            &&& stale != awaited ==> kept.after(Command::TimerFired { handle: stale }) == kept
            &&& kept.after(Command::TimerFired { handle: awaited }) == status.closed()
        }),
{
}

/// A keep-open for no time at all arms a timer that is due at once, and that
/// timer closes the space: the deadline is the moment of the call.
pub proof fn lemma_keep_open_for_nothing_expires_at_once(
    status: SpaceStatus,
    now: Timestamp,
    duration: i64,
)
    requires
        duration <= 0,
    ensures
        ({
            let keep_open = Command::KeepOpen { now, duration };
            let armed = TimerHandle { deadline: now };
            &&& expiry_of(now, duration) == now
            &&& status.timers(keep_open).arm == Some(armed)
            &&& armed.delay(now) == 0
            &&& status.after(keep_open).after(Command::TimerFired { handle: armed })
                == status.closed()
        }),
{
}

/// The timers that a clock has pending after a command, if it does as it is
/// told: a timer that fires is pending no more, a cancelled one neither, and
/// an armed one is.
pub open spec fn pending_after(
    pending: Set<TimerHandle>,
    status: SpaceStatus,
    command: Command,
) -> Set<TimerHandle> {
    match command {
        Command::TimerFired { handle } => pending.remove(handle),
        _ => {
            let timers = status.timers(command);
            let kept = match timers.cancel {
                Some(cancelled) => pending.remove(cancelled),
                None => pending,
            };
            match timers.arm {
                Some(armed) => kept.insert(armed),
                None => kept,
            }
        },
    }
}

/// The timers that such a clock has pending after a history that began with
/// a new guard and no timer.
pub open spec fn pending_after_all(history: Seq<Command>) -> Set<TimerHandle>
    decreases history.len(),
{
    if history.len() == 0 {
        Set::empty()
    } else {
        pending_after(
            pending_after_all(history.drop_last()),
            SpaceStatus::initial().after_all(history.drop_last()),
            history.last(),
        )
    }
}

/// A history in which no timer fires but one that is pending.
pub open spec fn fires_only_pending(history: Seq<Command>) -> bool
    decreases history.len(),
{
    history.len() == 0 || {
        &&& fires_only_pending(history.drop_last())
        &&& history.last() matches Command::TimerFired { handle } ==> pending_after_all(
            history.drop_last(),
        ).contains(handle)
    }
}

/// The timer that a status waits for, as a set.
pub open spec fn awaited_by(status: SpaceStatus) -> Set<TimerHandle> {
    match status.revert_token {
        Some(handle) => set![handle],
        None => Set::empty(),
    }
}

/// With a clock that does as it is told, at most one timer is pending at any
/// instant, and it is the one that the guard waits for.
pub proof fn lemma_one_timer_pending(history: Seq<Command>)
    requires
        fires_only_pending(history),
    ensures
        pending_after_all(history) == awaited_by(SpaceStatus::initial().after_all(history)),
        pending_after_all(history).finite(),
        pending_after_all(history).len() <= 1,
    decreases history.len(),
{
    if history.len() > 0 {
        lemma_one_timer_pending(history.drop_last());
        lemma_reachable_is_consistent(history.drop_last());
    }
    assert(pending_after_all(history) =~= awaited_by(SpaceStatus::initial().after_all(history)));
}

} // verus!
