//! The status of the space and the guard that owns it.
//!
//! The guard is a state machine without I/O. Whoever runs it holds it under
//! one lock, hands it the current time, and arms and cancels the one-shot
//! timers that its operations ask for. A timer that fires hands its handle
//! back to the guard, which closes the space only if that timer is still the
//! one it waits for.

use vstd::prelude::*;

verus! {

/// Seconds since the Unix epoch.
pub type Timestamp = u64;

/// Names one armed auto-close timer by the instant at which it is due. Two
/// timers for one deadline need not be told apart: whichever of them fires,
/// the space is due to close at that instant.
#[derive(Clone, Copy, Debug, PartialEq, Eq, Structural)]
pub struct TimerHandle {
    pub deadline: Timestamp,
}

impl TimerHandle {
    /// The seconds from `now` to the deadline; none for a deadline that has
    /// come.
    pub open spec fn delay(self, now: Timestamp) -> nat {
        if self.deadline > now {
            (self.deadline - now) as nat
        } else {
            0
        }
    }

    /// How long a timer armed at `now` has to sleep. A timer whose deadline
    /// has come fires at once.
    pub fn delay_from(&self, now: Timestamp) -> (seconds: u64)
        ensures
            seconds == self.delay(now),
    {
        if self.deadline > now {
            self.deadline - now
        } else {
            0
        }
    }
}

/// What a change of the status asks of the clock.
#[derive(Clone, Copy, Debug, PartialEq, Eq, Structural)]
pub struct TimerAction {
    /// The timer that was pending and is no longer wanted.
    pub cancel: Option<TimerHandle>,
    /// The timer to arm.
    pub arm: Option<TimerHandle>,
}

/// What is published about the space.
#[derive(Clone, Copy, Debug, PartialEq, Eq, Structural)]
pub struct SpaceStatus {
    /// Whether the space is open.
    pub is_open: bool,
    /// Set only while the space is open for a limited time.
    pub opened_until: Option<Timestamp>,
    /// The auto-close timer that is pending, if any.
    pub revert_token: Option<TimerHandle>,
}

/// One request to the guard.
#[derive(Clone, Copy, Debug, PartialEq, Eq, Structural)]
pub enum Command {
    /// Open the space until further notice.
    Open,
    /// Close the space.
    Close,
    /// Open the space at `now` for `duration` seconds.
    KeepOpen { now: Timestamp, duration: i64 },
    /// The timer named by `handle` has fired.
    TimerFired { handle: TimerHandle },
}

/// A duration in seconds, with a negative one taken as zero.
pub open spec fn clamped(duration: i64) -> nat {
    if duration > 0 {
        duration as nat
    } else {
        0
    }
}

/// The instant at which a keep-open window that starts at `now` ends.
pub open spec fn expiry_of(now: Timestamp, duration: i64) -> nat {
    now as nat + clamped(duration)
}

/// Whether the deadline of a keep-open window that starts at `now` is a
/// timestamp: what `keep_open` asks of its caller.
pub fn expiry_in_range(now: Timestamp, duration: i64) -> (fits: bool)
    ensures
        fits == (expiry_of(now, duration) <= Timestamp::MAX),
{
    if duration > 0 {
        duration as u64 <= Timestamp::MAX - now
    } else {
        true
    }
}

impl Command {
    /// The deadline of a keep-open fits a timestamp; the other commands carry
    /// no arithmetic.
    pub open spec fn in_range(self) -> bool {
        match self {
            Command::KeepOpen { now, duration } => expiry_of(now, duration) <= Timestamp::MAX,
            _ => true,
        }
    }
}

impl SpaceStatus {
    /// The timer that belongs to a deadline.
    pub open spec fn token_for(opened_until: Option<Timestamp>) -> Option<TimerHandle> {
        match opened_until {
            Some(deadline) => Some(TimerHandle { deadline }),
            None => None,
        }
    }

    /// A deadline is set only while the space is open, and the pending timer
    /// is the one armed for that deadline.
    pub open spec fn consistent(self) -> bool {
        &&& self.opened_until is Some ==> self.is_open
        &&& self.revert_token == Self::token_for(self.opened_until)
    }

    /// The status at start: closed, no deadline, no timer.
    pub open spec fn initial() -> SpaceStatus {
        SpaceStatus { is_open: false, opened_until: None, revert_token: None }
    }

    /// Open until further notice.
    pub open spec fn opened(self) -> SpaceStatus {
        SpaceStatus { is_open: true, opened_until: None, revert_token: None }
    }

    /// Closed.
    pub open spec fn closed(self) -> SpaceStatus {
        SpaceStatus { is_open: false, opened_until: None, revert_token: None }
    }

    /// Open until `expiry`, waiting for the timer armed for it.
    pub open spec fn kept_open(self, expiry: Timestamp) -> SpaceStatus {
        SpaceStatus {
            is_open: true,
            opened_until: Some(expiry),
            revert_token: Some(TimerHandle { deadline: expiry }),
        }
    }

    /// Whether a timer that fires now is the one the status waits for.
    pub open spec fn awaits(self, handle: TimerHandle) -> bool {
        self.opened_until == Some(handle.deadline)
    }

    /// Closed if the timer is the awaited one, unchanged if it is stale.
    pub open spec fn timer_fired(self, handle: TimerHandle) -> SpaceStatus {
        if self.awaits(handle) {
            self.closed()
        } else {
            self
        }
    }

    /// The status after one command.
    pub open spec fn after(self, command: Command) -> SpaceStatus {
        match command {
            Command::Open => self.opened(),
            Command::Close => self.closed(),
            Command::KeepOpen { now, duration } => self.kept_open(
                expiry_of(now, duration) as Timestamp,
            ),
            Command::TimerFired { handle } => self.timer_fired(handle),
        }
    }

    /// The status after a history of commands, the first one applied first.
    pub open spec fn after_all(self, history: Seq<Command>) -> SpaceStatus
        decreases history.len(),
    {
        if history.len() == 0 {
            self
        } else {
            self.after_all(history.drop_last()).after(history.last())
        }
    }

    /// What one command asks of the clock: the pending timer is cancelled by
    /// every command of a client, and a keep-open arms the timer for its
    /// deadline. A timer that fires asks for nothing.
    pub open spec fn timers(self, command: Command) -> TimerAction {
        match command {
            Command::Open | Command::Close => TimerAction { cancel: self.revert_token, arm: None },
            Command::KeepOpen { now, duration } => TimerAction {
                cancel: self.revert_token,
                arm: Some(TimerHandle { deadline: expiry_of(now, duration) as Timestamp }),
            },
            Command::TimerFired { .. } => TimerAction { cancel: None, arm: None },
        }
    }
}

/// Owns the status of the space. Every change goes through its operations.
pub struct SpaceGuard {
    status: SpaceStatus,
}

impl View for SpaceGuard {
    type V = SpaceStatus;

    closed spec fn view(&self) -> SpaceStatus {
        self.status
    }
}

impl SpaceGuard {
    #[verifier::type_invariant]
    spec fn inv(self) -> bool {
        self.status.consistent()
    }

    /// A guard over a closed space.
    pub fn new() -> (guard: SpaceGuard)
        ensures
            guard@ == SpaceStatus::initial(),
    {
        SpaceGuard { status: SpaceStatus { is_open: false, opened_until: None, revert_token: None } }
    }

    /// Opens the space until further notice. The pending timer, if there is
    /// one, is to be cancelled.
    pub fn open(&mut self) -> (timers: TimerAction)
        ensures
            final(self)@ == old(self)@.opened(),
            timers == (TimerAction { cancel: old(self)@.revert_token, arm: None }),
    {
        let cancel = self.status.revert_token;
        self.status = SpaceStatus { is_open: true, opened_until: None, revert_token: None };
        TimerAction { cancel, arm: None }
    }

    /// Closes the space. The pending timer, if there is one, is to be
    /// cancelled.
    pub fn close(&mut self) -> (timers: TimerAction)
        ensures
            final(self)@ == old(self)@.closed(),
            timers == (TimerAction { cancel: old(self)@.revert_token, arm: None }),
    {
        let cancel = self.status.revert_token;
        self.status = SpaceStatus { is_open: false, opened_until: None, revert_token: None };
        TimerAction { cancel, arm: None }
    }

    /// Opens the space at `now` for `duration` seconds, a negative duration
    /// counting as zero. Returns the deadline. The pending timer, if there is
    /// one, is to be cancelled, and a timer is to be armed for the deadline.
    /// The deadline replaces an earlier one, be it sooner or later. It has to
    /// be a timestamp, which [`expiry_in_range`] tests.
    pub fn keep_open(&mut self, now: Timestamp, duration: i64) -> (kept: (Timestamp, TimerAction))
        requires
            expiry_of(now, duration) <= Timestamp::MAX,
        ensures
            kept.0 == expiry_of(now, duration),
            final(self)@ == old(self)@.kept_open(kept.0),
            kept.1 == (TimerAction {
                cancel: old(self)@.revert_token,
                arm: Some(TimerHandle { deadline: kept.0 }),
            }),
    {
        let window: u64 = if duration > 0 {
            duration as u64
        } else {
            0
        };
        let expiry: Timestamp = now + window;
        let cancel = self.status.revert_token;
        let arm = TimerHandle { deadline: expiry };
        self.status = SpaceStatus {
            is_open: true,
            opened_until: Some(expiry),
            revert_token: Some(arm),
        };
        (expiry, TimerAction { cancel, arm: Some(arm) })
    }

    /// Takes the firing of a timer. Closes the space if the deadline still
    /// stands that the timer was armed for; a stale timer changes nothing.
    /// Returns whether the space was closed by this call.
    pub fn timer_fired(&mut self, handle: TimerHandle) -> (acted: bool)
        ensures
            final(self)@ == old(self)@.timer_fired(handle),
            acted == old(self)@.awaits(handle),
    {
        let awaited = match self.status.opened_until {
            Some(deadline) => deadline == handle.deadline,
            None => false,
        };
        if awaited {
            self.status = SpaceStatus { is_open: false, opened_until: None, revert_token: None };
        }
        awaited
    }

    /// Carries out one command and returns what it asks of the clock.
    pub fn apply(&mut self, command: Command) -> (action: TimerAction)
        requires
            command.in_range(),
        ensures
            final(self)@ == old(self)@.after(command),
            action == old(self)@.timers(command),
    {
        match command {
            Command::Open => self.open(),
            Command::Close => self.close(),
            Command::KeepOpen { now, duration } => {
                let kept = self.keep_open(now, duration);
                kept.1
            },
            Command::TimerFired { handle } => {
                self.timer_fired(handle);
                TimerAction { cancel: None, arm: None }
            },
        }
    }

    /// Whether the space is open.
    pub fn is_open(&self) -> (open: bool)
        ensures
            open == self@.is_open,
    {
        self.status.is_open
    }

    /// The deadline of the keep-open window, if one is running.
    pub fn expires_at(&self) -> (deadline: Option<Timestamp>)
        ensures
            deadline == self@.opened_until,
            deadline is Some ==> self@.is_open,
    {
        proof {
            use_type_invariant(self);
        }
        self.status.opened_until
    }

    /// A copy of the whole status, taken in one step.
    pub fn status(&self) -> (status: SpaceStatus)
        ensures
            status == self@,
            status.consistent(),
    {
        proof {
            use_type_invariant(self);
        }
        self.status
    }
}

} // verus!
