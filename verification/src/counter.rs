//! The reference-counting state machine.
//!
//! A `RefCounter` owns the shared non-negative count, the two command
//! strings, and the monotonic exit flag.  The daemon's start command must
//! run exactly when the count leaves zero and its end command exactly when
//! the count returns to zero; running a shell command is process work the
//! caller does, so the mutating operations here take or return the facts
//! of that run as plain values, and their contracts pin the whole
//! transition down.

use vstd::prelude::*;

use crate::model::{CounterEvent, event_succeeds, step_count};

verus! {

/// Failure of a mutating counter operation.
#[derive(Clone, Copy, Debug, PartialEq, Eq, Structural)]
pub enum CounterError {
    /// The start command was required and did not succeed.
    CommandFailed,
    /// The count was already at its maximum representable value.
    Overflow,
    /// A decrement was attempted while the count was zero.
    Underflow,
}

/// The shared counter: a count that never goes negative, the two command
/// strings and the success-checking flag fixed at construction, and an
/// exit flag that is only ever set, never cleared.
pub struct RefCounter {
    start_command: String,
    end_command: String,
    check_success: bool,
    count: u64,
    should_exit: bool,
}

/// What an increment attempt returns when the counter holds `count` and
/// the start command's success is `start_ok` (meaningful only when
/// `count == 0`, the one case where the command runs).
pub open spec fn increment_result(count: u64, start_ok: bool) -> Result<(), CounterError> {
    if count == 0 && !start_ok {
        Err(CounterError::CommandFailed)
    } else if count == u64::MAX {
        Err(CounterError::Overflow)
    } else {
        Ok(())
    }
}

/// What a decrement attempt returns when the counter holds `count`: on
/// success, whether the caller must now run the end command.
pub open spec fn decrement_result(count: u64) -> Result<bool, CounterError> {
    if count == 0 {
        Err(CounterError::Underflow)
    } else {
        Ok(count == 1)
    }
}

impl RefCounter {
    /// The current count, for contracts.
    pub closed spec fn spec_count(&self) -> u64 {
        self.count
    }

    /// The exit flag, for contracts.
    pub closed spec fn spec_should_exit(&self) -> bool {
        self.should_exit
    }

    /// The command run when the count leaves zero, for contracts.
    pub closed spec fn spec_start_command(&self) -> String {
        self.start_command
    }

    /// The command run when the count returns to zero, for contracts.
    pub closed spec fn spec_end_command(&self) -> String {
        self.end_command
    }

    /// Whether a non-zero command exit status counts as failure, for
    /// contracts.
    pub closed spec fn spec_check_success(&self) -> bool {
        self.check_success
    }

    /// Whether `other` keeps the construction-time configuration of `self`.
    pub open spec fn same_config(&self, other: &RefCounter) -> bool {
        &&& self.spec_start_command() == other.spec_start_command()
        &&& self.spec_end_command() == other.spec_end_command()
        &&& self.spec_check_success() == other.spec_check_success()
    }

    /// A fresh counter: count zero, exit flag clear, configuration as given.
    pub fn new(start_command: String, end_command: String, check_success: bool) -> (r: Self)
        ensures
            r.spec_count() == 0,
            !r.spec_should_exit(),
            r.spec_start_command() == start_command,
            r.spec_end_command() == end_command,
            r.spec_check_success() == check_success,
    {
        Self { start_command, end_command, check_success, count: 0, should_exit: false }
    }

    /// The command run when the count leaves zero.
    pub fn start_command(&self) -> (r: &String)
        ensures
            r == self.spec_start_command(),
    {
        &self.start_command
    }

    /// The command run when the count returns to zero.
    pub fn end_command(&self) -> (r: &String)
        ensures
            r == self.spec_end_command(),
    {
        &self.end_command
    }

    /// Whether a non-zero command exit status counts as failure.
    pub fn check_success(&self) -> (r: bool)
        ensures
            r == self.spec_check_success(),
    {
        self.check_success
    }

    /// The current count.
    pub fn count(&self) -> (r: u64)
        ensures
            r == self.spec_count(),
    {
        self.count
    }

    /// Whether the daemon has been asked to exit.
    pub fn should_exit(&self) -> (r: bool)
        ensures
            r == self.spec_should_exit(),
    {
        self.should_exit
    }

    /// Whether the next increment attempt must run the start command
    /// first: exactly when the count is zero.
    pub fn increment_runs_start(&self) -> (r: bool)
        ensures
            r == (self.spec_count() == 0),
    {
        self.count == 0
    }

    /// Add one hold.  `start_ok` reports whether the start command
    /// succeeded; the caller runs it first exactly when
    /// `increment_runs_start()` said so, and its outcome only matters
    /// then.  A failed start command or a full counter leaves the count
    /// unchanged.
    pub fn increment(&mut self, start_ok: bool) -> (r: Result<(), CounterError>)
        ensures
            r == increment_result(old(self).spec_count(), start_ok),
            r is Ok <==> event_succeeds(
                old(self).spec_count(),
                CounterEvent::Increment { start_ok },
            ),
            final(self).spec_count() == step_count(
                old(self).spec_count(),
                CounterEvent::Increment { start_ok },
            ),
            final(self).spec_should_exit() == old(self).spec_should_exit(),
            old(self).same_config(final(self)),
    {
        if self.count == 0 && !start_ok {
            return Err(CounterError::CommandFailed);
        }
        if self.count == u64::MAX {
            return Err(CounterError::Overflow);
        }
        self.count = self.count + 1;
        Ok(())
    }

    /// Release one hold.  Fails, changing nothing, when the count is
    /// already zero.  On success returns whether the count just reached
    /// zero, in which case the caller must now run the end command; the
    /// decrement itself stands whatever that command then does.
    pub fn decrement(&mut self) -> (r: Result<bool, CounterError>)
        ensures
            r == decrement_result(old(self).spec_count()),
            r is Ok <==> event_succeeds(old(self).spec_count(), CounterEvent::Decrement),
            final(self).spec_count() == step_count(
                old(self).spec_count(),
                CounterEvent::Decrement,
            ),
            final(self).spec_should_exit() == old(self).spec_should_exit(),
            old(self).same_config(final(self)),
    {
        if self.count == 0 {
            return Err(CounterError::Underflow);
        }
        self.count = self.count - 1;
        Ok(self.count == 0)
    }

    /// Ask the daemon to exit.  Succeeds, setting the exit flag, exactly
    /// when no holds remain; otherwise reports failure and changes
    /// nothing.
    pub fn exit(&mut self) -> (r: bool)
        ensures
            r == (old(self).spec_count() == 0),
            final(self).spec_count() == old(self).spec_count(),
            final(self).spec_should_exit() == (old(self).spec_should_exit() || r),
            old(self).same_config(final(self)),
    {
        if self.count == 0 {
            self.should_exit = true;
            true
        } else {
            false
        }
    }

    /// Ask the daemon to exit unconditionally: always sets the exit flag,
    /// whatever the count.
    pub fn force_exit(&mut self)
        ensures
            final(self).spec_should_exit(),
            final(self).spec_count() == old(self).spec_count(),
            old(self).same_config(final(self)),
    {
        self.should_exit = true;
    }

    /// Tear the counter down at daemon shutdown.  Returns whether holds
    /// were still outstanding, in which case the caller must run the end
    /// command one final time — no decrement will ever arrive to do so.
    /// Drops all holds, so a second call never asks for the command again.
    pub fn finalize(&mut self) -> (run_end: bool)
        ensures
            run_end == (old(self).spec_count() > 0),
            final(self).spec_count() == 0,
            final(self).spec_should_exit() == old(self).spec_should_exit(),
            old(self).same_config(final(self)),
    {
        let outstanding = self.count > 0;
        self.count = 0;
        outstanding
    }
}

} // verus!
