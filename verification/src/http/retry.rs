//! The retry counter of one request: which try it is on, how long to pause
//! before the next one, and how much of the body has been read.

use super::settings::ClientSettings;
use vstd::prelude::*;

verus! {

/// The retry counter of one request.
#[derive(Clone, Copy, Debug, PartialEq, Eq, Structural)]
pub struct RetryState {
    /// The current try. The first try is zero.
    pub current_try: u32,
    /// The pause, in milliseconds, to make before the next try.
    pub wait: u64,
    /// The next byte to read: the number of bytes read so far.
    pub next_byte: usize,
}

/// The pause that follows a pause of `wait` milliseconds: `wait` times the
/// backoff factor, rounded down, and no more than the longest pause.
pub open spec fn grown_wait(wait: u64, settings: ClientSettings) -> u64 {
    let grown = wait as int * settings.backoff_factor as int / 1000;
    if grown < settings.max_backoff as int {
        grown as u64
    } else {
        settings.max_backoff
    }
}

impl RetryState {
    /// The state of a request before its first try.
    pub open spec fn spec_new(initial_wait: u64) -> RetryState {
        RetryState { current_try: 0, wait: initial_wait, next_byte: 0 }
    }

    /// The state after one more try has failed. The pause stays as it is
    /// after the first try and grows after every later one.
    pub open spec fn incremented(self, settings: ClientSettings) -> RetryState {
        RetryState {
            current_try: (self.current_try + 1) as u32,
            wait: if self.current_try > 0 {
                grown_wait(self.wait, settings)
            } else {
                self.wait
            },
            next_byte: self.next_byte,
        }
    }

    /// Whether the current try is the last one that the settings allow.
    pub open spec fn out_of_tries(self, settings: ClientSettings) -> bool {
        self.current_try + 1 >= settings.tries
    }

    /// The state of a request before its first try.
    pub fn new(initial_wait: u64) -> (state: RetryState)
        ensures
            state == RetryState::spec_new(initial_wait),
    {
        RetryState { current_try: 0, wait: initial_wait, next_byte: 0 }
    }

    /// Whether the current try is the last one that the settings allow.
    pub fn is_out_of_tries(&self, settings: &ClientSettings) -> (r: bool)
        ensures
            r == self.out_of_tries(*settings),
    {
        settings.tries == 0 || self.current_try >= settings.tries - 1
    }

    /// Increments the count of tries and, from the second failed try on, the
    /// pause.
    pub fn increment(&mut self, settings: &ClientSettings)
        requires
            old(self).current_try < u32::MAX,
        ensures
            *final(self) == old(self).incremented(*settings),
    {
        if self.current_try > 0 {
            assert(self.wait as int * settings.backoff_factor as int <= u64::MAX as int
                * u32::MAX as int) by (nonlinear_arith)
                requires
                    0 <= self.wait as int <= u64::MAX as int,
                    0 <= settings.backoff_factor as int <= u32::MAX as int,
            ;
            let grown: u128 = (self.wait as u128) * (settings.backoff_factor as u128) / 1000;
            if grown < settings.max_backoff as u128 {
                self.wait = grown as u64;
            } else {
                self.wait = settings.max_backoff;
            }
        }
        self.current_try += 1;
    }
}

} // verus!
