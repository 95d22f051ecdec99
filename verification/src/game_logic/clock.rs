//! A chess clock for both players.
//!
//! Times are kept in nanoseconds. A running clock charges the time since
//! its start to the player whose turn it is; the time read from the system
//! clock is passed to the `_at` functions, which do the bookkeeping.

use vstd::prelude::*;
use crate::pieces::PieceColor;
use crate::text::{chars_of, concat_chars, decimal_padded, decimal_chars_padded, string_of};
use crate::time::{elapsed_nanos, instant_now};
use std::time::Instant;

verus! {

/// Nanoseconds in a second.
pub const NANOS_PER_SEC: u128 = 1_000_000_000u128;

/// Nanoseconds in a millisecond.
pub const NANOS_PER_MILLI: u128 = 1_000_000u128;

/// `base` minus `elapsed`, or zero when that would be negative.
pub open spec fn remaining(base: int, elapsed: int) -> int {
    if elapsed < base { base - elapsed } else { 0 }
}

/// A clock for both players.
#[derive(Clone)]
pub struct Clock {
    /// Time left for White, in nanoseconds.
    white_time: u128,
    /// Time left for Black, in nanoseconds.
    black_time: u128,
    /// When the current player's turn started.
    turn_start: Option<Instant>,
    /// Whose clock is running.
    pub active_color: Option<PieceColor>,
    /// Whether the clock is running.
    pub is_running: bool,
}

impl Clock {
    /// Time left for `color` at the last stop, in nanoseconds.
    pub closed spec fn base_time(&self, color: PieceColor) -> int {
        match color {
            PieceColor::White => self.white_time as int,
            PieceColor::Black => self.black_time as int,
        }
    }

    /// Whether a turn start is recorded.
    pub closed spec fn has_start(&self) -> bool {
        self.turn_start is Some
    }

    /// Whether the clock runs.
    pub closed spec fn running(&self) -> bool {
        self.is_running
    }

    /// Whose clock runs.
    pub closed spec fn active(&self) -> Option<PieceColor> {
        self.active_color
    }

    /// Whether `color`'s time is running down.
    pub open spec fn charging(&self, color: PieceColor) -> bool {
        self.running() && self.active() == Some(color) && self.has_start()
    }

    /// Whether the clock runs.
    pub fn is_running(&self) -> (r: bool)
        ensures
            r == self.running(),
    {
        self.is_running
    }

    /// Time left for `color`, `elapsed` nanoseconds into the current turn.
    pub open spec fn time_at(&self, color: PieceColor, elapsed: int) -> int {
        if self.charging(color) {
            remaining(self.base_time(color), elapsed)
        } else {
            self.base_time(color)
        }
    }

    /// A stopped clock with `seconds` for each player.
    pub fn new(seconds: u32) -> (r: Clock)
        ensures
            r.base_time(PieceColor::White) == seconds * 1_000_000_000,
            r.base_time(PieceColor::Black) == seconds * 1_000_000_000,
            !r.running(),
            r.active() is None,
            !r.has_start(),
    {
        let t = seconds as u128 * NANOS_PER_SEC;
        Clock { white_time: t, black_time: t, turn_start: None, active_color: None, is_running: false }
    }

    /// A stopped clock with the given time left for each player, in
    /// milliseconds.
    pub fn with_remaining_ms(white_ms: u64, black_ms: u64) -> (r: Clock)
        ensures
            r.base_time(PieceColor::White) == white_ms * 1_000_000,
            r.base_time(PieceColor::Black) == black_ms * 1_000_000,
            !r.running(),
            r.active() is None,
            !r.has_start(),
    {
        Clock {
            white_time: white_ms as u128 * 1_000_000,
            black_time: black_ms as u128 * 1_000_000,
            turn_start: None,
            active_color: None,
            is_running: false,
        }
    }

    /// The nanoseconds since the current turn started; zero when no turn
    /// has started. How much time that is depends on when this is called.
    pub fn elapsed_in_turn(&self) -> (r: u128)
        ensures
            !self.has_start() ==> r == 0,
    {
        match &self.turn_start {
            Some(start) => elapsed_nanos(start),
            None => 0,
        }
    }

    /// Starts `color`'s clock now.
    pub fn start(&mut self, color: PieceColor)
        ensures
            final(self).active() == Some(color),
            final(self).running(),
            final(self).has_start(),
            final(self).base_time(PieceColor::White) == old(self).base_time(PieceColor::White),
            final(self).base_time(PieceColor::Black) == old(self).base_time(PieceColor::Black),
    {
        self.active_color = Some(color);
        self.turn_start = Some(instant_now());
        self.is_running = true;
    }

    /// Stops the clock `elapsed` nanoseconds after the turn started,
    /// charging that time to the running player (down to zero).
    pub fn stop_at(&mut self, elapsed: u128)
        ensures
            !final(self).running(),
            final(self).active() is None,
            !final(self).has_start(),
            forall|c: PieceColor| #[trigger] final(self).base_time(c) == (if old(self).has_start()
                && old(self).active() == Some(c) {
                remaining(old(self).base_time(c), elapsed as int)
            } else {
                old(self).base_time(c)
            }),
    {
        if self.turn_start.is_some() {
            match self.active_color {
                Some(PieceColor::White) => {
                    self.white_time = if elapsed < self.white_time { self.white_time - elapsed } else { 0 };
                },
                Some(PieceColor::Black) => {
                    self.black_time = if elapsed < self.black_time { self.black_time - elapsed } else { 0 };
                },
                None => {},
            }
        }
        self.turn_start = None;
        self.active_color = None;
        self.is_running = false;
    }

    /// Stops the clock, charging the time since the turn started to the
    /// running player (`stopped_after` for the time read from the system
    /// clock); no player gains time.
    pub fn stop(&mut self)
        ensures
            !final(self).running(),
            final(self).active() is None,
            !final(self).has_start(),
            forall|c: PieceColor| #[trigger] final(self).base_time(c) <= old(self).base_time(c),
            exists|elapsed: int|
                0 <= elapsed && #[trigger] stopped_after(*old(self), *final(self), elapsed),
    {
        let elapsed = match &self.turn_start {
            Some(start) => elapsed_nanos(start),
            None => 0,
        };
        self.stop_at(elapsed);
        proof {
            assert(stopped_after(*old(self), *self, elapsed as int));
        }
    }

    /// Time left for `color`, `elapsed` nanoseconds into the current turn.
    pub fn get_time_at(&self, color: PieceColor, elapsed: u128) -> (r: u128)
        ensures
            r == self.time_at(color, elapsed as int),
    {
        let base_time = match color {
            PieceColor::White => self.white_time,
            PieceColor::Black => self.black_time,
        };
        if self.is_running && self.active_color == Some(color) && self.turn_start.is_some() {
            if elapsed < base_time { base_time - elapsed } else { 0 }
        } else {
            base_time
        }
    }

    /// Time left for `color` now.
    pub fn get_time(&self, color: PieceColor) -> (r: u128)
        ensures
            exists|elapsed: int| 0 <= elapsed && r == #[trigger] self.time_at(color, elapsed),
            r <= self.base_time(color),
            !self.charging(color) ==> r == self.base_time(color),
    {
        let elapsed = match &self.turn_start {
            Some(start) => elapsed_nanos(start),
            None => 0,
        };
        let r = self.get_time_at(color, elapsed);
        proof {
            assert(r == self.time_at(color, elapsed as int));
        }
        r
    }

    /// Whether `color` has no time left, `elapsed` nanoseconds into the turn.
    pub fn is_time_up_at(&self, color: PieceColor, elapsed: u128) -> (r: bool)
        ensures
            r == (self.time_at(color, elapsed as int) == 0),
    {
        self.get_time_at(color, elapsed) == 0
    }

    /// Whether `color` has no time left now.
    pub fn is_time_up(&self, color: PieceColor) -> (r: bool)
        ensures
            self.base_time(color) == 0 ==> r,
            !self.charging(color) ==> r == (self.base_time(color) == 0),
    {
        self.get_time(color) == 0
    }

    /// Whether either player has no time left now: for the time into the
    /// turn read from the system clock, one of the two times is zero.
    pub fn any_time_up(&self) -> (r: bool)
        ensures
            exists|elapsed: int|
                0 <= elapsed && r == #[trigger] self.time_up_at(elapsed) is Some,
    {
        let elapsed = self.elapsed_in_turn();
        let r = self.is_time_up_at(PieceColor::White, elapsed) || self.is_time_up_at(PieceColor::Black, elapsed);
        proof {
            assert(r == self.time_up_at(elapsed as int) is Some);
        }
        r
    }

    /// The player out of time `elapsed` nanoseconds into the turn, White
    /// first.
    pub open spec fn time_up_at(&self, elapsed: int) -> Option<PieceColor> {
        if self.time_at(PieceColor::White, elapsed) == 0 {
            Some(PieceColor::White)
        } else if self.time_at(PieceColor::Black, elapsed) == 0 {
            Some(PieceColor::Black)
        } else {
            None
        }
    }

    /// The player out of time, White first, `elapsed` nanoseconds into the
    /// turn (see `time_up_at`).
    pub fn get_time_up_color_at(&self, elapsed: u128) -> (r: Option<PieceColor>)
        ensures
            r == self.time_up_at(elapsed as int),
    {
        if self.is_time_up_at(PieceColor::White, elapsed) {
            Some(PieceColor::White)
        } else if self.is_time_up_at(PieceColor::Black, elapsed) {
            Some(PieceColor::Black)
        } else {
            None
        }
    }

    /// The player out of time now, White first: `time_up_at` for the time
    /// into the turn read from the system clock.
    pub fn get_time_up_color(&self) -> (r: Option<PieceColor>)
        ensures
            exists|elapsed: int| 0 <= elapsed && r == #[trigger] self.time_up_at(elapsed),
    {
        let elapsed = self.elapsed_in_turn();
        self.get_time_up_color_at(elapsed)
    }

    /// `color`'s time, `elapsed` nanoseconds into the turn, as MM:SS from a
    /// minute up and as SS.mmm below.
    pub fn format_time_at(&self, color: PieceColor, elapsed: u128) -> (r: String)
        requires
            self.time_at(color, elapsed as int) / 1_000_000_000 <= u64::MAX,
        ensures
            r@ == time_text(self.time_at(color, elapsed as int)),
    {
        let time = self.get_time_at(color, elapsed);
        format_nanos(time)
    }

    /// `color`'s time now, as MM:SS from a minute up and as SS.mmm below:
    /// `time_text` of the time left at the moment read from the system
    /// clock.
    pub fn format_time(&self, color: PieceColor) -> (r: String)
        requires
            self.base_time(color) / 1_000_000_000 <= u64::MAX,
        ensures
            exists|elapsed: int| 0 <= elapsed && r@ == #[trigger] time_text(self.time_at(color, elapsed)),
            !self.charging(color) ==> r@ == time_text(self.base_time(color)),
    {
        let elapsed = self.elapsed_in_turn();
        assert(self.time_at(color, elapsed as int) <= self.base_time(color));
        assert(self.time_at(color, elapsed as int) / 1_000_000_000 <= self.base_time(color) / 1_000_000_000)
            by (nonlinear_arith)
            requires
                0 <= self.time_at(color, elapsed as int) <= self.base_time(color),
        ;
        let r = self.format_time_at(color, elapsed);
        proof {
            assert(r@ == time_text(self.time_at(color, elapsed as int)));
        }
        r
    }
}

/// The clock `c1` is `c0` stopped `elapsed` nanoseconds into the turn: not
/// running, no active side, no turn start, and the elapsed time charged to
/// the side whose turn had started (down to zero), the other side's time
/// kept.
pub open spec fn stopped_after(c0: Clock, c1: Clock, elapsed: int) -> bool {
    &&& !c1.running()
    &&& c1.active() is None
    &&& !c1.has_start()
    &&& forall|c: PieceColor| #[trigger] c1.base_time(c) == (if c0.has_start() && c0.active() == Some(c) {
        remaining(c0.base_time(c), elapsed)
    } else {
        c0.base_time(c)
    })
}

/// A duration in nanoseconds as text: MM:SS (minutes at least two digits)
/// from a minute up, SS.mmm below a minute.
pub open spec fn time_text(nanos: int) -> Seq<char> {
    let total_secs = nanos / 1_000_000_000;
    let millis = (nanos % 1_000_000_000) / 1_000_000;
    let minutes = total_secs / 60;
    let seconds = total_secs % 60;
    if minutes > 0 {
        decimal_padded(minutes as nat, 2) + ":"@ + decimal_padded(seconds as nat, 2)
    } else {
        decimal_padded(seconds as nat, 2) + "."@ + decimal_padded(millis as nat, 3)
    }
}

/// A duration in nanoseconds as text, see `time_text`.
fn format_nanos(time: u128) -> (r: String)
    requires
        time / 1_000_000_000 <= u64::MAX,
    ensures
        r@ == time_text(time as int),
{
    let total_secs = (time / NANOS_PER_SEC) as u64;
    let millis = ((time % NANOS_PER_SEC) / NANOS_PER_MILLI) as u64;
    let minutes = total_secs / 60;
    let seconds = total_secs % 60;
    if minutes > 0 {
        let a = decimal_chars_padded(minutes, 2);
        let b = decimal_chars_padded(seconds, 2);
        string_of(&concat_chars(&concat_chars(&a, &chars_of(":")), &b))
    } else {
        let a = decimal_chars_padded(seconds, 2);
        let b = decimal_chars_padded(millis, 3);
        string_of(&concat_chars(&concat_chars(&a, &chars_of(".")), &b))
    }
}

impl Default for Clock {
    /// Ten minutes each, stopped.
    fn default() -> (r: Clock)
        ensures
            r.base_time(PieceColor::White) == 600_000_000_000,
            r.base_time(PieceColor::Black) == 600_000_000_000,
            !r.running(),
            r.active() is None,
    {
        Clock {
            white_time: 600 * NANOS_PER_SEC,
            black_time: 600 * NANOS_PER_SEC,
            turn_start: None,
            active_color: None,
            is_running: false,
        }
    }
}

/// Stopping the clock never gives a player time, and charges at most the
/// elapsed time to the player who was running.
pub proof fn lemma_stop_charges_at_most_elapsed(base: int, elapsed: int)
    requires
        0 <= base,
        0 <= elapsed,
    ensures
        0 <= remaining(base, elapsed) <= base,
        base - remaining(base, elapsed) <= elapsed,
{
}

} // verus!
