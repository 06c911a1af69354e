//! The simulation clock: a pause flag, a discrete speed ladder in tenths of
//! the multiplier, an accumulated simulation time in nanoseconds, and a
//! wall-clock anchor. Real elapsed time is scaled by the speed and added to
//! the simulation time only while unpaused.

use vstd::prelude::*;

use std::time::Duration;
use std::time::Instant;

verus! {

/// A reading of the monotonic wall clock; opaque, usable only as an
/// anchor to measure elapsed time from.
#[verifier::external_type_specification]
#[verifier::external_body]
pub struct ExInstant(Instant);

/// Relies on std::time::Instant::now: reads the monotonic wall clock.
/// Nothing can be promised of the reading.
#[verifier::external_body]
fn now_instant() -> Instant {
    Instant::now()
}

/// Relies on std::time::Instant::elapsed: the wall-clock time since the
/// anchor was taken. The reading depends on the clock, so nothing is
/// promised of it.
#[verifier::external_body]
fn elapsed_since(anchor: &Instant) -> Duration {
    anchor.elapsed()
}

/// Relies on std::time::Duration::as_nanos: the duration in whole
/// nanoseconds. The duration values it is applied to here come from the
/// wall clock, of which nothing is promised, so no relation is stated.
#[verifier::external_body]
fn duration_as_nanos(d: &Duration) -> u128 {
    d.as_nanos()
}

/// Whether `t`, in tenths of the multiplier, is one of the eight rungs
/// of the fixed speed ladder 0.1, 0.5, 1, 2, 5, 10, 20, 50.
pub open spec fn is_speed_rung(t: u64) -> bool {
    t == 1 || t == 5 || t == 10 || t == 20 || t == 50 || t == 100 || t == 200 || t == 500
}

/// The rung that increasing the speed from `t` tenths lands on: the
/// lowest rung strictly above `t`, clamped at the top rung.
pub open spec fn next_rung_up(t: u64) -> u64 {
    if t < 5 {
        5
    } else if t < 10 {
        10
    } else if t < 20 {
        20
    } else if t < 50 {
        50
    } else if t < 100 {
        100
    } else if t < 200 {
        200
    } else {
        500
    }
}

/// The rung that decreasing the speed from `t` tenths lands on: one rung
/// below the lowest rung at or above `t`, clamped at the bottom rung.
/// The comparisons are non-strict where `next_rung_up`'s are strict;
/// that asymmetry is part of the ladder's behaviour.
pub open spec fn next_rung_down(t: u64) -> u64 {
    if t <= 5 {
        1
    } else if t <= 10 {
        5
    } else if t <= 20 {
        10
    } else if t <= 50 {
        20
    } else if t <= 100 {
        50
    } else if t <= 200 {
        100
    } else {
        200
    }
}

/// `v` clamped into the range of `u64`.
pub open spec fn saturate_u64(v: int) -> u64 {
    if v > u64::MAX {
        u64::MAX
    } else if v < 0 {
        0
    } else {
        v as u64
    }
}

/// Elapsed wall-clock nanoseconds scaled by a speed given in tenths of
/// the multiplier.
pub open spec fn scaled_nanos(elapsed_nanos: int, speed_tenths: int) -> int {
    elapsed_nanos * speed_tenths / 10
}

/// The simulation clock. Speed is held in tenths of the multiplier
/// (10 stands for 1.0x), simulation time in nanoseconds.
pub struct TimeController {
    pub is_paused: bool,
    pub speed_tenths: u64,
    pub simulation_nanos: u64,
    pub last_update: Instant,
    pub target_fps: u32,
}

/// Scales `elapsed_nanos` by `speed_tenths` tenths of the multiplier,
/// clamped into `u64`.
fn scale_elapsed(elapsed_nanos: u64, speed_tenths: u64) -> (r: u64)
    ensures
        r == saturate_u64(scaled_nanos(elapsed_nanos as int, speed_tenths as int)),
{
    proof {
        assert((elapsed_nanos as int) * (speed_tenths as int) <= (u64::MAX as int) * (
        u64::MAX as int)) by (nonlinear_arith)
            requires
                elapsed_nanos <= u64::MAX && speed_tenths <= u64::MAX,
        ;
        assert((elapsed_nanos as int) * (speed_tenths as int) >= 0) by (nonlinear_arith);
    }
    let scaled: u128 = (elapsed_nanos as u128) * (speed_tenths as u128) / 10;
    if scaled > u64::MAX as u128 {
        u64::MAX
    } else {
        scaled as u64
    }
}

impl TimeController {
    /// A clock that starts paused, at 1.0x speed, with no simulation
    /// time accumulated, anchored at the present instant.
    pub fn new(target_fps: u32) -> (r: Self)
        ensures
            r.is_paused,
            r.speed_tenths == 10,
            r.simulation_nanos == 0,
            r.target_fps == target_fps,
    {
        TimeController {
            is_paused: true,
            speed_tenths: 10,
            simulation_nanos: 0,
            last_update: now_instant(),
            target_fps,
        }
    }

    /// Whether the simulation is paused.
    pub fn is_paused(&self) -> (r: bool)
        ensures
            r == self.is_paused,
    {
        self.is_paused
    }

    /// Flips the pause flag and re-anchors the wall clock, so that time
    /// spent paused is never counted as elapsed once the clock resumes.
    pub fn toggle_pause(&mut self)
        ensures
            final(self).is_paused == !old(self).is_paused,
            final(self).speed_tenths == old(self).speed_tenths,
            final(self).simulation_nanos == old(self).simulation_nanos,
            final(self).target_fps == old(self).target_fps,
    {
        self.is_paused = !self.is_paused;
        self.last_update = now_instant();
    }

    /// The speed multiplier, in tenths (10 stands for 1.0x).
    pub fn speed_multiplier(&self) -> (r: u64)
        ensures
            r == self.speed_tenths,
    {
        self.speed_tenths
    }

    /// Moves the speed one rung up the ladder, clamped at the top rung.
    pub fn increase_speed(&mut self)
        ensures
            final(self).speed_tenths == next_rung_up(old(self).speed_tenths),
            final(self).is_paused == old(self).is_paused,
            final(self).simulation_nanos == old(self).simulation_nanos,
            final(self).last_update == old(self).last_update,
            final(self).target_fps == old(self).target_fps,
    {
        let t = self.speed_tenths;
        self.speed_tenths = if t < 5 {
            5
        } else if t < 10 {
            10
        } else if t < 20 {
            20
        } else if t < 50 {
            50
        } else if t < 100 {
            100
        } else if t < 200 {
            200
        } else {
            500
        };
    }

    /// Moves the speed one rung down the ladder, clamped at the bottom
    /// rung.
    pub fn decrease_speed(&mut self)
        ensures
            final(self).speed_tenths == next_rung_down(old(self).speed_tenths),
            final(self).is_paused == old(self).is_paused,
            final(self).simulation_nanos == old(self).simulation_nanos,
            final(self).last_update == old(self).last_update,
            final(self).target_fps == old(self).target_fps,
    {
        let t = self.speed_tenths;
        self.speed_tenths = if t <= 5 {
            1
        } else if t <= 10 {
            5
        } else if t <= 20 {
            10
        } else if t <= 50 {
            20
        } else if t <= 100 {
            50
        } else if t <= 200 {
            100
        } else {
            200
        };
    }

    /// The accumulated simulation time, in nanoseconds.
    pub fn simulation_time(&self) -> (r: u64)
        ensures
            r == self.simulation_nanos,
    {
        self.simulation_nanos
    }

    /// The deterministic core of `step`: scales the given elapsed
    /// wall-clock nanoseconds by the speed and adds the result to the
    /// simulation time — unless the clock is paused, in which case the
    /// delta is zero and the simulation time is untouched.
    pub fn advance(&mut self, elapsed_nanos: u64) -> (delta: u64)
        ensures
            final(self).is_paused == old(self).is_paused,
            final(self).speed_tenths == old(self).speed_tenths,
            final(self).last_update == old(self).last_update,
            final(self).target_fps == old(self).target_fps,
            old(self).is_paused ==> delta == 0 && final(self).simulation_nanos == old(
                self,
            ).simulation_nanos,
            !old(self).is_paused ==> delta == saturate_u64(
                scaled_nanos(elapsed_nanos as int, old(self).speed_tenths as int),
            ) && final(self).simulation_nanos == saturate_u64(
                old(self).simulation_nanos + delta,
            ),
    {
        if self.is_paused {
            0
        } else {
            let delta = scale_elapsed(elapsed_nanos, self.speed_tenths);
            self.simulation_nanos = if self.simulation_nanos <= u64::MAX - delta {
                self.simulation_nanos + delta
            } else {
                u64::MAX
            };
            delta
        }
    }

    /// The wall-clock nanoseconds since the anchor, clamped into `u64`.
    fn elapsed_nanos(&self) -> u64 {
        let d = elapsed_since(&self.last_update);
        let nanos = duration_as_nanos(&d);
        if nanos > u64::MAX as u128 {
            u64::MAX
        } else {
            nanos as u64
        }
    }

    /// The delta that `step` would add right now: zero while paused,
    /// else the elapsed wall-clock time scaled by the speed. Reads the
    /// clock without mutating anything.
    pub fn delta_time(&self) -> (delta: u64)
        ensures
            self.is_paused ==> delta == 0,
            !self.is_paused ==> exists|e: int|
                0 <= e <= u64::MAX && delta == saturate_u64(
                    #[trigger] scaled_nanos(e, self.speed_tenths as int),
                ),
    {
        if self.is_paused {
            0
        } else {
            let e = self.elapsed_nanos();
            let delta = scale_elapsed(e, self.speed_tenths);
            proof {
                assert(delta == saturate_u64(scaled_nanos(e as int, self.speed_tenths as int)));
            }
            delta
        }
    }

    /// Advances the simulation time by the scaled wall-clock time since
    /// the last update, returns the delta, and re-anchors the clock
    /// unconditionally — even while paused, so no backlog builds up.
    /// While paused the delta is zero and the simulation time is
    /// untouched, however much real time has passed.
    pub fn step(&mut self) -> (delta: u64)
        ensures
            final(self).is_paused == old(self).is_paused,
            final(self).speed_tenths == old(self).speed_tenths,
            final(self).target_fps == old(self).target_fps,
            old(self).is_paused ==> delta == 0 && final(self).simulation_nanos == old(
                self,
            ).simulation_nanos,
            !old(self).is_paused ==> final(self).simulation_nanos == saturate_u64(
                old(self).simulation_nanos + delta,
            ),
            !old(self).is_paused ==> exists|e: int|
                0 <= e <= u64::MAX && delta == saturate_u64(
                    #[trigger] scaled_nanos(e, old(self).speed_tenths as int),
                ),
    {
        let elapsed = self.elapsed_nanos();
        let delta = self.advance(elapsed);
        proof {
            assert(old(self).is_paused || delta == saturate_u64(
                scaled_nanos(elapsed as int, old(self).speed_tenths as int),
            ));
        }
        self.last_update = now_instant();
        delta
    }

    /// The target duration of one frame, in nanoseconds: one second
    /// divided by the configured frame rate.
    pub fn target_frame_duration(&self) -> (r: u64)
        requires
            self.target_fps >= 1,
        ensures
            r == 1_000_000_000u64 / self.target_fps as u64,
    {
        1_000_000_000 / (self.target_fps as u64)
    }

    /// Renders the accumulated simulation time with the largest non-zero
    /// unit first: days, hours, minutes, seconds, with every lower unit
    /// shown down to seconds once a higher one appears.
    pub fn format_time(&self) -> (r: String)
        ensures
            r@ == time_text((self.simulation_nanos / 1_000_000_000) as nat),
    {
        let total_secs: u64 = self.simulation_nanos / 1_000_000_000;
        let days: u64 = total_secs / 86400;
        let hours: u64 = (total_secs % 86400) / 3600;
        let minutes: u64 = (total_secs % 3600) / 60;
        let seconds: u64 = total_secs % 60;

        let mut s = String::new();
        if days > 0 {
            push_decimal(&mut s, days);
            s.append("d ");
            push_decimal(&mut s, hours);
            s.append("h ");
            push_decimal(&mut s, minutes);
            s.append("m ");
            push_decimal(&mut s, seconds);
            s.append("s");
        } else if hours > 0 {
            push_decimal(&mut s, hours);
            s.append("h ");
            push_decimal(&mut s, minutes);
            s.append("m ");
            push_decimal(&mut s, seconds);
            s.append("s");
        } else if minutes > 0 {
            push_decimal(&mut s, minutes);
            s.append("m ");
            push_decimal(&mut s, seconds);
            s.append("s");
        } else {
            push_decimal(&mut s, seconds);
            s.append("s");
        }
        proof {
            assert(s@ =~= time_text((self.simulation_nanos / 1_000_000_000) as nat));
        }
        s
    }
}

/// The decimal digit character for `d`.
pub open spec fn dec_digit(d: int) -> char {
    if d == 0 {
        '0'
    } else if d == 1 {
        '1'
    } else if d == 2 {
        '2'
    } else if d == 3 {
        '3'
    } else if d == 4 {
        '4'
    } else if d == 5 {
        '5'
    } else if d == 6 {
        '6'
    } else if d == 7 {
        '7'
    } else if d == 8 {
        '8'
    } else {
        '9'
    }
}

/// The decimal digits of `n`, most significant first, with no leading
/// zeros (a single `'0'` for zero).
pub open spec fn dec_digits(n: nat) -> Seq<char>
    decreases n,
{
    if n < 10 {
        seq![dec_digit(n as int)]
    } else {
        dec_digits(n / 10) + seq![dec_digit((n % 10) as int)]
    }
}

/// The rendering of `total_secs` of simulation time: the largest
/// non-zero unit of days, hours, minutes and seconds first, every lower
/// unit shown down to seconds once a higher one appears.
pub open spec fn time_text(total_secs: nat) -> Seq<char> {
    let days = total_secs / 86400;
    let hours = (total_secs % 86400) / 3600;
    let minutes = (total_secs % 3600) / 60;
    let seconds = total_secs % 60;
    if days > 0 {
        dec_digits(days) + "d "@ + dec_digits(hours) + "h "@ + dec_digits(minutes) + "m "@
            + dec_digits(seconds) + "s"@
    } else if hours > 0 {
        dec_digits(hours) + "h "@ + dec_digits(minutes) + "m "@ + dec_digits(seconds) + "s"@
    } else if minutes > 0 {
        dec_digits(minutes) + "m "@ + dec_digits(seconds) + "s"@
    } else {
        dec_digits(seconds) + "s"@
    }
}

/// The string literal for one decimal digit.
fn digit_str(d: u64) -> (r: &'static str)
    requires
        d < 10,
    ensures
        r@ == seq![dec_digit(d as int)],
{
    match d {
        0 => {
            proof {
                reveal_strlit("0");
                assert("0"@ =~= seq![dec_digit(0)]);
            }
            "0"
        },
        1 => {
            proof {
                reveal_strlit("1");
                assert("1"@ =~= seq![dec_digit(1)]);
            }
            "1"
        },
        2 => {
            proof {
                reveal_strlit("2");
                assert("2"@ =~= seq![dec_digit(2)]);
            }
            "2"
        },
        3 => {
            proof {
                reveal_strlit("3");
                assert("3"@ =~= seq![dec_digit(3)]);
            }
            "3"
        },
        4 => {
            proof {
                reveal_strlit("4");
                assert("4"@ =~= seq![dec_digit(4)]);
            }
            "4"
        },
        5 => {
            proof {
                reveal_strlit("5");
                assert("5"@ =~= seq![dec_digit(5)]);
            }
            "5"
        },
        6 => {
            proof {
                reveal_strlit("6");
                assert("6"@ =~= seq![dec_digit(6)]);
            }
            "6"
        },
        7 => {
            proof {
                reveal_strlit("7");
                assert("7"@ =~= seq![dec_digit(7)]);
            }
            "7"
        },
        8 => {
            proof {
                reveal_strlit("8");
                assert("8"@ =~= seq![dec_digit(8)]);
            }
            "8"
        },
        _ => {
            proof {
                reveal_strlit("9");
                assert("9"@ =~= seq![dec_digit(9)]);
            }
            "9"
        },
    }
}

/// Appends the decimal digits of `n` to `s`.
fn push_decimal(s: &mut String, n: u64)
    ensures
        final(s)@ == old(s)@ + dec_digits(n as nat),
    decreases n,
{
    if n >= 10 {
        proof {
            assert(n / 10 < n);
        }
        push_decimal(s, n / 10);
        s.append(digit_str(n % 10));
        proof {
            assert(final(s)@ =~= old(s)@ + dec_digits(n as nat));
        }
    } else {
        s.append(digit_str(n));
        proof {
            assert(final(s)@ =~= old(s)@ + dec_digits(n as nat));
        }
    }
}

/// Law: from any ladder rung, increasing the speed and then decreasing
/// it lands on a rung no greater than the origin, and both moves land
/// on rungs of the ladder.
pub proof fn lemma_speed_round_trip(t: u64)
    requires
        is_speed_rung(t),
    ensures
        is_speed_rung(next_rung_up(t)),
        is_speed_rung(next_rung_down(t)),
        next_rung_down(next_rung_up(t)) <= t,
{
}

/// Law: at the ladder's extremes, repeated moves in the same direction
/// stay put.
pub proof fn lemma_speed_clamped_at_ends()
    ensures
        next_rung_up(500) == 500,
        next_rung_down(1) == 1,
{
}

} // verus!
