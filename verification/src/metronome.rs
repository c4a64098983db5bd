//! The metronome's timing core: shared settings model, tempo derivation,
//! and the engine state machine.
//!
//! The application shell keeps the fields of [`MetronomeSettings`] in
//! process-wide atomics so the control surface and the engine thread can
//! exchange them without locking. The engine thread owns a [`Metronome`],
//! the verified model of that state: each scheduler wake it refreshes the
//! model from the atomics, asks [`Metronome::cycle`] for the cycle's
//! decision, carries the decision out (play a click, halt, or just sleep),
//! and publishes the counters back. Every decision and every counter
//! update is proved here; the shell only moves values across the thread
//! boundary.

use vstd::prelude::*;

verus! {

use vstd::arithmetic::div_mod::{
    lemma_div_by_self,
    lemma_div_is_ordered,
    lemma_div_nonincreasing,
    lemma_fundamental_div_mod,
    lemma_fundamental_div_mod_converse,
    lemma_mod_pos_bound,
};
use vstd::arithmetic::mul::lemma_mul_inequality;

/// Nanoseconds in one minute, the basis of the beats-per-minute scale.
pub const NANOS_PER_MINUTE: u64 = 60_000_000_000;

/// Largest accepted notated beats-per-bar. The bound keeps the effective
/// per-bar tick count computable in 64 bits under the densest subdivision,
/// which multiplies the notated count by at most 12.
pub const MAX_TS_NOTE: u64 = u64::MAX / 12;

/// Numerator of the ticks-per-notated-beat ratio: sixteenth subdivision
/// puts four clicks in a beat, eighth subdivision two (sixteenths subsume
/// eighths when both are on), and triplet mode stretches three clicks over
/// every two beats.
pub open spec fn ticks_per_beat_num(triplets: bool, eights: bool, sixteens: bool) -> int {
    (if sixteens {
        4int
    } else if eights {
        2int
    } else {
        1int
    }) * (if triplets {
        3int
    } else {
        1int
    })
}

/// Denominator of the ticks-per-notated-beat ratio; only triplet mode
/// makes it fractional.
pub open spec fn ticks_per_beat_den(triplets: bool) -> int {
    if triplets {
        2int
    } else {
        1int
    }
}

/// The per-bar tick count after triplet and subdivision expansion of the
/// notated time signature; a 4-beat bar in triplet mode holds 6 ticks.
pub open spec fn effective_beats_spec(ts_note: u64, triplets: bool, eights: bool, sixteens: bool) -> int {
    (ts_note * ticks_per_beat_num(triplets, eights, sixteens)) / ticks_per_beat_den(triplets)
}

/// The nanosecond delay between successive ticks: one notated beat lasts
/// `NANOS_PER_MINUTE / bpm`, and each beat holds `num / den` ticks.
pub open spec fn ns_delay_spec(bpm: u64, triplets: bool, eights: bool, sixteens: bool) -> int {
    (NANOS_PER_MINUTE * ticks_per_beat_den(triplets)) / (bpm * ticks_per_beat_num(
        triplets,
        eights,
        sixteens,
    ))
}

/// The note values a beat may carry: quarter through thirty-second notes.
pub open spec fn valid_ts_value(v: u64) -> bool {
    v == 4 || v == 8 || v == 16 || v == 32
}

/// Runtime check matching [`valid_ts_value`], for the control surface to
/// gate a signature edit before it reaches the verified setters.
pub fn ts_value_is_valid(v: u64) -> (r: bool)
    ensures
        r == valid_ts_value(v),
{
    v == 4 || v == 8 || v == 16 || v == 32
}

/// Computes the effective per-bar tick count.
pub fn effective_beats_per_bar(ts_note: u64, triplets: bool, eights: bool, sixteens: bool) -> (r:
    u64)
    requires
        1 <= ts_note <= MAX_TS_NOTE,
    ensures
        r == effective_beats_spec(ts_note, triplets, eights, sixteens),
        1 <= r,
{
    let base: u64 = if sixteens {
        4
    } else if eights {
        2
    } else {
        1
    };
    let num: u64 = if triplets {
        base * 3
    } else {
        base
    };
    let den: u64 = if triplets {
        2
    } else {
        1
    };
    proof {
        assert(num == ticks_per_beat_num(triplets, eights, sixteens));
        assert(den == ticks_per_beat_den(triplets));
        lemma_mul_inequality(ts_note as int, MAX_TS_NOTE as int, num as int);
        lemma_mul_inequality(num as int, 12int, MAX_TS_NOTE as int);
        assert(MAX_TS_NOTE as int * num as int == num as int * MAX_TS_NOTE as int) by (nonlinear_arith);
        assert(12int * MAX_TS_NOTE as int <= u64::MAX as int);
    }
    let total: u64 = ts_note * num;
    proof {
        lemma_mul_inequality(1int, ts_note as int, num as int);
        assert(1int * num as int == num) by (nonlinear_arith);
        lemma_div_is_ordered(den as int, total as int, den as int);
        lemma_div_by_self(den as int);
    }
    total / den
}

/// The inter-tick delay always fits in 64 bits: it never exceeds two
/// minutes of nanoseconds.
pub proof fn lemma_ns_delay_in_range(bpm: u64, triplets: bool, eights: bool, sixteens: bool)
    requires
        1 <= bpm,
    ensures
        0 <= ns_delay_spec(bpm, triplets, eights, sixteens) <= 2 * NANOS_PER_MINUTE,
{
    let num = ticks_per_beat_num(triplets, eights, sixteens);
    let den = ticks_per_beat_den(triplets);
    assert(1 <= num && num <= 12);
    assert(1 <= bpm as int * num) by (nonlinear_arith)
        requires
            1 <= bpm as int,
            1 <= num,
    ;
    let divisor = bpm as int * num;
    lemma_div_nonincreasing(NANOS_PER_MINUTE as int * den, divisor);
    lemma_div_is_ordered(0int, NANOS_PER_MINUTE as int * den, divisor);
    assert(0int / divisor == 0int) by (nonlinear_arith)
        requires
            1 <= divisor,
    ;
}

/// Computes the nanosecond inter-tick delay from the tempo and the
/// subdivision flags.
pub fn compute_ns_delay(bpm: u64, triplets: bool, eights: bool, sixteens: bool) -> (r: u64)
    requires
        1 <= bpm,
    ensures
        r == ns_delay_spec(bpm, triplets, eights, sixteens),
{
    let base: u64 = if sixteens {
        4
    } else if eights {
        2
    } else {
        1
    };
    let num: u64 = if triplets {
        base * 3
    } else {
        base
    };
    let den: u64 = if triplets {
        2
    } else {
        1
    };
    proof {
        assert(num == ticks_per_beat_num(triplets, eights, sixteens));
        assert(den == ticks_per_beat_den(triplets));
        assert(1 <= bpm as int * num as int <= u64::MAX as int * 12) by (nonlinear_arith)
            requires
                1 <= bpm as int <= u64::MAX as int,
                1 <= num as int <= 12,
        ;
        assert(NANOS_PER_MINUTE as int * den as int <= 2 * NANOS_PER_MINUTE as int)
            by (nonlinear_arith)
            requires
                den as int <= 2,
        ;
    }
    let numerator: u128 = (NANOS_PER_MINUTE as u128) * (den as u128);
    let divisor: u128 = (bpm as u128) * (num as u128);
    proof {
        lemma_div_nonincreasing(numerator as int, divisor as int);
    }
    let d: u128 = numerator / divisor;
    d as u64
}

/// A settings record after a tempo edit: the new tempo is in, and the
/// inter-tick delay is already re-derived from it.
pub open spec fn after_set_bpm(s: MetronomeSettings, bpm: u64) -> MetronomeSettings {
    MetronomeSettings {
        bpm,
        ns_delay: ns_delay_spec(bpm, s.ts_triplets, s.sub_eights, s.sub_sixteens) as u64,
        ..s
    }
}

/// The immutable value object the first settings record is built from.
/// Volume is an integer percentage on the 0–100 scale.
#[derive(Clone, Copy)]
pub struct InitMetronomeSettings {
    pub bpm: u64,
    pub ts_note: u64,
    pub ts_value: u64,
    pub volume: u64,
    pub debug: bool,
    pub is_running: bool,
}

/// The metronome's shared state, as the engine thread sees it.
///
/// The control surface owns `bpm`, the time-signature and subdivision
/// fields, `volume`, `selected_sound` and `is_running`; the engine owns
/// the beat and bar counters, `tick_count` and `error`. `ns_delay` and
/// `beats_per_bar` are derived and recomputed by every setter that
/// touches one of their inputs.
#[verifier::ext_equal]
pub struct MetronomeSettings {
    pub bpm: u64,
    pub ns_delay: u64,
    pub ts_note: u64,
    pub ts_value: u64,
    pub ts_triplets: bool,
    pub sub_eights: bool,
    pub sub_sixteens: bool,
    pub current_beat_count: u64,
    pub beats_per_bar: u64,
    pub bar_count: u64,
    pub is_running: bool,
    pub volume: u64,
    pub sound_list: Vec<String>,
    pub selected_sound: usize,
    pub tick_count: u64,
    pub debug: bool,
    pub error: bool,
}

impl MetronomeSettings {
    /// The record's invariant: a positive tempo, a sane time signature,
    /// a selected sound inside the list, and both derived fields in step
    /// with their inputs.
    pub open spec fn wf(&self) -> bool {
        &&& 1 <= self.bpm
        &&& 1 <= self.ts_note <= MAX_TS_NOTE
        &&& valid_ts_value(self.ts_value)
        &&& self.selected_sound < self.sound_list.len()
        &&& self.beats_per_bar == effective_beats_spec(
            self.ts_note,
            self.ts_triplets,
            self.sub_eights,
            self.sub_sixteens,
        )
        &&& self.ns_delay == ns_delay_spec(
            self.bpm,
            self.ts_triplets,
            self.sub_eights,
            self.sub_sixteens,
        )
    }

    /// Builds the first settings record: subdivisions off, counters at
    /// their reset values, no error, and the derived fields computed.
    pub fn new(init: InitMetronomeSettings, sound_list: Vec<String>, selected_sound: usize) -> (s:
        MetronomeSettings)
        requires
            1 <= init.bpm,
            1 <= init.ts_note <= MAX_TS_NOTE,
            valid_ts_value(init.ts_value),
            selected_sound < sound_list.len(),
        ensures
            s.wf(),
            s.bpm == init.bpm,
            s.ts_note == init.ts_note,
            s.ts_value == init.ts_value,
            !s.ts_triplets && !s.sub_eights && !s.sub_sixteens,
            s.current_beat_count == 0,
            s.bar_count == 1,
            s.is_running == init.is_running,
            s.volume == init.volume,
            s.sound_list == sound_list,
            s.selected_sound == selected_sound,
            s.tick_count == 0,
            s.debug == init.debug,
            !s.error,
    {
        let ns_delay = compute_ns_delay(init.bpm, false, false, false);
        let beats_per_bar = effective_beats_per_bar(init.ts_note, false, false, false);
        MetronomeSettings {
            bpm: init.bpm,
            ns_delay,
            ts_note: init.ts_note,
            ts_value: init.ts_value,
            ts_triplets: false,
            sub_eights: false,
            sub_sixteens: false,
            current_beat_count: 0,
            beats_per_bar,
            bar_count: 1,
            is_running: init.is_running,
            volume: init.volume,
            sound_list,
            selected_sound,
            tick_count: 0,
            debug: init.debug,
            error: false,
        }
    }

    /// Sets a new tempo and recomputes the inter-tick delay from it, so
    /// the change is live on the engine's very next comparison.
    pub fn set_bpm(&mut self, bpm: u64)
        requires
            old(self).wf(),
            1 <= bpm,
        ensures
            final(self).wf(),
            *final(self) == after_set_bpm(*old(self), bpm),
            final(self).ns_delay == ns_delay_spec(
                bpm,
                old(self).ts_triplets,
                old(self).sub_eights,
                old(self).sub_sixteens,
            ),
    {
        self.bpm = bpm;
        self.ns_delay = compute_ns_delay(bpm, self.ts_triplets, self.sub_eights, self.sub_sixteens);
        proof {
            lemma_ns_delay_in_range(bpm, self.ts_triplets, self.sub_eights, self.sub_sixteens);
        }
    }

    /// Sets a new time signature and recomputes both derived fields.
    pub fn set_time_signature(&mut self, ts_note: u64, ts_value: u64)
        requires
            old(self).wf(),
            1 <= ts_note <= MAX_TS_NOTE,
            valid_ts_value(ts_value),
        ensures
            final(self).wf(),
            *final(self) == (MetronomeSettings {
                ts_note,
                ts_value,
                ns_delay: final(self).ns_delay,
                beats_per_bar: final(self).beats_per_bar,
                ..*old(self)
            }),
            final(self).beats_per_bar == effective_beats_spec(
                ts_note,
                old(self).ts_triplets,
                old(self).sub_eights,
                old(self).sub_sixteens,
            ),
            final(self).ns_delay == old(self).ns_delay,
    {
        self.ts_note = ts_note;
        self.ts_value = ts_value;
        self.ns_delay = compute_ns_delay(
            self.bpm,
            self.ts_triplets,
            self.sub_eights,
            self.sub_sixteens,
        );
        self.beats_per_bar = effective_beats_per_bar(
            ts_note,
            self.ts_triplets,
            self.sub_eights,
            self.sub_sixteens,
        );
    }

    /// Sets the triplet and subdivision flags and recomputes both
    /// derived fields.
    pub fn set_subdivisions(&mut self, triplets: bool, eights: bool, sixteens: bool)
        requires
            old(self).wf(),
        ensures
            final(self).wf(),
            *final(self) == (MetronomeSettings {
                ts_triplets: triplets,
                sub_eights: eights,
                sub_sixteens: sixteens,
                ns_delay: final(self).ns_delay,
                beats_per_bar: final(self).beats_per_bar,
                ..*old(self)
            }),
            final(self).ns_delay == ns_delay_spec(old(self).bpm, triplets, eights, sixteens),
            final(self).beats_per_bar == effective_beats_spec(
                old(self).ts_note,
                triplets,
                eights,
                sixteens,
            ),
    {
        self.ts_triplets = triplets;
        self.sub_eights = eights;
        self.sub_sixteens = sixteens;
        self.ns_delay = compute_ns_delay(self.bpm, triplets, eights, sixteens);
        self.beats_per_bar = effective_beats_per_bar(self.ts_note, triplets, eights, sixteens);
    }

    /// Sets the playback volume, an integer percentage. The unsigned
    /// representation already holds the non-negative clamp.
    pub fn set_volume(&mut self, volume: u64)
        requires
            old(self).wf(),
        ensures
            final(self).wf(),
            *final(self) == (MetronomeSettings { volume, ..*old(self) }),
    {
        self.volume = volume;
    }

    /// Selects a sound from the list.
    pub fn select_sound(&mut self, index: usize)
        requires
            old(self).wf(),
            index < old(self).sound_list.len(),
        ensures
            final(self).wf(),
            *final(self) == (MetronomeSettings { selected_sound: index, ..*old(self) }),
    {
        self.selected_sound = index;
    }

    /// Switches the diagnostic bookkeeping on or off.
    pub fn set_debug(&mut self, debug: bool)
        requires
            old(self).wf(),
        ensures
            final(self).wf(),
            *final(self) == (MetronomeSettings { debug, ..*old(self) }),
    {
        self.debug = debug;
    }

    /// Clears the error flag; the control surface must do this before a
    /// restart, or the engine halts again at once.
    pub fn clear_error(&mut self)
        requires
            old(self).wf(),
        ensures
            final(self).wf(),
            *final(self) == (MetronomeSettings { error: false, ..*old(self) }),
    {
        self.error = false;
    }
}

/// The single error kind at the engine boundary: a click's sound asset
/// could not be found or decoded. Every other playback failure is coerced
/// into it, since the engine only needs a binary success signal.
#[derive(Clone, Copy, PartialEq, Eq, Structural, Debug)]
pub struct SoundLoadError;

/// The engine's observable state on a given wake.
#[derive(Clone, Copy, PartialEq, Eq, Structural, Debug)]
pub enum EngineState {
    /// Not running; counters sit at their reset values.
    Idle,
    /// Running, and the next tick is the first since the start: it fires
    /// immediately, with no initial delay.
    Priming,
    /// Running; ticks are paced by comparing elapsed time to the delay.
    Steady,
    /// Running with the error flag set: terminal until a fresh start
    /// clears the flag.
    Faulted,
}

/// What one wake of the timing loop asks of the shell.
#[derive(Clone, Copy, PartialEq, Eq, Structural, Debug)]
pub enum CycleAction {
    /// Nothing to do this wake; sleep out the refresh period.
    Wait,
    /// Dispatch one click now and record the trigger time.
    Trigger,
    /// Leave the timing loop; the engine has faulted.
    Halt,
}

/// The beat counter after one successful tick: it wraps to the first
/// beat once it has reached the bar's effective tick count, and steps
/// forward otherwise. Wrapping on reaching-or-exceeding means a live
/// signature or subdivision edit that shrinks the bar below the current
/// in-bar count still wraps on the very next tick, instead of stranding
/// the counter past the bar for good.
pub open spec fn next_beat(beat: int, beats_per_bar: int) -> int {
    if beat >= beats_per_bar {
        1int
    } else {
        beat + 1
    }
}

/// The bar counter after one successful tick: it grows exactly when the
/// beat counter wraps.
pub open spec fn next_bar(beat: int, beats_per_bar: int, bar: int) -> int {
    if beat >= beats_per_bar {
        bar + 1
    } else {
        bar
    }
}

/// The timing engine: the verified model the engine thread works on.
#[verifier::ext_equal]
pub struct Metronome {
    pub settings: MetronomeSettings,
    /// Whether the next tick is the first since the last start.
    pub priming: bool,
}

/// A stop observed by the engine: the running flag goes down, the
/// counters return to their reset values, and the next start primes a
/// fresh first tick. Observing a start only raises the flag.
pub open spec fn after_observe_running(m: Metronome, running: bool) -> Metronome {
    if running {
        Metronome { settings: MetronomeSettings { is_running: true, ..m.settings }, ..m }
    } else {
        Metronome {
            settings: MetronomeSettings {
                is_running: false,
                current_beat_count: 0,
                bar_count: 1,
                ..m.settings
            },
            priming: true,
        }
    }
}

impl Metronome {
    pub open spec fn wf(&self) -> bool {
        self.settings.wf()
    }

    /// The state machine's state, read off the model.
    pub open spec fn state_spec(&self) -> EngineState {
        if !self.settings.is_running {
            EngineState::Idle
        } else if self.settings.error {
            EngineState::Faulted
        } else if self.priming {
            EngineState::Priming
        } else {
            EngineState::Steady
        }
    }

    /// The decision one wake takes, given the time elapsed since the
    /// last trigger: an idle engine waits, a faulted one halts, a priming
    /// one triggers at once, and a steady one triggers exactly when the
    /// elapsed time has reached the inter-tick delay.
    pub open spec fn cycle_decision(&self, elapsed_ns: u64) -> CycleAction {
        match self.state_spec() {
            EngineState::Idle => CycleAction::Wait,
            EngineState::Faulted => CycleAction::Halt,
            EngineState::Priming => CycleAction::Trigger,
            EngineState::Steady => if elapsed_ns >= self.settings.ns_delay {
                CycleAction::Trigger
            } else {
                CycleAction::Wait
            },
        }
    }

    /// Takes ownership of a settings record as the engine thread's model.
    pub fn new(settings: MetronomeSettings) -> (m: Metronome)
        ensures
            m.settings == settings,
            m.priming,
    {
        Metronome { settings, priming: true }
    }

    /// Reports the engine's current state.
    pub fn state(&self) -> (st: EngineState)
        ensures
            st == self.state_spec(),
    {
        if !self.settings.is_running {
            EngineState::Idle
        } else if self.settings.error {
            EngineState::Faulted
        } else if self.priming {
            EngineState::Priming
        } else {
            EngineState::Steady
        }
    }

    /// One wake of the timing loop. The settings are untouched; the
    /// priming flag falls exactly when the first tick fires. The delay
    /// the decision compares against is the one in the settings now, so
    /// a tempo edit takes effect on this very comparison.
    pub fn cycle(&mut self, elapsed_ns: u64) -> (a: CycleAction)
        ensures
            a == old(self).cycle_decision(elapsed_ns),
            final(self).settings == old(self).settings,
            final(self).priming == (old(self).priming && a != CycleAction::Trigger),
    {
        if !self.settings.is_running {
            CycleAction::Wait
        } else if self.settings.error {
            CycleAction::Halt
        } else if self.priming {
            self.priming = false;
            CycleAction::Trigger
        } else if elapsed_ns >= self.settings.ns_delay {
            CycleAction::Trigger
        } else {
            CycleAction::Wait
        }
    }

    /// Advances the beat and bar counters by one tick.
    pub fn beat_count(&mut self)
        requires
            old(self).settings.bar_count < u64::MAX,
        ensures
            final(self).settings.current_beat_count == next_beat(
                old(self).settings.current_beat_count as int,
                old(self).settings.beats_per_bar as int,
            ),
            final(self).settings.bar_count == next_bar(
                old(self).settings.current_beat_count as int,
                old(self).settings.beats_per_bar as int,
                old(self).settings.bar_count as int,
            ),
            final(self).settings == (MetronomeSettings {
                current_beat_count: final(self).settings.current_beat_count,
                bar_count: final(self).settings.bar_count,
                ..old(self).settings
            }),
            final(self).priming == old(self).priming,
    {
        let current_beat_count = self.settings.current_beat_count;
        if current_beat_count >= self.settings.beats_per_bar {
            self.settings.current_beat_count = 1;
            self.settings.bar_count = self.settings.bar_count + 1;
        } else {
            self.settings.current_beat_count = current_beat_count + 1;
        }
    }

    /// Books the outcome a dispatched tick reported back. A tick either
    /// fully succeeds — it played, and it counts — or it raises the error
    /// flag and leaves the counters where they stood: there is no
    /// partial-failure mode.
    pub fn complete_tick(&mut self, outcome: Result<(), SoundLoadError>)
        requires
            outcome is Ok ==> old(self).settings.bar_count < u64::MAX,
        ensures
            final(self).settings.error == (old(self).settings.error || outcome is Err),
            final(self).settings.current_beat_count == (if outcome is Ok {
                next_beat(
                    old(self).settings.current_beat_count as int,
                    old(self).settings.beats_per_bar as int,
                )
            } else {
                old(self).settings.current_beat_count as int
            }),
            final(self).settings.bar_count == (if outcome is Ok {
                next_bar(
                    old(self).settings.current_beat_count as int,
                    old(self).settings.beats_per_bar as int,
                    old(self).settings.bar_count as int,
                )
            } else {
                old(self).settings.bar_count as int
            }),
            final(self).settings == (MetronomeSettings {
                error: final(self).settings.error,
                current_beat_count: final(self).settings.current_beat_count,
                bar_count: final(self).settings.bar_count,
                ..old(self).settings
            }),
            final(self).priming == old(self).priming,
    {
        match outcome {
            Ok(()) => self.beat_count(),
            Err(SoundLoadError) => self.settings.error = true,
        }
    }

    /// Takes in the running flag as the shell last read it. A stop resets
    /// the counters and primes the next start's first tick; stopping an
    /// already stopped engine changes nothing further.
    pub fn observe_running(&mut self, running: bool)
        ensures
            *final(self) == after_observe_running(*old(self), running),
    {
        self.settings.is_running = running;
        if !running {
            self.settings.bar_count = 1;
            self.settings.current_beat_count = 0;
            self.priming = true;
        }
    }

    /// Steps the diagnostic scheduler-wake counter, wrapping to zero at
    /// the top of the range.
    pub fn bump_tick_count(&mut self)
        ensures
            final(self).settings.tick_count == (if old(self).settings.tick_count == u64::MAX {
                0int
            } else {
                old(self).settings.tick_count + 1
            }),
            final(self).settings == (MetronomeSettings {
                tick_count: final(self).settings.tick_count,
                ..old(self).settings
            }),
            final(self).priming == old(self).priming,
    {
        let current = self.settings.tick_count;
        self.settings.tick_count = if current == u64::MAX {
            0
        } else {
            current + 1
        };
    }

    /// The name of the sound the next tick should play.
    pub fn selected_sound_name(&self) -> (r: &String)
        requires
            self.settings.selected_sound < self.settings.sound_list.len(),
        ensures
            r == self.settings.sound_list[self.settings.selected_sound as int],
    {
        &self.settings.sound_list[self.settings.selected_sound]
    }
}

/// The bounded sleep before the next wake: the fixed refresh period less
/// the time already spent since the last refresh, or the whole period
/// when the loop is already overdue.
pub fn refresh_timeout(refresh_ns: u64, since_refresh_ns: u64) -> (r: u64)
    ensures
        r == (if since_refresh_ns <= refresh_ns {
            refresh_ns - since_refresh_ns
        } else {
            refresh_ns as int
        }),
{
    if since_refresh_ns <= refresh_ns {
        refresh_ns - since_refresh_ns
    } else {
        refresh_ns
    }
}

/// The beat and bar counters after `n` successful ticks from the start
/// values `(beat0, bar0)`, with a fixed effective per-bar tick count.
pub open spec fn counters_after_ticks(n: nat, beats_per_bar: int, beat0: int, bar0: int) -> (
    int,
    int,
)
    decreases n,
{
    if n == 0 {
        (beat0, bar0)
    } else {
        let prev = counters_after_ticks((n - 1) as nat, beats_per_bar, beat0, bar0);
        (next_beat(prev.0, beats_per_bar), next_bar(prev.0, beats_per_bar, prev.1))
    }
}

/// Beat counting in closed form: starting from beat 0, after `n`
/// successful ticks with effective per-bar count `beats_per_bar`, the
/// beat counter reads `((n - 1) % beats_per_bar) + 1` and the bar counter
/// has grown by `(n - 1) / beats_per_bar`.
pub proof fn lemma_beat_counting(n: nat, beats_per_bar: int, bar0: int)
    requires
        1 <= beats_per_bar,
        1 <= n,
    ensures
        counters_after_ticks(n, beats_per_bar, 0, bar0).0 == ((n - 1) % beats_per_bar) + 1,
        counters_after_ticks(n, beats_per_bar, 0, bar0).1 == bar0 + (n - 1) / beats_per_bar,
    decreases n,
{
    let b = beats_per_bar;
    let prev = counters_after_ticks((n - 1) as nat, b, 0, bar0);
    assert(counters_after_ticks(n, b, 0, bar0) == (
        next_beat(prev.0, b),
        next_bar(prev.0, b, prev.1),
    ));
    if n == 1 {
        assert(prev == (0int, bar0));
        lemma_fundamental_div_mod_converse(0int, b, 0int, 0int);
    } else {
        lemma_beat_counting((n - 1) as nat, b, bar0);
        let m = n - 2;
        let q = m / b;
        let r = m % b;
        lemma_mod_pos_bound(m, b);
        lemma_fundamental_div_mod(m, b);
        assert(m == b * q + r);
        assert(prev == (r + 1, bar0 + q));
        if r + 1 == b {
            assert(m + 1 == (q + 1) * b + 0) by (nonlinear_arith)
                requires
                    m == b * q + r,
                    r + 1 == b,
            ;
            lemma_fundamental_div_mod_converse(m + 1, b, q + 1, 0int);
            assert((n - 1) % b == 0 && (n - 1) / b == q + 1);
        } else {
            assert(m + 1 == q * b + (r + 1)) by (nonlinear_arith)
                requires
                    m == b * q + r,
            ;
            lemma_fundamental_div_mod_converse(m + 1, b, q, r + 1);
            assert((n - 1) % b == r + 1 && (n - 1) / b == q);
        }
    }
}

/// Within a bar: from the first beat, each of the first `beats_per_bar - 1`
/// ticks only steps the beat counter forward.
proof fn lemma_ticks_within_bar(k: nat, beats_per_bar: int, bar0: int)
    requires
        1 <= beats_per_bar,
        k < beats_per_bar,
    ensures
        counters_after_ticks(k, beats_per_bar, 1, bar0) == (k as int + 1, bar0),
    decreases k,
{
    if k > 0 {
        lemma_ticks_within_bar((k - 1) as nat, beats_per_bar, bar0);
    }
}

/// Wraparound: from the first beat of a bar, exactly one full bar of
/// successful ticks brings the beat counter back to 1 and grows the bar
/// counter by one — for every effective per-bar count and every starting
/// bar number.
pub proof fn lemma_wraparound_full_bar(beats_per_bar: int, bar0: int)
    requires
        1 <= beats_per_bar,
    ensures
        counters_after_ticks(beats_per_bar as nat, beats_per_bar, 1, bar0) == (1int, bar0 + 1),
{
    let b = beats_per_bar;
    lemma_ticks_within_bar((b - 1) as nat, b, bar0);
    let prev = counters_after_ticks((b - 1) as nat, b, 1, bar0);
    assert(prev == (b, bar0));
    assert(counters_after_ticks(b as nat, b, 1, bar0) == (
        next_beat(prev.0, b),
        next_bar(prev.0, b, prev.1),
    ));
}

/// Stopping is idempotent: a second stop observed right after a first
/// changes nothing further, and either way the counters sit at their
/// reset values. (And neither call can fail: `observe_running` has no
/// precondition.)
pub proof fn lemma_stop_idempotent(m: Metronome)
    ensures
        after_observe_running(after_observe_running(m, false), false) == after_observe_running(
            m,
            false,
        ),
        after_observe_running(m, false).settings.current_beat_count == 0,
        after_observe_running(m, false).settings.bar_count == 1,
{
    assert(after_observe_running(after_observe_running(m, false), false) =~= after_observe_running(
        m,
        false,
    ));
}

/// The verifiable core of tick pacing: a steady engine triggers exactly
/// when the elapsed time since the last trigger has reached the
/// inter-tick delay — which, on a well-formed record, is the delay
/// derived from the current tempo and subdivision flags.
pub proof fn lemma_steady_trigger_threshold(m: Metronome, elapsed_ns: u64)
    requires
        m.wf(),
        m.state_spec() == EngineState::Steady,
    ensures
        (m.cycle_decision(elapsed_ns) == CycleAction::Trigger) <==> elapsed_ns >= ns_delay_spec(
            m.settings.bpm,
            m.settings.ts_triplets,
            m.settings.sub_eights,
            m.settings.sub_sixteens,
        ),
{
}

/// A tempo edit is live: on the very next comparison after a tempo edit,
/// a steady engine's decision is taken against the delay derived from the
/// new tempo — not against the delay in force when the last tick fired.
pub proof fn lemma_live_tempo_change(m: Metronome, new_bpm: u64, elapsed_ns: u64)
    requires
        m.wf(),
        1 <= new_bpm,
        m.state_spec() == EngineState::Steady,
    ensures
        ({
            let edited = Metronome { settings: after_set_bpm(m.settings, new_bpm), ..m };
            edited.cycle_decision(elapsed_ns) == (if elapsed_ns >= ns_delay_spec(
                new_bpm,
                m.settings.ts_triplets,
                m.settings.sub_eights,
                m.settings.sub_sixteens,
            ) {
                CycleAction::Trigger
            } else {
                CycleAction::Wait
            })
        }),
{
    lemma_ns_delay_in_range(
        new_bpm,
        m.settings.ts_triplets,
        m.settings.sub_eights,
        m.settings.sub_sixteens,
    );
}

} // verus!
