//! Wall-clock durations in ticks of the kernel clock.

use vstd::prelude::*;
use core::time::Duration;
use crate::kernel::TX_TIMER_TICKS_PER_SECOND;

verus! {

/// The length of one tick of the kernel clock, in milliseconds.
pub const MILLIS_PER_TICK: u128 = 10;

/// The length of one tick of the kernel clock, in nanoseconds.
pub const NANOS_PER_TICK: u128 = 10_000_000;

/// The nanoseconds in a duration: what `Duration::as_nanos` returns for it.
pub uninterp spec fn duration_nanos(d: Duration) -> u128;

/// Calls `core::time::Duration::as_nanos`, which returns the total number of nanoseconds
/// that the duration contains. The contract only gives that number its name,
/// [`duration_nanos`]; nothing is claimed of its size.
#[verifier::external_body]
fn as_nanos(d: &Duration) -> (nanos: u128)
    ensures
        nanos == duration_nanos(*d),
{
    d.as_nanos()
}

/// The least number of whole ticks that last at least `nanos` nanoseconds.
pub open spec fn whole_ticks(nanos: u128) -> nat {
    ((nanos + NANOS_PER_TICK - 1) / (NANOS_PER_TICK as int)) as nat
}

/// A number of ticks of the kernel clock.
#[derive(Clone, Copy, Debug, PartialEq, Eq)]
pub struct TxTicks(u32);

impl View for TxTicks {
    type V = u32;

    closed spec fn view(&self) -> u32 {
        self.0
    }
}

impl TxTicks {
    /// The tick word for `nanos` nanoseconds: the whole ticks, rounded up, of which the
    /// low 32 bits are kept.
    pub open spec fn word_of_nanos(nanos: u128) -> u32 {
        (whole_ticks(nanos) % 0x1_0000_0000) as u32
    }

    /// The ticks that last `nanos` nanoseconds. A part of a tick counts as a whole one,
    /// so that a duration shorter than a tick is one tick, never none. Of a count beyond
    /// the tick word the low 32 bits are kept.
    pub fn from_nanos(nanos: u128) -> (ticks: TxTicks)
        ensures
            ticks@ == Self::word_of_nanos(nanos),
    {
        let whole: u128 = nanos / NANOS_PER_TICK;
        let up: u128 = if nanos % NANOS_PER_TICK == 0 {
            whole
        } else {
            whole + 1
        };
        assert(up == whole_ticks(nanos));
        assert(up as u32 == up % 0x1_0000_0000) by (bit_vector);
        TxTicks(#[verifier::truncate] (up as u32))
    }

    /// The number of ticks, as the word that the kernel takes.
    pub fn ticks(&self) -> (word: u32)
        ensures
            word == self@,
    {
        self.0
    }
}

impl From<Duration> for TxTicks {
    /// The ticks that last as long as `d`, rounded up to whole ticks.
    fn from(d: Duration) -> (ticks: TxTicks)
        ensures
            ticks@ == TxTicks::word_of_nanos(duration_nanos(d)),
    {
        TxTicks::from_nanos(as_nanos(&d))
    }
}

impl vstd::std_specs::convert::FromSpecImpl<Duration> for TxTicks {
    open spec fn obeys_from_spec() -> bool {
        true
    }

    closed spec fn from_spec(d: Duration) -> TxTicks {
        TxTicks(TxTicks::word_of_nanos(duration_nanos(d)))
    }
}

impl From<TxTicks> for u32 {
    /// The number of ticks, as the word that the kernel takes.
    fn from(ticks: TxTicks) -> (word: u32)
        ensures
            word == ticks@,
    {
        ticks.0
    }
}

impl vstd::std_specs::convert::FromSpecImpl<TxTicks> for u32 {
    open spec fn obeys_from_spec() -> bool {
        true
    }

    closed spec fn from_spec(ticks: TxTicks) -> u32 {
        ticks.0
    }
}

/// The tick word of a duration: what the kernel is handed for it.
pub open spec fn ticks_of(d: Duration) -> u32 {
    TxTicks::word_of_nanos(duration_nanos(d))
}

/// Converts a duration to the tick word that the kernel takes for it.
pub fn duration_ticks(d: Duration) -> (word: u32)
    ensures
        word == ticks_of(d),
{
    let ticks = TxTicks::from(d);
    ticks.ticks()
}

/// The largest value that the reload register of the system timer holds.
pub const RELOAD_MAX: u32 = 0x00FF_FFFF;

/// The reload value that makes a timer that counts the cycles of a clock of `core_clock`
/// hertz wrap `ticks_per_second` times a second: one less than the cycles of one tick,
/// where that is a value from one to [`RELOAD_MAX`].
pub open spec fn reload_of(core_clock: u32, ticks_per_second: u32) -> Option<u32> {
    if ticks_per_second > 0 && 1 <= core_clock / ticks_per_second - 1 <= RELOAD_MAX {
        Some((core_clock / ticks_per_second - 1) as u32)
    } else {
        None
    }
}

/// Computes the reload value of the system timer for a kernel that counts
/// `ticks_per_second` ticks in a second on a core clock of `core_clock` hertz. There is
/// none without ticks, nor where a tick has fewer than two cycles or more than the
/// register can count.
pub fn tick_reload(core_clock: u32, ticks_per_second: u32) -> (reload: Option<u32>)
    ensures
        reload == reload_of(core_clock, ticks_per_second),
{
    if ticks_per_second == 0 {
        return None;
    }
    let cycles: u32 = core_clock / ticks_per_second;
    if cycles >= 2 && cycles - 1 <= RELOAD_MAX {
        Some(cycles - 1)
    } else {
        None
    }
}

/// The ticks of one second last one second.
pub proof fn lemma_tick_length()
    ensures
        MILLIS_PER_TICK * TX_TIMER_TICKS_PER_SECOND == 1000,
        NANOS_PER_TICK == MILLIS_PER_TICK * 1_000_000,
{
}

/// Durations are rounded up to whole ticks: the ticks of a duration last at least as long
/// as the duration, one tick fewer would not, only the empty duration has no tick, and a
/// whole number of ticks is itself.
pub proof fn lemma_ticks_round_up(nanos: u128)
    ensures
        whole_ticks(nanos) * NANOS_PER_TICK >= nanos,
        nanos > 0 ==> (whole_ticks(nanos) - 1) * NANOS_PER_TICK < nanos,
        nanos > 0 ==> whole_ticks(nanos) > 0,
        nanos % NANOS_PER_TICK == 0 ==> whole_ticks(nanos) * NANOS_PER_TICK == nanos,
{
}

/// For a duration of whole milliseconds the ticks are its milliseconds divided by the
/// milliseconds of a tick, rounded up.
pub proof fn lemma_ticks_of_millis(millis: u128)
    requires
        millis * 1_000_000 <= u128::MAX,
    ensures
        whole_ticks((millis * 1_000_000) as u128) == (millis + MILLIS_PER_TICK - 1) / (
        MILLIS_PER_TICK as int),
{
    let nanos = millis * 1_000_000;
    let ticks = (millis + 9) / 10;
    assert(ticks * 10 <= millis + 9 < ticks * 10 + 10);
    assert(ticks * 10_000_000 <= nanos + 9_999_999 < ticks * 10_000_000 + 10_000_000);
}

/// A count of ticks that fits the tick word is handed to the kernel as it is.
pub proof fn lemma_ticks_in_range(nanos: u128)
    requires
        whole_ticks(nanos) <= u32::MAX,
    ensures
        TxTicks::word_of_nanos(nanos) == whole_ticks(nanos),
        nanos > 0 ==> TxTicks::word_of_nanos(nanos) > 0,
{
}

} // verus!
