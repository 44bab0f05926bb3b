//! The load cell, and where the sweet spot lies.
use core::hint::spin_loop;
use vstd::arithmetic::power2::pow2;
use vstd::prelude::*;
use crate::buttons::Level;
use crate::state::{
    is_zone, SWEET_SPOT_MAX_CENTER, SWEET_SPOT_MIN_CENTER, SWEET_SPOT_TOLERANCE,
};

verus! {

/// Lowest value that the HX711 can give.
pub const HX711_MINIMUM: i32 = -8_388_608;

/// Highest value that the HX711 can give.
pub const HX711_MAXIMUM: i32 = 8_388_607;

/// Clock pulses that shift out one bit each.
pub const HX711_DATA_PULSES: u8 = 24;

/// Extra clock pulses that select channel A, gain 128 for the next sample.
pub const HX711_GAIN_PULSES_A128: u8 = 1;

/// Spins between two edges of the clock.
pub const HX711_SETTLE_SPINS: usize = 16;

/// `core::hint::spin_loop` tells the processor that it is in a busy-wait loop.
/// Nothing is claimed of it: it gives no value and changes none.
pub assume_specification[ core::hint::spin_loop ]()
;

/// Waits between two edges of the clock.
///
/// The HX711 needs its clock high and low for at least about 0.2 us, but a clock
/// that is high for longer than about 60 us powers it down. The overhead of a
/// timer can be too high for that.
pub fn hx711_short_delay() {
    let mut spins: usize = 0;
    while spins < HX711_SETTLE_SPINS
        invariant
            spins <= HX711_SETTLE_SPINS,
        decreases HX711_SETTLE_SPINS - spins,
    {
        spin_loop();
        spins = spins + 1;
    }
}

/// The reading is one of the two extremes, which the HX711 gives when its input
/// is out of range.
pub open spec fn is_saturated(reading: int) -> bool {
    reading == HX711_MAXIMUM || reading == HX711_MINIMUM
}

/// Whether the reading is one of the two extremes.
pub fn is_saturated_hx711_reading(reading: i32) -> (yes: bool)
    ensures
        yes == is_saturated(reading as int),
{
    reading == HX711_MAXIMUM || reading == HX711_MINIMUM
}

/// The number that `bits` spell, most significant first.
pub open spec fn bits_value(bits: Seq<bool>) -> nat
    decreases bits.len(),
{
    if bits.len() == 0 {
        0
    } else {
        2 * bits_value(bits.drop_last()) + if bits.last() {
            1nat
        } else {
            0nat
        }
    }
}

/// What a 24-bit number stands for in two's complement.
pub open spec fn twos_complement(value: int) -> int {
    if value <= HX711_MAXIMUM {
        value
    } else {
        value + 2 * HX711_MINIMUM
    }
}

/// What a clock pulse is for.
#[derive(Clone, Copy, Debug, PartialEq, Eq, Structural)]
pub enum Pulse {
    /// It shifts out one bit.
    Data,
    /// It selects the gain.
    Gain,
}

/// One conversion as it is clocked out of the HX711, most significant bit first.
pub struct RawFrame {
    pub value: u32,
    pub pulses: u8,
}

impl RawFrame {
    /// As many bits as data pulses were shifted in.
    pub open spec fn wf(self) -> bool {
        &&& self.pulses <= HX711_DATA_PULSES + HX711_GAIN_PULSES_A128
        &&& self.pulses <= HX711_DATA_PULSES ==> self.value < pow2(self.pulses as nat)
        &&& self.value < 0x100_0000
    }

    /// All pulses were given.
    pub open spec fn complete(self) -> bool {
        self.pulses >= HX711_DATA_PULSES + HX711_GAIN_PULSES_A128
    }

    /// The frame after one more pulse, during which the data line was high or not.
    pub open spec fn clocked(self, high: bool) -> RawFrame {
        if self.pulses < HX711_DATA_PULSES {
            RawFrame {
                value: (2 * self.value + if high {
                    1int
                } else {
                    0int
                }) as u32,
                pulses: (self.pulses + 1) as u8,
            }
        } else if !self.complete() {
            RawFrame { value: self.value, pulses: (self.pulses + 1) as u8 }
        } else {
            self
        }
    }

    /// An empty frame.
    pub open spec fn empty() -> RawFrame {
        RawFrame { value: 0, pulses: 0 }
    }

    /// The frame after one pulse for each of `levels`.
    pub open spec fn after(levels: Seq<bool>) -> RawFrame
        decreases levels.len(),
    {
        if levels.len() == 0 {
            RawFrame::empty()
        } else {
            RawFrame::after(levels.drop_last()).clocked(levels.last())
        }
    }

    /// An empty frame.
    pub fn new() -> (frame: RawFrame)
        ensures
            frame == RawFrame::empty(),
            frame.wf(),
    {
        proof {
            vstd::arithmetic::power2::lemma2_to64();
        }
        RawFrame { value: 0, pulses: 0 }
    }

    /// What the next pulse is for; nothing once all were given.
    pub fn next_pulse(&self) -> (pulse: Option<Pulse>)
        ensures
            pulse == if self.pulses < HX711_DATA_PULSES {
                Some(Pulse::Data)
            } else if !self.complete() {
                Some(Pulse::Gain)
            } else {
                None
            },
    {
        if self.pulses < HX711_DATA_PULSES {
            Some(Pulse::Data)
        } else if self.pulses < HX711_DATA_PULSES + HX711_GAIN_PULSES_A128 {
            Some(Pulse::Gain)
        } else {
            None
        }
    }

    /// Takes in one pulse, during which the data line was high or not.
    pub fn clock(&mut self, high: bool)
        requires
            old(self).wf(),
        ensures
            *final(self) == old(self).clocked(high),
            final(self).wf(),
    {
        if self.pulses < HX711_DATA_PULSES {
            let value = self.value;
            let bit: u32 = if high {
                1
            } else {
                0
            };
            proof {
                lemma_pow2_below(self.pulses as nat);
                assert(value < 0x80_0000u32 && bit <= 1 ==> (value << 1) | bit == 2 * value + bit)
                    by (bit_vector);
            }
            self.value = (value << 1) | bit;
            self.pulses = self.pulses + 1;
        } else if self.pulses < HX711_DATA_PULSES + HX711_GAIN_PULSES_A128 {
            self.pulses = self.pulses + 1;
        }
    }

    /// The reading that the frame holds.
    pub fn reading(&self) -> (reading: i32)
        requires
            self.wf(),
        ensures
            reading == twos_complement(self.value as int),
            HX711_MINIMUM <= reading <= HX711_MAXIMUM,
    {
        let value = self.value;
        assert(value < 0x100_0000u32 ==> ((value as i32) << 8) >> 8 == if value < 0x80_0000u32 {
            value as int
        } else {
            value - 0x100_0000
        }) by (bit_vector);
        ((value as i32) << 8) >> 8
    }
}

proof fn lemma_pow2_below(n: nat)
    requires
        n < 24,
    ensures
        pow2(n) <= 0x80_0000,
        pow2(n + 1) == 2 * pow2(n),
{
    vstd::arithmetic::power2::lemma2_to64();
    if n < 23 {
        vstd::arithmetic::power2::lemma_pow2_strictly_increases(n, 23);
    }
    vstd::arithmetic::power2::lemma_pow2_unfold(n + 1);
}

/// `value`, moved to the nearest number that an `i32` can hold.
pub open spec fn clamped(value: int) -> int {
    if value < i32::MIN {
        i32::MIN as int
    } else if value > i32::MAX {
        i32::MAX as int
    } else {
        value
    }
}

/// The nearest number that an `i32` can hold.
fn clamp_to_i32(value: i64) -> (nearest: i32)
    ensures
        nearest == clamped(value as int),
{
    if value < i32::MIN as i64 {
        i32::MIN
    } else if value > i32::MAX as i64 {
        i32::MAX
    } else {
        value as i32
    }
}

/// Distance of `value` from zero.
pub open spec fn distance(value: int) -> int {
    if value < 0 {
        -value
    } else {
        value
    }
}

/// The load cell's amplifier: readings are taken relative to an offset.
#[derive(Clone, Copy, Debug, PartialEq, Eq, Structural)]
pub struct Hx711 {
    pub offset: i32,
}

impl Hx711 {
    /// How far a reading lies above the offset.
    pub open spec fn delta(self, raw: int) -> int {
        if is_saturated(raw) {
            0
        } else {
            clamped(raw - self.offset)
        }
    }

    /// What a raw value reads after the tare: its distance from the offset, so
    /// that resting reads about zero.
    pub open spec fn reading(self, raw: int) -> int {
        clamped(distance(clamped(raw - self.offset)))
    }

    /// The force that a raw value stands for: what it reads after the tare. A
    /// saturated raw value stands for itself.
    pub open spec fn force(self, raw: int) -> int {
        if is_saturated(raw) {
            raw
        } else {
            self.reading(raw)
        }
    }

    /// An amplifier without an offset.
    pub fn new() -> (loadcell: Self)
        ensures
            loadcell.offset == 0,
    {
        Hx711 { offset: 0 }
    }

    /// Whether a conversion is ready, by the level of the data line.
    pub fn is_ready(dt: Level) -> (yes: bool)
        ensures
            yes == (dt == Level::Low),
    {
        dt == Level::Low
    }

    /// Replaces the offset.
    pub fn set_offset(&mut self, offset: i32)
        ensures
            final(self).offset == offset,
    {
        self.offset = offset;
    }

    /// How far a raw value lies above the offset.
    fn tared(&self, raw: i32) -> (delta: i32)
        ensures
            delta == clamped(raw - self.offset),
    {
        clamp_to_i32(raw as i64 - self.offset as i64)
    }

    /// What a raw value reads after the tare, saturated or not.
    pub fn post_tare_reading(&self, raw: i32) -> (reading: i32)
        ensures
            reading == self.reading(raw as int),
    {
        let delta: i32 = self.tared(raw);
        let size: i64 = if delta < 0 {
            -(delta as i64)
        } else {
            delta as i64
        };
        clamp_to_i32(size)
    }

    /// Raw value, difference from the offset, and force of a conversion, if
    /// there was one.
    pub fn read_force_debug(&self, raw: Option<i32>) -> (read: Option<(i32, i32, i32)>)
        ensures
            match (raw, read) {
                (Some(raw), Some((same, delta, force))) => {
                    &&& same == raw
                    &&& delta == self.delta(raw as int)
                    &&& force == self.force(raw as int)
                },
                (None, None) => true,
                _ => false,
            },
    {
        let raw = match raw {
            Some(raw) => raw,
            None => {
                return None;
            },
        };
        if is_saturated_hx711_reading(raw) {
            return Some((raw, 0, raw));
        }
        Some((raw, self.tared(raw), self.post_tare_reading(raw)))
    }
}

/// The sweet-spot centre that a random number picks.
pub open spec fn center_for(random: u32) -> int {
    SWEET_SPOT_MIN_CENTER + (random as int) % (SWEET_SPOT_MAX_CENTER - SWEET_SPOT_MIN_CENTER)
}

/// Pick a sweet-spot centre inside the configured range.
pub fn random_sweet_spot_center(random: u32) -> (center: i32)
    ensures
        center == center_for(random),
        SWEET_SPOT_MIN_CENTER <= center < SWEET_SPOT_MAX_CENTER,
{
    let span: u32 = (SWEET_SPOT_MAX_CENTER - SWEET_SPOT_MIN_CENTER) as u32;
    SWEET_SPOT_MIN_CENTER + (random % span) as i32
}

/// The zone around a centre that a random number picks is a sweet spot.
pub proof fn law_picked_zone_is_a_sweet_spot(random: u32)
    ensures
        is_zone(
            center_for(random) - SWEET_SPOT_TOLERANCE,
            center_for(random) + SWEET_SPOT_TOLERANCE,
        ),
{
}

/// A full frame holds the number that its data bits spell, whatever the data
/// line does during the gain pulse.
pub proof fn law_frame_holds_its_bits(bits: Seq<bool>, gain: bool)
    requires
        bits.len() == HX711_DATA_PULSES,
    ensures
        RawFrame::after(bits.push(gain)).complete(),
        RawFrame::after(bits.push(gain)).wf(),
        RawFrame::after(bits.push(gain)).value == bits_value(bits),
{
    lemma_frame_prefix(bits);
    assert(bits.push(gain).drop_last() =~= bits);
    vstd::arithmetic::power2::lemma2_to64();
}

proof fn lemma_frame_prefix(bits: Seq<bool>)
    requires
        bits.len() <= HX711_DATA_PULSES,
    ensures
        RawFrame::after(bits).pulses == bits.len(),
        RawFrame::after(bits).value == bits_value(bits),
        RawFrame::after(bits).wf(),
        bits_value(bits) < pow2(bits.len()),
    decreases bits.len(),
{
    vstd::arithmetic::power2::lemma2_to64();
    if bits.len() > 0 {
        let before = bits.drop_last();
        lemma_frame_prefix(before);
        lemma_pow2_below(before.len());
    }
}

/// The lower 24 bits of `number`, most significant first.
pub open spec fn low_bits(number: nat) -> Seq<bool> {
    Seq::new(
        HX711_DATA_PULSES as nat,
        |i: int| (number / pow2((HX711_DATA_PULSES - 1 - i) as nat)) % 2 == 1,
    )
}

/// The bits that the HX711 shifts out for `reading`: its 24-bit two's complement.
pub open spec fn reading_bits(reading: int) -> Seq<bool> {
    low_bits(
        if reading < 0 {
            (reading - 2 * HX711_MINIMUM) as nat
        } else {
            reading as nat
        },
    )
}

/// Every reading that the HX711 can shift out comes back from a frame unchanged.
pub proof fn law_frame_gives_back_the_reading(reading: int, gain: bool)
    requires
        HX711_MINIMUM <= reading <= HX711_MAXIMUM,
    ensures
        twos_complement(
            RawFrame::after(reading_bits(reading).push(gain)).value as int,
        ) == reading,
{
    let bits = reading_bits(reading);
    let number: nat = if reading < 0 {
        (reading - 2 * HX711_MINIMUM) as nat
    } else {
        reading as nat
    };
    law_frame_holds_its_bits(bits, gain);
    lemma_prefix_value(number, HX711_DATA_PULSES as nat);
    assert(bits.take(HX711_DATA_PULSES as int) =~= bits);
    vstd::arithmetic::power2::lemma2_to64();
    assert(pow2(24) == 0x100_0000);
    assert(number / 1 == number);
    assert(number < 0x100_0000);
    assert(number % 0x100_0000 == number);
}

/// The leading `n` bits spell the number without its lower bits, modulo 2^n.
proof fn lemma_prefix_value(number: nat, n: nat)
    requires
        n <= HX711_DATA_PULSES,
    ensures
        bits_value(low_bits(number).take(n as int)) == (number / pow2(
            (HX711_DATA_PULSES - n) as nat,
        )) % pow2(n),
    decreases n,
{
    vstd::arithmetic::power2::lemma2_to64();
    if n > 0 {
        let m = (n - 1) as nat;
        lemma_prefix_value(number, m);
        let bits = low_bits(number).take(n as int);
        assert(bits.drop_last() =~= low_bits(number).take(m as int));
        let low = (HX711_DATA_PULSES - n) as nat;
        let d = pow2(low) as int;
        let p = pow2(m) as int;
        vstd::arithmetic::power2::lemma_pow2_unfold(low + 1);
        vstd::arithmetic::power2::lemma_pow2_unfold(n);
        vstd::arithmetic::power2::lemma_pow2_pos(low);
        vstd::arithmetic::power2::lemma_pow2_pos(m);
        let q = number as int / d;
        assert(q >= 0) by {
            vstd::arithmetic::div_mod::lemma_div_pos_is_pos(number as int, d);
        }
        assert(number as int / (2 * d) == q / 2) by {
            vstd::arithmetic::div_mod::lemma_div_denominator(number as int, d, 2);
            assert(d * 2 == 2 * d);
        }
        assert(q % (2 * p) == 2 * ((q / 2) % p) + q % 2) by {
            vstd::arithmetic::div_mod::lemma_mod_breakdown(q, 2, p);
        }
    }
}

/// For raw values and offsets that the HX711 can give, a raw value reads its
/// distance from the offset after the tare, saturated or not.
pub proof fn law_reading_is_post_tare(loadcell: Hx711, raw: int)
    requires
        HX711_MINIMUM <= raw <= HX711_MAXIMUM,
        HX711_MINIMUM <= loadcell.offset <= HX711_MAXIMUM,
    ensures
        loadcell.reading(raw) == distance(raw - loadcell.offset),
        raw == loadcell.offset <==> loadcell.reading(raw) == 0,
{
}

/// For raw values and offsets that the HX711 can give, the force of an
/// unsaturated raw value is its distance from the offset, and a raw value at the
/// offset has no force.
pub proof fn law_force_is_distance_from_offset(loadcell: Hx711, raw: int)
    requires
        HX711_MINIMUM < raw < HX711_MAXIMUM,
        HX711_MINIMUM <= loadcell.offset <= HX711_MAXIMUM,
    ensures
        loadcell.delta(raw) == raw - loadcell.offset,
        loadcell.force(raw) == distance(raw - loadcell.offset),
        raw == loadcell.offset ==> loadcell.force(raw) == 0,
{
}

/// Only the two ends of the 24-bit range count as saturated.
pub proof fn law_only_the_ends_are_saturated(raw: int)
    ensures
        is_saturated(raw) <==> raw == 8_388_607 || raw == -8_388_608,
{
}

/// What a raw value reads after the tare is how far it lies from the offset on
/// either side, up to what an `i32` can hold. The difference tells the side, the
/// force is the reading, and a saturated raw value has no difference and stands
/// for itself.
pub proof fn law_reading_measures_from_the_offset(loadcell: Hx711, raw: i32)
    ensures
        ({
            let reading = loadcell.reading(raw as int);
            let up = raw - loadcell.offset;
            &&& 0 <= reading <= i32::MAX
            &&& reading == up || reading == -up || (reading == i32::MAX && (up > i32::MAX || up
                < -i32::MAX))
            &&& if raw == 8_388_607 || raw == -8_388_608 {
                &&& loadcell.delta(raw as int) == 0
                &&& loadcell.force(raw as int) == raw
            } else {
                &&& loadcell.force(raw as int) == reading
                &&& i32::MIN <= up <= i32::MAX ==> loadcell.delta(raw as int) == up
                &&& up > i32::MAX ==> loadcell.delta(raw as int) == i32::MAX
                &&& up < i32::MIN ==> loadcell.delta(raw as int) == i32::MIN
            }
        }),
{
}

/// Readings are fair to both sides of the offset, and moving offset and raw value
/// together changes nothing.
pub proof fn law_reading_is_symmetric(offset: i32, away: int, shift: int)
    requires
        i32::MIN <= offset + shift <= i32::MAX,
    ensures
        ({
            let loadcell = Hx711 { offset };
            let moved = Hx711 { offset: (offset + shift) as i32 };
            &&& loadcell.reading(offset + away) == loadcell.reading(offset - away)
            &&& moved.reading(offset + shift + away) == loadcell.reading(
                offset + away,
            )
        }),
{
}

/// The centre lies from 100000 up to 699999, and differs from the random number
/// by a fixed amount up to whole turns through that range, so that every centre
/// is as likely as the next.
pub proof fn law_every_centre_can_be_picked(random: u32)
    ensures
        100_000 <= center_for(random) < 700_000,
        (center_for(random) - 100_000 - random) % 600_000 == 0,
{
}

/// A frame takes 24 data pulses and one gain pulse, and no pulse after that
/// changes it.
pub proof fn law_frame_takes_25_pulses(levels: Seq<bool>, high: bool)
    ensures
        RawFrame::after(levels).pulses == if levels.len() < 25 {
            levels.len()
        } else {
            25
        },
        RawFrame::after(levels).complete() <==> levels.len() >= 25,
        levels.len() >= 24 ==> RawFrame::after(levels.push(high)).value == RawFrame::after(
            levels,
        ).value,
    decreases levels.len(),
{
    assert(levels.push(high).drop_last() =~= levels);
    if levels.len() > 0 {
        law_frame_takes_25_pulses(levels.drop_last(), levels.last());
    }
}

} // verus!
