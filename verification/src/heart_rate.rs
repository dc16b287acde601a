//! Heart-rate sampling pipeline: a fixed-capacity circular store of raw
//! sensor samples with a wrapping write index, running minimum/maximum
//! over every sample ever written, and normalized-value queries for
//! plotting.
//!
//! The minimum and maximum are lifetime-monotone, not windowed: they only
//! tighten or widen, never reset, so early extremes remain valid
//! reference points for a live strip chart.  Before any sample the
//! minimum sits at `u32::MAX` and the maximum at zero, signalling "no
//! range yet".
//!
//! The raw sample itself comes from the I2C sensor outside the library;
//! [`HeartRateSensor::update_hrs`] takes the value such a read produced.

use vstd::arithmetic::div_mod::{lemma_fundamental_div_mod, lemma_fundamental_div_mod_converse};
use vstd::prelude::*;

use crate::sample_store::{
    sample_slots, store_as_slice, store_get, store_new, store_resize_default, store_set,
};

verus! {

/// Number of circular-buffer slots (one per displayed column).
pub const BUFFER_SIZE: usize = 240;

/// A sample rescaled to the unit interval as the fraction `num / den`,
/// with `den` the observed range.  `den == 0` encodes "no range observed
/// yet"; its value is zero by convention.
#[derive(Clone, Copy, PartialEq, Eq, Structural, Debug)]
pub struct Normalized {
    pub num: u32,
    pub den: u32,
}

impl Normalized {
    /// A normalized value denotes a point of `[0, 1]`.
    pub open spec fn in_unit(self) -> bool {
        self.num <= self.den
    }

    /// The value rescaled to `[0, scale]` by integer arithmetic, zero
    /// when no range has been observed.
    pub fn scaled(&self, scale: u32) -> (r: u32)
        requires
            self.in_unit(),
        ensures
            self.den == 0 ==> r == 0,
            self.den > 0 ==> r == self.num * scale / (self.den as int),
            r <= scale,
    {
        if self.den == 0 {
            0
        } else {
            proof {
                assert(self.num * scale <= 0xFFFF_FFFF * 0xFFFF_FFFF) by (nonlinear_arith)
                    requires
                        self.num <= 0xFFFF_FFFFu32,
                        scale <= 0xFFFF_FFFFu32,
                ;
                assert(self.num * scale <= self.den * scale) by (nonlinear_arith)
                    requires
                        self.num <= self.den,
                ;
                assert(self.den * scale / (self.den as int) == scale) by (nonlinear_arith)
                    requires
                        self.den > 0,
                ;
                assert(self.num * scale / (self.den as int) <= self.den * scale / (self.den as int)) by (nonlinear_arith)
                    requires
                        self.num * scale <= self.den * scale,
                        self.den > 0,
                ;
            }
            let wide: u64 = (self.num as u64) * (scale as u64) / (self.den as u64);
            wide as u32
        }
    }
}

/// The slot immediately before `i`, wrapping past slot 0 to the last
/// slot.
pub open spec fn prev_slot(i: int) -> int {
    if i == 0 {
        BUFFER_SIZE - 1
    } else {
        i - 1
    }
}

/// The slot immediately after `i`, wrapping past the last slot to 0.
pub open spec fn next_slot(i: int) -> int {
    if i < BUFFER_SIZE - 1 {
        i + 1
    } else {
        0
    }
}

/// Circular heart-rate sample buffer with running envelope.
pub struct HeartRateSensor {
    bpm: Option<u8>,
    /// Raw sensor data.
    hr_data: heapless::Vec<u32, 256>,
    /// Points to the last updated measurement.
    index: usize,
    /// Whether the sensor has been told to measure.
    measuring: bool,
    /// Minimum raw sample seen so far.
    min: u32,
    /// Maximum raw sample seen so far.
    max: u32,
    /// The slots that have been written since construction.
    written: Ghost<Set<int>>,
}

impl HeartRateSensor {
    /// The stored samples, one per slot; unwritten slots hold zero.
    pub closed spec fn samples(self) -> Seq<u32> {
        sample_slots(self.hr_data)
    }

    /// The current write index.
    pub closed spec fn index_spec(self) -> int {
        self.index as int
    }

    /// The running minimum (`u32::MAX` before any sample).
    pub closed spec fn min_spec(self) -> u32 {
        self.min
    }

    /// The running maximum (zero before any sample).
    pub closed spec fn max_spec(self) -> u32 {
        self.max
    }

    /// Whether the sensor has been told to measure.
    pub closed spec fn measuring_spec(self) -> bool {
        self.measuring
    }

    /// The most recent beats-per-minute estimate, if any.
    pub closed spec fn bpm_spec(self) -> Option<u8> {
        self.bpm
    }

    /// The set of slots a sample has ever been written to.
    pub closed spec fn written_spec(self) -> Set<int> {
        self.written@
    }

    /// Structural invariant: the buffer has exactly `BUFFER_SIZE` slots,
    /// the write index stays inside it, every written slot lies between
    /// the running minimum and maximum, the envelope sentinels stand
    /// while nothing was written, the index points at the latest written
    /// slot, and an observed range guarantees the previous slot was
    /// written too.
    pub open spec fn wf(self) -> bool {
        &&& self.samples().len() == BUFFER_SIZE
        &&& 0 <= self.index_spec() < BUFFER_SIZE
        &&& forall|i: int| #[trigger]
            self.written_spec().contains(i) ==> 0 <= i < BUFFER_SIZE && self.min_spec()
                <= self.samples()[i] <= self.max_spec()
        &&& self.written_spec().is_empty() ==> self.min_spec() == u32::MAX && self.max_spec()
            == 0
        &&& !self.written_spec().is_empty() ==> self.written_spec().contains(self.index_spec())
        &&& self.min_spec() < self.max_spec() ==> self.written_spec().contains(
            prev_slot(self.index_spec()),
        )
    }

    /// An empty buffer: all slots zeroed, index at slot 0, envelope at
    /// its "no range yet" sentinels, sensor not yet measuring.
    pub fn new() -> (r: Result<Self, ()>)
        ensures
            r is Ok,
            r->Ok_0.wf(),
            r->Ok_0.samples() == Seq::new(BUFFER_SIZE as nat, |i: int| 0u32),
            r->Ok_0.index_spec() == 0,
            r->Ok_0.min_spec() == u32::MAX,
            r->Ok_0.max_spec() == 0,
            !r->Ok_0.measuring_spec(),
            r->Ok_0.bpm_spec() is None,
            r->Ok_0.written_spec().is_empty(),
    {
        let mut buffer: heapless::Vec<u32, 256> = store_new();
        match store_resize_default(&mut buffer, BUFFER_SIZE) {
            Ok(()) => {},
            Err(()) => {
                return Err(());
            },
        }
        proof {
            assert(sample_slots(buffer) =~= Seq::new(BUFFER_SIZE as nat, |i: int| 0u32));
        }
        Ok(
            Self {
                bpm: None,
                hr_data: buffer,
                index: 0,
                measuring: false,
                min: 0xFFFF_FFFF,
                max: 0,
                written: Ghost(Set::empty()),
            },
        )
    }

    /// Accepts one raw sample read from the sensor: marks the sensor
    /// measuring, advances the write index by one slot (wrapping),
    /// overwrites that slot, and widens the running envelope.  The
    /// envelope is monotone: the minimum never rises, the maximum never
    /// falls.
    pub fn update_hrs(&mut self, value: u32)
        requires
            old(self).wf(),
        ensures
            final(self).wf(),
            final(self).measuring_spec(),
            final(self).index_spec() == next_slot(old(self).index_spec()),
            final(self).samples() == old(self).samples().update(final(self).index_spec(), value),
            final(self).min_spec() == (if value < old(self).min_spec() {
                value
            } else {
                old(self).min_spec()
            }),
            final(self).max_spec() == (if value > old(self).max_spec() {
                value
            } else {
                old(self).max_spec()
            }),
            final(self).min_spec() <= old(self).min_spec(),
            final(self).max_spec() >= old(self).max_spec(),
            final(self).written_spec() == old(self).written_spec().insert(
                final(self).index_spec(),
            ),
            final(self).bpm_spec() == old(self).bpm_spec(),
    {
        if !self.measuring {
            self.measuring = true;
        }
        self.index = if self.index < BUFFER_SIZE - 1 {
            self.index + 1
        } else {
            0
        };
        self.update_value(value);
        proof {
            assert(self.written_spec().contains(self.index_spec()));
            assert(!self.written_spec().is_empty());
        }
    }

    /// Whether the sensor has already been told to measure; while this
    /// is false the shell must switch the sensor hardware on before the
    /// next read.
    pub fn measuring(&self) -> (r: bool)
        ensures
            r == self.measuring_spec(),
    {
        self.measuring
    }

    fn update_value(&mut self, value: u32)
        requires
            old(self).samples().len() == BUFFER_SIZE,
            0 <= old(self).index_spec() < BUFFER_SIZE,
        ensures
            final(self).samples() == old(self).samples().update(old(self).index_spec(), value),
            final(self).index_spec() == old(self).index_spec(),
            final(self).min_spec() == (if value < old(self).min_spec() {
                value
            } else {
                old(self).min_spec()
            }),
            final(self).max_spec() == (if value > old(self).max_spec() {
                value
            } else {
                old(self).max_spec()
            }),
            final(self).written_spec() == old(self).written_spec().insert(
                old(self).index_spec(),
            ),
            final(self).measuring_spec() == old(self).measuring_spec(),
            final(self).bpm_spec() == old(self).bpm_spec(),
    {
        if value > self.max {
            self.max = value;
        }
        if value < self.min {
            self.min = value;
        }

        store_set(&mut self.hr_data, self.index, value);
        self.written = Ghost(self.written@.insert(self.index as int));
    }

    /// Every slot, in order.
    pub fn values<'a>(&'a self) -> (r: &'a [u32])
        ensures
            r@ == self.samples(),
    {
        store_as_slice(&self.hr_data)
    }

    /// The current write index.
    pub fn index(&self) -> (r: usize)
        ensures
            r == self.index_spec(),
    {
        self.index
    }

    /// The current write index and the raw sample stored there.
    pub fn value(&self) -> (r: (usize, u32))
        requires
            self.wf(),
        ensures
            r.0 == self.index_spec(),
            r.1 == self.samples()[self.index_spec()],
    {
        (self.index, store_get(&self.hr_data, self.index))
    }

    /// The current write index and its sample rescaled to `[0, 1]` by
    /// the observed envelope; `(0, zero)` while no range has been
    /// observed (`min >= max`).
    pub fn value_norm(&self) -> (r: (usize, Normalized))
        requires
            self.wf(),
        ensures
            self.min_spec() >= self.max_spec() ==> r == (
                0usize,
                Normalized { num: 0u32, den: 0u32 },
            ),
            self.min_spec() < self.max_spec() ==> {
                &&& r.0 == self.index_spec()
                &&& r.1.num == self.samples()[self.index_spec()] - self.min_spec()
                &&& r.1.den == self.max_spec() - self.min_spec()
            },
            r.1.in_unit(),
    {
        if self.min >= self.max {
            (0, Normalized { num: 0, den: 0 })
        } else {
            proof {
                assert(self.written_spec().contains(self.index_spec()));
            }
            let raw = store_get(&self.hr_data, self.index);
            (self.index, Normalized { num: raw - self.min, den: self.max - self.min })
        }
    }

    /// The slot immediately before the current write index (wrapping
    /// past slot 0 to the last slot) and the raw sample stored there.
    pub fn prev_value(&self) -> (r: (usize, u32))
        requires
            self.wf(),
        ensures
            r.0 == prev_slot(self.index_spec()),
            r.1 == self.samples()[prev_slot(self.index_spec())],
    {
        let prev_index: usize = match self.index {
            0 => BUFFER_SIZE - 1,
            i => i - 1,
        };
        (prev_index, store_get(&self.hr_data, prev_index))
    }

    /// The previous slot and its sample rescaled to `[0, 1]` by the
    /// observed envelope; `(0, zero)` while no range has been observed.
    pub fn prev_value_norm(&self) -> (r: (usize, Normalized))
        requires
            self.wf(),
        ensures
            self.min_spec() >= self.max_spec() ==> r == (
                0usize,
                Normalized { num: 0u32, den: 0u32 },
            ),
            self.min_spec() < self.max_spec() ==> {
                &&& r.0 == prev_slot(self.index_spec())
                &&& r.1.num == self.samples()[prev_slot(self.index_spec())] - self.min_spec()
                &&& r.1.den == self.max_spec() - self.min_spec()
            },
            r.1.in_unit(),
    {
        if self.min >= self.max {
            (0, Normalized { num: 0, den: 0 })
        } else {
            proof {
                assert(self.written_spec().contains(prev_slot(self.index_spec())));
            }
            let (prev_index, prev_val) = self.prev_value();
            (prev_index, Normalized { num: prev_val - self.min, den: self.max - self.min })
        }
    }

    /// The most recent beats-per-minute estimate, if any.
    pub fn bpm(&self) -> (r: Option<u8>)
        ensures
            r == self.bpm_spec(),
    {
        self.bpm
    }

    /// The running minimum raw sample (`u32::MAX` before any sample).
    pub fn min(&self) -> (r: u32)
        ensures
            r == self.min_spec(),
    {
        self.min
    }

    /// The running maximum raw sample (zero before any sample).
    pub fn max(&self) -> (r: u32)
        ensures
            r == self.max_spec(),
    {
        self.max
    }
}

/// Law: whatever sequence of pushes produced a well-formed buffer,
/// every slot written so far lies between the running minimum and
/// maximum.  Together with [`HeartRateSensor::update_hrs`]'s promise
/// that the minimum never rises and the maximum never falls, this is
/// the monotone envelope of the sample history.
pub proof fn lemma_envelope_bounds(sensor: HeartRateSensor, slot: int)
    requires
        sensor.wf(),
        sensor.written_spec().contains(slot),
    ensures
        sensor.min_spec() <= sensor.samples()[slot] <= sensor.max_spec(),
{
}

/// The write index after `n` successive pushes starting from `start`;
/// one push is exactly what [`HeartRateSensor::update_hrs`] promises of
/// the index.
pub open spec fn slot_after(start: int, n: nat) -> int
    decreases n,
{
    if n == 0 {
        start
    } else {
        next_slot(slot_after(start, (n - 1) as nat))
    }
}

/// The slots and write index after pushing `values` (oldest first) onto
/// a ring holding `samples` with write index `index`; one push is
/// exactly what [`HeartRateSensor::update_hrs`] promises of the slots
/// and the index.
pub open spec fn ring_after(samples: Seq<u32>, index: int, values: Seq<u32>) -> (Seq<u32>, int)
    decreases values.len(),
{
    if values.len() == 0 {
        (samples, index)
    } else {
        let prior = ring_after(samples, index, values.drop_last());
        (prior.0.update(next_slot(prior.1), values.last()), next_slot(prior.1))
    }
}

/// Advancing the write index `n` times lands on `(start + n)` reduced
/// modulo the capacity.
pub proof fn lemma_slot_after_mod(start: int, n: nat)
    requires
        0 <= start < BUFFER_SIZE,
    ensures
        slot_after(start, n) == (start + n) % (BUFFER_SIZE as int),
        0 <= slot_after(start, n) < BUFFER_SIZE,
    decreases n,
{
    let d = BUFFER_SIZE as int;
    if n == 0 {
        lemma_fundamental_div_mod_converse(start, d, 0, start);
    } else {
        lemma_slot_after_mod(start, (n - 1) as nat);
        let prev = slot_after(start, (n - 1) as nat);
        lemma_fundamental_div_mod(start + n - 1, d);
        let q = (start + n - 1) / d;
        if prev < d - 1 {
            lemma_fundamental_div_mod_converse(start + n, d, q, prev + 1);
        } else {
            lemma_fundamental_div_mod_converse(start + n, d, q + 1, 0);
        }
    }
}

/// Fewer than a full revolution apart, two write positions never
/// collide.
proof fn lemma_slot_after_injective(start: int, a: nat, b: nat)
    requires
        0 <= start < BUFFER_SIZE,
        a < b,
        b - a < BUFFER_SIZE,
    ensures
        slot_after(start, a) != slot_after(start, b),
{
    lemma_slot_after_mod(start, a);
    lemma_slot_after_mod(start, b);
    if slot_after(start, a) == slot_after(start, b) {
        let d = BUFFER_SIZE as int;
        lemma_fundamental_div_mod(start + a, d);
        lemma_fundamental_div_mod(start + b, d);
        let qa = (start + a) / d;
        let qb = (start + b) / d;
        assert(b - a == d * (qb - qa)) by (nonlinear_arith)
            requires
                start + a == d * qa + slot_after(start, a),
                start + b == d * qb + slot_after(start, b),
                slot_after(start, a) == slot_after(start, b),
        ;
        assert(d * (qb - qa) >= d || d * (qb - qa) <= 0) by (nonlinear_arith)
            requires
                d > 0,
        ;
    }
}

/// Law: pushing up to a buffer's worth of samples loses none of them —
/// afterwards each pushed value still sits in the slot its push wrote,
/// and the write index sits `values.len()` steps past where it started.
pub proof fn lemma_ring_retains(samples: Seq<u32>, index: int, values: Seq<u32>)
    requires
        samples.len() == BUFFER_SIZE,
        0 <= index < BUFFER_SIZE,
        values.len() <= BUFFER_SIZE,
    ensures
        ring_after(samples, index, values).1 == slot_after(index, values.len()),
        ring_after(samples, index, values).0.len() == BUFFER_SIZE,
        forall|k: int| 0 <= k < values.len() ==> ring_after(samples, index, values).0[slot_after(
            index,
            (k + 1) as nat,
        )] == values[k],
    decreases values.len(),
{
    if values.len() > 0 {
        let prefix = values.drop_last();
        lemma_ring_retains(samples, index, prefix);
        lemma_slot_after_mod(index, prefix.len());
        lemma_slot_after_mod(index, values.len());
        let prior = ring_after(samples, index, prefix);
        let written = next_slot(prior.1);
        assert(ring_after(samples, index, values) == (
            prior.0.update(written, values.last()),
            written,
        ));
        assert(written == slot_after(index, values.len()));
        assert forall|k: int| 0 <= k < values.len() implies ring_after(samples, index, values).0[
            slot_after(index, (k + 1) as nat)
        ] == values[k] by {
            lemma_slot_after_mod(index, (k + 1) as nat);
            if k < values.len() - 1 {
                lemma_slot_after_injective(index, (k + 1) as nat, values.len());
                assert(slot_after(index, (k + 1) as nat) != written);
                assert(prior.0[slot_after(index, (k + 1) as nat)] == prefix[k]);
            } else {
                assert((k + 1) as nat == values.len());
                assert(ring_after(samples, index, values).0[written] == values.last());
            }
        }
    }
}

/// Law: pushing exactly `BUFFER_SIZE` samples brings the write index
/// back to where it started — the wraparound of the ring — and every
/// one of those `BUFFER_SIZE` most recent samples is still stored, each
/// in the slot its push wrote.
pub proof fn lemma_full_cycle_no_loss(samples: Seq<u32>, index: int, values: Seq<u32>)
    requires
        samples.len() == BUFFER_SIZE,
        0 <= index < BUFFER_SIZE,
        values.len() == BUFFER_SIZE,
    ensures
        ring_after(samples, index, values).1 == index,
        forall|k: int| 0 <= k < BUFFER_SIZE ==> ring_after(samples, index, values).0[slot_after(
            index,
            (k + 1) as nat,
        )] == values[k],
{
    lemma_ring_retains(samples, index, values);
    lemma_slot_after_mod(index, BUFFER_SIZE as nat);
    lemma_fundamental_div_mod_converse(index + BUFFER_SIZE, BUFFER_SIZE as int, 1, index);
}

} // verus!
