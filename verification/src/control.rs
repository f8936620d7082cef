//! Input-shaping data handed to the native engine's vehicle control routines:
//! per-input smoothing rates and the steer-vs-forward-speed lookup table.
//!
//! The native engine does the smoothing and interpolation itself; this module
//! owns the buffers it reads, with their size invariants and the exact way
//! caller-supplied rates and table pairs are laid into them. Rate and table
//! words are scalar components carried as their machine words
//! ([`ScalarBits`]), which this layer moves but never computes with.

use vstd::prelude::*;

use crate::bridge::ScalarBits;

verus! {

/// How many analog driving inputs the native engine smooths: the size of its
/// published per-input rate tables.
pub const MAX_NB_ANALOG_INPUTS: usize = 16;

/// How many (forward speed, steer factor) pairs the native lookup table
/// holds.
pub const STEER_TABLE_MAX_PAIRS: usize = 8;

/// The machine word of the largest finite scalar, which the native lookup
/// table uses as the sentinel filling unused pair slots.
pub const SCALAR_MAX_BITS: ScalarBits = 0x7F7F_FFFF;

/// A table of `n` zero words.
pub open spec fn zeroed_words(n: nat) -> Seq<ScalarBits> {
    Seq::new(n, |i: int| 0u32)
}

/// A table of `MAX_NB_ANALOG_INPUTS` zero words.
pub open spec fn zeroed_rates() -> Seq<ScalarBits> {
    zeroed_words(MAX_NB_ANALOG_INPUTS as nat)
}

/// Build a table of `n` zero words.
fn zero_words_table(n: usize) -> (r: Vec<ScalarBits>)
    ensures
        r@ == zeroed_words(n as nat),
{
    let mut v: Vec<ScalarBits> = Vec::new();
    let mut k: usize = 0;
    while k < n
        invariant
            k <= n,
            v@.len() == k,
            forall|i: int| 0 <= i < k ==> v@[i] == 0u32,
        decreases n - k,
    {
        v.push(0);
        k += 1;
    }
    proof {
        assert(v@ =~= zeroed_words(n as nat));
    }
    v
}

/// Overwrite the first `rates.len()` entries of `table`, keeping the rest.
fn copy_rates_prefix(table: &mut Vec<ScalarBits>, rates: &[ScalarBits])
    requires
        rates@.len() <= old(table)@.len(),
    ensures
        final(table)@ == rates@ + old(table)@.skip(rates@.len() as int),
{
    let n = rates.len();
    let mut i: usize = 0;
    while i < n
        invariant
            i <= n,
            n == rates@.len() <= table@.len(),
            table@.len() == old(table)@.len(),
            forall|j: int| 0 <= j < i ==> table@[j] == rates@[j],
            forall|j: int| i <= j < table@.len() ==> table@[j] == old(table)@[j],
        decreases n - i,
    {
        let r = rates[i];
        table.set(i, r);
        i += 1;
    }
    proof {
        assert(table@ =~= rates@ + old(table)@.skip(rates@.len() as int));
    }
}

/// Rise and fall rates for digital (keyboard) driving inputs, in the layout
/// the native engine's digital input smoothing reads.
#[derive(Clone)]
pub struct VehicleKeySmoothingData {
    rise_rates: Vec<ScalarBits>,
    fall_rates: Vec<ScalarBits>,
}

impl VehicleKeySmoothingData {
    /// The per-input rise rates.
    pub closed spec fn rise(&self) -> Seq<ScalarBits> {
        self.rise_rates@
    }

    /// The per-input fall rates.
    pub closed spec fn fall(&self) -> Seq<ScalarBits> {
        self.fall_rates@
    }

    /// Both rate tables have exactly the native engine's size.
    pub open spec fn wf(&self) -> bool {
        &&& self.rise().len() == MAX_NB_ANALOG_INPUTS
        &&& self.fall().len() == MAX_NB_ANALOG_INPUTS
    }

    /// Fresh smoothing data with every rate zero.
    pub fn new() -> (r: Self)
        ensures
            r.wf(),
            r.rise() == zeroed_rates(),
            r.fall() == zeroed_rates(),
    {
        VehicleKeySmoothingData { rise_rates: zero_words_table(MAX_NB_ANALOG_INPUTS), fall_rates: zero_words_table(MAX_NB_ANALOG_INPUTS) }
    }

    /// Overwrite the first `rise_rates.len()` rise rates, keeping the
    /// remaining entries and all fall rates.
    pub fn set_rise_rates(&mut self, rise_rates: &[ScalarBits])
        requires
            old(self).wf(),
            rise_rates@.len() <= MAX_NB_ANALOG_INPUTS,
        ensures
            final(self).wf(),
            final(self).rise() == rise_rates@ + old(self).rise().skip(rise_rates@.len() as int),
            final(self).fall() == old(self).fall(),
    {
        copy_rates_prefix(&mut self.rise_rates, rise_rates);
    }

    /// Overwrite the first `fall_rates.len()` fall rates, keeping the
    /// remaining entries and all rise rates.
    pub fn set_fall_rates(&mut self, fall_rates: &[ScalarBits])
        requires
            old(self).wf(),
            fall_rates@.len() <= MAX_NB_ANALOG_INPUTS,
        ensures
            final(self).wf(),
            final(self).fall() == fall_rates@ + old(self).fall().skip(fall_rates@.len() as int),
            final(self).rise() == old(self).rise(),
    {
        copy_rates_prefix(&mut self.fall_rates, fall_rates);
    }

    /// The rise rate of input `i`.
    pub fn rise_rate(&self, i: usize) -> (r: ScalarBits)
        requires
            self.wf(),
            i < MAX_NB_ANALOG_INPUTS,
        ensures
            r == self.rise()[i as int],
    {
        self.rise_rates[i]
    }

    /// The fall rate of input `i`.
    pub fn fall_rate(&self, i: usize) -> (r: ScalarBits)
        requires
            self.wf(),
            i < MAX_NB_ANALOG_INPUTS,
        ensures
            r == self.fall()[i as int],
    {
        self.fall_rates[i]
    }
}

impl Default for VehicleKeySmoothingData {
    /// Same as [`VehicleKeySmoothingData::new`]: every rate zero.
    fn default() -> (r: Self)
        ensures
            r.wf(),
            r.rise() == zeroed_rates(),
            r.fall() == zeroed_rates(),
    {
        VehicleKeySmoothingData::new()
    }
}

/// Rise and fall rates for analog (gamepad) driving inputs, in the layout the
/// native engine's analog input smoothing reads.
#[derive(Clone)]
pub struct VehiclePadSmoothingData {
    rise_rates: Vec<ScalarBits>,
    fall_rates: Vec<ScalarBits>,
}

impl VehiclePadSmoothingData {
    /// The per-input rise rates.
    pub closed spec fn rise(&self) -> Seq<ScalarBits> {
        self.rise_rates@
    }

    /// The per-input fall rates.
    pub closed spec fn fall(&self) -> Seq<ScalarBits> {
        self.fall_rates@
    }

    /// Both rate tables have exactly the native engine's size.
    pub open spec fn wf(&self) -> bool {
        &&& self.rise().len() == MAX_NB_ANALOG_INPUTS
        &&& self.fall().len() == MAX_NB_ANALOG_INPUTS
    }

    /// Fresh smoothing data with every rate zero.
    pub fn new() -> (r: Self)
        ensures
            r.wf(),
            r.rise() == zeroed_rates(),
            r.fall() == zeroed_rates(),
    {
        VehiclePadSmoothingData { rise_rates: zero_words_table(MAX_NB_ANALOG_INPUTS), fall_rates: zero_words_table(MAX_NB_ANALOG_INPUTS) }
    }

    /// Overwrite the first `rise_rates.len()` rise rates, keeping the
    /// remaining entries and all fall rates.
    pub fn set_rise_rates(&mut self, rise_rates: &[ScalarBits])
        requires
            old(self).wf(),
            rise_rates@.len() <= MAX_NB_ANALOG_INPUTS,
        ensures
            final(self).wf(),
            final(self).rise() == rise_rates@ + old(self).rise().skip(rise_rates@.len() as int),
            final(self).fall() == old(self).fall(),
    {
        copy_rates_prefix(&mut self.rise_rates, rise_rates);
    }

    /// Overwrite the first `fall_rates.len()` fall rates, keeping the
    /// remaining entries and all rise rates.
    pub fn set_fall_rates(&mut self, fall_rates: &[ScalarBits])
        requires
            old(self).wf(),
            fall_rates@.len() <= MAX_NB_ANALOG_INPUTS,
        ensures
            final(self).wf(),
            final(self).fall() == fall_rates@ + old(self).fall().skip(fall_rates@.len() as int),
            final(self).rise() == old(self).rise(),
    {
        copy_rates_prefix(&mut self.fall_rates, fall_rates);
    }

    /// The rise rate of input `i`.
    pub fn rise_rate(&self, i: usize) -> (r: ScalarBits)
        requires
            self.wf(),
            i < MAX_NB_ANALOG_INPUTS,
        ensures
            r == self.rise()[i as int],
    {
        self.rise_rates[i]
    }

    /// The fall rate of input `i`.
    pub fn fall_rate(&self, i: usize) -> (r: ScalarBits)
        requires
            self.wf(),
            i < MAX_NB_ANALOG_INPUTS,
        ensures
            r == self.fall()[i as int],
    {
        self.fall_rates[i]
    }
}

impl Default for VehiclePadSmoothingData {
    /// Same as [`VehiclePadSmoothingData::new`]: every rate zero.
    fn default() -> (r: Self)
        ensures
            r.wf(),
            r.rise() == zeroed_rates(),
            r.fall() == zeroed_rates(),
    {
        VehiclePadSmoothingData::new()
    }
}

/// The word table after recording `data` over `old_pairs`: the fill pass
/// walks the first `STEER_TABLE_MAX_PAIRS / 2` pair slots, laying pair `i`'s
/// forward speed into word `2*i` and its steer factor into word `2*i + 1`,
/// with the sentinel in every walked slot beyond the data; words after the
/// walked slots are unchanged.
pub open spec fn steer_table_fill(
    old_pairs: Seq<ScalarBits>,
    data: Seq<(ScalarBits, ScalarBits)>,
) -> Seq<ScalarBits> {
    Seq::new(
        old_pairs.len(),
        |j: int|
            if j < 2 * (STEER_TABLE_MAX_PAIRS / 2) {
                if j / 2 < data.len() {
                    if j % 2 == 0 {
                        data[j / 2].0
                    } else {
                        data[j / 2].1
                    }
                } else {
                    SCALAR_MAX_BITS
                }
            } else {
                old_pairs[j]
            },
    )
}

/// A steer-vs-forward-speed table in the interleaved layout the native lookup
/// table reads: slot `2*i` holds pair `i`'s forward speed, slot `2*i + 1` its
/// steer factor.
#[derive(Clone)]
pub struct VehicleSteerVsForwardSpeedTable {
    data_pairs: Vec<ScalarBits>,
    nb_data_pairs: usize,
}

/// The native engine's fixed-size lookup-table layout: the interleaved pair
/// words and the count of pairs in use. The native struct's padding words
/// carry no data and are not modeled.
#[derive(Clone)]
pub struct FixedSizeLookupTable {
    pub data_pairs: Vec<ScalarBits>,
    pub nb_data_pairs: u32,
}

impl VehicleSteerVsForwardSpeedTable {
    /// The interleaved pair words.
    pub closed spec fn pairs(&self) -> Seq<ScalarBits> {
        self.data_pairs@
    }

    /// How many pairs the caller supplied.
    pub closed spec fn nb_pairs(&self) -> usize {
        self.nb_data_pairs
    }

    /// The word table has one speed and one steer slot per pair, and the
    /// supplied count never exceeds the table's capacity.
    pub open spec fn wf(&self) -> bool {
        &&& self.pairs().len() == 2 * STEER_TABLE_MAX_PAIRS
        &&& self.nb_pairs() <= STEER_TABLE_MAX_PAIRS
    }

    /// Fresh table with every word zero and no pairs supplied.
    pub fn new() -> (r: Self)
        ensures
            r.wf(),
            r.pairs() == zeroed_words((2 * STEER_TABLE_MAX_PAIRS) as nat),
            r.nb_pairs() == 0,
    {
        VehicleSteerVsForwardSpeedTable {
            data_pairs: zero_words_table(2 * STEER_TABLE_MAX_PAIRS),
            nb_data_pairs: 0,
        }
    }

    /// Record the supplied (forward speed, steer factor) pairs.
    ///
    /// The count of pairs is recorded in full; the fill pass walks the first
    /// `STEER_TABLE_MAX_PAIRS / 2` pair slots, laying a supplied pair into
    /// each and the sentinel into each slot beyond the data. Words after the
    /// walked slots keep their previous values, as [`steer_table_fill`] says.
    pub fn set_data(&mut self, data: &[(ScalarBits, ScalarBits)])
        requires
            old(self).wf(),
            data@.len() <= STEER_TABLE_MAX_PAIRS,
        ensures
            final(self).wf(),
            final(self).nb_pairs() == data@.len(),
            final(self).pairs() == steer_table_fill(old(self).pairs(), data@),
    {
        self.nb_data_pairs = data.len();
        let mut idx: usize = 0;
        while idx < STEER_TABLE_MAX_PAIRS / 2
            invariant
                idx <= STEER_TABLE_MAX_PAIRS / 2,
                data@.len() <= STEER_TABLE_MAX_PAIRS,
                old(self).pairs().len() == 2 * STEER_TABLE_MAX_PAIRS,
                self.pairs().len() == 2 * STEER_TABLE_MAX_PAIRS,
                self.nb_pairs() == data@.len(),
                forall|j: int|
                    0 <= j < 2 * idx
                        ==> #[trigger] self.pairs()[j]
                        == steer_table_fill(old(self).pairs(), data@)[j],
                forall|j: int|
                    2 * idx <= j < 2 * STEER_TABLE_MAX_PAIRS
                        ==> #[trigger] self.pairs()[j] == old(self).pairs()[j],
            decreases STEER_TABLE_MAX_PAIRS / 2 - idx,
        {
            let pair: (ScalarBits, ScalarBits) = if idx < data.len() {
                data[idx]
            } else {
                (SCALAR_MAX_BITS, SCALAR_MAX_BITS)
            };
            self.data_pairs.set(idx * 2, pair.0);
            self.data_pairs.set(idx * 2 + 1, pair.1);
            proof {
                let j0 = 2 * idx as int;
                assert(j0 / 2 == idx as int && j0 % 2 == 0);
                assert((j0 + 1) / 2 == idx as int && (j0 + 1) % 2 == 1);
                assert(self.pairs()[j0] == steer_table_fill(old(self).pairs(), data@)[j0]);
                assert(self.pairs()[j0 + 1] == steer_table_fill(old(self).pairs(), data@)[j0 + 1]);
            }
            idx += 1;
        }
        proof {
            assert(self.pairs() =~= steer_table_fill(old(self).pairs(), data@));
        }
    }

    /// Lay the table out as the native engine's lookup-table struct.
    pub fn into_lookup_table(self) -> (r: FixedSizeLookupTable)
        requires
            self.wf(),
        ensures
            r.data_pairs@ == self.pairs(),
            r.nb_data_pairs as int == self.nb_pairs() as int,
    {
        FixedSizeLookupTable {
            data_pairs: self.data_pairs,
            nb_data_pairs: self.nb_data_pairs as u32,
        }
    }
}

impl Default for VehicleSteerVsForwardSpeedTable {
    /// Same as [`VehicleSteerVsForwardSpeedTable::new`]: zero words, no pairs.
    fn default() -> (r: Self)
        ensures
            r.wf(),
            r.pairs() == zeroed_words((2 * STEER_TABLE_MAX_PAIRS) as nat),
            r.nb_pairs() == 0,
    {
        VehicleSteerVsForwardSpeedTable::new()
    }
}

} // verus!
