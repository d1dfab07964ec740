//! The context-indicator words CIF0-CIF3 and the field-attributes
//! word CIF7. Each is a transparent 32-bit bitmap whose set bits
//! declare which optional fields follow; unknown and reserved bits are
//! preserved across a decode/encode cycle.

use vstd::prelude::*;

use crate::bits::{bit, clear_bit32, get_bit32, set_bit32};

verus! {

/// CIF0 bit positions of the named context fields.
pub const CIF0_CONTEXT_CHANGED_BIT: u32 = 31;

pub const CIF0_REFERENCE_POINT_ID_BIT: u32 = 30;

pub const CIF0_BANDWIDTH_BIT: u32 = 29;

pub const CIF0_IF_REF_FREQ_BIT: u32 = 28;

pub const CIF0_RF_REF_FREQ_BIT: u32 = 27;

pub const CIF0_RF_REF_FREQ_OFFSET_BIT: u32 = 26;

pub const CIF0_IF_BAND_OFFSET_BIT: u32 = 25;

pub const CIF0_REFERENCE_LEVEL_BIT: u32 = 24;

pub const CIF0_GAIN_BIT: u32 = 23;

pub const CIF0_OVER_RANGE_COUNT_BIT: u32 = 22;

pub const CIF0_SAMPLE_RATE_BIT: u32 = 21;

pub const CIF0_TIMESTAMP_ADJUSTMENT_BIT: u32 = 20;

pub const CIF0_TIMESTAMP_CAL_TIME_BIT: u32 = 19;

pub const CIF0_TEMPERATURE_BIT: u32 = 18;

pub const CIF0_DEVICE_ID_BIT: u32 = 17;

pub const CIF0_STATE_INDICATORS_BIT: u32 = 16;

pub const CIF0_SIGNAL_DATA_FORMAT_BIT: u32 = 15;

pub const CIF0_FORMATTED_GPS_BIT: u32 = 14;

pub const CIF0_FORMATTED_INS_BIT: u32 = 13;

pub const CIF0_ECEF_EPHEMERIS_BIT: u32 = 12;

pub const CIF0_RELATIVE_EPHEMERIS_BIT: u32 = 11;

pub const CIF0_EPHEMERIS_REF_ID_BIT: u32 = 10;

pub const CIF0_GPS_ASCII_BIT: u32 = 9;

pub const CIF0_ASSOCIATION_LISTS_BIT: u32 = 8;

/// CIF0 chain bits enabling the other indicator words.
pub const CIF0_CIF7_ENABLED_BIT: u32 = 7;

pub const CIF0_CIF3_ENABLED_BIT: u32 = 3;

pub const CIF0_CIF2_ENABLED_BIT: u32 = 2;

pub const CIF0_CIF1_ENABLED_BIT: u32 = 1;

/// CIF1 bit position of the spectrum descriptor field.
pub const CIF1_SPECTRUM_BIT: u32 = 8;

/// CIF7 attribute bits.
pub const CIF7_CURRENT_BIT: u32 = 31;

pub const CIF7_MEAN_BIT: u32 = 30;

pub const CIF7_MEDIAN_BIT: u32 = 29;

pub const CIF7_STD_DEV_BIT: u32 = 28;

pub const CIF7_MAX_BIT: u32 = 27;

pub const CIF7_MIN_BIT: u32 = 26;

pub const CIF7_PRECISION_BIT: u32 = 25;

pub const CIF7_ACCURACY_BIT: u32 = 24;

pub const CIF7_FIRST_SAMPLE_BIT: u32 = 23;

pub const CIF7_SECOND_SAMPLE_BIT: u32 = 22;

/// The CIF0 indicator word (base context fields and chain bits).
#[derive(Clone, Copy, Debug, PartialEq, Eq, Structural)]
pub struct Cif0(pub u32);

/// The CIF1 indicator word (extended context fields).
#[derive(Clone, Copy, Debug, PartialEq, Eq, Structural)]
pub struct Cif1(pub u32);

/// The CIF2 indicator word. Its fields are not interpreted by this
/// codec; the bits themselves are preserved.
#[derive(Clone, Copy, Debug, PartialEq, Eq, Structural)]
pub struct Cif2(pub u32);

/// The CIF3 indicator word. Its fields are not interpreted by this
/// codec; the bits themselves are preserved.
#[derive(Clone, Copy, Debug, PartialEq, Eq, Structural)]
pub struct Cif3(pub u32);

/// The CIF7 field-attributes indicator word.
#[derive(Clone, Copy, Debug, PartialEq, Eq, Structural)]
pub struct Cif7(pub u32);

impl Default for Cif0 {
    /// An empty indicator word.
    fn default() -> (r: Self)
        ensures
            r.0 == 0,
    {
        Cif0(0)
    }
}

impl Default for Cif1 {
    /// An empty indicator word.
    fn default() -> (r: Self)
        ensures
            r.0 == 0,
    {
        Cif1(0)
    }
}

impl Default for Cif2 {
    /// An empty indicator word.
    fn default() -> (r: Self)
        ensures
            r.0 == 0,
    {
        Cif2(0)
    }
}

impl Default for Cif3 {
    /// An empty indicator word.
    fn default() -> (r: Self)
        ensures
            r.0 == 0,
    {
        Cif3(0)
    }
}

impl Default for Cif7 {
    /// An empty indicator word.
    fn default() -> (r: Self)
        ensures
            r.0 == 0,
    {
        Cif7(0)
    }
}

impl Cif0 {
    /// The indicator word as a raw integer.
    pub fn as_u32(&self) -> (r: u32)
        ensures
            r == self.0,
    {
        self.0
    }

    /// True when no bit at all is set.
    pub fn empty(&self) -> (r: bool)
        ensures
            r == (self.0 == 0),
    {
        self.0 == 0
    }

    /// Whether the CIF1 indicator word follows.
    pub open spec fn spec_cif1_enabled(&self) -> bool {
        bit(self.0, CIF0_CIF1_ENABLED_BIT)
    }

    #[verifier::when_used_as_spec(spec_cif1_enabled)]
    pub fn cif1_enabled(&self) -> (r: bool)
        ensures
            r == self.spec_cif1_enabled(),
    {
        get_bit32(self.0, CIF0_CIF1_ENABLED_BIT)
    }

    /// Whether the CIF2 indicator word follows.
    pub open spec fn spec_cif2_enabled(&self) -> bool {
        bit(self.0, CIF0_CIF2_ENABLED_BIT)
    }

    #[verifier::when_used_as_spec(spec_cif2_enabled)]
    pub fn cif2_enabled(&self) -> (r: bool)
        ensures
            r == self.spec_cif2_enabled(),
    {
        get_bit32(self.0, CIF0_CIF2_ENABLED_BIT)
    }

    /// Whether the CIF3 indicator word follows.
    pub open spec fn spec_cif3_enabled(&self) -> bool {
        bit(self.0, CIF0_CIF3_ENABLED_BIT)
    }

    #[verifier::when_used_as_spec(spec_cif3_enabled)]
    pub fn cif3_enabled(&self) -> (r: bool)
        ensures
            r == self.spec_cif3_enabled(),
    {
        get_bit32(self.0, CIF0_CIF3_ENABLED_BIT)
    }

    /// Whether the CIF7 field-attributes word follows.
    pub open spec fn spec_field_attributes_enabled(&self) -> bool {
        bit(self.0, CIF0_CIF7_ENABLED_BIT)
    }

    #[verifier::when_used_as_spec(spec_field_attributes_enabled)]
    pub fn field_attributes_enabled(&self) -> (r: bool)
        ensures
            r == self.spec_field_attributes_enabled(),
    {
        get_bit32(self.0, CIF0_CIF7_ENABLED_BIT)
    }

    /// Whether the context-field-changed flag is set.
    pub open spec fn spec_context_field_changed(&self) -> bool {
        bit(self.0, CIF0_CONTEXT_CHANGED_BIT)
    }

    #[verifier::when_used_as_spec(spec_context_field_changed)]
    pub fn context_field_changed(&self) -> (r: bool)
        ensures
            r == self.spec_context_field_changed(),
    {
        get_bit32(self.0, CIF0_CONTEXT_CHANGED_BIT)
    }

    /// Test one indicator bit.
    pub fn get(&self, i: u32) -> (r: bool)
        requires
            i < 32,
        ensures
            r == bit(self.0, i),
    {
        get_bit32(self.0, i)
    }

    /// Set one indicator bit, leaving every other bit alone.
    pub fn set(&mut self, i: u32)
        requires
            i < 32,
        ensures
            final(self).0 == old(self).0 | (1u32 << i),
            forall|j: u32| j < 32 ==> #[trigger] bit(final(self).0, j) == (j == i || bit(
                old(self).0,
                j,
            )),
    {
        self.0 = set_bit32(self.0, i);
    }

    /// Clear one indicator bit, leaving every other bit alone.
    pub fn clear(&mut self, i: u32)
        requires
            i < 32,
        ensures
            final(self).0 == old(self).0 & !(1u32 << i),
            forall|j: u32| j < 32 ==> #[trigger] bit(final(self).0, j) == (j != i && bit(
                old(self).0,
                j,
            )),
    {
        self.0 = clear_bit32(self.0, i);
    }
}

impl Cif1 {
    /// The indicator word as a raw integer.
    pub fn as_u32(&self) -> (r: u32)
        ensures
            r == self.0,
    {
        self.0
    }

    /// True when no bit at all is set.
    pub fn empty(&self) -> (r: bool)
        ensures
            r == (self.0 == 0),
    {
        self.0 == 0
    }

    /// Whether the spectrum descriptor field follows.
    pub open spec fn spec_spectrum(&self) -> bool {
        bit(self.0, CIF1_SPECTRUM_BIT)
    }

    #[verifier::when_used_as_spec(spec_spectrum)]
    pub fn spectrum(&self) -> (r: bool)
        ensures
            r == self.spec_spectrum(),
    {
        get_bit32(self.0, CIF1_SPECTRUM_BIT)
    }

    /// Test one indicator bit.
    pub fn get(&self, i: u32) -> (r: bool)
        requires
            i < 32,
        ensures
            r == bit(self.0, i),
    {
        get_bit32(self.0, i)
    }

    /// Set one indicator bit, leaving every other bit alone.
    pub fn set(&mut self, i: u32)
        requires
            i < 32,
        ensures
            forall|j: u32| j < 32 ==> #[trigger] bit(final(self).0, j) == (j == i || bit(
                old(self).0,
                j,
            )),
    {
        self.0 = set_bit32(self.0, i);
    }

    /// Clear one indicator bit, leaving every other bit alone.
    pub fn clear(&mut self, i: u32)
        requires
            i < 32,
        ensures
            forall|j: u32| j < 32 ==> #[trigger] bit(final(self).0, j) == (j != i && bit(
                old(self).0,
                j,
            )),
    {
        self.0 = clear_bit32(self.0, i);
    }
}

impl Cif2 {
    /// The indicator word as a raw integer.
    pub fn as_u32(&self) -> (r: u32)
        ensures
            r == self.0,
    {
        self.0
    }

    /// True when no bit at all is set.
    pub fn empty(&self) -> (r: bool)
        ensures
            r == (self.0 == 0),
    {
        self.0 == 0
    }
}

impl Cif3 {
    /// The indicator word as a raw integer.
    pub fn as_u32(&self) -> (r: u32)
        ensures
            r == self.0,
    {
        self.0
    }

    /// True when no bit at all is set.
    pub fn empty(&self) -> (r: bool)
        ensures
            r == (self.0 == 0),
    {
        self.0 == 0
    }
}

impl Cif7 {
    /// The indicator word as a raw integer.
    pub fn as_u32(&self) -> (r: u32)
        ensures
            r == self.0,
    {
        self.0
    }

    /// Whether the base ("current") value of each flagged field is
    /// itself serialized.
    pub open spec fn spec_current(&self) -> bool {
        bit(self.0, CIF7_CURRENT_BIT)
    }

    #[verifier::when_used_as_spec(spec_current)]
    pub fn current(&self) -> (r: bool)
        ensures
            r == self.spec_current(),
    {
        get_bit32(self.0, CIF7_CURRENT_BIT)
    }

    /// How many attribute entries follow each flagged field: one per
    /// set attribute bit, the current bit excepted.
    pub open spec fn spec_extra_attrs(&self) -> nat {
        (if bit(self.0, CIF7_MEAN_BIT) {
            1nat
        } else {
            0nat
        }) + (if bit(self.0, CIF7_MEDIAN_BIT) {
            1nat
        } else {
            0nat
        }) + (if bit(self.0, CIF7_STD_DEV_BIT) {
            1nat
        } else {
            0nat
        }) + (if bit(self.0, CIF7_MAX_BIT) {
            1nat
        } else {
            0nat
        }) + (if bit(self.0, CIF7_MIN_BIT) {
            1nat
        } else {
            0nat
        }) + (if bit(self.0, CIF7_PRECISION_BIT) {
            1nat
        } else {
            0nat
        }) + (if bit(self.0, CIF7_ACCURACY_BIT) {
            1nat
        } else {
            0nat
        }) + (if bit(self.0, CIF7_FIRST_SAMPLE_BIT) {
            1nat
        } else {
            0nat
        }) + (if bit(self.0, CIF7_SECOND_SAMPLE_BIT) {
            1nat
        } else {
            0nat
        })
    }

    /// Count the attribute entries that follow each flagged field.
    pub fn extra_attrs(&self) -> (r: usize)
        ensures
            r == self.spec_extra_attrs(),
            r <= 9,
    {
        let mut n: usize = 0;
        if get_bit32(self.0, CIF7_MEAN_BIT) {
            n = n + 1;
        }
        if get_bit32(self.0, CIF7_MEDIAN_BIT) {
            n = n + 1;
        }
        if get_bit32(self.0, CIF7_STD_DEV_BIT) {
            n = n + 1;
        }
        if get_bit32(self.0, CIF7_MAX_BIT) {
            n = n + 1;
        }
        if get_bit32(self.0, CIF7_MIN_BIT) {
            n = n + 1;
        }
        if get_bit32(self.0, CIF7_PRECISION_BIT) {
            n = n + 1;
        }
        if get_bit32(self.0, CIF7_ACCURACY_BIT) {
            n = n + 1;
        }
        if get_bit32(self.0, CIF7_FIRST_SAMPLE_BIT) {
            n = n + 1;
        }
        if get_bit32(self.0, CIF7_SECOND_SAMPLE_BIT) {
            n = n + 1;
        }
        n
    }

    /// Flag the base value as serialized.
    pub fn set_current(&mut self)
        ensures
            forall|j: u32| j < 32 ==> #[trigger] bit(final(self).0, j) == (j == CIF7_CURRENT_BIT
                || bit(old(self).0, j)),
    {
        self.0 = set_bit32(self.0, CIF7_CURRENT_BIT);
    }

    /// Flag a mean-value attribute for each field.
    pub fn set_average(&mut self)
        ensures
            forall|j: u32| j < 32 ==> #[trigger] bit(final(self).0, j) == (j == CIF7_MEAN_BIT
                || bit(old(self).0, j)),
    {
        self.0 = set_bit32(self.0, CIF7_MEAN_BIT);
    }

    /// Flag a median-value attribute for each field.
    pub fn set_median(&mut self)
        ensures
            forall|j: u32| j < 32 ==> #[trigger] bit(final(self).0, j) == (j == CIF7_MEDIAN_BIT
                || bit(old(self).0, j)),
    {
        self.0 = set_bit32(self.0, CIF7_MEDIAN_BIT);
    }

    /// Flag a standard-deviation attribute for each field.
    pub fn set_std_dev(&mut self)
        ensures
            forall|j: u32| j < 32 ==> #[trigger] bit(final(self).0, j) == (j == CIF7_STD_DEV_BIT
                || bit(old(self).0, j)),
    {
        self.0 = set_bit32(self.0, CIF7_STD_DEV_BIT);
    }

    /// Flag a maximum-value attribute for each field.
    pub fn set_max(&mut self)
        ensures
            forall|j: u32| j < 32 ==> #[trigger] bit(final(self).0, j) == (j == CIF7_MAX_BIT || bit(
                old(self).0,
                j,
            )),
    {
        self.0 = set_bit32(self.0, CIF7_MAX_BIT);
    }

    /// Flag a minimum-value attribute for each field.
    pub fn set_min(&mut self)
        ensures
            forall|j: u32| j < 32 ==> #[trigger] bit(final(self).0, j) == (j == CIF7_MIN_BIT || bit(
                old(self).0,
                j,
            )),
    {
        self.0 = set_bit32(self.0, CIF7_MIN_BIT);
    }

    /// Test one attribute bit.
    pub fn get(&self, i: u32) -> (r: bool)
        requires
            i < 32,
        ensures
            r == bit(self.0, i),
    {
        get_bit32(self.0, i)
    }
}

/// Whether base values are serialized under an optional CIF7 word:
/// with no CIF7 they always are.
pub open spec fn cif7_current(c: Option<Cif7>) -> bool {
    match c {
        Option::Some(c7) => c7.spec_current(),
        Option::None => true,
    }
}

/// How many attribute entries follow each flagged field under an
/// optional CIF7 word: none without a CIF7.
pub open spec fn cif7_extra(c: Option<Cif7>) -> nat {
    match c {
        Option::Some(c7) => c7.spec_extra_attrs(),
        Option::None => 0,
    }
}

} // verus!
