//! Named accessors for the CIF0 data fields of a context, control or
//! query-acknowledgement payload, and for their attribute vectors.
//! Each setter flips the field's indicator bit together with the
//! stored value; radix-scaled members are carried unscaled, as on the
//! wire.

use vstd::prelude::*;

use crate::bits::{bit, lemma_i16_cast, lemma_i32_cast, lemma_i64_cast};
use crate::cif::{
    CIF0_ASSOCIATION_LISTS_BIT, CIF0_BANDWIDTH_BIT, CIF0_DEVICE_ID_BIT, CIF0_ECEF_EPHEMERIS_BIT,
    CIF0_EPHEMERIS_REF_ID_BIT, CIF0_FORMATTED_GPS_BIT, CIF0_FORMATTED_INS_BIT, CIF0_GAIN_BIT,
    CIF0_GPS_ASCII_BIT, CIF0_IF_BAND_OFFSET_BIT, CIF0_IF_REF_FREQ_BIT, CIF0_OVER_RANGE_COUNT_BIT,
    CIF0_REFERENCE_LEVEL_BIT, CIF0_REFERENCE_POINT_ID_BIT, CIF0_RELATIVE_EPHEMERIS_BIT,
    CIF0_RF_REF_FREQ_BIT, CIF0_RF_REF_FREQ_OFFSET_BIT, CIF0_SAMPLE_RATE_BIT,
    CIF0_SIGNAL_DATA_FORMAT_BIT, CIF0_STATE_INDICATORS_BIT, CIF0_TEMPERATURE_BIT,
    CIF0_TIMESTAMP_ADJUSTMENT_BIT, CIF0_TIMESTAMP_CAL_TIME_BIT,
};
use crate::cif_payload::CifPayload;
use crate::composites::{ContextAssociationLists, EcefEphemeris, FormattedGps, GpsAscii};
use crate::field_value::FieldValue;

verus! {

impl CifPayload {
    /// A one-word scalar field, when present with that shape.
    pub open spec fn single_at(self, b: u32) -> Option<u32> {
        match self.fields0.value_at(b) {
            Option::Some(FieldValue::Single(x)) => Option::Some(x),
            _ => Option::None,
        }
    }

    /// A two-word scalar field, when present with that shape.
    pub open spec fn double_at(self, b: u32) -> Option<u64> {
        match self.fields0.value_at(b) {
            Option::Some(FieldValue::Double(x)) => Option::Some(x),
            _ => Option::None,
        }
    }

    /// A signed two-word scalar field, when present with that shape.
    pub open spec fn sdouble_at(self, b: u32) -> Option<i64> {
        match self.fields0.value_at(b) {
            Option::Some(FieldValue::Double(x)) => Option::Some(x as i64),
            _ => Option::None,
        }
    }

    /// A signed one-word scalar field, when present with that shape.
    pub open spec fn sword_at(self, b: u32) -> Option<i32> {
        match self.fields0.value_at(b) {
            Option::Some(FieldValue::Single(x)) => Option::Some(x as i32),
            _ => Option::None,
        }
    }

    /// A signed half-word scalar field, when present with that shape.
    pub open spec fn hword_at(self, b: u32) -> Option<i16> {
        match self.fields0.value_at(b) {
            Option::Some(FieldValue::Single(x)) => Option::Some((x as u16) as i16),
            _ => Option::None,
        }
    }

    /// A geolocation field, when present with that shape.
    pub open spec fn gps_at(self, b: u32) -> Option<FormattedGps> {
        match self.fields0.value_at(b) {
            Option::Some(FieldValue::Gps(x)) => Option::Some(x),
            _ => Option::None,
        }
    }

    /// An ephemeris field, when present with that shape.
    pub open spec fn ephemeris_at(self, b: u32) -> Option<EcefEphemeris> {
        match self.fields0.value_at(b) {
            Option::Some(FieldValue::Ephemeris(x)) => Option::Some(x),
            _ => Option::None,
        }
    }

    /// A GPS ASCII field, when present with that shape.
    pub open spec fn ascii_at(self, b: u32) -> Option<GpsAscii> {
        match self.fields0.value_at(b) {
            Option::Some(FieldValue::Ascii(x)) => Option::Some(x),
            _ => Option::None,
        }
    }

    /// An association-lists field, when present with that shape.
    pub open spec fn cal_at(self, b: u32) -> Option<ContextAssociationLists> {
        match self.fields0.value_at(b) {
            Option::Some(FieldValue::AssociationLists(x)) => Option::Some(x),
            _ => Option::None,
        }
    }

    /// The setter's effect on everything but the stored value: the
    /// indicator bit follows presence, attributes are kept on a set
    /// and dropped on a clear, the rest of the payload stands still,
    /// and a well-formed payload stays well-formed whenever the
    /// field's attribute vector already fits the CIF7 options.
    pub open spec fn set_effect(pre: CifPayload, post: CifPayload, b: u32, present: bool) -> bool {
        &&& post.slots_ok()
        &&& Self::frame_except0(pre, post, b)
        &&& bit(post.cif0.0, b) == present
        &&& (present ==> post.fields0.attrs_at(b) == pre.fields0.attrs_at(b))
        &&& (!present ==> post.fields0.attrs_at(b).len() == 0)
        &&& (pre.wf() && crate::cif::cif7_current(pre.cif7) && (!present || crate::cif::cif7_extra(
            pre.cif7,
        ) == 0 || pre.fields0.attrs_at(b).len() == crate::cif::cif7_extra(pre.cif7)) ==> post.wf())
    }

    /// The reference-point identifier field.
    pub fn reference_point_id(&self) -> (r: Option<u32>)
        requires
            self.slots_ok(),
        ensures
            r == self.single_at(CIF0_REFERENCE_POINT_ID_BIT),
    {
        match self.fields0.value(CIF0_REFERENCE_POINT_ID_BIT) {
            Option::Some(FieldValue::Single(x)) => Option::Some(*x),
            _ => Option::None,
        }
    }

    /// Set or clear the reference-point identifier field.
    pub fn set_reference_point_id(&mut self, v: Option<u32>)
        requires
            old(self).slots_ok(),
        ensures
            final(self).single_at(CIF0_REFERENCE_POINT_ID_BIT) == v,
            Self::set_effect(*old(self), *final(self), CIF0_REFERENCE_POINT_ID_BIT, v is Some),
    {
        match v {
            Option::Some(x) => self.set_field0(CIF0_REFERENCE_POINT_ID_BIT, Option::Some(FieldValue::Single(x))),
            Option::None => self.set_field0(CIF0_REFERENCE_POINT_ID_BIT, Option::None),
        }
    }

    /// The bandwidth, radix-20 fixed-point Hertz field.
    pub fn bandwidth(&self) -> (r: Option<u64>)
        requires
            self.slots_ok(),
        ensures
            r == self.double_at(CIF0_BANDWIDTH_BIT),
    {
        match self.fields0.value(CIF0_BANDWIDTH_BIT) {
            Option::Some(FieldValue::Double(x)) => Option::Some(*x),
            _ => Option::None,
        }
    }

    /// Set or clear the bandwidth, radix-20 fixed-point Hertz field.
    pub fn set_bandwidth(&mut self, v: Option<u64>)
        requires
            old(self).slots_ok(),
        ensures
            final(self).double_at(CIF0_BANDWIDTH_BIT) == v,
            Self::set_effect(*old(self), *final(self), CIF0_BANDWIDTH_BIT, v is Some),
    {
        match v {
            Option::Some(x) => self.set_field0(CIF0_BANDWIDTH_BIT, Option::Some(FieldValue::Double(x))),
            Option::None => self.set_field0(CIF0_BANDWIDTH_BIT, Option::None),
        }
    }

    /// The IF reference frequency, signed radix-20 fixed-point Hertz field.
    pub fn if_ref_freq(&self) -> (r: Option<i64>)
        requires
            self.slots_ok(),
        ensures
            r == self.sdouble_at(CIF0_IF_REF_FREQ_BIT),
    {
        match self.fields0.value(CIF0_IF_REF_FREQ_BIT) {
            Option::Some(FieldValue::Double(x)) => Option::Some((*x) as i64),
            _ => Option::None,
        }
    }

    /// Set or clear the IF reference frequency, signed radix-20 fixed-point Hertz field.
    pub fn set_if_ref_freq(&mut self, v: Option<i64>)
        requires
            old(self).slots_ok(),
        ensures
            final(self).sdouble_at(CIF0_IF_REF_FREQ_BIT) == v,
            Self::set_effect(*old(self), *final(self), CIF0_IF_REF_FREQ_BIT, v is Some),
    {
        proof {
            match v {
                Option::Some(x) => lemma_i64_cast(x),
                Option::None => (),
            }
        }
        match v {
            Option::Some(x) => self.set_field0(CIF0_IF_REF_FREQ_BIT, Option::Some(FieldValue::Double(x as u64))),
            Option::None => self.set_field0(CIF0_IF_REF_FREQ_BIT, Option::None),
        }
    }

    /// The RF reference frequency, radix-20 fixed-point Hertz field.
    pub fn rf_ref_freq(&self) -> (r: Option<u64>)
        requires
            self.slots_ok(),
        ensures
            r == self.double_at(CIF0_RF_REF_FREQ_BIT),
    {
        match self.fields0.value(CIF0_RF_REF_FREQ_BIT) {
            Option::Some(FieldValue::Double(x)) => Option::Some(*x),
            _ => Option::None,
        }
    }

    /// Set or clear the RF reference frequency, radix-20 fixed-point Hertz field.
    pub fn set_rf_ref_freq(&mut self, v: Option<u64>)
        requires
            old(self).slots_ok(),
        ensures
            final(self).double_at(CIF0_RF_REF_FREQ_BIT) == v,
            Self::set_effect(*old(self), *final(self), CIF0_RF_REF_FREQ_BIT, v is Some),
    {
        match v {
            Option::Some(x) => self.set_field0(CIF0_RF_REF_FREQ_BIT, Option::Some(FieldValue::Double(x))),
            Option::None => self.set_field0(CIF0_RF_REF_FREQ_BIT, Option::None),
        }
    }

    /// The RF frequency offset, signed radix-20 fixed-point Hertz field.
    pub fn rf_ref_freq_offset(&self) -> (r: Option<i64>)
        requires
            self.slots_ok(),
        ensures
            r == self.sdouble_at(CIF0_RF_REF_FREQ_OFFSET_BIT),
    {
        match self.fields0.value(CIF0_RF_REF_FREQ_OFFSET_BIT) {
            Option::Some(FieldValue::Double(x)) => Option::Some((*x) as i64),
            _ => Option::None,
        }
    }

    /// Set or clear the RF frequency offset, signed radix-20 fixed-point Hertz field.
    pub fn set_rf_ref_freq_offset(&mut self, v: Option<i64>)
        requires
            old(self).slots_ok(),
        ensures
            final(self).sdouble_at(CIF0_RF_REF_FREQ_OFFSET_BIT) == v,
            Self::set_effect(*old(self), *final(self), CIF0_RF_REF_FREQ_OFFSET_BIT, v is Some),
    {
        proof {
            match v {
                Option::Some(x) => lemma_i64_cast(x),
                Option::None => (),
            }
        }
        match v {
            Option::Some(x) => self.set_field0(CIF0_RF_REF_FREQ_OFFSET_BIT, Option::Some(FieldValue::Double(x as u64))),
            Option::None => self.set_field0(CIF0_RF_REF_FREQ_OFFSET_BIT, Option::None),
        }
    }

    /// The IF band offset, signed radix-20 fixed-point Hertz field.
    pub fn if_band_offset(&self) -> (r: Option<i64>)
        requires
            self.slots_ok(),
        ensures
            r == self.sdouble_at(CIF0_IF_BAND_OFFSET_BIT),
    {
        match self.fields0.value(CIF0_IF_BAND_OFFSET_BIT) {
            Option::Some(FieldValue::Double(x)) => Option::Some((*x) as i64),
            _ => Option::None,
        }
    }

    /// Set or clear the IF band offset, signed radix-20 fixed-point Hertz field.
    pub fn set_if_band_offset(&mut self, v: Option<i64>)
        requires
            old(self).slots_ok(),
        ensures
            final(self).sdouble_at(CIF0_IF_BAND_OFFSET_BIT) == v,
            Self::set_effect(*old(self), *final(self), CIF0_IF_BAND_OFFSET_BIT, v is Some),
    {
        proof {
            match v {
                Option::Some(x) => lemma_i64_cast(x),
                Option::None => (),
            }
        }
        match v {
            Option::Some(x) => self.set_field0(CIF0_IF_BAND_OFFSET_BIT, Option::Some(FieldValue::Double(x as u64))),
            Option::None => self.set_field0(CIF0_IF_BAND_OFFSET_BIT, Option::None),
        }
    }

    /// The reference level, signed radix-7 fixed-point dBm in the low half-word field.
    pub fn reference_level(&self) -> (r: Option<i16>)
        requires
            self.slots_ok(),
        ensures
            r == self.hword_at(CIF0_REFERENCE_LEVEL_BIT),
    {
        match self.fields0.value(CIF0_REFERENCE_LEVEL_BIT) {
            Option::Some(FieldValue::Single(x)) => Option::Some(((*x) as u16) as i16),
            _ => Option::None,
        }
    }

    /// Set or clear the reference level, signed radix-7 fixed-point dBm in the low half-word field.
    pub fn set_reference_level(&mut self, v: Option<i16>)
        requires
            old(self).slots_ok(),
        ensures
            final(self).hword_at(CIF0_REFERENCE_LEVEL_BIT) == v,
            Self::set_effect(*old(self), *final(self), CIF0_REFERENCE_LEVEL_BIT, v is Some),
    {
        proof {
            match v {
                Option::Some(x) => lemma_i16_cast(x),
                Option::None => (),
            }
        }
        match v {
            Option::Some(x) => self.set_field0(CIF0_REFERENCE_LEVEL_BIT, Option::Some(FieldValue::Single((x as u16) as u32))),
            Option::None => self.set_field0(CIF0_REFERENCE_LEVEL_BIT, Option::None),
        }
    }

    /// The gain word: two signed radix-7 fixed-point stages field.
    pub fn gain(&self) -> (r: Option<u32>)
        requires
            self.slots_ok(),
        ensures
            r == self.single_at(CIF0_GAIN_BIT),
    {
        match self.fields0.value(CIF0_GAIN_BIT) {
            Option::Some(FieldValue::Single(x)) => Option::Some(*x),
            _ => Option::None,
        }
    }

    /// Set or clear the gain word: two signed radix-7 fixed-point stages field.
    pub fn set_gain(&mut self, v: Option<u32>)
        requires
            old(self).slots_ok(),
        ensures
            final(self).single_at(CIF0_GAIN_BIT) == v,
            Self::set_effect(*old(self), *final(self), CIF0_GAIN_BIT, v is Some),
    {
        match v {
            Option::Some(x) => self.set_field0(CIF0_GAIN_BIT, Option::Some(FieldValue::Single(x))),
            Option::None => self.set_field0(CIF0_GAIN_BIT, Option::None),
        }
    }

    /// The over-range count field.
    pub fn over_range_count(&self) -> (r: Option<u32>)
        requires
            self.slots_ok(),
        ensures
            r == self.single_at(CIF0_OVER_RANGE_COUNT_BIT),
    {
        match self.fields0.value(CIF0_OVER_RANGE_COUNT_BIT) {
            Option::Some(FieldValue::Single(x)) => Option::Some(*x),
            _ => Option::None,
        }
    }

    /// Set or clear the over-range count field.
    pub fn set_over_range_count(&mut self, v: Option<u32>)
        requires
            old(self).slots_ok(),
        ensures
            final(self).single_at(CIF0_OVER_RANGE_COUNT_BIT) == v,
            Self::set_effect(*old(self), *final(self), CIF0_OVER_RANGE_COUNT_BIT, v is Some),
    {
        match v {
            Option::Some(x) => self.set_field0(CIF0_OVER_RANGE_COUNT_BIT, Option::Some(FieldValue::Single(x))),
            Option::None => self.set_field0(CIF0_OVER_RANGE_COUNT_BIT, Option::None),
        }
    }

    /// The sample rate, radix-20 fixed-point samples per second field.
    pub fn sample_rate(&self) -> (r: Option<u64>)
        requires
            self.slots_ok(),
        ensures
            r == self.double_at(CIF0_SAMPLE_RATE_BIT),
    {
        match self.fields0.value(CIF0_SAMPLE_RATE_BIT) {
            Option::Some(FieldValue::Double(x)) => Option::Some(*x),
            _ => Option::None,
        }
    }

    /// Set or clear the sample rate, radix-20 fixed-point samples per second field.
    pub fn set_sample_rate(&mut self, v: Option<u64>)
        requires
            old(self).slots_ok(),
        ensures
            final(self).double_at(CIF0_SAMPLE_RATE_BIT) == v,
            Self::set_effect(*old(self), *final(self), CIF0_SAMPLE_RATE_BIT, v is Some),
    {
        match v {
            Option::Some(x) => self.set_field0(CIF0_SAMPLE_RATE_BIT, Option::Some(FieldValue::Double(x))),
            Option::None => self.set_field0(CIF0_SAMPLE_RATE_BIT, Option::None),
        }
    }

    /// The timestamp adjustment, femtoseconds field.
    pub fn timestamp_adjustment(&self) -> (r: Option<u64>)
        requires
            self.slots_ok(),
        ensures
            r == self.double_at(CIF0_TIMESTAMP_ADJUSTMENT_BIT),
    {
        match self.fields0.value(CIF0_TIMESTAMP_ADJUSTMENT_BIT) {
            Option::Some(FieldValue::Double(x)) => Option::Some(*x),
            _ => Option::None,
        }
    }

    /// Set or clear the timestamp adjustment, femtoseconds field.
    pub fn set_timestamp_adjustment(&mut self, v: Option<u64>)
        requires
            old(self).slots_ok(),
        ensures
            final(self).double_at(CIF0_TIMESTAMP_ADJUSTMENT_BIT) == v,
            Self::set_effect(*old(self), *final(self), CIF0_TIMESTAMP_ADJUSTMENT_BIT, v is Some),
    {
        match v {
            Option::Some(x) => self.set_field0(CIF0_TIMESTAMP_ADJUSTMENT_BIT, Option::Some(FieldValue::Double(x))),
            Option::None => self.set_field0(CIF0_TIMESTAMP_ADJUSTMENT_BIT, Option::None),
        }
    }

    /// The timestamp calibration time, seconds field.
    pub fn timestamp_cal_time(&self) -> (r: Option<u32>)
        requires
            self.slots_ok(),
        ensures
            r == self.single_at(CIF0_TIMESTAMP_CAL_TIME_BIT),
    {
        match self.fields0.value(CIF0_TIMESTAMP_CAL_TIME_BIT) {
            Option::Some(FieldValue::Single(x)) => Option::Some(*x),
            _ => Option::None,
        }
    }

    /// Set or clear the timestamp calibration time, seconds field.
    pub fn set_timestamp_cal_time(&mut self, v: Option<u32>)
        requires
            old(self).slots_ok(),
        ensures
            final(self).single_at(CIF0_TIMESTAMP_CAL_TIME_BIT) == v,
            Self::set_effect(*old(self), *final(self), CIF0_TIMESTAMP_CAL_TIME_BIT, v is Some),
    {
        match v {
            Option::Some(x) => self.set_field0(CIF0_TIMESTAMP_CAL_TIME_BIT, Option::Some(FieldValue::Single(x))),
            Option::None => self.set_field0(CIF0_TIMESTAMP_CAL_TIME_BIT, Option::None),
        }
    }

    /// The device temperature word, signed radix-6 fixed-point degrees in the low half-word field.
    pub fn temperature(&self) -> (r: Option<i32>)
        requires
            self.slots_ok(),
        ensures
            r == self.sword_at(CIF0_TEMPERATURE_BIT),
    {
        match self.fields0.value(CIF0_TEMPERATURE_BIT) {
            Option::Some(FieldValue::Single(x)) => Option::Some((*x) as i32),
            _ => Option::None,
        }
    }

    /// Set or clear the device temperature word, signed radix-6 fixed-point degrees in the low half-word field.
    pub fn set_temperature(&mut self, v: Option<i32>)
        requires
            old(self).slots_ok(),
        ensures
            final(self).sword_at(CIF0_TEMPERATURE_BIT) == v,
            Self::set_effect(*old(self), *final(self), CIF0_TEMPERATURE_BIT, v is Some),
    {
        proof {
            match v {
                Option::Some(x) => lemma_i32_cast(x),
                Option::None => (),
            }
        }
        match v {
            Option::Some(x) => self.set_field0(CIF0_TEMPERATURE_BIT, Option::Some(FieldValue::Single(x as u32))),
            Option::None => self.set_field0(CIF0_TEMPERATURE_BIT, Option::None),
        }
    }

    /// The device identifier: manufacturer OUI in the high word, device code in the low word field.
    pub fn device_id(&self) -> (r: Option<u64>)
        requires
            self.slots_ok(),
        ensures
            r == self.double_at(CIF0_DEVICE_ID_BIT),
    {
        match self.fields0.value(CIF0_DEVICE_ID_BIT) {
            Option::Some(FieldValue::Double(x)) => Option::Some(*x),
            _ => Option::None,
        }
    }

    /// Set or clear the device identifier: manufacturer OUI in the high word, device code in the low word field.
    pub fn set_device_id(&mut self, v: Option<u64>)
        requires
            old(self).slots_ok(),
        ensures
            final(self).double_at(CIF0_DEVICE_ID_BIT) == v,
            Self::set_effect(*old(self), *final(self), CIF0_DEVICE_ID_BIT, v is Some),
    {
        match v {
            Option::Some(x) => self.set_field0(CIF0_DEVICE_ID_BIT, Option::Some(FieldValue::Double(x))),
            Option::None => self.set_field0(CIF0_DEVICE_ID_BIT, Option::None),
        }
    }

    /// The state and event indicators field.
    pub fn state_indicators(&self) -> (r: Option<u32>)
        requires
            self.slots_ok(),
        ensures
            r == self.single_at(CIF0_STATE_INDICATORS_BIT),
    {
        match self.fields0.value(CIF0_STATE_INDICATORS_BIT) {
            Option::Some(FieldValue::Single(x)) => Option::Some(*x),
            _ => Option::None,
        }
    }

    /// Set or clear the state and event indicators field.
    pub fn set_state_indicators(&mut self, v: Option<u32>)
        requires
            old(self).slots_ok(),
        ensures
            final(self).single_at(CIF0_STATE_INDICATORS_BIT) == v,
            Self::set_effect(*old(self), *final(self), CIF0_STATE_INDICATORS_BIT, v is Some),
    {
        match v {
            Option::Some(x) => self.set_field0(CIF0_STATE_INDICATORS_BIT, Option::Some(FieldValue::Single(x))),
            Option::None => self.set_field0(CIF0_STATE_INDICATORS_BIT, Option::None),
        }
    }

    /// The signal data payload format field.
    pub fn signal_data_payload_format(&self) -> (r: Option<u64>)
        requires
            self.slots_ok(),
        ensures
            r == self.double_at(CIF0_SIGNAL_DATA_FORMAT_BIT),
    {
        match self.fields0.value(CIF0_SIGNAL_DATA_FORMAT_BIT) {
            Option::Some(FieldValue::Double(x)) => Option::Some(*x),
            _ => Option::None,
        }
    }

    /// Set or clear the signal data payload format field.
    pub fn set_signal_data_payload_format(&mut self, v: Option<u64>)
        requires
            old(self).slots_ok(),
        ensures
            final(self).double_at(CIF0_SIGNAL_DATA_FORMAT_BIT) == v,
            Self::set_effect(*old(self), *final(self), CIF0_SIGNAL_DATA_FORMAT_BIT, v is Some),
    {
        match v {
            Option::Some(x) => self.set_field0(CIF0_SIGNAL_DATA_FORMAT_BIT, Option::Some(FieldValue::Double(x))),
            Option::None => self.set_field0(CIF0_SIGNAL_DATA_FORMAT_BIT, Option::None),
        }
    }

    /// The formatted GPS geolocation field.
    pub fn formatted_gps(&self) -> (r: Option<FormattedGps>)
        requires
            self.slots_ok(),
        ensures
            r == self.gps_at(CIF0_FORMATTED_GPS_BIT),
    {
        match self.fields0.value(CIF0_FORMATTED_GPS_BIT) {
            Option::Some(FieldValue::Gps(x)) => Option::Some(*x),
            _ => Option::None,
        }
    }

    /// Set or clear the formatted GPS geolocation field.
    pub fn set_formatted_gps(&mut self, v: Option<FormattedGps>)
        requires
            old(self).slots_ok(),
        ensures
            final(self).gps_at(CIF0_FORMATTED_GPS_BIT) == v,
            Self::set_effect(*old(self), *final(self), CIF0_FORMATTED_GPS_BIT, v is Some),
    {
        match v {
            Option::Some(x) => self.set_field0(CIF0_FORMATTED_GPS_BIT, Option::Some(FieldValue::Gps(x))),
            Option::None => self.set_field0(CIF0_FORMATTED_GPS_BIT, Option::None),
        }
    }

    /// The formatted INS geolocation field.
    pub fn formatted_ins(&self) -> (r: Option<FormattedGps>)
        requires
            self.slots_ok(),
        ensures
            r == self.gps_at(CIF0_FORMATTED_INS_BIT),
    {
        match self.fields0.value(CIF0_FORMATTED_INS_BIT) {
            Option::Some(FieldValue::Gps(x)) => Option::Some(*x),
            _ => Option::None,
        }
    }

    /// Set or clear the formatted INS geolocation field.
    pub fn set_formatted_ins(&mut self, v: Option<FormattedGps>)
        requires
            old(self).slots_ok(),
        ensures
            final(self).gps_at(CIF0_FORMATTED_INS_BIT) == v,
            Self::set_effect(*old(self), *final(self), CIF0_FORMATTED_INS_BIT, v is Some),
    {
        match v {
            Option::Some(x) => self.set_field0(CIF0_FORMATTED_INS_BIT, Option::Some(FieldValue::Gps(x))),
            Option::None => self.set_field0(CIF0_FORMATTED_INS_BIT, Option::None),
        }
    }

    /// The ECEF ephemeris field.
    pub fn ecef_ephemeris(&self) -> (r: Option<EcefEphemeris>)
        requires
            self.slots_ok(),
        ensures
            r == self.ephemeris_at(CIF0_ECEF_EPHEMERIS_BIT),
    {
        match self.fields0.value(CIF0_ECEF_EPHEMERIS_BIT) {
            Option::Some(FieldValue::Ephemeris(x)) => Option::Some(*x),
            _ => Option::None,
        }
    }

    /// Set or clear the ECEF ephemeris field.
    pub fn set_ecef_ephemeris(&mut self, v: Option<EcefEphemeris>)
        requires
            old(self).slots_ok(),
        ensures
            final(self).ephemeris_at(CIF0_ECEF_EPHEMERIS_BIT) == v,
            Self::set_effect(*old(self), *final(self), CIF0_ECEF_EPHEMERIS_BIT, v is Some),
    {
        match v {
            Option::Some(x) => self.set_field0(CIF0_ECEF_EPHEMERIS_BIT, Option::Some(FieldValue::Ephemeris(x))),
            Option::None => self.set_field0(CIF0_ECEF_EPHEMERIS_BIT, Option::None),
        }
    }

    /// The relative ephemeris field.
    pub fn relative_ephemeris(&self) -> (r: Option<EcefEphemeris>)
        requires
            self.slots_ok(),
        ensures
            r == self.ephemeris_at(CIF0_RELATIVE_EPHEMERIS_BIT),
    {
        match self.fields0.value(CIF0_RELATIVE_EPHEMERIS_BIT) {
            Option::Some(FieldValue::Ephemeris(x)) => Option::Some(*x),
            _ => Option::None,
        }
    }

    /// Set or clear the relative ephemeris field.
    pub fn set_relative_ephemeris(&mut self, v: Option<EcefEphemeris>)
        requires
            old(self).slots_ok(),
        ensures
            final(self).ephemeris_at(CIF0_RELATIVE_EPHEMERIS_BIT) == v,
            Self::set_effect(*old(self), *final(self), CIF0_RELATIVE_EPHEMERIS_BIT, v is Some),
    {
        match v {
            Option::Some(x) => self.set_field0(CIF0_RELATIVE_EPHEMERIS_BIT, Option::Some(FieldValue::Ephemeris(x))),
            Option::None => self.set_field0(CIF0_RELATIVE_EPHEMERIS_BIT, Option::None),
        }
    }

    /// The ephemeris reference identifier field.
    pub fn ephemeris_ref_id(&self) -> (r: Option<u32>)
        requires
            self.slots_ok(),
        ensures
            r == self.single_at(CIF0_EPHEMERIS_REF_ID_BIT),
    {
        match self.fields0.value(CIF0_EPHEMERIS_REF_ID_BIT) {
            Option::Some(FieldValue::Single(x)) => Option::Some(*x),
            _ => Option::None,
        }
    }

    /// Set or clear the ephemeris reference identifier field.
    pub fn set_ephemeris_ref_id(&mut self, v: Option<u32>)
        requires
            old(self).slots_ok(),
        ensures
            final(self).single_at(CIF0_EPHEMERIS_REF_ID_BIT) == v,
            Self::set_effect(*old(self), *final(self), CIF0_EPHEMERIS_REF_ID_BIT, v is Some),
    {
        match v {
            Option::Some(x) => self.set_field0(CIF0_EPHEMERIS_REF_ID_BIT, Option::Some(FieldValue::Single(x))),
            Option::None => self.set_field0(CIF0_EPHEMERIS_REF_ID_BIT, Option::None),
        }
    }

    /// The GPS ASCII record field.
    pub fn gps_ascii(&self) -> (r: Option<&GpsAscii>)
        requires
            self.slots_ok(),
        ensures
            r matches Option::Some(p) ==> self.ascii_at(CIF0_GPS_ASCII_BIT) == Option::Some(*p),
            r is None ==> self.ascii_at(CIF0_GPS_ASCII_BIT) is None,
    {
        match self.fields0.value(CIF0_GPS_ASCII_BIT) {
            Option::Some(FieldValue::Ascii(x)) => Option::Some(x),
            _ => Option::None,
        }
    }

    /// Set or clear the GPS ASCII record field.
    pub fn set_gps_ascii(&mut self, v: Option<GpsAscii>)
        requires
            old(self).slots_ok(),
            v matches Option::Some(g) ==> g.wf(),
        ensures
            final(self).ascii_at(CIF0_GPS_ASCII_BIT) == v,
            Self::set_effect(*old(self), *final(self), CIF0_GPS_ASCII_BIT, v is Some),
    {
        match v {
            Option::Some(x) => self.set_field0(CIF0_GPS_ASCII_BIT, Option::Some(FieldValue::Ascii(x))),
            Option::None => self.set_field0(CIF0_GPS_ASCII_BIT, Option::None),
        }
    }

    /// The context association lists field.
    pub fn context_association_lists(&self) -> (r: Option<&ContextAssociationLists>)
        requires
            self.slots_ok(),
        ensures
            r matches Option::Some(p) ==> self.cal_at(CIF0_ASSOCIATION_LISTS_BIT) == Option::Some(*p),
            r is None ==> self.cal_at(CIF0_ASSOCIATION_LISTS_BIT) is None,
    {
        match self.fields0.value(CIF0_ASSOCIATION_LISTS_BIT) {
            Option::Some(FieldValue::AssociationLists(x)) => Option::Some(x),
            _ => Option::None,
        }
    }

    /// Set or clear the context association lists field.
    pub fn set_context_association_lists(&mut self, v: Option<ContextAssociationLists>)
        requires
            old(self).slots_ok(),
            v matches Option::Some(g) ==> g.wf(),
        ensures
            final(self).cal_at(CIF0_ASSOCIATION_LISTS_BIT) == v,
            Self::set_effect(*old(self), *final(self), CIF0_ASSOCIATION_LISTS_BIT, v is Some),
    {
        match v {
            Option::Some(x) => self.set_field0(CIF0_ASSOCIATION_LISTS_BIT, Option::Some(FieldValue::AssociationLists(x))),
            Option::None => self.set_field0(CIF0_ASSOCIATION_LISTS_BIT, Option::None),
        }
    }

    /// Replace the attribute vector of the reference point id
    /// field; clearing leaves it empty.
    pub fn set_reference_point_id_attributes(&mut self, v: Option<Vec<u32>>)
        requires
            old(self).slots_ok(),
        ensures
            final(self).slots_ok(),
            final(self).cif0 == old(self).cif0,
            final(self).cif1 == old(self).cif1,
            final(self).cif2 == old(self).cif2,
            final(self).cif3 == old(self).cif3,
            final(self).cif7 == old(self).cif7,
            final(self).fields1 == old(self).fields1,
            final(self).fields0.value_at(CIF0_REFERENCE_POINT_ID_BIT) == old(self).fields0.value_at(CIF0_REFERENCE_POINT_ID_BIT),
            forall|c: u32| c < 32 && c != CIF0_REFERENCE_POINT_ID_BIT ==> #[trigger] final(self).fields0.value_at(c)
                == old(self).fields0.value_at(c) && final(self).fields0.attrs_at(c) == old(
                self,
            ).fields0.attrs_at(c),
            match v {
                Option::Some(x) => final(self).fields0.attrs_at(CIF0_REFERENCE_POINT_ID_BIT).len() == x@.len()
                    && forall|j: int|
                    0 <= j < x@.len() ==> #[trigger] final(self).fields0.attrs_at(CIF0_REFERENCE_POINT_ID_BIT)[j]
                        == FieldValue::Single(x@[j]),
                Option::None => final(self).fields0.attrs_at(CIF0_REFERENCE_POINT_ID_BIT).len() == 0,
            },
    {
        match v {
            Option::Some(x) => {
                let fv = to_single_values(&x);
                self.set_attrs0(CIF0_REFERENCE_POINT_ID_BIT, fv);
            },
            Option::None => {
                self.set_attrs0(CIF0_REFERENCE_POINT_ID_BIT, Vec::new());
            },
        }
    }

    /// The attribute vector of the reference point id field, as
    /// plain scalars.
    pub fn reference_point_id_attributes(&self) -> (r: Vec<u32>)
        requires
            self.slots_ok(),
        ensures
            r@.len() == self.fields0.attrs_at(CIF0_REFERENCE_POINT_ID_BIT).len(),
            forall|j: int| 0 <= j < r@.len() ==> #[trigger] r@[j] == single_value_of(
                self.fields0.attrs_at(CIF0_REFERENCE_POINT_ID_BIT)[j],
            ),
    {
        let a = self.attrs0(CIF0_REFERENCE_POINT_ID_BIT);
        let mut r: Vec<u32> = Vec::new();
        let mut i: usize = 0;
        while i < a.len()
            invariant
                i <= a@.len(),
                a@ == self.fields0.attrs_at(CIF0_REFERENCE_POINT_ID_BIT),
                self.slots_ok(),
                r@.len() == i,
                forall|j: int| 0 <= j < i ==> #[trigger] r@[j] == single_value_of(a@[j]),
            decreases a@.len() - i,
        {
            let x: u32 = match &a[i] {
                FieldValue::Single(w) => *w,
                _ => 0,
            };
            r.push(x);
            i = i + 1;
        }
        r
    }

    /// Replace the attribute vector of the bandwidth
    /// field; clearing leaves it empty.
    pub fn set_bandwidth_attributes(&mut self, v: Option<Vec<u64>>)
        requires
            old(self).slots_ok(),
        ensures
            final(self).slots_ok(),
            final(self).cif0 == old(self).cif0,
            final(self).cif1 == old(self).cif1,
            final(self).cif2 == old(self).cif2,
            final(self).cif3 == old(self).cif3,
            final(self).cif7 == old(self).cif7,
            final(self).fields1 == old(self).fields1,
            final(self).fields0.value_at(CIF0_BANDWIDTH_BIT) == old(self).fields0.value_at(CIF0_BANDWIDTH_BIT),
            forall|c: u32| c < 32 && c != CIF0_BANDWIDTH_BIT ==> #[trigger] final(self).fields0.value_at(c)
                == old(self).fields0.value_at(c) && final(self).fields0.attrs_at(c) == old(
                self,
            ).fields0.attrs_at(c),
            match v {
                Option::Some(x) => final(self).fields0.attrs_at(CIF0_BANDWIDTH_BIT).len() == x@.len()
                    && forall|j: int|
                    0 <= j < x@.len() ==> #[trigger] final(self).fields0.attrs_at(CIF0_BANDWIDTH_BIT)[j]
                        == FieldValue::Double(x@[j]),
                Option::None => final(self).fields0.attrs_at(CIF0_BANDWIDTH_BIT).len() == 0,
            },
    {
        match v {
            Option::Some(x) => {
                let fv = to_double_values(&x);
                self.set_attrs0(CIF0_BANDWIDTH_BIT, fv);
            },
            Option::None => {
                self.set_attrs0(CIF0_BANDWIDTH_BIT, Vec::new());
            },
        }
    }

    /// The attribute vector of the bandwidth field, as
    /// plain scalars.
    pub fn bandwidth_attributes(&self) -> (r: Vec<u64>)
        requires
            self.slots_ok(),
        ensures
            r@.len() == self.fields0.attrs_at(CIF0_BANDWIDTH_BIT).len(),
            forall|j: int| 0 <= j < r@.len() ==> #[trigger] r@[j] == double_value_of(
                self.fields0.attrs_at(CIF0_BANDWIDTH_BIT)[j],
            ),
    {
        let a = self.attrs0(CIF0_BANDWIDTH_BIT);
        let mut r: Vec<u64> = Vec::new();
        let mut i: usize = 0;
        while i < a.len()
            invariant
                i <= a@.len(),
                a@ == self.fields0.attrs_at(CIF0_BANDWIDTH_BIT),
                self.slots_ok(),
                r@.len() == i,
                forall|j: int| 0 <= j < i ==> #[trigger] r@[j] == double_value_of(a@[j]),
            decreases a@.len() - i,
        {
            let x: u64 = match &a[i] {
                FieldValue::Double(w) => *w,
                _ => 0,
            };
            r.push(x);
            i = i + 1;
        }
        r
    }

    /// Replace the attribute vector of the if ref freq
    /// field; clearing leaves it empty.
    pub fn set_if_ref_freq_attributes(&mut self, v: Option<Vec<i64>>)
        requires
            old(self).slots_ok(),
        ensures
            final(self).slots_ok(),
            final(self).cif0 == old(self).cif0,
            final(self).cif1 == old(self).cif1,
            final(self).cif2 == old(self).cif2,
            final(self).cif3 == old(self).cif3,
            final(self).cif7 == old(self).cif7,
            final(self).fields1 == old(self).fields1,
            final(self).fields0.value_at(CIF0_IF_REF_FREQ_BIT) == old(self).fields0.value_at(CIF0_IF_REF_FREQ_BIT),
            forall|c: u32| c < 32 && c != CIF0_IF_REF_FREQ_BIT ==> #[trigger] final(self).fields0.value_at(c)
                == old(self).fields0.value_at(c) && final(self).fields0.attrs_at(c) == old(
                self,
            ).fields0.attrs_at(c),
            match v {
                Option::Some(x) => final(self).fields0.attrs_at(CIF0_IF_REF_FREQ_BIT).len() == x@.len()
                    && forall|j: int|
                    0 <= j < x@.len() ==> #[trigger] final(self).fields0.attrs_at(CIF0_IF_REF_FREQ_BIT)[j]
                        == FieldValue::Double(x@[j] as u64),
                Option::None => final(self).fields0.attrs_at(CIF0_IF_REF_FREQ_BIT).len() == 0,
            },
    {
        match v {
            Option::Some(x) => {
                let fv = to_sdouble_values(&x);
                self.set_attrs0(CIF0_IF_REF_FREQ_BIT, fv);
            },
            Option::None => {
                self.set_attrs0(CIF0_IF_REF_FREQ_BIT, Vec::new());
            },
        }
    }

    /// The attribute vector of the if ref freq field, as
    /// plain scalars.
    pub fn if_ref_freq_attributes(&self) -> (r: Vec<i64>)
        requires
            self.slots_ok(),
        ensures
            r@.len() == self.fields0.attrs_at(CIF0_IF_REF_FREQ_BIT).len(),
            forall|j: int| 0 <= j < r@.len() ==> #[trigger] r@[j] == sdouble_value_of(
                self.fields0.attrs_at(CIF0_IF_REF_FREQ_BIT)[j],
            ),
    {
        let a = self.attrs0(CIF0_IF_REF_FREQ_BIT);
        let mut r: Vec<i64> = Vec::new();
        let mut i: usize = 0;
        while i < a.len()
            invariant
                i <= a@.len(),
                a@ == self.fields0.attrs_at(CIF0_IF_REF_FREQ_BIT),
                self.slots_ok(),
                r@.len() == i,
                forall|j: int| 0 <= j < i ==> #[trigger] r@[j] == sdouble_value_of(a@[j]),
            decreases a@.len() - i,
        {
            let x: i64 = match &a[i] {
                FieldValue::Double(w) => (*w) as i64,
                _ => 0,
            };
            r.push(x);
            i = i + 1;
        }
        r
    }

    /// Replace the attribute vector of the rf ref freq
    /// field; clearing leaves it empty.
    pub fn set_rf_ref_freq_attributes(&mut self, v: Option<Vec<u64>>)
        requires
            old(self).slots_ok(),
        ensures
            final(self).slots_ok(),
            final(self).cif0 == old(self).cif0,
            final(self).cif1 == old(self).cif1,
            final(self).cif2 == old(self).cif2,
            final(self).cif3 == old(self).cif3,
            final(self).cif7 == old(self).cif7,
            final(self).fields1 == old(self).fields1,
            final(self).fields0.value_at(CIF0_RF_REF_FREQ_BIT) == old(self).fields0.value_at(CIF0_RF_REF_FREQ_BIT),
            forall|c: u32| c < 32 && c != CIF0_RF_REF_FREQ_BIT ==> #[trigger] final(self).fields0.value_at(c)
                == old(self).fields0.value_at(c) && final(self).fields0.attrs_at(c) == old(
                self,
            ).fields0.attrs_at(c),
            match v {
                Option::Some(x) => final(self).fields0.attrs_at(CIF0_RF_REF_FREQ_BIT).len() == x@.len()
                    && forall|j: int|
                    0 <= j < x@.len() ==> #[trigger] final(self).fields0.attrs_at(CIF0_RF_REF_FREQ_BIT)[j]
                        == FieldValue::Double(x@[j]),
                Option::None => final(self).fields0.attrs_at(CIF0_RF_REF_FREQ_BIT).len() == 0,
            },
    {
        match v {
            Option::Some(x) => {
                let fv = to_double_values(&x);
                self.set_attrs0(CIF0_RF_REF_FREQ_BIT, fv);
            },
            Option::None => {
                self.set_attrs0(CIF0_RF_REF_FREQ_BIT, Vec::new());
            },
        }
    }

    /// The attribute vector of the rf ref freq field, as
    /// plain scalars.
    pub fn rf_ref_freq_attributes(&self) -> (r: Vec<u64>)
        requires
            self.slots_ok(),
        ensures
            r@.len() == self.fields0.attrs_at(CIF0_RF_REF_FREQ_BIT).len(),
            forall|j: int| 0 <= j < r@.len() ==> #[trigger] r@[j] == double_value_of(
                self.fields0.attrs_at(CIF0_RF_REF_FREQ_BIT)[j],
            ),
    {
        let a = self.attrs0(CIF0_RF_REF_FREQ_BIT);
        let mut r: Vec<u64> = Vec::new();
        let mut i: usize = 0;
        while i < a.len()
            invariant
                i <= a@.len(),
                a@ == self.fields0.attrs_at(CIF0_RF_REF_FREQ_BIT),
                self.slots_ok(),
                r@.len() == i,
                forall|j: int| 0 <= j < i ==> #[trigger] r@[j] == double_value_of(a@[j]),
            decreases a@.len() - i,
        {
            let x: u64 = match &a[i] {
                FieldValue::Double(w) => *w,
                _ => 0,
            };
            r.push(x);
            i = i + 1;
        }
        r
    }

    /// Replace the attribute vector of the rf ref freq offset
    /// field; clearing leaves it empty.
    pub fn set_rf_ref_freq_offset_attributes(&mut self, v: Option<Vec<i64>>)
        requires
            old(self).slots_ok(),
        ensures
            final(self).slots_ok(),
            final(self).cif0 == old(self).cif0,
            final(self).cif1 == old(self).cif1,
            final(self).cif2 == old(self).cif2,
            final(self).cif3 == old(self).cif3,
            final(self).cif7 == old(self).cif7,
            final(self).fields1 == old(self).fields1,
            final(self).fields0.value_at(CIF0_RF_REF_FREQ_OFFSET_BIT) == old(self).fields0.value_at(CIF0_RF_REF_FREQ_OFFSET_BIT),
            forall|c: u32| c < 32 && c != CIF0_RF_REF_FREQ_OFFSET_BIT ==> #[trigger] final(self).fields0.value_at(c)
                == old(self).fields0.value_at(c) && final(self).fields0.attrs_at(c) == old(
                self,
            ).fields0.attrs_at(c),
            match v {
                Option::Some(x) => final(self).fields0.attrs_at(CIF0_RF_REF_FREQ_OFFSET_BIT).len() == x@.len()
                    && forall|j: int|
                    0 <= j < x@.len() ==> #[trigger] final(self).fields0.attrs_at(CIF0_RF_REF_FREQ_OFFSET_BIT)[j]
                        == FieldValue::Double(x@[j] as u64),
                Option::None => final(self).fields0.attrs_at(CIF0_RF_REF_FREQ_OFFSET_BIT).len() == 0,
            },
    {
        match v {
            Option::Some(x) => {
                let fv = to_sdouble_values(&x);
                self.set_attrs0(CIF0_RF_REF_FREQ_OFFSET_BIT, fv);
            },
            Option::None => {
                self.set_attrs0(CIF0_RF_REF_FREQ_OFFSET_BIT, Vec::new());
            },
        }
    }

    /// The attribute vector of the rf ref freq offset field, as
    /// plain scalars.
    pub fn rf_ref_freq_offset_attributes(&self) -> (r: Vec<i64>)
        requires
            self.slots_ok(),
        ensures
            r@.len() == self.fields0.attrs_at(CIF0_RF_REF_FREQ_OFFSET_BIT).len(),
            forall|j: int| 0 <= j < r@.len() ==> #[trigger] r@[j] == sdouble_value_of(
                self.fields0.attrs_at(CIF0_RF_REF_FREQ_OFFSET_BIT)[j],
            ),
    {
        let a = self.attrs0(CIF0_RF_REF_FREQ_OFFSET_BIT);
        let mut r: Vec<i64> = Vec::new();
        let mut i: usize = 0;
        while i < a.len()
            invariant
                i <= a@.len(),
                a@ == self.fields0.attrs_at(CIF0_RF_REF_FREQ_OFFSET_BIT),
                self.slots_ok(),
                r@.len() == i,
                forall|j: int| 0 <= j < i ==> #[trigger] r@[j] == sdouble_value_of(a@[j]),
            decreases a@.len() - i,
        {
            let x: i64 = match &a[i] {
                FieldValue::Double(w) => (*w) as i64,
                _ => 0,
            };
            r.push(x);
            i = i + 1;
        }
        r
    }

    /// Replace the attribute vector of the if band offset
    /// field; clearing leaves it empty.
    pub fn set_if_band_offset_attributes(&mut self, v: Option<Vec<i64>>)
        requires
            old(self).slots_ok(),
        ensures
            final(self).slots_ok(),
            final(self).cif0 == old(self).cif0,
            final(self).cif1 == old(self).cif1,
            final(self).cif2 == old(self).cif2,
            final(self).cif3 == old(self).cif3,
            final(self).cif7 == old(self).cif7,
            final(self).fields1 == old(self).fields1,
            final(self).fields0.value_at(CIF0_IF_BAND_OFFSET_BIT) == old(self).fields0.value_at(CIF0_IF_BAND_OFFSET_BIT),
            forall|c: u32| c < 32 && c != CIF0_IF_BAND_OFFSET_BIT ==> #[trigger] final(self).fields0.value_at(c)
                == old(self).fields0.value_at(c) && final(self).fields0.attrs_at(c) == old(
                self,
            ).fields0.attrs_at(c),
            match v {
                Option::Some(x) => final(self).fields0.attrs_at(CIF0_IF_BAND_OFFSET_BIT).len() == x@.len()
                    && forall|j: int|
                    0 <= j < x@.len() ==> #[trigger] final(self).fields0.attrs_at(CIF0_IF_BAND_OFFSET_BIT)[j]
                        == FieldValue::Double(x@[j] as u64),
                Option::None => final(self).fields0.attrs_at(CIF0_IF_BAND_OFFSET_BIT).len() == 0,
            },
    {
        match v {
            Option::Some(x) => {
                let fv = to_sdouble_values(&x);
                self.set_attrs0(CIF0_IF_BAND_OFFSET_BIT, fv);
            },
            Option::None => {
                self.set_attrs0(CIF0_IF_BAND_OFFSET_BIT, Vec::new());
            },
        }
    }

    /// The attribute vector of the if band offset field, as
    /// plain scalars.
    pub fn if_band_offset_attributes(&self) -> (r: Vec<i64>)
        requires
            self.slots_ok(),
        ensures
            r@.len() == self.fields0.attrs_at(CIF0_IF_BAND_OFFSET_BIT).len(),
            forall|j: int| 0 <= j < r@.len() ==> #[trigger] r@[j] == sdouble_value_of(
                self.fields0.attrs_at(CIF0_IF_BAND_OFFSET_BIT)[j],
            ),
    {
        let a = self.attrs0(CIF0_IF_BAND_OFFSET_BIT);
        let mut r: Vec<i64> = Vec::new();
        let mut i: usize = 0;
        while i < a.len()
            invariant
                i <= a@.len(),
                a@ == self.fields0.attrs_at(CIF0_IF_BAND_OFFSET_BIT),
                self.slots_ok(),
                r@.len() == i,
                forall|j: int| 0 <= j < i ==> #[trigger] r@[j] == sdouble_value_of(a@[j]),
            decreases a@.len() - i,
        {
            let x: i64 = match &a[i] {
                FieldValue::Double(w) => (*w) as i64,
                _ => 0,
            };
            r.push(x);
            i = i + 1;
        }
        r
    }

    /// Replace the attribute vector of the reference level
    /// field; clearing leaves it empty.
    pub fn set_reference_level_attributes(&mut self, v: Option<Vec<i16>>)
        requires
            old(self).slots_ok(),
        ensures
            final(self).slots_ok(),
            final(self).cif0 == old(self).cif0,
            final(self).cif1 == old(self).cif1,
            final(self).cif2 == old(self).cif2,
            final(self).cif3 == old(self).cif3,
            final(self).cif7 == old(self).cif7,
            final(self).fields1 == old(self).fields1,
            final(self).fields0.value_at(CIF0_REFERENCE_LEVEL_BIT) == old(self).fields0.value_at(CIF0_REFERENCE_LEVEL_BIT),
            forall|c: u32| c < 32 && c != CIF0_REFERENCE_LEVEL_BIT ==> #[trigger] final(self).fields0.value_at(c)
                == old(self).fields0.value_at(c) && final(self).fields0.attrs_at(c) == old(
                self,
            ).fields0.attrs_at(c),
            match v {
                Option::Some(x) => final(self).fields0.attrs_at(CIF0_REFERENCE_LEVEL_BIT).len() == x@.len()
                    && forall|j: int|
                    0 <= j < x@.len() ==> #[trigger] final(self).fields0.attrs_at(CIF0_REFERENCE_LEVEL_BIT)[j]
                        == FieldValue::Single((x@[j] as u16) as u32),
                Option::None => final(self).fields0.attrs_at(CIF0_REFERENCE_LEVEL_BIT).len() == 0,
            },
    {
        match v {
            Option::Some(x) => {
                let fv = to_hword_values(&x);
                self.set_attrs0(CIF0_REFERENCE_LEVEL_BIT, fv);
            },
            Option::None => {
                self.set_attrs0(CIF0_REFERENCE_LEVEL_BIT, Vec::new());
            },
        }
    }

    /// The attribute vector of the reference level field, as
    /// plain scalars.
    pub fn reference_level_attributes(&self) -> (r: Vec<i16>)
        requires
            self.slots_ok(),
        ensures
            r@.len() == self.fields0.attrs_at(CIF0_REFERENCE_LEVEL_BIT).len(),
            forall|j: int| 0 <= j < r@.len() ==> #[trigger] r@[j] == hword_value_of(
                self.fields0.attrs_at(CIF0_REFERENCE_LEVEL_BIT)[j],
            ),
    {
        let a = self.attrs0(CIF0_REFERENCE_LEVEL_BIT);
        let mut r: Vec<i16> = Vec::new();
        let mut i: usize = 0;
        while i < a.len()
            invariant
                i <= a@.len(),
                a@ == self.fields0.attrs_at(CIF0_REFERENCE_LEVEL_BIT),
                self.slots_ok(),
                r@.len() == i,
                forall|j: int| 0 <= j < i ==> #[trigger] r@[j] == hword_value_of(a@[j]),
            decreases a@.len() - i,
        {
            let x: i16 = match &a[i] {
                FieldValue::Single(w) => ((*w) as u16) as i16,
                _ => 0,
            };
            r.push(x);
            i = i + 1;
        }
        r
    }

    /// Replace the attribute vector of the gain
    /// field; clearing leaves it empty.
    pub fn set_gain_attributes(&mut self, v: Option<Vec<u32>>)
        requires
            old(self).slots_ok(),
        ensures
            final(self).slots_ok(),
            final(self).cif0 == old(self).cif0,
            final(self).cif1 == old(self).cif1,
            final(self).cif2 == old(self).cif2,
            final(self).cif3 == old(self).cif3,
            final(self).cif7 == old(self).cif7,
            final(self).fields1 == old(self).fields1,
            final(self).fields0.value_at(CIF0_GAIN_BIT) == old(self).fields0.value_at(CIF0_GAIN_BIT),
            forall|c: u32| c < 32 && c != CIF0_GAIN_BIT ==> #[trigger] final(self).fields0.value_at(c)
                == old(self).fields0.value_at(c) && final(self).fields0.attrs_at(c) == old(
                self,
            ).fields0.attrs_at(c),
            match v {
                Option::Some(x) => final(self).fields0.attrs_at(CIF0_GAIN_BIT).len() == x@.len()
                    && forall|j: int|
                    0 <= j < x@.len() ==> #[trigger] final(self).fields0.attrs_at(CIF0_GAIN_BIT)[j]
                        == FieldValue::Single(x@[j]),
                Option::None => final(self).fields0.attrs_at(CIF0_GAIN_BIT).len() == 0,
            },
    {
        match v {
            Option::Some(x) => {
                let fv = to_single_values(&x);
                self.set_attrs0(CIF0_GAIN_BIT, fv);
            },
            Option::None => {
                self.set_attrs0(CIF0_GAIN_BIT, Vec::new());
            },
        }
    }

    /// The attribute vector of the gain field, as
    /// plain scalars.
    pub fn gain_attributes(&self) -> (r: Vec<u32>)
        requires
            self.slots_ok(),
        ensures
            r@.len() == self.fields0.attrs_at(CIF0_GAIN_BIT).len(),
            forall|j: int| 0 <= j < r@.len() ==> #[trigger] r@[j] == single_value_of(
                self.fields0.attrs_at(CIF0_GAIN_BIT)[j],
            ),
    {
        let a = self.attrs0(CIF0_GAIN_BIT);
        let mut r: Vec<u32> = Vec::new();
        let mut i: usize = 0;
        while i < a.len()
            invariant
                i <= a@.len(),
                a@ == self.fields0.attrs_at(CIF0_GAIN_BIT),
                self.slots_ok(),
                r@.len() == i,
                forall|j: int| 0 <= j < i ==> #[trigger] r@[j] == single_value_of(a@[j]),
            decreases a@.len() - i,
        {
            let x: u32 = match &a[i] {
                FieldValue::Single(w) => *w,
                _ => 0,
            };
            r.push(x);
            i = i + 1;
        }
        r
    }

    /// Replace the attribute vector of the over range count
    /// field; clearing leaves it empty.
    pub fn set_over_range_count_attributes(&mut self, v: Option<Vec<u32>>)
        requires
            old(self).slots_ok(),
        ensures
            final(self).slots_ok(),
            final(self).cif0 == old(self).cif0,
            final(self).cif1 == old(self).cif1,
            final(self).cif2 == old(self).cif2,
            final(self).cif3 == old(self).cif3,
            final(self).cif7 == old(self).cif7,
            final(self).fields1 == old(self).fields1,
            final(self).fields0.value_at(CIF0_OVER_RANGE_COUNT_BIT) == old(self).fields0.value_at(CIF0_OVER_RANGE_COUNT_BIT),
            forall|c: u32| c < 32 && c != CIF0_OVER_RANGE_COUNT_BIT ==> #[trigger] final(self).fields0.value_at(c)
                == old(self).fields0.value_at(c) && final(self).fields0.attrs_at(c) == old(
                self,
            ).fields0.attrs_at(c),
            match v {
                Option::Some(x) => final(self).fields0.attrs_at(CIF0_OVER_RANGE_COUNT_BIT).len() == x@.len()
                    && forall|j: int|
                    0 <= j < x@.len() ==> #[trigger] final(self).fields0.attrs_at(CIF0_OVER_RANGE_COUNT_BIT)[j]
                        == FieldValue::Single(x@[j]),
                Option::None => final(self).fields0.attrs_at(CIF0_OVER_RANGE_COUNT_BIT).len() == 0,
            },
    {
        match v {
            Option::Some(x) => {
                let fv = to_single_values(&x);
                self.set_attrs0(CIF0_OVER_RANGE_COUNT_BIT, fv);
            },
            Option::None => {
                self.set_attrs0(CIF0_OVER_RANGE_COUNT_BIT, Vec::new());
            },
        }
    }

    /// The attribute vector of the over range count field, as
    /// plain scalars.
    pub fn over_range_count_attributes(&self) -> (r: Vec<u32>)
        requires
            self.slots_ok(),
        ensures
            r@.len() == self.fields0.attrs_at(CIF0_OVER_RANGE_COUNT_BIT).len(),
            forall|j: int| 0 <= j < r@.len() ==> #[trigger] r@[j] == single_value_of(
                self.fields0.attrs_at(CIF0_OVER_RANGE_COUNT_BIT)[j],
            ),
    {
        let a = self.attrs0(CIF0_OVER_RANGE_COUNT_BIT);
        let mut r: Vec<u32> = Vec::new();
        let mut i: usize = 0;
        while i < a.len()
            invariant
                i <= a@.len(),
                a@ == self.fields0.attrs_at(CIF0_OVER_RANGE_COUNT_BIT),
                self.slots_ok(),
                r@.len() == i,
                forall|j: int| 0 <= j < i ==> #[trigger] r@[j] == single_value_of(a@[j]),
            decreases a@.len() - i,
        {
            let x: u32 = match &a[i] {
                FieldValue::Single(w) => *w,
                _ => 0,
            };
            r.push(x);
            i = i + 1;
        }
        r
    }

    /// Replace the attribute vector of the sample rate
    /// field; clearing leaves it empty.
    pub fn set_sample_rate_attributes(&mut self, v: Option<Vec<u64>>)
        requires
            old(self).slots_ok(),
        ensures
            final(self).slots_ok(),
            final(self).cif0 == old(self).cif0,
            final(self).cif1 == old(self).cif1,
            final(self).cif2 == old(self).cif2,
            final(self).cif3 == old(self).cif3,
            final(self).cif7 == old(self).cif7,
            final(self).fields1 == old(self).fields1,
            final(self).fields0.value_at(CIF0_SAMPLE_RATE_BIT) == old(self).fields0.value_at(CIF0_SAMPLE_RATE_BIT),
            forall|c: u32| c < 32 && c != CIF0_SAMPLE_RATE_BIT ==> #[trigger] final(self).fields0.value_at(c)
                == old(self).fields0.value_at(c) && final(self).fields0.attrs_at(c) == old(
                self,
            ).fields0.attrs_at(c),
            match v {
                Option::Some(x) => final(self).fields0.attrs_at(CIF0_SAMPLE_RATE_BIT).len() == x@.len()
                    && forall|j: int|
                    0 <= j < x@.len() ==> #[trigger] final(self).fields0.attrs_at(CIF0_SAMPLE_RATE_BIT)[j]
                        == FieldValue::Double(x@[j]),
                Option::None => final(self).fields0.attrs_at(CIF0_SAMPLE_RATE_BIT).len() == 0,
            },
    {
        match v {
            Option::Some(x) => {
                let fv = to_double_values(&x);
                self.set_attrs0(CIF0_SAMPLE_RATE_BIT, fv);
            },
            Option::None => {
                self.set_attrs0(CIF0_SAMPLE_RATE_BIT, Vec::new());
            },
        }
    }

    /// The attribute vector of the sample rate field, as
    /// plain scalars.
    pub fn sample_rate_attributes(&self) -> (r: Vec<u64>)
        requires
            self.slots_ok(),
        ensures
            r@.len() == self.fields0.attrs_at(CIF0_SAMPLE_RATE_BIT).len(),
            forall|j: int| 0 <= j < r@.len() ==> #[trigger] r@[j] == double_value_of(
                self.fields0.attrs_at(CIF0_SAMPLE_RATE_BIT)[j],
            ),
    {
        let a = self.attrs0(CIF0_SAMPLE_RATE_BIT);
        let mut r: Vec<u64> = Vec::new();
        let mut i: usize = 0;
        while i < a.len()
            invariant
                i <= a@.len(),
                a@ == self.fields0.attrs_at(CIF0_SAMPLE_RATE_BIT),
                self.slots_ok(),
                r@.len() == i,
                forall|j: int| 0 <= j < i ==> #[trigger] r@[j] == double_value_of(a@[j]),
            decreases a@.len() - i,
        {
            let x: u64 = match &a[i] {
                FieldValue::Double(w) => *w,
                _ => 0,
            };
            r.push(x);
            i = i + 1;
        }
        r
    }

    /// Replace the attribute vector of the timestamp adjustment
    /// field; clearing leaves it empty.
    pub fn set_timestamp_adjustment_attributes(&mut self, v: Option<Vec<u64>>)
        requires
            old(self).slots_ok(),
        ensures
            final(self).slots_ok(),
            final(self).cif0 == old(self).cif0,
            final(self).cif1 == old(self).cif1,
            final(self).cif2 == old(self).cif2,
            final(self).cif3 == old(self).cif3,
            final(self).cif7 == old(self).cif7,
            final(self).fields1 == old(self).fields1,
            final(self).fields0.value_at(CIF0_TIMESTAMP_ADJUSTMENT_BIT) == old(self).fields0.value_at(CIF0_TIMESTAMP_ADJUSTMENT_BIT),
            forall|c: u32| c < 32 && c != CIF0_TIMESTAMP_ADJUSTMENT_BIT ==> #[trigger] final(self).fields0.value_at(c)
                == old(self).fields0.value_at(c) && final(self).fields0.attrs_at(c) == old(
                self,
            ).fields0.attrs_at(c),
            match v {
                Option::Some(x) => final(self).fields0.attrs_at(CIF0_TIMESTAMP_ADJUSTMENT_BIT).len() == x@.len()
                    && forall|j: int|
                    0 <= j < x@.len() ==> #[trigger] final(self).fields0.attrs_at(CIF0_TIMESTAMP_ADJUSTMENT_BIT)[j]
                        == FieldValue::Double(x@[j]),
                Option::None => final(self).fields0.attrs_at(CIF0_TIMESTAMP_ADJUSTMENT_BIT).len() == 0,
            },
    {
        match v {
            Option::Some(x) => {
                let fv = to_double_values(&x);
                self.set_attrs0(CIF0_TIMESTAMP_ADJUSTMENT_BIT, fv);
            },
            Option::None => {
                self.set_attrs0(CIF0_TIMESTAMP_ADJUSTMENT_BIT, Vec::new());
            },
        }
    }

    /// The attribute vector of the timestamp adjustment field, as
    /// plain scalars.
    pub fn timestamp_adjustment_attributes(&self) -> (r: Vec<u64>)
        requires
            self.slots_ok(),
        ensures
            r@.len() == self.fields0.attrs_at(CIF0_TIMESTAMP_ADJUSTMENT_BIT).len(),
            forall|j: int| 0 <= j < r@.len() ==> #[trigger] r@[j] == double_value_of(
                self.fields0.attrs_at(CIF0_TIMESTAMP_ADJUSTMENT_BIT)[j],
            ),
    {
        let a = self.attrs0(CIF0_TIMESTAMP_ADJUSTMENT_BIT);
        let mut r: Vec<u64> = Vec::new();
        let mut i: usize = 0;
        while i < a.len()
            invariant
                i <= a@.len(),
                a@ == self.fields0.attrs_at(CIF0_TIMESTAMP_ADJUSTMENT_BIT),
                self.slots_ok(),
                r@.len() == i,
                forall|j: int| 0 <= j < i ==> #[trigger] r@[j] == double_value_of(a@[j]),
            decreases a@.len() - i,
        {
            let x: u64 = match &a[i] {
                FieldValue::Double(w) => *w,
                _ => 0,
            };
            r.push(x);
            i = i + 1;
        }
        r
    }

    /// Replace the attribute vector of the timestamp cal time
    /// field; clearing leaves it empty.
    pub fn set_timestamp_cal_time_attributes(&mut self, v: Option<Vec<u32>>)
        requires
            old(self).slots_ok(),
        ensures
            final(self).slots_ok(),
            final(self).cif0 == old(self).cif0,
            final(self).cif1 == old(self).cif1,
            final(self).cif2 == old(self).cif2,
            final(self).cif3 == old(self).cif3,
            final(self).cif7 == old(self).cif7,
            final(self).fields1 == old(self).fields1,
            final(self).fields0.value_at(CIF0_TIMESTAMP_CAL_TIME_BIT) == old(self).fields0.value_at(CIF0_TIMESTAMP_CAL_TIME_BIT),
            forall|c: u32| c < 32 && c != CIF0_TIMESTAMP_CAL_TIME_BIT ==> #[trigger] final(self).fields0.value_at(c)
                == old(self).fields0.value_at(c) && final(self).fields0.attrs_at(c) == old(
                self,
            ).fields0.attrs_at(c),
            match v {
                Option::Some(x) => final(self).fields0.attrs_at(CIF0_TIMESTAMP_CAL_TIME_BIT).len() == x@.len()
                    && forall|j: int|
                    0 <= j < x@.len() ==> #[trigger] final(self).fields0.attrs_at(CIF0_TIMESTAMP_CAL_TIME_BIT)[j]
                        == FieldValue::Single(x@[j]),
                Option::None => final(self).fields0.attrs_at(CIF0_TIMESTAMP_CAL_TIME_BIT).len() == 0,
            },
    {
        match v {
            Option::Some(x) => {
                let fv = to_single_values(&x);
                self.set_attrs0(CIF0_TIMESTAMP_CAL_TIME_BIT, fv);
            },
            Option::None => {
                self.set_attrs0(CIF0_TIMESTAMP_CAL_TIME_BIT, Vec::new());
            },
        }
    }

    /// The attribute vector of the timestamp cal time field, as
    /// plain scalars.
    pub fn timestamp_cal_time_attributes(&self) -> (r: Vec<u32>)
        requires
            self.slots_ok(),
        ensures
            r@.len() == self.fields0.attrs_at(CIF0_TIMESTAMP_CAL_TIME_BIT).len(),
            forall|j: int| 0 <= j < r@.len() ==> #[trigger] r@[j] == single_value_of(
                self.fields0.attrs_at(CIF0_TIMESTAMP_CAL_TIME_BIT)[j],
            ),
    {
        let a = self.attrs0(CIF0_TIMESTAMP_CAL_TIME_BIT);
        let mut r: Vec<u32> = Vec::new();
        let mut i: usize = 0;
        while i < a.len()
            invariant
                i <= a@.len(),
                a@ == self.fields0.attrs_at(CIF0_TIMESTAMP_CAL_TIME_BIT),
                self.slots_ok(),
                r@.len() == i,
                forall|j: int| 0 <= j < i ==> #[trigger] r@[j] == single_value_of(a@[j]),
            decreases a@.len() - i,
        {
            let x: u32 = match &a[i] {
                FieldValue::Single(w) => *w,
                _ => 0,
            };
            r.push(x);
            i = i + 1;
        }
        r
    }

    /// Replace the attribute vector of the temperature
    /// field; clearing leaves it empty.
    pub fn set_temperature_attributes(&mut self, v: Option<Vec<i32>>)
        requires
            old(self).slots_ok(),
        ensures
            final(self).slots_ok(),
            final(self).cif0 == old(self).cif0,
            final(self).cif1 == old(self).cif1,
            final(self).cif2 == old(self).cif2,
            final(self).cif3 == old(self).cif3,
            final(self).cif7 == old(self).cif7,
            final(self).fields1 == old(self).fields1,
            final(self).fields0.value_at(CIF0_TEMPERATURE_BIT) == old(self).fields0.value_at(CIF0_TEMPERATURE_BIT),
            forall|c: u32| c < 32 && c != CIF0_TEMPERATURE_BIT ==> #[trigger] final(self).fields0.value_at(c)
                == old(self).fields0.value_at(c) && final(self).fields0.attrs_at(c) == old(
                self,
            ).fields0.attrs_at(c),
            match v {
                Option::Some(x) => final(self).fields0.attrs_at(CIF0_TEMPERATURE_BIT).len() == x@.len()
                    && forall|j: int|
                    0 <= j < x@.len() ==> #[trigger] final(self).fields0.attrs_at(CIF0_TEMPERATURE_BIT)[j]
                        == FieldValue::Single(x@[j] as u32),
                Option::None => final(self).fields0.attrs_at(CIF0_TEMPERATURE_BIT).len() == 0,
            },
    {
        match v {
            Option::Some(x) => {
                let fv = to_sword_values(&x);
                self.set_attrs0(CIF0_TEMPERATURE_BIT, fv);
            },
            Option::None => {
                self.set_attrs0(CIF0_TEMPERATURE_BIT, Vec::new());
            },
        }
    }

    /// The attribute vector of the temperature field, as
    /// plain scalars.
    pub fn temperature_attributes(&self) -> (r: Vec<i32>)
        requires
            self.slots_ok(),
        ensures
            r@.len() == self.fields0.attrs_at(CIF0_TEMPERATURE_BIT).len(),
            forall|j: int| 0 <= j < r@.len() ==> #[trigger] r@[j] == sword_value_of(
                self.fields0.attrs_at(CIF0_TEMPERATURE_BIT)[j],
            ),
    {
        let a = self.attrs0(CIF0_TEMPERATURE_BIT);
        let mut r: Vec<i32> = Vec::new();
        let mut i: usize = 0;
        while i < a.len()
            invariant
                i <= a@.len(),
                a@ == self.fields0.attrs_at(CIF0_TEMPERATURE_BIT),
                self.slots_ok(),
                r@.len() == i,
                forall|j: int| 0 <= j < i ==> #[trigger] r@[j] == sword_value_of(a@[j]),
            decreases a@.len() - i,
        {
            let x: i32 = match &a[i] {
                FieldValue::Single(w) => (*w) as i32,
                _ => 0,
            };
            r.push(x);
            i = i + 1;
        }
        r
    }

    /// Replace the attribute vector of the device id
    /// field; clearing leaves it empty.
    pub fn set_device_id_attributes(&mut self, v: Option<Vec<u64>>)
        requires
            old(self).slots_ok(),
        ensures
            final(self).slots_ok(),
            final(self).cif0 == old(self).cif0,
            final(self).cif1 == old(self).cif1,
            final(self).cif2 == old(self).cif2,
            final(self).cif3 == old(self).cif3,
            final(self).cif7 == old(self).cif7,
            final(self).fields1 == old(self).fields1,
            final(self).fields0.value_at(CIF0_DEVICE_ID_BIT) == old(self).fields0.value_at(CIF0_DEVICE_ID_BIT),
            forall|c: u32| c < 32 && c != CIF0_DEVICE_ID_BIT ==> #[trigger] final(self).fields0.value_at(c)
                == old(self).fields0.value_at(c) && final(self).fields0.attrs_at(c) == old(
                self,
            ).fields0.attrs_at(c),
            match v {
                Option::Some(x) => final(self).fields0.attrs_at(CIF0_DEVICE_ID_BIT).len() == x@.len()
                    && forall|j: int|
                    0 <= j < x@.len() ==> #[trigger] final(self).fields0.attrs_at(CIF0_DEVICE_ID_BIT)[j]
                        == FieldValue::Double(x@[j]),
                Option::None => final(self).fields0.attrs_at(CIF0_DEVICE_ID_BIT).len() == 0,
            },
    {
        match v {
            Option::Some(x) => {
                let fv = to_double_values(&x);
                self.set_attrs0(CIF0_DEVICE_ID_BIT, fv);
            },
            Option::None => {
                self.set_attrs0(CIF0_DEVICE_ID_BIT, Vec::new());
            },
        }
    }

    /// The attribute vector of the device id field, as
    /// plain scalars.
    pub fn device_id_attributes(&self) -> (r: Vec<u64>)
        requires
            self.slots_ok(),
        ensures
            r@.len() == self.fields0.attrs_at(CIF0_DEVICE_ID_BIT).len(),
            forall|j: int| 0 <= j < r@.len() ==> #[trigger] r@[j] == double_value_of(
                self.fields0.attrs_at(CIF0_DEVICE_ID_BIT)[j],
            ),
    {
        let a = self.attrs0(CIF0_DEVICE_ID_BIT);
        let mut r: Vec<u64> = Vec::new();
        let mut i: usize = 0;
        while i < a.len()
            invariant
                i <= a@.len(),
                a@ == self.fields0.attrs_at(CIF0_DEVICE_ID_BIT),
                self.slots_ok(),
                r@.len() == i,
                forall|j: int| 0 <= j < i ==> #[trigger] r@[j] == double_value_of(a@[j]),
            decreases a@.len() - i,
        {
            let x: u64 = match &a[i] {
                FieldValue::Double(w) => *w,
                _ => 0,
            };
            r.push(x);
            i = i + 1;
        }
        r
    }

    /// Replace the attribute vector of the state indicators
    /// field; clearing leaves it empty.
    pub fn set_state_indicators_attributes(&mut self, v: Option<Vec<u32>>)
        requires
            old(self).slots_ok(),
        ensures
            final(self).slots_ok(),
            final(self).cif0 == old(self).cif0,
            final(self).cif1 == old(self).cif1,
            final(self).cif2 == old(self).cif2,
            final(self).cif3 == old(self).cif3,
            final(self).cif7 == old(self).cif7,
            final(self).fields1 == old(self).fields1,
            final(self).fields0.value_at(CIF0_STATE_INDICATORS_BIT) == old(self).fields0.value_at(CIF0_STATE_INDICATORS_BIT),
            forall|c: u32| c < 32 && c != CIF0_STATE_INDICATORS_BIT ==> #[trigger] final(self).fields0.value_at(c)
                == old(self).fields0.value_at(c) && final(self).fields0.attrs_at(c) == old(
                self,
            ).fields0.attrs_at(c),
            match v {
                Option::Some(x) => final(self).fields0.attrs_at(CIF0_STATE_INDICATORS_BIT).len() == x@.len()
                    && forall|j: int|
                    0 <= j < x@.len() ==> #[trigger] final(self).fields0.attrs_at(CIF0_STATE_INDICATORS_BIT)[j]
                        == FieldValue::Single(x@[j]),
                Option::None => final(self).fields0.attrs_at(CIF0_STATE_INDICATORS_BIT).len() == 0,
            },
    {
        match v {
            Option::Some(x) => {
                let fv = to_single_values(&x);
                self.set_attrs0(CIF0_STATE_INDICATORS_BIT, fv);
            },
            Option::None => {
                self.set_attrs0(CIF0_STATE_INDICATORS_BIT, Vec::new());
            },
        }
    }

    /// The attribute vector of the state indicators field, as
    /// plain scalars.
    pub fn state_indicators_attributes(&self) -> (r: Vec<u32>)
        requires
            self.slots_ok(),
        ensures
            r@.len() == self.fields0.attrs_at(CIF0_STATE_INDICATORS_BIT).len(),
            forall|j: int| 0 <= j < r@.len() ==> #[trigger] r@[j] == single_value_of(
                self.fields0.attrs_at(CIF0_STATE_INDICATORS_BIT)[j],
            ),
    {
        let a = self.attrs0(CIF0_STATE_INDICATORS_BIT);
        let mut r: Vec<u32> = Vec::new();
        let mut i: usize = 0;
        while i < a.len()
            invariant
                i <= a@.len(),
                a@ == self.fields0.attrs_at(CIF0_STATE_INDICATORS_BIT),
                self.slots_ok(),
                r@.len() == i,
                forall|j: int| 0 <= j < i ==> #[trigger] r@[j] == single_value_of(a@[j]),
            decreases a@.len() - i,
        {
            let x: u32 = match &a[i] {
                FieldValue::Single(w) => *w,
                _ => 0,
            };
            r.push(x);
            i = i + 1;
        }
        r
    }

    /// Replace the attribute vector of the signal data payload format
    /// field; clearing leaves it empty.
    pub fn set_signal_data_payload_format_attributes(&mut self, v: Option<Vec<u64>>)
        requires
            old(self).slots_ok(),
        ensures
            final(self).slots_ok(),
            final(self).cif0 == old(self).cif0,
            final(self).cif1 == old(self).cif1,
            final(self).cif2 == old(self).cif2,
            final(self).cif3 == old(self).cif3,
            final(self).cif7 == old(self).cif7,
            final(self).fields1 == old(self).fields1,
            final(self).fields0.value_at(CIF0_SIGNAL_DATA_FORMAT_BIT) == old(self).fields0.value_at(CIF0_SIGNAL_DATA_FORMAT_BIT),
            forall|c: u32| c < 32 && c != CIF0_SIGNAL_DATA_FORMAT_BIT ==> #[trigger] final(self).fields0.value_at(c)
                == old(self).fields0.value_at(c) && final(self).fields0.attrs_at(c) == old(
                self,
            ).fields0.attrs_at(c),
            match v {
                Option::Some(x) => final(self).fields0.attrs_at(CIF0_SIGNAL_DATA_FORMAT_BIT).len() == x@.len()
                    && forall|j: int|
                    0 <= j < x@.len() ==> #[trigger] final(self).fields0.attrs_at(CIF0_SIGNAL_DATA_FORMAT_BIT)[j]
                        == FieldValue::Double(x@[j]),
                Option::None => final(self).fields0.attrs_at(CIF0_SIGNAL_DATA_FORMAT_BIT).len() == 0,
            },
    {
        match v {
            Option::Some(x) => {
                let fv = to_double_values(&x);
                self.set_attrs0(CIF0_SIGNAL_DATA_FORMAT_BIT, fv);
            },
            Option::None => {
                self.set_attrs0(CIF0_SIGNAL_DATA_FORMAT_BIT, Vec::new());
            },
        }
    }

    /// The attribute vector of the signal data payload format field, as
    /// plain scalars.
    pub fn signal_data_payload_format_attributes(&self) -> (r: Vec<u64>)
        requires
            self.slots_ok(),
        ensures
            r@.len() == self.fields0.attrs_at(CIF0_SIGNAL_DATA_FORMAT_BIT).len(),
            forall|j: int| 0 <= j < r@.len() ==> #[trigger] r@[j] == double_value_of(
                self.fields0.attrs_at(CIF0_SIGNAL_DATA_FORMAT_BIT)[j],
            ),
    {
        let a = self.attrs0(CIF0_SIGNAL_DATA_FORMAT_BIT);
        let mut r: Vec<u64> = Vec::new();
        let mut i: usize = 0;
        while i < a.len()
            invariant
                i <= a@.len(),
                a@ == self.fields0.attrs_at(CIF0_SIGNAL_DATA_FORMAT_BIT),
                self.slots_ok(),
                r@.len() == i,
                forall|j: int| 0 <= j < i ==> #[trigger] r@[j] == double_value_of(a@[j]),
            decreases a@.len() - i,
        {
            let x: u64 = match &a[i] {
                FieldValue::Double(w) => *w,
                _ => 0,
            };
            r.push(x);
            i = i + 1;
        }
        r
    }

    /// The manufacturer OUI half of the device identifier: the low 24
    /// bits of its high word.
    pub fn device_id_oui(&self) -> (r: Option<u32>)
        requires
            self.slots_ok(),
        ensures
            r == (match self.double_at(CIF0_DEVICE_ID_BIT) {
                Option::Some(x) => Option::Some(((x >> 32) as u32) & 0xFFFFFF),
                Option::None => Option::<u32>::None,
            }),
    {
        match self.fields0.value(CIF0_DEVICE_ID_BIT) {
            Option::Some(FieldValue::Double(x)) => Option::Some((((*x) >> 32) as u32) & 0xFFFFFF),
            _ => Option::None,
        }
    }

    /// The device-code half of the device identifier: the low 16 bits
    /// of its low word.
    pub fn device_id_code(&self) -> (r: Option<u32>)
        requires
            self.slots_ok(),
        ensures
            r == (match self.double_at(CIF0_DEVICE_ID_BIT) {
                Option::Some(x) => Option::Some((x as u32) & 0xFFFF),
                Option::None => Option::<u32>::None,
            }),
    {
        match self.fields0.value(CIF0_DEVICE_ID_BIT) {
            Option::Some(FieldValue::Double(x)) => Option::Some(((*x) as u32) & 0xFFFF),
            _ => Option::None,
        }
    }
}

/// The scalar carried by a one-word attribute entry; other shapes
/// read as zero.
pub open spec fn single_value_of(v: FieldValue) -> u32 {
    match v {
        FieldValue::Single(x) => x,
        _ => 0,
    }
}

/// The scalar carried by a two-word attribute entry; other shapes
/// read as zero.
pub open spec fn double_value_of(v: FieldValue) -> u64 {
    match v {
        FieldValue::Double(x) => x,
        _ => 0,
    }
}

/// The signed scalar carried by a two-word attribute entry.
pub open spec fn sdouble_value_of(v: FieldValue) -> i64 {
    double_value_of(v) as i64
}

/// The signed scalar carried by a one-word attribute entry.
pub open spec fn sword_value_of(v: FieldValue) -> i32 {
    single_value_of(v) as i32
}

/// The signed half-word scalar carried by a one-word attribute entry.
pub open spec fn hword_value_of(v: FieldValue) -> i16 {
    (single_value_of(v) as u16) as i16
}

/// Wrap plain one-word scalars as attribute entries.
fn to_single_values(v: &Vec<u32>) -> (r: Vec<FieldValue>)
    ensures
        r@.len() == v@.len(),
        forall|j: int| 0 <= j < v@.len() ==> #[trigger] r@[j] == FieldValue::Single(v@[j]),
{
    let mut r: Vec<FieldValue> = Vec::new();
    let mut i: usize = 0;
    while i < v.len()
        invariant
            i <= v@.len(),
            r@.len() == i,
            forall|j: int| 0 <= j < i ==> #[trigger] r@[j] == FieldValue::Single(v@[j]),
        decreases v@.len() - i,
    {
        r.push(FieldValue::Single(v[i]));
        i = i + 1;
    }
    r
}

/// Wrap plain two-word scalars as attribute entries.
fn to_double_values(v: &Vec<u64>) -> (r: Vec<FieldValue>)
    ensures
        r@.len() == v@.len(),
        forall|j: int| 0 <= j < v@.len() ==> #[trigger] r@[j] == FieldValue::Double(v@[j]),
{
    let mut r: Vec<FieldValue> = Vec::new();
    let mut i: usize = 0;
    while i < v.len()
        invariant
            i <= v@.len(),
            r@.len() == i,
            forall|j: int| 0 <= j < i ==> #[trigger] r@[j] == FieldValue::Double(v@[j]),
        decreases v@.len() - i,
    {
        r.push(FieldValue::Double(v[i]));
        i = i + 1;
    }
    r
}

/// Wrap signed two-word scalars as attribute entries.
fn to_sdouble_values(v: &Vec<i64>) -> (r: Vec<FieldValue>)
    ensures
        r@.len() == v@.len(),
        forall|j: int| 0 <= j < v@.len() ==> #[trigger] r@[j] == FieldValue::Double(v@[j] as u64),
{
    let mut r: Vec<FieldValue> = Vec::new();
    let mut i: usize = 0;
    while i < v.len()
        invariant
            i <= v@.len(),
            r@.len() == i,
            forall|j: int| 0 <= j < i ==> #[trigger] r@[j] == FieldValue::Double(v@[j] as u64),
        decreases v@.len() - i,
    {
        r.push(FieldValue::Double(v[i] as u64));
        i = i + 1;
    }
    r
}

/// Wrap signed one-word scalars as attribute entries.
fn to_sword_values(v: &Vec<i32>) -> (r: Vec<FieldValue>)
    ensures
        r@.len() == v@.len(),
        forall|j: int| 0 <= j < v@.len() ==> #[trigger] r@[j] == FieldValue::Single(v@[j] as u32),
{
    let mut r: Vec<FieldValue> = Vec::new();
    let mut i: usize = 0;
    while i < v.len()
        invariant
            i <= v@.len(),
            r@.len() == i,
            forall|j: int| 0 <= j < i ==> #[trigger] r@[j] == FieldValue::Single(v@[j] as u32),
        decreases v@.len() - i,
    {
        r.push(FieldValue::Single(v[i] as u32));
        i = i + 1;
    }
    r
}

/// Wrap signed half-word scalars as attribute entries.
fn to_hword_values(v: &Vec<i16>) -> (r: Vec<FieldValue>)
    ensures
        r@.len() == v@.len(),
        forall|j: int| 0 <= j < v@.len() ==> #[trigger] r@[j] == FieldValue::Single(
            (v@[j] as u16) as u32,
        ),
{
    let mut r: Vec<FieldValue> = Vec::new();
    let mut i: usize = 0;
    while i < v.len()
        invariant
            i <= v@.len(),
            r@.len() == i,
            forall|j: int| 0 <= j < i ==> #[trigger] r@[j] == FieldValue::Single(
                (v@[j] as u16) as u32,
            ),
        decreases v@.len() - i,
    {
        r.push(FieldValue::Single((v[i] as u16) as u32));
        i = i + 1;
    }
    r
}

} // verus!
