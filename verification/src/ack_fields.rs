//! Named per-field response manipulators for acknowledgement
//! payloads: each routes to the warning or the error bank, toggling
//! the bank's indicator bit together with the stored response record.

use vstd::prelude::*;

use crate::ack::{Ack, AckLevel, AckResponse};
use crate::bits::{bit, clear_bit32, set_bit32};
use crate::cif::{
    Cif0, CIF0_ASSOCIATION_LISTS_BIT, CIF0_BANDWIDTH_BIT, CIF0_DEVICE_ID_BIT,
    CIF0_ECEF_EPHEMERIS_BIT, CIF0_EPHEMERIS_REF_ID_BIT, CIF0_FORMATTED_GPS_BIT,
    CIF0_FORMATTED_INS_BIT, CIF0_GAIN_BIT, CIF0_GPS_ASCII_BIT, CIF0_IF_BAND_OFFSET_BIT,
    CIF0_IF_REF_FREQ_BIT, CIF0_OVER_RANGE_COUNT_BIT, CIF0_REFERENCE_LEVEL_BIT,
    CIF0_REFERENCE_POINT_ID_BIT, CIF0_RELATIVE_EPHEMERIS_BIT, CIF0_RF_REF_FREQ_BIT,
    CIF0_RF_REF_FREQ_OFFSET_BIT, CIF0_SAMPLE_RATE_BIT, CIF0_SIGNAL_DATA_FORMAT_BIT,
    CIF0_STATE_INDICATORS_BIT, CIF0_TEMPERATURE_BIT, CIF0_TIMESTAMP_ADJUSTMENT_BIT,
    CIF0_TIMESTAMP_CAL_TIME_BIT,
};
use crate::cif_fields::{table_kind, CifFields, TableId};
use crate::field_value::FieldValue;

verus! {

/// The response record stored for one indicator bit of a bank.
pub open spec fn response_at(f: CifFields, b: u32) -> Option<AckResponse> {
    match f.value_at(b) {
        Option::Some(FieldValue::Single(w)) => Option::Some(AckResponse(w)),
        _ => Option::None,
    }
}

impl Ack {
    /// All four response containers have their full complement of
    /// slots.
    pub open spec fn slots_ok(self) -> bool {
        &&& self.wif0_fields.len_ok()
        &&& self.wif1_fields.len_ok()
        &&& self.eif0_fields.len_ok()
        &&& self.eif1_fields.len_ok()
    }

    /// What setting one response record does: the chosen bank holds
    /// exactly the new record at bit `b` with its indicator bit
    /// following presence, and everything else stands still.
    pub open spec fn set_response_effect(
        pre: Ack,
        post: Ack,
        level: AckLevel,
        b: u32,
        resp: Option<AckResponse>,
    ) -> bool {
        &&& post.slots_ok()
        &&& post.wif1 == pre.wif1
        &&& post.wif2 == pre.wif2
        &&& post.wif3 == pre.wif3
        &&& post.wif7 == pre.wif7
        &&& post.eif1 == pre.eif1
        &&& post.eif2 == pre.eif2
        &&& post.eif3 == pre.eif3
        &&& post.eif7 == pre.eif7
        &&& post.wif1_fields == pre.wif1_fields
        &&& post.eif1_fields == pre.eif1_fields
        &&& match level {
            AckLevel::Warning => {
                &&& post.eif0 == pre.eif0
                &&& post.eif0_fields == pre.eif0_fields
                &&& response_at(post.wif0_fields, b) == resp
                &&& (resp is Some ==> (post.wif0 matches Option::Some(c) && bit(c.0, b)))
                &&& (resp is None ==> post.wif0_fields.attrs_at(b).len() == 0 && (
                post.wif0 matches Option::Some(c) ==> !bit(c.0, b)) && (pre.wif0 is None
                    ==> post.wif0 is None))
                &&& forall|j: u32| j < 32 && j != b ==> #[trigger] bit(post.wif0_word(), j) == bit(
                    pre.wif0_word(),
                    j,
                )
                &&& forall|c: u32| c < 32 && c != b ==> #[trigger] post.wif0_fields.value_at(c)
                    == pre.wif0_fields.value_at(c) && post.wif0_fields.attrs_at(c)
                    == pre.wif0_fields.attrs_at(c)
                &&& (resp is Some ==> post.wif0_fields.attrs_at(b) == pre.wif0_fields.attrs_at(b))
            },
            AckLevel::Error => {
                &&& post.wif0 == pre.wif0
                &&& post.wif0_fields == pre.wif0_fields
                &&& response_at(post.eif0_fields, b) == resp
                &&& (resp is Some ==> (post.eif0 matches Option::Some(c) && bit(c.0, b)))
                &&& (resp is None ==> post.eif0_fields.attrs_at(b).len() == 0 && (
                post.eif0 matches Option::Some(c) ==> !bit(c.0, b)) && (pre.eif0 is None
                    ==> post.eif0 is None))
                &&& forall|j: u32| j < 32 && j != b ==> #[trigger] bit(post.eif0_word(), j) == bit(
                    pre.eif0_word(),
                    j,
                )
                &&& forall|c: u32| c < 32 && c != b ==> #[trigger] post.eif0_fields.value_at(c)
                    == pre.eif0_fields.value_at(c) && post.eif0_fields.attrs_at(c)
                    == pre.eif0_fields.attrs_at(c)
                &&& (resp is Some ==> post.eif0_fields.attrs_at(b) == pre.eif0_fields.attrs_at(b))
            },
        }
    }

    /// Read the response record of one field from the chosen bank.
    pub fn response(&self, level: AckLevel, b: u32) -> (r: Option<AckResponse>)
        requires
            b < 32,
            self.slots_ok(),
        ensures
            match level {
                AckLevel::Warning => r == response_at(self.wif0_fields, b),
                AckLevel::Error => r == response_at(self.eif0_fields, b),
            },
    {
        let f = match level {
            AckLevel::Warning => &self.wif0_fields,
            AckLevel::Error => &self.eif0_fields,
        };
        match f.value(b) {
            Option::Some(FieldValue::Single(w)) => Option::Some(AckResponse(*w)),
            _ => Option::None,
        }
    }

    /// Set or clear the response record of one field in the chosen
    /// bank, creating the bank's indicator word when a record is
    /// first stored. The bank's presence flag in the CAM word is the
    /// caller's to keep in step.
    pub fn set_response(&mut self, level: AckLevel, b: u32, resp: Option<AckResponse>)
        requires
            old(self).slots_ok(),
            table_kind(TableId::TableAck0, b) is Some,
        ensures
            Self::set_response_effect(*old(self), *final(self), level, b, resp),
    {
        proof {
            assert(8 <= b <= 30);
        }
        match level {
            AckLevel::Warning => {
                match resp {
                    Option::Some(x) => {
                        let w0: u32 = match &self.wif0 {
                            Option::Some(c) => c.0,
                            Option::None => 0,
                        };
                        proof {
                            if old(self).wif0 is None {
                                crate::bits::lemma_bit_zero(b);
                            }
                        }
                        self.wif0 = Option::Some(Cif0(set_bit32(w0, b)));
                        self.wif0_fields.set_value(b, Option::Some(FieldValue::Single(x.0)));
                    },
                    Option::None => {
                        match &self.wif0 {
                            Option::Some(c) => {
                                let w0: u32 = c.0;
                                self.wif0 = Option::Some(Cif0(clear_bit32(w0, b)));
                            },
                            Option::None => (),
                        }
                        self.wif0_fields.set_value(b, Option::None);
                        self.wif0_fields.set_attributes(b, Vec::new());
                    },
                }
            },
            AckLevel::Error => {
                match resp {
                    Option::Some(x) => {
                        let e0: u32 = match &self.eif0 {
                            Option::Some(c) => c.0,
                            Option::None => 0,
                        };
                        proof {
                            if old(self).eif0 is None {
                                crate::bits::lemma_bit_zero(b);
                            }
                        }
                        self.eif0 = Option::Some(Cif0(set_bit32(e0, b)));
                        self.eif0_fields.set_value(b, Option::Some(FieldValue::Single(x.0)));
                    },
                    Option::None => {
                        match &self.eif0 {
                            Option::Some(c) => {
                                let e0: u32 = c.0;
                                self.eif0 = Option::Some(Cif0(clear_bit32(e0, b)));
                            },
                            Option::None => (),
                        }
                        self.eif0_fields.set_value(b, Option::None);
                        self.eif0_fields.set_attributes(b, Vec::new());
                    },
                }
            },
        }
    }

    /// The response record of the reference point id field in the chosen bank.
    pub fn reference_point_id(&self, level: AckLevel) -> (r: Option<AckResponse>)
        requires
            self.slots_ok(),
        ensures
            match level {
                AckLevel::Warning => r == response_at(self.wif0_fields, CIF0_REFERENCE_POINT_ID_BIT),
                AckLevel::Error => r == response_at(self.eif0_fields, CIF0_REFERENCE_POINT_ID_BIT),
            },
    {
        self.response(level, CIF0_REFERENCE_POINT_ID_BIT)
    }

    /// Set or clear the response record of the reference point id field in the
    /// chosen bank.
    pub fn set_reference_point_id(&mut self, level: AckLevel, resp: Option<AckResponse>)
        requires
            old(self).slots_ok(),
        ensures
            Self::set_response_effect(*old(self), *final(self), level, CIF0_REFERENCE_POINT_ID_BIT, resp),
    {
        self.set_response(level, CIF0_REFERENCE_POINT_ID_BIT, resp)
    }

    /// The response record of the bandwidth field in the chosen bank.
    pub fn bandwidth(&self, level: AckLevel) -> (r: Option<AckResponse>)
        requires
            self.slots_ok(),
        ensures
            match level {
                AckLevel::Warning => r == response_at(self.wif0_fields, CIF0_BANDWIDTH_BIT),
                AckLevel::Error => r == response_at(self.eif0_fields, CIF0_BANDWIDTH_BIT),
            },
    {
        self.response(level, CIF0_BANDWIDTH_BIT)
    }

    /// Set or clear the response record of the bandwidth field in the
    /// chosen bank.
    pub fn set_bandwidth(&mut self, level: AckLevel, resp: Option<AckResponse>)
        requires
            old(self).slots_ok(),
        ensures
            Self::set_response_effect(*old(self), *final(self), level, CIF0_BANDWIDTH_BIT, resp),
    {
        self.set_response(level, CIF0_BANDWIDTH_BIT, resp)
    }

    /// The response record of the if ref freq field in the chosen bank.
    pub fn if_ref_freq(&self, level: AckLevel) -> (r: Option<AckResponse>)
        requires
            self.slots_ok(),
        ensures
            match level {
                AckLevel::Warning => r == response_at(self.wif0_fields, CIF0_IF_REF_FREQ_BIT),
                AckLevel::Error => r == response_at(self.eif0_fields, CIF0_IF_REF_FREQ_BIT),
            },
    {
        self.response(level, CIF0_IF_REF_FREQ_BIT)
    }

    /// Set or clear the response record of the if ref freq field in the
    /// chosen bank.
    pub fn set_if_ref_freq(&mut self, level: AckLevel, resp: Option<AckResponse>)
        requires
            old(self).slots_ok(),
        ensures
            Self::set_response_effect(*old(self), *final(self), level, CIF0_IF_REF_FREQ_BIT, resp),
    {
        self.set_response(level, CIF0_IF_REF_FREQ_BIT, resp)
    }

    /// The response record of the rf ref freq field in the chosen bank.
    pub fn rf_ref_freq(&self, level: AckLevel) -> (r: Option<AckResponse>)
        requires
            self.slots_ok(),
        ensures
            match level {
                AckLevel::Warning => r == response_at(self.wif0_fields, CIF0_RF_REF_FREQ_BIT),
                AckLevel::Error => r == response_at(self.eif0_fields, CIF0_RF_REF_FREQ_BIT),
            },
    {
        self.response(level, CIF0_RF_REF_FREQ_BIT)
    }

    /// Set or clear the response record of the rf ref freq field in the
    /// chosen bank.
    pub fn set_rf_ref_freq(&mut self, level: AckLevel, resp: Option<AckResponse>)
        requires
            old(self).slots_ok(),
        ensures
            Self::set_response_effect(*old(self), *final(self), level, CIF0_RF_REF_FREQ_BIT, resp),
    {
        self.set_response(level, CIF0_RF_REF_FREQ_BIT, resp)
    }

    /// The response record of the rf ref freq offset field in the chosen bank.
    pub fn rf_ref_freq_offset(&self, level: AckLevel) -> (r: Option<AckResponse>)
        requires
            self.slots_ok(),
        ensures
            match level {
                AckLevel::Warning => r == response_at(self.wif0_fields, CIF0_RF_REF_FREQ_OFFSET_BIT),
                AckLevel::Error => r == response_at(self.eif0_fields, CIF0_RF_REF_FREQ_OFFSET_BIT),
            },
    {
        self.response(level, CIF0_RF_REF_FREQ_OFFSET_BIT)
    }

    /// Set or clear the response record of the rf ref freq offset field in the
    /// chosen bank.
    pub fn set_rf_ref_freq_offset(&mut self, level: AckLevel, resp: Option<AckResponse>)
        requires
            old(self).slots_ok(),
        ensures
            Self::set_response_effect(*old(self), *final(self), level, CIF0_RF_REF_FREQ_OFFSET_BIT, resp),
    {
        self.set_response(level, CIF0_RF_REF_FREQ_OFFSET_BIT, resp)
    }

    /// The response record of the if band offset field in the chosen bank.
    pub fn if_band_offset(&self, level: AckLevel) -> (r: Option<AckResponse>)
        requires
            self.slots_ok(),
        ensures
            match level {
                AckLevel::Warning => r == response_at(self.wif0_fields, CIF0_IF_BAND_OFFSET_BIT),
                AckLevel::Error => r == response_at(self.eif0_fields, CIF0_IF_BAND_OFFSET_BIT),
            },
    {
        self.response(level, CIF0_IF_BAND_OFFSET_BIT)
    }

    /// Set or clear the response record of the if band offset field in the
    /// chosen bank.
    pub fn set_if_band_offset(&mut self, level: AckLevel, resp: Option<AckResponse>)
        requires
            old(self).slots_ok(),
        ensures
            Self::set_response_effect(*old(self), *final(self), level, CIF0_IF_BAND_OFFSET_BIT, resp),
    {
        self.set_response(level, CIF0_IF_BAND_OFFSET_BIT, resp)
    }

    /// The response record of the reference level field in the chosen bank.
    pub fn reference_level(&self, level: AckLevel) -> (r: Option<AckResponse>)
        requires
            self.slots_ok(),
        ensures
            match level {
                AckLevel::Warning => r == response_at(self.wif0_fields, CIF0_REFERENCE_LEVEL_BIT),
                AckLevel::Error => r == response_at(self.eif0_fields, CIF0_REFERENCE_LEVEL_BIT),
            },
    {
        self.response(level, CIF0_REFERENCE_LEVEL_BIT)
    }

    /// Set or clear the response record of the reference level field in the
    /// chosen bank.
    pub fn set_reference_level(&mut self, level: AckLevel, resp: Option<AckResponse>)
        requires
            old(self).slots_ok(),
        ensures
            Self::set_response_effect(*old(self), *final(self), level, CIF0_REFERENCE_LEVEL_BIT, resp),
    {
        self.set_response(level, CIF0_REFERENCE_LEVEL_BIT, resp)
    }

    /// The response record of the gain field in the chosen bank.
    pub fn gain(&self, level: AckLevel) -> (r: Option<AckResponse>)
        requires
            self.slots_ok(),
        ensures
            match level {
                AckLevel::Warning => r == response_at(self.wif0_fields, CIF0_GAIN_BIT),
                AckLevel::Error => r == response_at(self.eif0_fields, CIF0_GAIN_BIT),
            },
    {
        self.response(level, CIF0_GAIN_BIT)
    }

    /// Set or clear the response record of the gain field in the
    /// chosen bank.
    pub fn set_gain(&mut self, level: AckLevel, resp: Option<AckResponse>)
        requires
            old(self).slots_ok(),
        ensures
            Self::set_response_effect(*old(self), *final(self), level, CIF0_GAIN_BIT, resp),
    {
        self.set_response(level, CIF0_GAIN_BIT, resp)
    }

    /// The response record of the over range count field in the chosen bank.
    pub fn over_range_count(&self, level: AckLevel) -> (r: Option<AckResponse>)
        requires
            self.slots_ok(),
        ensures
            match level {
                AckLevel::Warning => r == response_at(self.wif0_fields, CIF0_OVER_RANGE_COUNT_BIT),
                AckLevel::Error => r == response_at(self.eif0_fields, CIF0_OVER_RANGE_COUNT_BIT),
            },
    {
        self.response(level, CIF0_OVER_RANGE_COUNT_BIT)
    }

    /// Set or clear the response record of the over range count field in the
    /// chosen bank.
    pub fn set_over_range_count(&mut self, level: AckLevel, resp: Option<AckResponse>)
        requires
            old(self).slots_ok(),
        ensures
            Self::set_response_effect(*old(self), *final(self), level, CIF0_OVER_RANGE_COUNT_BIT, resp),
    {
        self.set_response(level, CIF0_OVER_RANGE_COUNT_BIT, resp)
    }

    /// The response record of the sample rate field in the chosen bank.
    pub fn sample_rate(&self, level: AckLevel) -> (r: Option<AckResponse>)
        requires
            self.slots_ok(),
        ensures
            match level {
                AckLevel::Warning => r == response_at(self.wif0_fields, CIF0_SAMPLE_RATE_BIT),
                AckLevel::Error => r == response_at(self.eif0_fields, CIF0_SAMPLE_RATE_BIT),
            },
    {
        self.response(level, CIF0_SAMPLE_RATE_BIT)
    }

    /// Set or clear the response record of the sample rate field in the
    /// chosen bank.
    pub fn set_sample_rate(&mut self, level: AckLevel, resp: Option<AckResponse>)
        requires
            old(self).slots_ok(),
        ensures
            Self::set_response_effect(*old(self), *final(self), level, CIF0_SAMPLE_RATE_BIT, resp),
    {
        self.set_response(level, CIF0_SAMPLE_RATE_BIT, resp)
    }

    /// The response record of the timestamp adjustment field in the chosen bank.
    pub fn timestamp_adjustment(&self, level: AckLevel) -> (r: Option<AckResponse>)
        requires
            self.slots_ok(),
        ensures
            match level {
                AckLevel::Warning => r == response_at(self.wif0_fields, CIF0_TIMESTAMP_ADJUSTMENT_BIT),
                AckLevel::Error => r == response_at(self.eif0_fields, CIF0_TIMESTAMP_ADJUSTMENT_BIT),
            },
    {
        self.response(level, CIF0_TIMESTAMP_ADJUSTMENT_BIT)
    }

    /// Set or clear the response record of the timestamp adjustment field in the
    /// chosen bank.
    pub fn set_timestamp_adjustment(&mut self, level: AckLevel, resp: Option<AckResponse>)
        requires
            old(self).slots_ok(),
        ensures
            Self::set_response_effect(*old(self), *final(self), level, CIF0_TIMESTAMP_ADJUSTMENT_BIT, resp),
    {
        self.set_response(level, CIF0_TIMESTAMP_ADJUSTMENT_BIT, resp)
    }

    /// The response record of the timestamp cal time field in the chosen bank.
    pub fn timestamp_cal_time(&self, level: AckLevel) -> (r: Option<AckResponse>)
        requires
            self.slots_ok(),
        ensures
            match level {
                AckLevel::Warning => r == response_at(self.wif0_fields, CIF0_TIMESTAMP_CAL_TIME_BIT),
                AckLevel::Error => r == response_at(self.eif0_fields, CIF0_TIMESTAMP_CAL_TIME_BIT),
            },
    {
        self.response(level, CIF0_TIMESTAMP_CAL_TIME_BIT)
    }

    /// Set or clear the response record of the timestamp cal time field in the
    /// chosen bank.
    pub fn set_timestamp_cal_time(&mut self, level: AckLevel, resp: Option<AckResponse>)
        requires
            old(self).slots_ok(),
        ensures
            Self::set_response_effect(*old(self), *final(self), level, CIF0_TIMESTAMP_CAL_TIME_BIT, resp),
    {
        self.set_response(level, CIF0_TIMESTAMP_CAL_TIME_BIT, resp)
    }

    /// The response record of the temperature field in the chosen bank.
    pub fn temperature(&self, level: AckLevel) -> (r: Option<AckResponse>)
        requires
            self.slots_ok(),
        ensures
            match level {
                AckLevel::Warning => r == response_at(self.wif0_fields, CIF0_TEMPERATURE_BIT),
                AckLevel::Error => r == response_at(self.eif0_fields, CIF0_TEMPERATURE_BIT),
            },
    {
        self.response(level, CIF0_TEMPERATURE_BIT)
    }

    /// Set or clear the response record of the temperature field in the
    /// chosen bank.
    pub fn set_temperature(&mut self, level: AckLevel, resp: Option<AckResponse>)
        requires
            old(self).slots_ok(),
        ensures
            Self::set_response_effect(*old(self), *final(self), level, CIF0_TEMPERATURE_BIT, resp),
    {
        self.set_response(level, CIF0_TEMPERATURE_BIT, resp)
    }

    /// The response record of the device id field in the chosen bank.
    pub fn device_id(&self, level: AckLevel) -> (r: Option<AckResponse>)
        requires
            self.slots_ok(),
        ensures
            match level {
                AckLevel::Warning => r == response_at(self.wif0_fields, CIF0_DEVICE_ID_BIT),
                AckLevel::Error => r == response_at(self.eif0_fields, CIF0_DEVICE_ID_BIT),
            },
    {
        self.response(level, CIF0_DEVICE_ID_BIT)
    }

    /// Set or clear the response record of the device id field in the
    /// chosen bank.
    pub fn set_device_id(&mut self, level: AckLevel, resp: Option<AckResponse>)
        requires
            old(self).slots_ok(),
        ensures
            Self::set_response_effect(*old(self), *final(self), level, CIF0_DEVICE_ID_BIT, resp),
    {
        self.set_response(level, CIF0_DEVICE_ID_BIT, resp)
    }

    /// The response record of the state indicators field in the chosen bank.
    pub fn state_indicators(&self, level: AckLevel) -> (r: Option<AckResponse>)
        requires
            self.slots_ok(),
        ensures
            match level {
                AckLevel::Warning => r == response_at(self.wif0_fields, CIF0_STATE_INDICATORS_BIT),
                AckLevel::Error => r == response_at(self.eif0_fields, CIF0_STATE_INDICATORS_BIT),
            },
    {
        self.response(level, CIF0_STATE_INDICATORS_BIT)
    }

    /// Set or clear the response record of the state indicators field in the
    /// chosen bank.
    pub fn set_state_indicators(&mut self, level: AckLevel, resp: Option<AckResponse>)
        requires
            old(self).slots_ok(),
        ensures
            Self::set_response_effect(*old(self), *final(self), level, CIF0_STATE_INDICATORS_BIT, resp),
    {
        self.set_response(level, CIF0_STATE_INDICATORS_BIT, resp)
    }

    /// The response record of the signal data payload format field in the chosen bank.
    pub fn signal_data_payload_format(&self, level: AckLevel) -> (r: Option<AckResponse>)
        requires
            self.slots_ok(),
        ensures
            match level {
                AckLevel::Warning => r == response_at(self.wif0_fields, CIF0_SIGNAL_DATA_FORMAT_BIT),
                AckLevel::Error => r == response_at(self.eif0_fields, CIF0_SIGNAL_DATA_FORMAT_BIT),
            },
    {
        self.response(level, CIF0_SIGNAL_DATA_FORMAT_BIT)
    }

    /// Set or clear the response record of the signal data payload format field in the
    /// chosen bank.
    pub fn set_signal_data_payload_format(&mut self, level: AckLevel, resp: Option<AckResponse>)
        requires
            old(self).slots_ok(),
        ensures
            Self::set_response_effect(*old(self), *final(self), level, CIF0_SIGNAL_DATA_FORMAT_BIT, resp),
    {
        self.set_response(level, CIF0_SIGNAL_DATA_FORMAT_BIT, resp)
    }

    /// The response record of the formatted gps field in the chosen bank.
    pub fn formatted_gps(&self, level: AckLevel) -> (r: Option<AckResponse>)
        requires
            self.slots_ok(),
        ensures
            match level {
                AckLevel::Warning => r == response_at(self.wif0_fields, CIF0_FORMATTED_GPS_BIT),
                AckLevel::Error => r == response_at(self.eif0_fields, CIF0_FORMATTED_GPS_BIT),
            },
    {
        self.response(level, CIF0_FORMATTED_GPS_BIT)
    }

    /// Set or clear the response record of the formatted gps field in the
    /// chosen bank.
    pub fn set_formatted_gps(&mut self, level: AckLevel, resp: Option<AckResponse>)
        requires
            old(self).slots_ok(),
        ensures
            Self::set_response_effect(*old(self), *final(self), level, CIF0_FORMATTED_GPS_BIT, resp),
    {
        self.set_response(level, CIF0_FORMATTED_GPS_BIT, resp)
    }

    /// The response record of the formatted ins field in the chosen bank.
    pub fn formatted_ins(&self, level: AckLevel) -> (r: Option<AckResponse>)
        requires
            self.slots_ok(),
        ensures
            match level {
                AckLevel::Warning => r == response_at(self.wif0_fields, CIF0_FORMATTED_INS_BIT),
                AckLevel::Error => r == response_at(self.eif0_fields, CIF0_FORMATTED_INS_BIT),
            },
    {
        self.response(level, CIF0_FORMATTED_INS_BIT)
    }

    /// Set or clear the response record of the formatted ins field in the
    /// chosen bank.
    pub fn set_formatted_ins(&mut self, level: AckLevel, resp: Option<AckResponse>)
        requires
            old(self).slots_ok(),
        ensures
            Self::set_response_effect(*old(self), *final(self), level, CIF0_FORMATTED_INS_BIT, resp),
    {
        self.set_response(level, CIF0_FORMATTED_INS_BIT, resp)
    }

    /// The response record of the ecef ephemeris field in the chosen bank.
    pub fn ecef_ephemeris(&self, level: AckLevel) -> (r: Option<AckResponse>)
        requires
            self.slots_ok(),
        ensures
            match level {
                AckLevel::Warning => r == response_at(self.wif0_fields, CIF0_ECEF_EPHEMERIS_BIT),
                AckLevel::Error => r == response_at(self.eif0_fields, CIF0_ECEF_EPHEMERIS_BIT),
            },
    {
        self.response(level, CIF0_ECEF_EPHEMERIS_BIT)
    }

    /// Set or clear the response record of the ecef ephemeris field in the
    /// chosen bank.
    pub fn set_ecef_ephemeris(&mut self, level: AckLevel, resp: Option<AckResponse>)
        requires
            old(self).slots_ok(),
        ensures
            Self::set_response_effect(*old(self), *final(self), level, CIF0_ECEF_EPHEMERIS_BIT, resp),
    {
        self.set_response(level, CIF0_ECEF_EPHEMERIS_BIT, resp)
    }

    /// The response record of the relative ephemeris field in the chosen bank.
    pub fn relative_ephemeris(&self, level: AckLevel) -> (r: Option<AckResponse>)
        requires
            self.slots_ok(),
        ensures
            match level {
                AckLevel::Warning => r == response_at(self.wif0_fields, CIF0_RELATIVE_EPHEMERIS_BIT),
                AckLevel::Error => r == response_at(self.eif0_fields, CIF0_RELATIVE_EPHEMERIS_BIT),
            },
    {
        self.response(level, CIF0_RELATIVE_EPHEMERIS_BIT)
    }

    /// Set or clear the response record of the relative ephemeris field in the
    /// chosen bank.
    pub fn set_relative_ephemeris(&mut self, level: AckLevel, resp: Option<AckResponse>)
        requires
            old(self).slots_ok(),
        ensures
            Self::set_response_effect(*old(self), *final(self), level, CIF0_RELATIVE_EPHEMERIS_BIT, resp),
    {
        self.set_response(level, CIF0_RELATIVE_EPHEMERIS_BIT, resp)
    }

    /// The response record of the ephemeris ref id field in the chosen bank.
    pub fn ephemeris_ref_id(&self, level: AckLevel) -> (r: Option<AckResponse>)
        requires
            self.slots_ok(),
        ensures
            match level {
                AckLevel::Warning => r == response_at(self.wif0_fields, CIF0_EPHEMERIS_REF_ID_BIT),
                AckLevel::Error => r == response_at(self.eif0_fields, CIF0_EPHEMERIS_REF_ID_BIT),
            },
    {
        self.response(level, CIF0_EPHEMERIS_REF_ID_BIT)
    }

    /// Set or clear the response record of the ephemeris ref id field in the
    /// chosen bank.
    pub fn set_ephemeris_ref_id(&mut self, level: AckLevel, resp: Option<AckResponse>)
        requires
            old(self).slots_ok(),
        ensures
            Self::set_response_effect(*old(self), *final(self), level, CIF0_EPHEMERIS_REF_ID_BIT, resp),
    {
        self.set_response(level, CIF0_EPHEMERIS_REF_ID_BIT, resp)
    }

    /// The response record of the gps ascii field in the chosen bank.
    pub fn gps_ascii(&self, level: AckLevel) -> (r: Option<AckResponse>)
        requires
            self.slots_ok(),
        ensures
            match level {
                AckLevel::Warning => r == response_at(self.wif0_fields, CIF0_GPS_ASCII_BIT),
                AckLevel::Error => r == response_at(self.eif0_fields, CIF0_GPS_ASCII_BIT),
            },
    {
        self.response(level, CIF0_GPS_ASCII_BIT)
    }

    /// Set or clear the response record of the gps ascii field in the
    /// chosen bank.
    pub fn set_gps_ascii(&mut self, level: AckLevel, resp: Option<AckResponse>)
        requires
            old(self).slots_ok(),
        ensures
            Self::set_response_effect(*old(self), *final(self), level, CIF0_GPS_ASCII_BIT, resp),
    {
        self.set_response(level, CIF0_GPS_ASCII_BIT, resp)
    }

    /// The response record of the context association lists field in the chosen bank.
    pub fn context_association_lists(&self, level: AckLevel) -> (r: Option<AckResponse>)
        requires
            self.slots_ok(),
        ensures
            match level {
                AckLevel::Warning => r == response_at(self.wif0_fields, CIF0_ASSOCIATION_LISTS_BIT),
                AckLevel::Error => r == response_at(self.eif0_fields, CIF0_ASSOCIATION_LISTS_BIT),
            },
    {
        self.response(level, CIF0_ASSOCIATION_LISTS_BIT)
    }

    /// Set or clear the response record of the context association lists field in the
    /// chosen bank.
    pub fn set_context_association_lists(&mut self, level: AckLevel, resp: Option<AckResponse>)
        requires
            old(self).slots_ok(),
        ensures
            Self::set_response_effect(*old(self), *final(self), level, CIF0_ASSOCIATION_LISTS_BIT, resp),
    {
        self.set_response(level, CIF0_ASSOCIATION_LISTS_BIT, resp)
    }
}

} // verus!
