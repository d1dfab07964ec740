//! Multi-word CIF data fields: formatted GPS/INS geolocation, ECEF
//! ephemeris, GPS ASCII text, context association lists and the
//! spectrum descriptor.
//!
//! Every numeric member is kept exactly as it stands on the wire;
//! radix-scaled members are documented with their fixed-point format.

use vstd::prelude::*;

use crate::bits::{lemma_u32_cast, push_u64, take_u64, take_word, take_words, u64_words};
use crate::errors::VitaError;

verus! {

/// Formatted GPS or INS geolocation, eleven words. Angle members are
/// signed radix-22 fixed point, altitude radix-5, speed radix-16; they
/// are carried here unscaled, as on the wire.
#[derive(Clone, Copy, Debug, PartialEq, Eq, Structural)]
pub struct FormattedGps {
    /// TSI/TSF codes and the manufacturer OUI of the source.
    pub header_word: u32,
    /// Integer-seconds timestamp of the fix.
    pub integer_timestamp: u32,
    /// Fractional timestamp of the fix.
    pub fractional_timestamp: u64,
    /// Latitude, signed radix-22 degrees.
    pub latitude: u32,
    /// Longitude, signed radix-22 degrees.
    pub longitude: u32,
    /// Altitude, signed radix-5 meters.
    pub altitude: u32,
    /// Speed over ground, radix-16 meters per second.
    pub speed_over_ground: u32,
    /// Heading angle, signed radix-22 degrees.
    pub heading_angle: u32,
    /// Track angle, signed radix-22 degrees.
    pub track_angle: u32,
    /// Magnetic variation, signed radix-22 degrees.
    pub magnetic_variation: u32,
}

impl Default for FormattedGps {
    /// An all-zero geolocation record.
    fn default() -> (r: Self)
        ensures
            r == (FormattedGps {
                header_word: 0,
                integer_timestamp: 0,
                fractional_timestamp: 0,
                latitude: 0,
                longitude: 0,
                altitude: 0,
                speed_over_ground: 0,
                heading_angle: 0,
                track_angle: 0,
                magnetic_variation: 0,
            }),
    {
        FormattedGps {
            header_word: 0,
            integer_timestamp: 0,
            fractional_timestamp: 0,
            latitude: 0,
            longitude: 0,
            altitude: 0,
            speed_over_ground: 0,
            heading_angle: 0,
            track_angle: 0,
            magnetic_variation: 0,
        }
    }
}

impl FormattedGps {
    /// The eleven wire words of the record.
    pub open spec fn words(self) -> Seq<u32> {
        seq![self.header_word, self.integer_timestamp] + u64_words(self.fractional_timestamp)
            + seq![
            self.latitude,
            self.longitude,
            self.altitude,
            self.speed_over_ground,
            self.heading_angle,
            self.track_angle,
            self.magnetic_variation,
        ]
    }

    /// Append the record's wire words.
    pub fn encode(&self, out: &mut Vec<u32>)
        ensures
            final(out)@ == old(out)@ + self.words(),
    {
        out.push(self.header_word);
        out.push(self.integer_timestamp);
        push_u64(out, self.fractional_timestamp);
        out.push(self.latitude);
        out.push(self.longitude);
        out.push(self.altitude);
        out.push(self.speed_over_ground);
        out.push(self.heading_angle);
        out.push(self.track_angle);
        out.push(self.magnetic_variation);
        assert(out@ =~= old(out)@ + self.words());
    }

    /// Read one record from the word stream; it succeeds exactly when
    /// eleven words remain.
    pub fn parse(w: &Vec<u32>, pos: &mut usize, end: usize) -> (r: Result<Self, VitaError>)
        requires
            *old(pos) <= end,
            end <= w@.len(),
        ensures
            r.is_ok() <==> *old(pos) + 11 <= end,
            r.is_ok() ==> *final(pos) == *old(pos) + 11,
            r.is_ok() ==> *old(pos) <= *final(pos) <= end && r.unwrap().words() == w@.subrange(
                *old(pos) as int,
                *final(pos) as int,
            ),
            r.is_err() ==> r == Err::<Self, VitaError>(VitaError::TruncatedPacket),
    {
        let header_word = take_word(w, pos, end)?;
        let integer_timestamp = take_word(w, pos, end)?;
        let fractional_timestamp = take_u64(w, pos, end)?;
        let latitude = take_word(w, pos, end)?;
        let longitude = take_word(w, pos, end)?;
        let altitude = take_word(w, pos, end)?;
        let speed_over_ground = take_word(w, pos, end)?;
        let heading_angle = take_word(w, pos, end)?;
        let track_angle = take_word(w, pos, end)?;
        let magnetic_variation = take_word(w, pos, end)?;
        let r = FormattedGps {
            header_word,
            integer_timestamp,
            fractional_timestamp,
            latitude,
            longitude,
            altitude,
            speed_over_ground,
            heading_angle,
            track_angle,
            magnetic_variation,
        };
        proof {
            assert(r.words() =~= w@.subrange(*old(pos) as int, *final(pos) as int));
        }
        Ok(r)
    }
}

/// Earth-centered earth-fixed ephemeris, thirteen words, carried
/// unscaled as on the wire.
#[derive(Clone, Copy, Debug, PartialEq, Eq, Structural)]
pub struct EcefEphemeris {
    /// TSI/TSF codes and the manufacturer OUI of the source.
    pub header_word: u32,
    /// Integer-seconds timestamp of the fix.
    pub integer_timestamp: u32,
    /// Fractional timestamp of the fix.
    pub fractional_timestamp: u64,
    /// Position X, signed radix-5 meters.
    pub position_x: u32,
    /// Position Y, signed radix-5 meters.
    pub position_y: u32,
    /// Position Z, signed radix-5 meters.
    pub position_z: u32,
    /// Attitude alpha, signed radix-22 degrees.
    pub attitude_alpha: u32,
    /// Attitude beta, signed radix-22 degrees.
    pub attitude_beta: u32,
    /// Attitude phi, signed radix-22 degrees.
    pub attitude_phi: u32,
    /// Velocity dX, signed radix-16 meters per second.
    pub velocity_dx: u32,
    /// Velocity dY, signed radix-16 meters per second.
    pub velocity_dy: u32,
    /// Velocity dZ, signed radix-16 meters per second.
    pub velocity_dz: u32,
}

impl Default for EcefEphemeris {
    /// An all-zero ephemeris record.
    fn default() -> (r: Self)
        ensures
            r == (EcefEphemeris {
                header_word: 0,
                integer_timestamp: 0,
                fractional_timestamp: 0,
                position_x: 0,
                position_y: 0,
                position_z: 0,
                attitude_alpha: 0,
                attitude_beta: 0,
                attitude_phi: 0,
                velocity_dx: 0,
                velocity_dy: 0,
                velocity_dz: 0,
            }),
    {
        EcefEphemeris {
            header_word: 0,
            integer_timestamp: 0,
            fractional_timestamp: 0,
            position_x: 0,
            position_y: 0,
            position_z: 0,
            attitude_alpha: 0,
            attitude_beta: 0,
            attitude_phi: 0,
            velocity_dx: 0,
            velocity_dy: 0,
            velocity_dz: 0,
        }
    }
}

impl EcefEphemeris {
    /// The thirteen wire words of the record.
    pub open spec fn words(self) -> Seq<u32> {
        seq![self.header_word, self.integer_timestamp] + u64_words(self.fractional_timestamp)
            + seq![
            self.position_x,
            self.position_y,
            self.position_z,
            self.attitude_alpha,
            self.attitude_beta,
            self.attitude_phi,
            self.velocity_dx,
            self.velocity_dy,
            self.velocity_dz,
        ]
    }

    /// Append the record's wire words.
    pub fn encode(&self, out: &mut Vec<u32>)
        ensures
            final(out)@ == old(out)@ + self.words(),
    {
        out.push(self.header_word);
        out.push(self.integer_timestamp);
        push_u64(out, self.fractional_timestamp);
        out.push(self.position_x);
        out.push(self.position_y);
        out.push(self.position_z);
        out.push(self.attitude_alpha);
        out.push(self.attitude_beta);
        out.push(self.attitude_phi);
        out.push(self.velocity_dx);
        out.push(self.velocity_dy);
        out.push(self.velocity_dz);
        assert(out@ =~= old(out)@ + self.words());
    }

    /// Read one record from the word stream; it succeeds exactly when
    /// thirteen words remain.
    pub fn parse(w: &Vec<u32>, pos: &mut usize, end: usize) -> (r: Result<Self, VitaError>)
        requires
            *old(pos) <= end,
            end <= w@.len(),
        ensures
            r.is_ok() <==> *old(pos) + 13 <= end,
            r.is_ok() ==> *final(pos) == *old(pos) + 13,
            r.is_ok() ==> *old(pos) <= *final(pos) <= end && r.unwrap().words() == w@.subrange(
                *old(pos) as int,
                *final(pos) as int,
            ),
            r.is_err() ==> r == Err::<Self, VitaError>(VitaError::TruncatedPacket),
    {
        let header_word = take_word(w, pos, end)?;
        let integer_timestamp = take_word(w, pos, end)?;
        let fractional_timestamp = take_u64(w, pos, end)?;
        let position_x = take_word(w, pos, end)?;
        let position_y = take_word(w, pos, end)?;
        let position_z = take_word(w, pos, end)?;
        let attitude_alpha = take_word(w, pos, end)?;
        let attitude_beta = take_word(w, pos, end)?;
        let attitude_phi = take_word(w, pos, end)?;
        let velocity_dx = take_word(w, pos, end)?;
        let velocity_dy = take_word(w, pos, end)?;
        let velocity_dz = take_word(w, pos, end)?;
        let r = EcefEphemeris {
            header_word,
            integer_timestamp,
            fractional_timestamp,
            position_x,
            position_y,
            position_z,
            attitude_alpha,
            attitude_beta,
            attitude_phi,
            velocity_dx,
            velocity_dy,
            velocity_dz,
        };
        proof {
            assert(r.words() =~= w@.subrange(*old(pos) as int, *final(pos) as int));
        }
        Ok(r)
    }
}

/// The spectrum descriptor, thirteen words. Resolution and span are
/// radix-20 fixed-point Hertz, carried unscaled.
#[derive(Clone, Debug, PartialEq, Eq, Structural)]
pub struct Spectrum {
    /// Spectrum-type and averaging-type codes.
    pub spectrum_type: u32,
    /// Window-type code.
    pub window_type: u32,
    /// Number of transform points.
    pub num_transform_points: u32,
    /// Number of window points.
    pub num_window_points: u32,
    /// Bin resolution, radix-20 fixed-point Hertz.
    pub resolution: u64,
    /// Spectral span, radix-20 fixed-point Hertz.
    pub span: u64,
    /// Number of averaged transforms.
    pub num_averages: u32,
    /// Weighting factor code.
    pub weighting_factor: u32,
    /// Index of the first spectral bin, signed.
    pub f1_index: i32,
    /// Index of the last spectral bin, signed.
    pub f2_index: i32,
    /// Time between window starts.
    pub window_time_delta: u32,
}

impl Default for Spectrum {
    /// An all-zero spectrum descriptor.
    fn default() -> (r: Self)
        ensures
            r == (Spectrum {
                spectrum_type: 0,
                window_type: 0,
                num_transform_points: 0,
                num_window_points: 0,
                resolution: 0,
                span: 0,
                num_averages: 0,
                weighting_factor: 0,
                f1_index: 0,
                f2_index: 0,
                window_time_delta: 0,
            }),
    {
        Spectrum {
            spectrum_type: 0,
            window_type: 0,
            num_transform_points: 0,
            num_window_points: 0,
            resolution: 0,
            span: 0,
            num_averages: 0,
            weighting_factor: 0,
            f1_index: 0,
            f2_index: 0,
            window_time_delta: 0,
        }
    }
}

impl Spectrum {
    /// The thirteen wire words of the descriptor.
    pub open spec fn words(self) -> Seq<u32> {
        seq![self.spectrum_type, self.window_type, self.num_transform_points,
            self.num_window_points,
        ] + u64_words(self.resolution) + u64_words(self.span) + seq![
            self.num_averages,
            self.weighting_factor,
            self.f1_index as u32,
            self.f2_index as u32,
            self.window_time_delta,
        ]
    }

    /// The spectrum-type word as a raw integer.
    pub fn spectrum_type_as_u32(&self) -> (r: u32)
        ensures
            r == self.spectrum_type,
    {
        self.spectrum_type
    }

    /// Number of transform points.
    pub fn num_transform_points(&self) -> (r: u32)
        ensures
            r == self.num_transform_points,
    {
        self.num_transform_points
    }

    /// Set the number of transform points.
    pub fn set_num_transform_points(&mut self, v: u32)
        ensures
            *final(self) == (Spectrum { num_transform_points: v, ..*old(self) }),
    {
        self.num_transform_points = v;
    }

    /// Number of window points.
    pub fn num_window_points(&self) -> (r: u32)
        ensures
            r == self.num_window_points,
    {
        self.num_window_points
    }

    /// Set the number of window points.
    pub fn set_num_window_points(&mut self, v: u32)
        ensures
            *final(self) == (Spectrum { num_window_points: v, ..*old(self) }),
    {
        self.num_window_points = v;
    }

    /// Bin resolution as radix-20 fixed-point Hertz.
    pub fn resolution(&self) -> (r: u64)
        ensures
            r == self.resolution,
    {
        self.resolution
    }

    /// Set the bin resolution, radix-20 fixed-point Hertz.
    pub fn set_resolution(&mut self, v: u64)
        ensures
            *final(self) == (Spectrum { resolution: v, ..*old(self) }),
    {
        self.resolution = v;
    }

    /// Spectral span as radix-20 fixed-point Hertz.
    pub fn span(&self) -> (r: u64)
        ensures
            r == self.span,
    {
        self.span
    }

    /// Set the spectral span, radix-20 fixed-point Hertz.
    pub fn set_span(&mut self, v: u64)
        ensures
            *final(self) == (Spectrum { span: v, ..*old(self) }),
    {
        self.span = v;
    }

    /// Index of the first spectral bin.
    pub fn f1_index(&self) -> (r: i32)
        ensures
            r == self.f1_index,
    {
        self.f1_index
    }

    /// Set the index of the first spectral bin.
    pub fn set_f1_index(&mut self, v: i32)
        ensures
            *final(self) == (Spectrum { f1_index: v, ..*old(self) }),
    {
        self.f1_index = v;
    }

    /// Index of the last spectral bin.
    pub fn f2_index(&self) -> (r: i32)
        ensures
            r == self.f2_index,
    {
        self.f2_index
    }

    /// Set the index of the last spectral bin.
    pub fn set_f2_index(&mut self, v: i32)
        ensures
            *final(self) == (Spectrum { f2_index: v, ..*old(self) }),
    {
        self.f2_index = v;
    }

    /// Append the descriptor's wire words.
    pub fn encode(&self, out: &mut Vec<u32>)
        ensures
            final(out)@ == old(out)@ + self.words(),
    {
        out.push(self.spectrum_type);
        out.push(self.window_type);
        out.push(self.num_transform_points);
        out.push(self.num_window_points);
        push_u64(out, self.resolution);
        push_u64(out, self.span);
        out.push(self.num_averages);
        out.push(self.weighting_factor);
        out.push(self.f1_index as u32);
        out.push(self.f2_index as u32);
        out.push(self.window_time_delta);
        assert(out@ =~= old(out)@ + self.words());
    }

    /// Read one descriptor from the word stream; it succeeds exactly
    /// when thirteen words remain.
    pub fn parse(w: &Vec<u32>, pos: &mut usize, end: usize) -> (r: Result<Self, VitaError>)
        requires
            *old(pos) <= end,
            end <= w@.len(),
        ensures
            r.is_ok() <==> *old(pos) + 13 <= end,
            r.is_ok() ==> *final(pos) == *old(pos) + 13,
            r.is_ok() ==> *old(pos) <= *final(pos) <= end && r.unwrap().words() == w@.subrange(
                *old(pos) as int,
                *final(pos) as int,
            ),
            r.is_err() ==> r == Err::<Self, VitaError>(VitaError::TruncatedPacket),
    {
        let spectrum_type = take_word(w, pos, end)?;
        let window_type = take_word(w, pos, end)?;
        let num_transform_points = take_word(w, pos, end)?;
        let num_window_points = take_word(w, pos, end)?;
        let resolution = take_u64(w, pos, end)?;
        let span = take_u64(w, pos, end)?;
        let num_averages = take_word(w, pos, end)?;
        let weighting_factor = take_word(w, pos, end)?;
        let f1_raw = take_word(w, pos, end)?;
        let f2_raw = take_word(w, pos, end)?;
        let window_time_delta = take_word(w, pos, end)?;
        let r = Spectrum {
            spectrum_type,
            window_type,
            num_transform_points,
            num_window_points,
            resolution,
            span,
            num_averages,
            weighting_factor,
            f1_index: f1_raw as i32,
            f2_index: f2_raw as i32,
            window_time_delta,
        };
        proof {
            lemma_u32_cast(f1_raw);
            lemma_u32_cast(f2_raw);
            assert(r.words() =~= w@.subrange(*old(pos) as int, *final(pos) as int));
        }
        Ok(r)
    }
}

/// GPS ASCII text: the source OUI, a word count, and that many words
/// of ASCII payload.
#[derive(Clone, Debug, PartialEq, Eq)]
pub struct GpsAscii {
    /// Manufacturer OUI of the source.
    pub oui: u32,
    /// The ASCII payload, four bytes per word.
    pub data: Vec<u32>,
}

impl Default for GpsAscii {
    /// An empty GPS ASCII record.
    fn default() -> (r: Self)
        ensures
            r.oui == 0,
            r.data@ == Seq::<u32>::empty(),
    {
        GpsAscii { oui: 0, data: Vec::new() }
    }
}

impl GpsAscii {
    /// The word count must fit the packet-size budget.
    pub open spec fn wf(self) -> bool {
        self.data@.len() <= 0xFFFD
    }

    /// The wire words: OUI, word count, then the payload words.
    pub open spec fn words(self) -> Seq<u32> {
        seq![self.oui, self.data@.len() as u32] + self.data@
    }

    /// Append the record's wire words.
    pub fn encode(&self, out: &mut Vec<u32>)
        requires
            self.wf(),
        ensures
            final(out)@ == old(out)@ + self.words(),
    {
        out.push(self.oui);
        out.push(self.data.len() as u32);
        let mut i: usize = 0;
        while i < self.data.len()
            invariant
                i <= self.data@.len(),
                out@ == old(out)@ + seq![self.oui, self.data@.len() as u32] + self.data@.subrange(
                    0,
                    i as int,
                ),
            decreases self.data@.len() - i,
        {
            out.push(self.data[i]);
            i = i + 1;
            proof {
                assert(out@ =~= old(out)@ + seq![self.oui, self.data@.len() as u32]
                    + self.data@.subrange(0, i as int));
            }
        }
        proof {
            assert(self.data@.subrange(0, self.data@.len() as int) =~= self.data@);
            assert(out@ =~= old(out)@ + self.words());
        }
    }

    /// Read one record from the word stream. It succeeds exactly when
    /// the two leading words fit and the word count they declare is in
    /// range and fits before `end`.
    pub fn parse(w: &Vec<u32>, pos: &mut usize, end: usize) -> (r: Result<Self, VitaError>)
        requires
            *old(pos) <= end,
            end <= w@.len(),
            end <= 0xFFFF,
        ensures
            r.is_ok() <==> (*old(pos) + 2 <= end && w@[*old(pos) + 1] <= 0xFFFD && *old(pos) + 2
                + w@[*old(pos) + 1] <= end),
            r.is_ok() ==> *final(pos) == *old(pos) + 2 + w@[*old(pos) + 1],
            r.is_ok() ==> *old(pos) <= *final(pos) <= end && r.unwrap().wf()
                && r.unwrap().words() == w@.subrange(*old(pos) as int, *final(pos) as int),
            r.is_err() ==> r == Err::<Self, VitaError>(VitaError::TruncatedPacket),
    {
        let oui = take_word(w, pos, end)?;
        let n = take_word(w, pos, end)?;
        if n > 0xFFFD {
            return Err(VitaError::TruncatedPacket);
        }
        let data = take_words(w, pos, end, n as usize)?;
        let r = GpsAscii { oui, data };
        proof {
            assert(r.words() =~= w@.subrange(*old(pos) as int, *final(pos) as int));
        }
        Ok(r)
    }
}

/// Packing the second size word's three fields reads back as the
/// fields.
pub proof fn lemma_assoc_size_pack(hi: u32, flag: u32, lo: u32)
    requires
        hi <= 0xFFFF,
        flag == 0 || flag == 0x8000,
        lo <= 0x7FFF,
    ensures
        ((hi << 16) | flag | lo) >> 16 == hi,
        ((hi << 16) | flag | lo) & 0x8000 == flag,
        ((hi << 16) | flag | lo) & 0x7FFF == lo,
{
    assert(((hi << 16) | flag | lo) >> 16 == hi && ((hi << 16) | flag | lo) & 0x8000 == flag && ((
    hi << 16) | flag | lo) & 0x7FFF == lo) by (bit_vector)
        requires
            hi <= 0xFFFF,
            flag == 0 || flag == 0x8000,
            lo <= 0x7FFF,
    ;
}

/// The total list length an association-lists record declares in its
/// two size words.
pub open spec fn assoc_lists_declared_len(w1: u32, w2: u32) -> int {
    (w1 >> 16) + (w1 & 0xFFFF) + (w2 >> 16) + (w2 & 0x7FFF) + (if (w2 & 0x8000) != 0 {
        (w2 & 0x7FFF) as int
    } else {
        0int
    })
}

/// Context association lists: four lists of 32-bit identifiers, with
/// an optional tag list mirroring the asynchronous-channel list.
#[derive(Clone, Debug, PartialEq, Eq)]
pub struct ContextAssociationLists {
    /// Source-context association identifiers.
    pub source_list: Vec<u32>,
    /// System-context association identifiers.
    pub system_list: Vec<u32>,
    /// Vector-component association identifiers.
    pub vector_component_list: Vec<u32>,
    /// Asynchronous-channel association identifiers.
    pub async_channel_list: Vec<u32>,
    /// Tags for the asynchronous channels, one per channel entry.
    pub async_tag_list: Option<Vec<u32>>,
}

impl Default for ContextAssociationLists {
    /// Empty association lists.
    fn default() -> (r: Self)
        ensures
            r.source_list@ == Seq::<u32>::empty(),
            r.system_list@ == Seq::<u32>::empty(),
            r.vector_component_list@ == Seq::<u32>::empty(),
            r.async_channel_list@ == Seq::<u32>::empty(),
            r.async_tag_list matches Option::None,
    {
        ContextAssociationLists {
            source_list: Vec::new(),
            system_list: Vec::new(),
            vector_component_list: Vec::new(),
            async_channel_list: Vec::new(),
            async_tag_list: Option::None,
        }
    }
}

impl ContextAssociationLists {
    /// Every list length must fit its size field, and the tag list
    /// mirrors the asynchronous-channel list.
    pub open spec fn wf(self) -> bool {
        &&& self.source_list@.len() <= 0xFFFF
        &&& self.system_list@.len() <= 0xFFFF
        &&& self.vector_component_list@.len() <= 0xFFFF
        &&& self.async_channel_list@.len() <= 0x7FFF
        &&& match self.async_tag_list {
            Option::Some(tags) => tags@.len() == self.async_channel_list@.len(),
            Option::None => true,
        }
    }

    /// The first size word: source-list and system-list lengths.
    pub open spec fn size_word_1(self) -> u32 {
        ((self.source_list@.len() as u32) << 16) | (self.system_list@.len() as u32)
    }

    /// The second size word: vector-component length, the tag-list
    /// presence flag, and the asynchronous-channel length.
    pub open spec fn size_word_2(self) -> u32 {
        ((self.vector_component_list@.len() as u32) << 16) | (if self.async_tag_list is Some {
            0x8000u32
        } else {
            0u32
        }) | (self.async_channel_list@.len() as u32)
    }

    /// The tag words, empty when the tag list is absent.
    pub open spec fn tag_words(self) -> Seq<u32> {
        match self.async_tag_list {
            Option::Some(tags) => tags@,
            Option::None => Seq::empty(),
        }
    }

    /// The wire words: both size words, then the lists in order.
    pub open spec fn words(self) -> Seq<u32> {
        seq![self.size_word_1(), self.size_word_2()] + self.source_list@ + self.system_list@
            + self.vector_component_list@ + self.async_channel_list@ + self.tag_words()
    }

    /// Append the record's wire words.
    pub fn encode(&self, out: &mut Vec<u32>)
        requires
            self.wf(),
        ensures
            final(out)@ == old(out)@ + self.words(),
    {
        let w1: u32 = ((self.source_list.len() as u32) << 16) | (self.system_list.len() as u32);
        let flag: u32 = if self.async_tag_list.is_some() {
            0x8000
        } else {
            0
        };
        let w2: u32 = ((self.vector_component_list.len() as u32) << 16) | flag | (
        self.async_channel_list.len() as u32);
        out.push(w1);
        out.push(w2);
        push_all(out, &self.source_list);
        push_all(out, &self.system_list);
        push_all(out, &self.vector_component_list);
        push_all(out, &self.async_channel_list);
        match &self.async_tag_list {
            Option::Some(tags) => push_all(out, tags),
            Option::None => (),
        }
        assert(out@ =~= old(out)@ + self.words());
    }

    /// Read one record from the word stream. It succeeds exactly when
    /// the two size words fit and the list lengths they declare fit
    /// before `end`.
    pub fn parse(w: &Vec<u32>, pos: &mut usize, end: usize) -> (r: Result<Self, VitaError>)
        requires
            *old(pos) <= end,
            end <= w@.len(),
        ensures
            r.is_ok() <==> (*old(pos) + 2 <= end && *old(pos) + 2 + assoc_lists_declared_len(
                w@[*old(pos) as int],
                w@[*old(pos) + 1],
            ) <= end),
            r.is_ok() ==> *final(pos) == *old(pos) + 2 + assoc_lists_declared_len(
                w@[*old(pos) as int],
                w@[*old(pos) + 1],
            ),
            r.is_ok() ==> *old(pos) <= *final(pos) <= end && r.unwrap().wf()
                && r.unwrap().words() == w@.subrange(*old(pos) as int, *final(pos) as int),
            r.is_err() ==> r == Err::<Self, VitaError>(VitaError::TruncatedPacket),
    {
        let w1 = take_word(w, pos, end)?;
        let w2 = take_word(w, pos, end)?;
        let src_n: u32 = w1 >> 16;
        let sys_n: u32 = w1 & 0xFFFF;
        let vec_n: u32 = w2 >> 16;
        let tag_flag: u32 = w2 & 0x8000;
        let async_n: u32 = w2 & 0x7FFF;
        proof {
            lemma_assoc_size_words(w1, w2);
        }
        let source_list = take_words(w, pos, end, src_n as usize)?;
        let system_list = take_words(w, pos, end, sys_n as usize)?;
        let vector_component_list = take_words(w, pos, end, vec_n as usize)?;
        let async_channel_list = take_words(w, pos, end, async_n as usize)?;
        let async_tag_list = if tag_flag != 0 {
            Option::Some(take_words(w, pos, end, async_n as usize)?)
        } else {
            Option::None
        };
        let r = ContextAssociationLists {
            source_list,
            system_list,
            vector_component_list,
            async_channel_list,
            async_tag_list,
        };
        proof {
            assert(r.words() =~= w@.subrange(*old(pos) as int, *final(pos) as int));
        }
        Ok(r)
    }
}

/// Append every word of a list.
pub(crate) fn push_all(out: &mut Vec<u32>, v: &Vec<u32>)
    ensures
        final(out)@ == old(out)@ + v@,
{
    let mut i: usize = 0;
    while i < v.len()
        invariant
            i <= v@.len(),
            out@ == old(out)@ + v@.subrange(0, i as int),
        decreases v@.len() - i,
    {
        out.push(v[i]);
        i = i + 1;
        proof {
            assert(out@ =~= old(out)@ + v@.subrange(0, i as int));
        }
    }
    proof {
        assert(v@.subrange(0, v@.len() as int) =~= v@);
    }
}

/// The two size words of an association list split into fields that
/// repack to the original words.
proof fn lemma_assoc_size_words(w1: u32, w2: u32)
    ensures
        ((w1 >> 16) << 16) | (w1 & 0xFFFF) == w1,
        ((w2 >> 16) << 16) | (if (w2 & 0x8000) != 0 {
            0x8000u32
        } else {
            0u32
        }) | (w2 & 0x7FFF) == w2,
        w1 >> 16 <= 0xFFFF,
        w1 & 0xFFFF <= 0xFFFF,
        w2 >> 16 <= 0xFFFF,
        w2 & 0x7FFF <= 0x7FFF,
{
    assert(((w1 >> 16) << 16) | (w1 & 0xFFFF) == w1 && w1 >> 16 <= 0xFFFF && w1 & 0xFFFF <= 0xFFFF)
        by (bit_vector);
    assert(((w2 >> 16) << 16) | (if (w2 & 0x8000) != 0 {
        0x8000u32
    } else {
        0u32
    }) | (w2 & 0x7FFF) == w2 && w2 >> 16 <= 0xFFFF && w2 & 0x7FFF <= 0x7FFF) by (bit_vector);
}

} // verus!
