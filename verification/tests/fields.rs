//! Field-level behaviour: setters and their error cases, indicator
//! consistency, fixed-point grids, and the CAM word layout.

use vita49::{
    AckLevel, AckResponse, ActionMode, ControlAckMode, EcefEphemeris, FormattedGps, GpsAscii,
    IdFormat, PacketType, Tsf, Tsi, VitaError, Vrt,
};

const RADIX20: u64 = 1 << 20;

#[test]
fn id_and_uuid_are_mutually_exclusive() {
    let mut packet = Vrt::new_control_packet();
    let command = packet.payload_mut().command_mut().unwrap();
    command.set_controllee_id(Some(7)).unwrap();
    let before = command.clone();
    assert_eq!(
        command.set_controllee_uuid(Some(9)),
        Err(VitaError::TriedUuidWhenIdSet)
    );
    assert_eq!(*command, before);
    assert_eq!(command.controllee_id(), Some(7));
    assert_eq!(command.controllee_uuid(), None);

    let mut other = Vrt::new_control_packet();
    let command = other.payload_mut().command_mut().unwrap();
    command.set_controller_uuid(Some(11)).unwrap();
    assert_eq!(
        command.set_controller_id(Some(1)),
        Err(VitaError::TriedIdWhenUuidSet)
    );
    assert_eq!(command.controller_uuid(), Some(11));
    assert_eq!(command.controller_id(), None);
}

#[test]
fn clearing_ids_disables_the_party() {
    let mut packet = Vrt::new_control_packet();
    let command = packet.payload_mut().command_mut().unwrap();
    command.set_controllee_id(Some(7)).unwrap();
    assert!(command.cam().controllee_enabled());
    command.set_controllee_id(None).unwrap();
    assert!(!command.cam().controllee_enabled());
    assert_eq!(command.controllee_id(), None);
}

#[test]
fn uneven_signal_payload_is_rejected() {
    let mut packet = Vrt::new_signal_data_packet();
    assert_eq!(
        packet.set_signal_payload(&[1, 2, 3]),
        Err(VitaError::PayloadUneven32BitWords)
    );
    assert_eq!(packet.set_signal_payload(&[1, 2, 3, 4]), Ok(()));
    assert_eq!(packet.signal_payload().unwrap(), vec![1, 2, 3, 4]);
}

#[test]
fn timestamp_mode_must_match_presence() {
    let mut packet = Vrt::new_context_packet();
    assert_eq!(
        packet.set_integer_timestamp(Some(5), Tsi::Omitted),
        Err(VitaError::InconsistentHeader)
    );
    assert_eq!(
        packet.set_integer_timestamp(None, Tsi::Utc),
        Err(VitaError::InconsistentHeader)
    );
    assert_eq!(
        packet.set_fractional_timestamp(Some(5), Tsf::Omitted),
        Err(VitaError::InconsistentHeader)
    );
    assert_eq!(
        packet.set_fractional_timestamp(None, Tsf::SampleCount),
        Err(VitaError::InconsistentHeader)
    );
    assert_eq!(packet.set_integer_timestamp(Some(5), Tsi::Gps), Ok(()));
}

#[test]
fn parse_error_cases() {
    // Too short for even a header word.
    assert_eq!(
        Vrt::try_from(&[0x10, 0x00]),
        Err(VitaError::TruncatedPacket)
    );
    // Undefined packet-type code (top nibble 8).
    assert_eq!(
        Vrt::try_from(&[0x80, 0x00, 0x00, 0x01]),
        Err(VitaError::UnknownPacketType)
    );
    // Extension data packets are recognizable but unsupported.
    assert_eq!(
        Vrt::try_from(&[0x20, 0x00, 0x00, 0x01]),
        Err(VitaError::UnsupportedFeature)
    );
    // A declared size of zero cannot hold the header itself.
    assert_eq!(
        Vrt::try_from(&[0x10, 0x00, 0x00, 0x00]),
        Err(VitaError::InconsistentHeader)
    );
    // Fewer bytes than the declared four words.
    assert_eq!(
        Vrt::try_from(&[0x10, 0x00, 0x00, 0x04, 0, 0, 0, 0]),
        Err(VitaError::TruncatedPacket)
    );
    // A context packet whose payload words are not consumed exactly.
    let bytes: Vec<u8> = vec![
        0x40, 0x00, 0x00, 0x04, // header: context, size 4
        0x00, 0x00, 0x00, 0x01, // stream ID
        0x00, 0x00, 0x00, 0x00, // empty CIF0
        0x00, 0x00, 0x00, 0x00, // stray word
    ];
    assert_eq!(Vrt::try_from(&bytes), Err(VitaError::InconsistentHeader));
}

#[test]
fn ambiguous_ack_kind_is_rejected() {
    let packet = Vrt::new_exec_ack_packet();
    let mut bytes = packet.to_bytes().unwrap();
    // Words: header, stream ID, CAM, message ID. Clearing the CAM
    // word leaves an acknowledgement that selects no kind.
    bytes[8] = 0;
    bytes[9] = 0;
    bytes[10] = 0;
    bytes[11] = 0;
    assert_eq!(Vrt::try_from(&bytes), Err(VitaError::AmbiguousAckKind));
}

#[test]
fn payload_accessors_guard_their_variant() {
    let packet = Vrt::new_signal_data_packet();
    assert!(packet.payload().context().is_err());
    assert!(packet.payload().command().is_err());
    assert!(packet.payload().signal_data().is_ok());

    let control = Vrt::new_control_packet();
    let command = control.payload().command().unwrap();
    assert_eq!(
        command.payload().cancellation().unwrap_err(),
        VitaError::CancellationOnly
    );
    assert_eq!(
        command.payload().validation_ack().unwrap_err(),
        VitaError::ValidationAckOnly
    );
    assert_eq!(
        command.payload().exec_ack().unwrap_err(),
        VitaError::ExecAckOnly
    );
    assert_eq!(
        command.payload().query_ack().unwrap_err(),
        VitaError::QueryAckOnly
    );
    let ack = Vrt::new_exec_ack_packet();
    assert_eq!(
        ack.payload().command().unwrap().payload().control().unwrap_err(),
        VitaError::ControlOnly
    );
}

#[test]
fn indicator_follows_field_presence() {
    let mut packet = Vrt::new_context_packet();
    let context = packet.payload_mut().context_mut().unwrap();
    assert!(!context.cif0.get(vita49::cif::CIF0_BANDWIDTH_BIT));
    context.set_bandwidth(Some(1));
    assert!(context.cif0.get(vita49::cif::CIF0_BANDWIDTH_BIT));
    assert_eq!(context.bandwidth(), Some(1));
    context.set_bandwidth(None);
    assert!(!context.cif0.get(vita49::cif::CIF0_BANDWIDTH_BIT));
    assert_eq!(context.bandwidth(), None);

    context.set_reference_point_id(Some(4));
    assert!(context.cif0.get(vita49::cif::CIF0_REFERENCE_POINT_ID_BIT));
    context.set_temperature(Some(-40));
    assert_eq!(context.temperature(), Some(-40));
    context.set_reference_level(Some(-3));
    assert_eq!(context.reference_level(), Some(-3));
    context.set_if_ref_freq(Some(-5_000_000 * RADIX20 as i64));
    assert_eq!(context.if_ref_freq(), Some(-5_000_000 * RADIX20 as i64));
}

#[test]
fn composite_fields_round_trip() {
    let mut packet = Vrt::new_context_packet();
    let context = packet.payload_mut().context_mut().unwrap();
    let mut gps = FormattedGps::default();
    gps.latitude = 0x0ABCDEF0;
    gps.integer_timestamp = 77;
    context.set_formatted_gps(Some(gps));
    let mut eph = EcefEphemeris::default();
    eph.position_x = 123;
    eph.velocity_dz = 456;
    context.set_ecef_ephemeris(Some(eph));
    let ascii = GpsAscii {
        oui: 0x123456,
        data: vec![0x47505341, 0x53434949],
    };
    context.set_gps_ascii(Some(ascii.clone()));
    packet.update_packet_size();
    // Header, stream, CIF0, GPS (11), ephemeris (13), ASCII (4).
    assert_eq!(packet.header().packet_size(), 3 + 11 + 13 + 4);
    let bytes = packet.to_bytes().unwrap();
    let parsed = Vrt::try_from(&bytes).unwrap();
    assert_eq!(parsed, packet);
    let context = parsed.payload().context().unwrap();
    assert_eq!(context.formatted_gps(), Some(gps));
    assert_eq!(context.ecef_ephemeris(), Some(eph));
    assert_eq!(context.gps_ascii().unwrap(), &ascii);
}

#[test]
fn ack_response_banks() {
    let mut packet = Vrt::new_validation_ack_packet();
    let command = packet.payload_mut().command_mut().unwrap();
    let mut cam = command.cam();
    cam.set_warning();
    cam.set_error();
    command.set_cam(cam);
    let ack = command.payload_mut().validation_ack_mut().unwrap();
    let mut response = AckResponse::default();
    response.set_param_out_of_range();
    assert!(response.param_out_of_range());
    ack.set_bandwidth(AckLevel::Warning, Some(response));
    let mut err_response = AckResponse::default();
    err_response.set_device_failure();
    ack.set_sample_rate(AckLevel::Error, Some(err_response));
    packet.update_packet_size();
    // Header, stream, CAM, message ID, WIF0, EIF0, two responses.
    assert_eq!(packet.header().packet_size(), 8);
    let bytes = packet.to_bytes().unwrap();
    let parsed = Vrt::try_from(&bytes).unwrap();
    assert_eq!(parsed, packet);
    let ack = parsed
        .payload()
        .command()
        .unwrap()
        .payload()
        .validation_ack()
        .unwrap();
    assert_eq!(ack.bandwidth(AckLevel::Warning), Some(response));
    assert_eq!(ack.bandwidth(AckLevel::Error), None);
    assert_eq!(ack.sample_rate(AckLevel::Error), Some(err_response));
}

#[test]
fn cam_word_layout() {
    let mut cam = ControlAckMode::default();
    cam.enable_controllee();
    assert_eq!(cam.as_u32(), 0x8000_0000);
    cam.set_controllee_id_format(IdFormat::Uuid128bit);
    assert_eq!(cam.as_u32(), 0xC000_0000);
    cam.enable_controller();
    assert_eq!(cam.as_u32(), 0xE000_0000);
    cam.set_action_mode(ActionMode::Execute);
    assert_eq!(cam.as_u32(), 0xE100_0000);
    cam.set_action_mode(ActionMode::DryRun);
    assert_eq!(cam.as_u32(), 0xE080_0000);
    cam.set_validation();
    assert_eq!(cam.as_u32(), 0xE090_0000);
    cam.set_execution();
    assert_eq!(cam.as_u32(), 0xE098_0000);
    cam.set_state();
    assert_eq!(cam.as_u32(), 0xE09C_0000);
    cam.set_warning();
    assert_eq!(cam.as_u32(), 0xE09E_0000);
    cam.set_error();
    assert_eq!(cam.as_u32(), 0xE09F_0000);
}

#[test]
fn radix_grid_round_trip() {
    // A value set on a radix-20 field lands on the grid of multiples
    // of 2^-20: converting 6.25 kHz and reading it back is exact.
    let hz: f64 = 6.25e3;
    let raw = (hz * RADIX20 as f64).round_ties_even() as u64;
    let mut packet = Vrt::new_context_packet();
    let context = packet.payload_mut().context_mut().unwrap();
    context.set_sample_rate(Some(raw));
    assert_eq!(context.sample_rate(), Some(raw));
    let back = context.sample_rate().unwrap() as f64 / RADIX20 as f64;
    assert_eq!(back, hz);
    // A value off the grid rounds half-to-even to the nearest step.
    let fine: f64 = 1.0 + 1.5 / RADIX20 as f64;
    let raw = (fine * RADIX20 as f64).round_ties_even() as u64;
    assert_eq!(raw, RADIX20 + 2);
}

#[test]
fn header_word_formula() {
    let mut packet = Vrt::new_context_packet();
    packet.set_integer_timestamp(Some(1), Tsi::Other).unwrap();
    packet.update_packet_size();
    let bytes = packet.to_bytes().unwrap();
    // Type 4, TSI 3, count 0, size 4.
    assert_eq!(&bytes[..4], &[0x40, 0xC0, 0x00, 0x04]);
    let parsed = Vrt::try_from(&bytes).unwrap();
    assert_eq!(parsed.header().packet_type(), PacketType::Context);
    assert_eq!(parsed.header().tsi(), Tsi::Other);
}

#[test]
fn spectrum_accessor_values() {
    let mut spectrum = vita49::Spectrum::default();
    spectrum.set_num_transform_points(1280);
    spectrum.set_f1_index(-640);
    assert_eq!(spectrum.num_transform_points(), 1280);
    assert_eq!(spectrum.f1_index(), -640);
    spectrum.spectrum_type = 0x101;
    assert_eq!(spectrum.spectrum_type_as_u32(), 0x101);
}

#[test]
fn command_factory_sizes() {
    let control = vita49::Command::new_control();
    // CAM, message ID, and an empty CIF0 indicator word.
    assert_eq!(control.size_words(), 3);
    assert!(matches!(
        control.payload(),
        vita49::CommandPayload::Control(_)
    ));
    let ack = vita49::Command::new_exec_ack();
    assert_eq!(ack.message_id(), 0);
    assert_eq!(ack.controllee_id(), None);
    assert_eq!(ack.controllee_uuid(), None);
    assert_eq!(ack.controller_id(), None);
    assert_eq!(ack.controller_uuid(), None);
    assert_eq!(control.message_id(), 0);
    assert_eq!(ack.size_words(), 2);
    assert_eq!(ack.payload().size_words(), 0);
    assert_eq!(ack.cam().size_words(), 1);
    assert!(vita49::Command::new_validation_ack().cam().validation());
    assert!(vita49::Command::new_query_ack().cam().state());
    assert!(matches!(
        vita49::Command::new_cancellation().payload(),
        vita49::CommandPayload::Cancellation(_)
    ));
}

#[test]
fn fresh_validation_ack_has_no_warning_bank() {
    let mut packet = Vrt::new_validation_ack_packet();
    let command = packet.payload_mut().command_mut().unwrap();
    assert!(!command.cam().warning());
    assert!(!command.cam().error());
    let ack = command.payload_mut().validation_ack_mut().unwrap();
    let mut response = AckResponse::default();
    response.set_param_out_of_range();
    ack.set_bandwidth(AckLevel::Error, Some(response));
    assert_eq!(ack.bandwidth(AckLevel::Error), Some(response));
    assert_eq!(ack.bandwidth(AckLevel::Warning), None);
    assert!(ack.wif0.is_none());
    assert!(ack.eif0.is_some());
}

#[test]
fn truncated_field_is_malformed() {
    // A context packet whose CIF0 flags a bandwidth field but whose
    // declared size leaves no room for it: the payload sub-parser
    // fails at word offset two.
    let bytes: Vec<u8> = vec![
        0x40, 0x00, 0x00, 0x03, // header: context, size 3
        0x00, 0x00, 0x00, 0x01, // stream ID
        0x20, 0x00, 0x00, 0x00, // CIF0 with the bandwidth bit set
    ];
    assert_eq!(Vrt::try_from(&bytes), Err(VitaError::MalformedField(2)));
}
