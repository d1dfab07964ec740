//! Whole-packet construction and round-trip behaviour.

use vita49::{
    ActionMode, CommandPayload, ControlAckMode, IdFormat, PacketType, Payload, Spectrum, Tsf, Tsi,
    Vrt,
};

const RADIX20: u64 = 1 << 20;

#[test]
fn create_control_packet() {
    let mut packet = Vrt::new_control_packet();
    packet.set_stream_id(Some(0xDEADBEEF));
    packet.set_integer_timestamp(Some(0), Tsi::Utc).unwrap();
    packet
        .set_fractional_timestamp(Some(0), Tsf::SampleCount)
        .unwrap();
    let command = packet.payload_mut().command_mut().unwrap();
    command.set_message_id(123);
    let mut cam = ControlAckMode::default();
    cam.enable_controllee();
    cam.enable_controller();
    cam.set_controllee_id_format(IdFormat::Id32bit);
    cam.set_controller_id_format(IdFormat::Uuid128bit);
    cam.set_action_mode(ActionMode::Execute);
    cam.set_partial_packet_impl_permitted();
    cam.set_warnings_permitted();
    cam.set_validation();
    cam.set_warning();
    cam.set_error();
    command.set_cam(cam);
    command.set_controllee_id(Some(123)).unwrap();
    command.set_controller_uuid(Some(321)).unwrap();
    assert_eq!(command.controllee_id(), Some(123));
    assert_eq!(command.controller_uuid(), Some(321));
}

#[test]
fn construct_signal_data_packet() {
    let mut packet = Vrt::new_signal_data_packet();
    packet.set_stream_id(Some(0xDEADBEEF));
    packet
        .set_signal_payload(&[1, 2, 3, 4, 5, 6, 7, 8])
        .unwrap();
    packet.update_packet_size();
    assert_eq!(
        packet.header().packet_type(),
        PacketType::SignalDataStreamId
    );
    assert_eq!(packet.header().packet_size(), 4);
    let bytes = packet.to_bytes().unwrap();
    assert_eq!(bytes.len(), 16);
    // Header word: type 1, no flags, count 0, size 4.
    assert_eq!(&bytes[..4], &[0x10, 0x00, 0x00, 0x04]);
    assert_eq!(&bytes[4..8], &[0xDE, 0xAD, 0xBE, 0xEF]);
    assert_eq!(&bytes[8..], &[1, 2, 3, 4, 5, 6, 7, 8]);
    let parsed = Vrt::try_from(&bytes).unwrap();
    assert_eq!(parsed, packet);
    assert_eq!(parsed.signal_payload().unwrap(), vec![1, 2, 3, 4, 5, 6, 7, 8]);
}

#[test]
fn construct_context_packet() {
    let mut packet = Vrt::new_context_packet();
    let context = packet.payload_mut().context_mut().unwrap();
    context.set_bandwidth(Some(8_000_000 * RADIX20));
    let mut spectrum = Spectrum::default();
    spectrum.set_num_transform_points(1280);
    spectrum.set_num_window_points(1280);
    spectrum.set_resolution(6250 * RADIX20);
    spectrum.set_span(8_000_000 * RADIX20);
    spectrum.set_f1_index(-1280);
    spectrum.set_f2_index(1279);
    context.set_spectrum(Some(spectrum));
    packet.set_stream_id(Some(0xDEADBEEF));
    packet.update_packet_size();
    assert_eq!(packet.header().packet_type(), PacketType::Context);
    // Header, stream ID, CIF0, CIF1, bandwidth, spectrum descriptor.
    assert_eq!(packet.header().packet_size(), 1 + 1 + 1 + 1 + 2 + 13);

    let bytes = packet.to_bytes().unwrap();
    let parsed = Vrt::try_from(&bytes).unwrap();
    assert_eq!(parsed, packet);
    let context = parsed.payload().context().unwrap();
    assert_eq!(context.bandwidth(), Some(8_000_000 * RADIX20));
    let spectrum = context.spectrum().unwrap();
    assert_eq!(spectrum.num_transform_points(), 1280);
    assert_eq!(spectrum.resolution(), 6250 * RADIX20);
    assert_eq!(spectrum.f1_index(), -1280);
    assert_eq!(spectrum.f2_index(), 1279);
}

#[test]
fn construct_control_packet() {
    let mut packet = Vrt::new_control_packet();
    packet.set_stream_id(Some(0xDEADBEEF));
    let command = packet.payload_mut().command_mut().unwrap();
    let mut cam = ControlAckMode::default();
    cam.set_action_mode(ActionMode::Execute);
    cam.set_partial_packet_impl_permitted();
    cam.set_warnings_permitted();
    cam.set_validation();
    cam.set_warning();
    cam.set_error();
    command.set_cam(cam);
    command.set_message_id(123);
    command.set_controllee_id(Some(0)).unwrap();
    command.set_controller_uuid(Some(0)).unwrap();
    assert_eq!(command.cam().controllee_id_format(), IdFormat::Id32bit);
    assert_eq!(command.cam().controller_id_format(), IdFormat::Uuid128bit);
    let control = command.payload_mut().control_mut().unwrap();
    control.set_rf_ref_freq(Some(100_000_000 * RADIX20));
    control.set_sample_rate(Some(128_000_000 * RADIX20));
    control.set_bandwidth(Some(100_000_000 * RADIX20));

    packet.update_packet_size();
    // Header, stream, CAM, message ID, controllee ID, controller
    // UUID, CIF0, and three two-word fields.
    assert_eq!(packet.header().packet_size(), 1 + 1 + 1 + 1 + 1 + 4 + 1 + 6);

    let bytes = packet.to_bytes().unwrap();
    let parsed = Vrt::try_from(&bytes).unwrap();
    assert_eq!(parsed, packet);
    let command = parsed.payload().command().unwrap();
    assert!(command.cam().partial_packet_impl_permitted());
    assert!(command.cam().warnings_permitted());
    assert_eq!(command.cam().action_mode(), ActionMode::Execute);
    let control = command.payload().control().unwrap();
    assert_eq!(control.rf_ref_freq(), Some(100_000_000 * RADIX20));
    assert_eq!(control.sample_rate(), Some(128_000_000 * RADIX20));
    assert_eq!(control.bandwidth(), Some(100_000_000 * RADIX20));
}

#[test]
fn exec_ack_parsing() {
    let packet = Vrt::new_exec_ack_packet();
    assert!(packet.header().is_ack_packet().is_ok());
    assert!(matches!(
        packet.payload().command().unwrap().payload(),
        CommandPayload::ExecAck(_)
    ));

    let bytes = packet.to_bytes().unwrap();
    let parsed_packet = Vrt::try_from(bytes.as_ref()).unwrap();

    assert!(parsed_packet.header().is_ack_packet().is_ok());
    assert!(matches!(
        parsed_packet.payload().command().unwrap().payload(),
        CommandPayload::ExecAck(_)
    ));
}

#[test]
fn validation_ack_parsing() {
    let packet = Vrt::new_validation_ack_packet();
    assert!(packet.header().is_ack_packet().is_ok());
    assert!(matches!(
        packet.payload().command().unwrap().payload(),
        CommandPayload::ValidationAck(_)
    ));

    let bytes = packet.to_bytes().unwrap();
    let parsed_packet = Vrt::try_from(bytes.as_ref()).unwrap();

    assert!(parsed_packet.header().is_ack_packet().is_ok());
    assert!(matches!(
        parsed_packet.payload().command().unwrap().payload(),
        CommandPayload::ValidationAck(_)
    ));
}

#[test]
fn query_ack_parsing() {
    let packet = Vrt::new_query_ack_packet();
    assert!(packet.header().is_ack_packet().is_ok());
    assert!(matches!(
        packet.payload().command().unwrap().payload(),
        CommandPayload::QueryAck(_)
    ));

    let bytes = packet.to_bytes().unwrap();
    let parsed_packet = Vrt::try_from(bytes.as_ref()).unwrap();

    assert!(parsed_packet.header().is_ack_packet().is_ok());
    assert!(matches!(
        parsed_packet.payload().command().unwrap().payload(),
        CommandPayload::QueryAck(_)
    ));
}

#[test]
fn construct_cif7_packet() {
    let mut packet = Vrt::new_context_packet();
    let context = packet.payload_mut().context_mut().unwrap();
    let mut cif7 = vita49::Cif7::default();
    cif7.set_current();
    cif7.set_average();
    cif7.set_median();
    assert_eq!(cif7.as_u32(), 0xE000_0000);
    context.set_cif7(Some(cif7));
    context.set_bandwidth(Some(8_000_000 * RADIX20));
    context.set_bandwidth_attributes(Some(vec![8 * RADIX20, 7 * RADIX20]));
    context.set_sample_rate(Some(10_000_000 * RADIX20));
    context.set_sample_rate_attributes(Some(vec![11 * RADIX20, 9 * RADIX20]));
    packet.update_packet_size();
    assert_eq!(packet.header().packet_size(), 16);

    let bytes = packet.to_bytes().unwrap();
    let parsed = Vrt::try_from(&bytes).unwrap();
    assert_eq!(parsed, packet);
    let context = parsed.payload().context().unwrap();
    assert_eq!(context.bandwidth(), Some(8_000_000 * RADIX20));
    assert_eq!(
        context.bandwidth_attributes(),
        vec![8 * RADIX20, 7 * RADIX20]
    );
    assert_eq!(context.sample_rate(), Some(10_000_000 * RADIX20));
    assert_eq!(
        context.sample_rate_attributes(),
        vec![11 * RADIX20, 9 * RADIX20]
    );
}

#[test]
fn exec_ack_round_trip_kinds() {
    let packet = Vrt::new_exec_ack_packet();
    let bytes = packet.to_bytes().unwrap();
    let parsed = Vrt::try_from(&bytes).unwrap();
    assert_eq!(parsed.header().is_ack_packet(), Ok(true));
    let command = parsed.payload().command().unwrap();
    assert!(command.cam().execution());
    assert!(!command.cam().validation());
    assert!(!command.cam().state());
    assert!(matches!(command.payload(), CommandPayload::ExecAck(_)));
    assert_eq!(parsed, packet);
}

#[test]
fn cancellation_round_trip() {
    let mut packet = Vrt::new_cancellation_packet();
    packet.set_stream_id(Some(7));
    let command = packet.payload_mut().command_mut().unwrap();
    let cancel = command.payload_mut().cancellation_mut().unwrap();
    cancel.cif0_mut().set(vita49::cif::CIF0_BANDWIDTH_BIT);
    packet.update_packet_size();
    let bytes = packet.to_bytes().unwrap();
    let parsed = Vrt::try_from(&bytes).unwrap();
    assert_eq!(parsed, packet);
    let command = parsed.payload().command().unwrap();
    let cancel = command.payload().cancellation().unwrap();
    assert!(cancel.cif0().get(vita49::cif::CIF0_BANDWIDTH_BIT));
    assert_eq!(parsed.header().is_cancellation_packet(), Ok(true));
}

#[test]
fn timestamps_round_trip() {
    let mut packet = Vrt::new_context_packet();
    packet.set_integer_timestamp(Some(1700000000), Tsi::Utc).unwrap();
    packet
        .set_fractional_timestamp(Some(123_456_789_012_345), Tsf::RealTimePs)
        .unwrap();
    packet.update_packet_size();
    assert_eq!(packet.header().packet_size(), 6);
    let bytes = packet.to_bytes().unwrap();
    let parsed = Vrt::try_from(&bytes).unwrap();
    assert_eq!(parsed, packet);
    assert_eq!(parsed.integer_timestamp(), Some(1700000000));
    assert_eq!(parsed.fractional_timestamp(), Some(123_456_789_012_345));
    assert_eq!(parsed.header().tsi(), Tsi::Utc);
    assert_eq!(parsed.header().tsf(), Tsf::RealTimePs);
}

#[test]
fn class_id_round_trip() {
    let mut packet = Vrt::new_signal_data_packet();
    let class = vita49::ClassId {
        pad_and_oui: 0x00FF5654,
        information_class: 3,
        packet_class: 9,
    };
    packet.set_class_id(Some(class));
    packet.update_packet_size();
    let bytes = packet.to_bytes().unwrap();
    let parsed = Vrt::try_from(&bytes).unwrap();
    assert_eq!(parsed, packet);
    assert!(parsed.header().class_id_included());
    let got = parsed.class_id().unwrap();
    assert_eq!(got.oui(), 0xFF5654);
    assert_eq!(got.information_class, 3);
    assert_eq!(got.packet_class, 9);
}

#[test]
fn reserved_indicator_bits_survive() {
    // A context packet whose CIF0 carries only reserved bits: they
    // must be preserved bit-for-bit across a decode/encode cycle.
    let bytes: Vec<u8> = vec![
        0x40, 0x00, 0x00, 0x03, // header: context, size 3
        0x00, 0x00, 0x00, 0x01, // stream ID
        0x80, 0x00, 0x00, 0x71, // CIF0: bit 31 and reserved bits 0/4-6
    ];
    let parsed = Vrt::try_from(&bytes).unwrap();
    let out = parsed.to_bytes().unwrap();
    assert_eq!(out, bytes);
    assert!(parsed.payload().context().unwrap().context_changed());
}

#[test]
fn decoded_length_matches_declared_size() {
    let mut packet = Vrt::new_context_packet();
    let context = packet.payload_mut().context_mut().unwrap();
    context.set_sample_rate(Some(42));
    packet.update_packet_size();
    let bytes = packet.to_bytes().unwrap();
    let parsed = Vrt::try_from(&bytes).unwrap();
    let reencoded = parsed.to_bytes().unwrap();
    assert_eq!(
        reencoded.len(),
        parsed.header().packet_size() as usize * 4
    );
    assert_eq!(reencoded, bytes);
}
