use meshtassy_net::{inspect_packet_structure, validate_packet_structure, Packet, StructureReport};

#[test]
fn short_frames_are_too_small() {
    for len in 0..16usize {
        let frame = vec![0x55u8; len];
        assert_eq!(validate_packet_structure(&frame), Err("Packet too small"));
        assert_eq!(inspect_packet_structure(&frame), Err("Packet too small"));
    }
}

#[test]
fn sixteen_bytes_pass() {
    assert_eq!(validate_packet_structure(&[0x55u8; 16]), Ok(()));
}

#[test]
fn all_zero_header_passes_with_a_warning() {
    let frame = [0u8; 16];
    assert_eq!(validate_packet_structure(&frame), Ok(()));
    assert_eq!(
        inspect_packet_structure(&frame),
        Ok(StructureReport {
            destination: 0,
            source: 0,
            packet_id: 0,
            oversized: false,
            all_zero: true,
        })
    );
}

#[test]
fn zero_warning_looks_at_the_first_twelve_bytes_only() {
    let mut frame = [0u8; 20];
    frame[12] = 1;
    frame[19] = 1;
    assert!(inspect_packet_structure(&frame).unwrap().all_zero);
    for i in 0..12usize {
        let mut frame = [0u8; 20];
        frame[i] = 1;
        assert!(!inspect_packet_structure(&frame).unwrap().all_zero);
    }
}

#[test]
fn report_holds_the_header_fields() {
    let frame = [
        0xff, 0xff, 0xff, 0xff, 0x78, 0x56, 0x34, 0x12, 0x44, 0x33, 0x22, 0x11, 0x63, 0x08, 0x00,
        0x9a, 0x01, 0x02,
    ];
    assert_eq!(
        inspect_packet_structure(&frame),
        Ok(StructureReport {
            destination: 0xffff_ffff,
            source: 0x1234_5678,
            packet_id: 0x1122_3344,
            oversized: false,
            all_zero: false,
        })
    );
}

#[test]
fn oversized_frames_pass_with_a_warning() {
    let at_limit = vec![1u8; 256];
    assert_eq!(validate_packet_structure(&at_limit), Ok(()));
    assert!(!inspect_packet_structure(&at_limit).unwrap().oversized);

    let above = vec![1u8; 257];
    assert_eq!(validate_packet_structure(&above), Ok(()));
    assert!(inspect_packet_structure(&above).unwrap().oversized);

    let far_above = vec![0u8; 4096];
    assert_eq!(validate_packet_structure(&far_above), Ok(()));
    let report = inspect_packet_structure(&far_above).unwrap();
    assert!(report.oversized);
    assert!(report.all_zero);
}

#[test]
fn validation_is_the_same_on_every_run() {
    let good = [3u8; 40];
    let bad = [3u8; 4];
    for _ in 0..3 {
        assert_eq!(validate_packet_structure(&good), Ok(()));
        assert_eq!(validate_packet_structure(&bad), Err("Packet too small"));
    }
    assert_eq!(inspect_packet_structure(&good), inspect_packet_structure(&good));
}

#[test]
fn validation_accepts_what_the_pipeline_accepts() {
    for len in 0..300usize {
        let frame = vec![0xa5u8; len];
        assert_eq!(
            validate_packet_structure(&frame).is_ok(),
            Packet::from_bytes(&frame, 0, 0).is_some()
        );
    }
}
