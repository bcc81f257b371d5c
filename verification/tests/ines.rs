use nesru::rom::{
    parse_ines, parse_ines_header, serialize_ines, MirroringType, ParseErrorKind, Rom,
};

fn image(prg_banks: u8, chr_banks: u8, control_1: u8, payload: &[u8]) -> Vec<u8> {
    let mut b = vec![0x4E, 0x45, 0x53, 0x1A, prg_banks, chr_banks, control_1, 0];
    b.extend_from_slice(&[0; 8]);
    b.extend_from_slice(payload);
    b
}

#[test]
fn an_empty_input_has_no_header() {
    let r = parse_ines(&Vec::new());
    assert_eq!(r.unwrap_err().kind, ParseErrorKind::HeaderNotFound);
}

#[test]
fn a_wrong_magic_has_no_header() {
    let mut b = image(0, 0, 0, &[]);
    b[2] = 0x52;
    let e = parse_ines(&b).unwrap_err();
    assert_eq!(e.kind, ParseErrorKind::HeaderNotFound);
    assert_eq!(e.message, "could not find NES");
}

#[test]
fn a_wrong_fourth_magic_byte_is_an_incorrect_header() {
    let mut b = image(0, 0, 0, &[]);
    b[3] = 0x1B;
    let e = parse_ines(&b).unwrap_err();
    assert_eq!(e.kind, ParseErrorKind::IncorrectHeader);
    assert_eq!(e.message, "4th byte is not 0x1A");
}

#[test]
fn a_payload_shorter_than_announced_is_truncated() {
    let b = image(1, 0, 0, &[0xAA; 100]);
    let e = parse_ines(&b).unwrap_err();
    assert_eq!(e.kind, ParseErrorKind::TruncatedPayload);
}

#[test]
fn an_input_over_the_cap_is_rejected() {
    let b = vec![0u8; 5 * 1024 * 1024 + 1];
    let e = parse_ines(&b).unwrap_err();
    assert_eq!(e.kind, ParseErrorKind::OversizeInput);
}

#[test]
fn the_header_fields_are_read_back() {
    let b = image(2, 1, 0x09, &[]);
    let h = parse_ines_header(&b).unwrap();
    assert_eq!(h.prg_banks, 2);
    assert_eq!(h.chr_banks, 1);
    assert_eq!(h.control_1, 0x09);
    assert_eq!(h.control_2, 0);
}

#[test]
fn a_short_input_fails_the_header_check() {
    let b = vec![0x4E, 0x45, 0x53];
    let e = parse_ines_header(&b).unwrap_err();
    assert_eq!(e.kind, ParseErrorKind::HeaderNotFound);
}

#[test]
fn payloads_split_after_the_header() {
    let mut payload = vec![0xAA; 0x4000];
    payload.extend_from_slice(&vec![0xBB; 0x2000]);
    let b = image(1, 1, 0x01, &payload);
    let rom = parse_ines(&b).unwrap();
    assert_eq!(rom.prg.len(), 0x4000);
    assert_eq!(rom.chr.len(), 0x2000);
    assert!(rom.prg.iter().all(|&x| x == 0xAA));
    assert!(rom.chr.iter().all(|&x| x == 0xBB));
    assert_eq!(rom.mirroring_type, MirroringType::Vertical);
}

#[test]
fn a_trainer_is_skipped_before_the_payloads() {
    let mut payload = vec![0x11; 512];
    payload.extend_from_slice(&vec![0xAA; 0x4000]);
    let b = image(1, 0, 0x04, &payload);
    let rom = parse_ines(&b).unwrap();
    assert_eq!(rom.prg.len(), 0x4000);
    assert!(rom.prg.iter().all(|&x| x == 0xAA));
    assert_eq!(rom.chr.len(), 0);
    assert_eq!(rom.mirroring_type, MirroringType::Horizontal);
}

#[test]
fn four_screen_mirroring_wins_over_the_low_bit() {
    let b = image(0, 0, 0x09, &[]);
    let rom = parse_ines(&b).unwrap();
    assert_eq!(rom.mirroring_type, MirroringType::FourScreen);
}

#[test]
fn a_serialized_rom_parses_back_unchanged() {
    let rom = Rom {
        prg: vec![0x3C; 2 * 0x4000],
        chr: vec![0x5A; 0x2000],
        mirroring_type: MirroringType::FourScreen,
    };
    let bytes = serialize_ines(&rom);
    assert_eq!(bytes[0..4], [0x4E, 0x45, 0x53, 0x1A]);
    assert_eq!(bytes[4], 2);
    assert_eq!(bytes[5], 1);
    assert_eq!(bytes[6], 8);

    let back = parse_ines(&bytes).unwrap();
    assert_eq!(back, rom);
}

#[test]
fn an_empty_rom_round_trips_too() {
    let rom = Rom { prg: Vec::new(), chr: Vec::new(), mirroring_type: MirroringType::Horizontal };
    let back = parse_ines(&serialize_ines(&rom)).unwrap();
    assert_eq!(back, rom);
}
