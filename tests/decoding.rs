use elf_parser::{
    parse_elf_header, parse_ident, parse_machine, parse_magic_number, parse_type, Class, Data,
    Machine, OsAbi, ParseError, Type, Version,
};

fn fixture() -> Vec<u8> {
    let mut b = vec![0x7f, 0x45, 0x4c, 0x46, 0x02, 0x01, 0x01, 0x00];
    b.extend_from_slice(&[0; 8]);
    b.extend_from_slice(&[0x03, 0x00, 0x3e, 0x00]);
    b.extend_from_slice(&[0x01, 0x00, 0x00, 0x00]);
    b.extend_from_slice(&[0x60, 0x95, 0, 0, 0, 0, 0, 0]);
    b.extend_from_slice(&[0x40, 0, 0, 0, 0, 0, 0, 0]);
    b.extend_from_slice(&[0x88, 0x1c, 0x42, 0, 0, 0, 0, 0]);
    b.extend_from_slice(&[0, 0, 0, 0]);
    b.extend_from_slice(&[0x40, 0, 0x38, 0, 0x0c, 0, 0x40, 0, 0x2b, 0, 0x2a, 0]);
    b
}

#[test]
fn fixture_decodes_with_nothing_left() {
    let raw = fixture();
    assert_eq!(raw.len(), 64);
    let (rest, h) = parse_elf_header(&raw).unwrap();
    assert!(rest.is_empty());
    assert_eq!(h.ident.class, Class::Bit64);
    assert_eq!(h.ident.data, Data::Lsb);
    assert_eq!(h.ident.version, Version::Current);
    assert_eq!(h.ident.os_abi, OsAbi::SystemV);
    assert_eq!(h.ident.abi_version, 0);
    assert_eq!(h.ty, Type::Dyn);
    assert_eq!(h.machine, Machine::X86_64);
    assert_eq!(h.version, 1);
    assert_eq!(h.entry, 0x9560);
    assert_eq!(h.ph_off, 64);
    assert_eq!(h.sh_off, 4332680);
    assert_eq!(h.flags, 0);
    assert_eq!(h.eh_size, 64);
    assert_eq!(h.ph_ent_size, 56);
    assert_eq!(h.ph_num, 12);
    assert_eq!(h.sh_ent_size, 64);
    assert_eq!(h.sh_num, 43);
    assert_eq!(h.sh_str_ndx, 42);
}

#[test]
fn trailing_bytes_are_handed_back() {
    let mut raw = fixture();
    raw.extend_from_slice(&[0xaa, 0xbb, 0xcc]);
    let (rest, _) = parse_elf_header(&raw).unwrap();
    assert_eq!(rest, &[0xaa, 0xbb, 0xcc]);
}

#[test]
fn magic_gate_rejects_other_signatures() {
    for raw in [&b"\x7fFLF"[..], b"ELF\x7f", b"\x00ELF", b"\x7fELG-more", b"x", b"\x7fEx"] {
        assert_eq!(parse_magic_number(raw), Err(ParseError::BadMagic));
        assert_eq!(parse_elf_header(raw), Err(ParseError::BadMagic));
    }
}

#[test]
fn magic_gate_consumes_four_bytes() {
    let (rest, magic) = parse_magic_number(b"\x7fELF\x02\x01").unwrap();
    assert_eq!(magic, b"\x7fELF");
    assert_eq!(rest, b"\x02\x01");
    let (rest, _) = parse_magic_number(b"\x7fELF").unwrap();
    assert!(rest.is_empty());
}

#[test]
fn partial_magic_is_incomplete() {
    assert_eq!(parse_magic_number(b""), Err(ParseError::Incomplete { needed: 4 }));
    assert_eq!(parse_magic_number(b"\x7fE"), Err(ParseError::Incomplete { needed: 2 }));
    assert_eq!(parse_elf_header(b"\x7fEL"), Err(ParseError::Incomplete { needed: 1 }));
}

#[test]
fn every_short_prefix_is_incomplete() {
    let raw = fixture();
    for k in 0..64 {
        match parse_elf_header(&raw[..k]) {
            Err(ParseError::Incomplete { needed }) => assert!(needed > 0 && k + needed <= 64),
            other => panic!("prefix of {} bytes gave {:?}", k, other),
        }
    }
}

#[test]
fn incomplete_counts_bytes_missing_from_the_cut_field() {
    let raw = fixture();
    let cases = [
        (0, 4),
        (5, 1),
        (9, 7),
        (15, 1),
        (16, 2),
        (19, 1),
        (21, 3),
        (24, 8),
        (39, 1),
        (47, 1),
        (48, 4),
        (53, 1),
        (62, 2),
        (63, 1),
    ];
    for (k, needed) in cases {
        assert_eq!(parse_elf_header(&raw[..k]), Err(ParseError::Incomplete { needed }), "{}", k);
    }
    assert_eq!(parse_ident(&raw[..12]), Err(ParseError::Incomplete { needed: 4 }));
    assert_eq!(parse_type(&raw[16..17]), Err(ParseError::Incomplete { needed: 1 }));
}

#[test]
fn fields_are_little_endian_whatever_data_says() {
    let mut raw = fixture();
    raw[5] = 0x02;
    let (_, h) = parse_elf_header(&raw).unwrap();
    assert_eq!(h.ident.data, Data::Msb);
    assert_eq!(h.entry, 0x9560);
    assert_eq!(h.machine, Machine::X86_64);
}

#[test]
fn widest_values_decode_exactly() {
    let mut raw = fixture();
    for b in raw[16..64].iter_mut() {
        *b = 0xff;
    }
    let (_, h) = parse_elf_header(&raw).unwrap();
    assert_eq!(h.ty, Type::Hiproc);
    assert_eq!(h.machine, Machine::Unknown);
    assert_eq!(h.version, u32::MAX);
    assert_eq!(h.entry, u64::MAX);
    assert_eq!(h.flags, u32::MAX);
    assert_eq!(h.sh_str_ndx, u16::MAX);
}

#[test]
fn mixed_bytes_keep_their_order() {
    let mut raw = fixture();
    raw[24..32].copy_from_slice(&[0x01, 0x02, 0x03, 0x04, 0x05, 0x06, 0x07, 0x08]);
    raw[48..52].copy_from_slice(&[0x78, 0x56, 0x34, 0x12]);
    raw[52..54].copy_from_slice(&[0x34, 0x12]);
    let (_, h) = parse_elf_header(&raw).unwrap();
    assert_eq!(h.entry, 0x0807060504030201);
    assert_eq!(h.flags, 0x12345678);
    assert_eq!(h.eh_size, 0x1234);
}

#[test]
fn unknown_codes_do_not_stop_decoding() {
    let mut raw = fixture();
    raw[4] = 0x03;
    raw[5] = 0x03;
    raw[6] = 0x02;
    raw[7] = 0x13;
    raw[16] = 0x05;
    raw[18] = 0x02;
    raw[19] = 0x01;
    let (rest, h) = parse_elf_header(&raw).unwrap();
    assert!(rest.is_empty());
    assert_eq!(h.ident.class, Class::Unknown);
    assert_eq!(h.ident.data, Data::Unknown);
    assert_eq!(h.ident.version, Version::Unknown);
    assert_eq!(h.ident.os_abi, OsAbi::Unknown);
    assert_eq!(h.ty, Type::Unknown);
    assert_eq!(h.machine, Machine::Unknown);
    assert_eq!(h.sh_num, 43);
}

#[test]
fn known_value_table_spot_checks() {
    assert_eq!(OsAbi::from(0x00), OsAbi::SystemV);
    assert_eq!(OsAbi::from(0x09), OsAbi::FreeBsd);
    assert_eq!(OsAbi::from(0x12), OsAbi::OpenVos);
    assert_eq!(OsAbi::from(0x05), OsAbi::Unknown);
    assert_eq!(Machine::from(0x03), Machine::X86);
    assert_eq!(Machine::from(0x3E), Machine::X86_64);
    assert_eq!(Machine::from(0xB7), Machine::Arm64);
    assert_eq!(Machine::from(0xF3), Machine::RiscV);
    assert_eq!(Machine::from(0x101), Machine::Wdc65816);
    assert_eq!(Machine::from(0x0B), Machine::Unknown);
    assert_eq!(Type::from(0xfe00), Type::Loos);
    assert_eq!(Type::from(0xfeff), Type::Hios);
    assert_eq!(Type::from(0xff00), Type::Loproc);
    assert_eq!(Type::from(0x0004), Type::Core);
    assert_eq!(Type::from(0xfe01), Type::Unknown);
    assert_eq!(parse_machine(&[0xB7, 0x00, 0x99]), Ok((&[0x99u8][..], Machine::Arm64)));
}

#[test]
fn classifiers_are_total_and_off_table_codes_are_unknown() {
    assert_eq!(Class::from(0x03), Class::Unknown);
    assert_eq!(Data::from(0x03), Data::Unknown);
    assert_eq!(Version::from(0x02), Version::Unknown);
    assert_eq!(OsAbi::from(0x13), OsAbi::Unknown);
    for c in 0..=u8::MAX {
        assert_eq!(Class::from(c) == Class::Unknown, c > 2);
        assert_eq!(Data::from(c) == Data::Unknown, c > 2);
        assert_eq!(Version::from(c) == Version::Unknown, c != 1);
        assert_eq!(OsAbi::from(c) == OsAbi::Unknown, c == 5 || c > 0x12);
    }
    let mut known = 0;
    for c in 0..=u16::MAX {
        if Machine::from(c) != Machine::Unknown {
            known += 1;
        }
        let _ = Type::from(c);
    }
    assert_eq!(known, 68);
}

#[test]
fn classifying_twice_gives_the_same_variant() {
    for c in 0..=u8::MAX {
        assert_eq!(Class::from(c), Class::from(c));
        assert_eq!(Data::from(c), Data::from(c));
        assert_eq!(Version::from(c), Version::from(c));
        assert_eq!(OsAbi::from(c), OsAbi::from(c));
    }
    for c in 0..=u16::MAX {
        assert_eq!(Type::from(c), Type::from(c));
        assert_eq!(Machine::from(c), Machine::from(c));
    }
}
