use std::fmt::Debug;

use elf_parser::{
    parse_abi_version, parse_class, parse_data, parse_elf_header, parse_ident,
    parse_magic_number, parse_os_api, parse_version, Class, Data, Header, Ident, Machine, OsAbi,
    ParseError, Type, Version,
};

const ELF_MAGIC: &[u8; 4] = b"\x7fELF";

fn helper<'a, T, P>(parser: P, input: &'a [u8], expected: T)
where
    T: Debug + PartialEq,
    P: Fn(&'a [u8]) -> Result<(&'a [u8], T), ParseError>,
{
    let result = parser(input);
    assert!(result.is_ok());
    assert_eq!(result.unwrap().1, expected);
}

fn helper_fail<'a, T, P>(parser: P, input: &'a [u8])
where
    T: Debug + PartialEq,
    P: Fn(&'a [u8]) -> Result<(&'a [u8], T), ParseError>,
{
    let result = parser(input);
    assert!(result.is_err());
}

#[test]
fn test_parse_magic_number() {
    helper(parse_magic_number, ELF_MAGIC, &ELF_MAGIC[..]);
}

#[test]
fn test_parse_magic_number_fail() {
    helper_fail(parse_magic_number, b"\x7fFLF");
}

#[test]
fn test_parse_class() {
    for (input, expected) in [
        (b"\x01", Class::Bit32),
        (b"\x02", Class::Bit64),
        (b"\x00", Class::Invalid),
        (b"\x03", Class::Unknown),
    ] {
        helper(parse_class, input, expected);
    }
}

#[test]
fn test_parse_data() {
    for (input, expected) in [
        (b"\x00", Data::Invalid),
        (b"\x01", Data::Lsb),
        (b"\x02", Data::Msb),
        (b"\x03", Data::Unknown),
    ] {
        helper(parse_data, input, expected);
    }
}

#[test]
fn test_parse_version() {
    for (input, expected) in [(b"\x01", Version::Current), (b"\x02", Version::Unknown)] {
        helper(parse_version, input, expected);
    }
}

#[test]
fn test_parse_osabi() {
    for (input, expected) in [
        (b"\x00", OsAbi::SystemV),
        (b"\x01", OsAbi::HpUx),
        (b"\x02", OsAbi::NetBsd),
        (b"\x03", OsAbi::Linux),
        (b"\x04", OsAbi::GnuHurd),
        (b"\x06", OsAbi::Solaris),
        (b"\x07", OsAbi::Aix),
        (b"\x08", OsAbi::Irix),
        (b"\x09", OsAbi::FreeBsd),
        (b"\x0a", OsAbi::Tru64),
        (b"\x0b", OsAbi::NovellModesto),
        (b"\x0c", OsAbi::OpenBsd),
        (b"\x0d", OsAbi::OpenVms),
        (b"\x0e", OsAbi::NonStopKernel),
        (b"\x0f", OsAbi::Aros),
        (b"\x10", OsAbi::FenixOs),
        (b"\x11", OsAbi::CloudAbi),
        (b"\x12", OsAbi::OpenVos),
        (b"\x13", OsAbi::Unknown),
    ] {
        helper(parse_os_api, input, expected);
    }
}

#[test]
fn test_abi_version() {
    for (input, expected) in [(b"\x00", 0), (b"\x01", 1)] {
        helper(parse_abi_version, input, expected);
    }
}

#[test]
fn test_parse_identification() {
    helper(
        parse_ident,
        &[
            0x7f, 0x45, 0x4c, 0x46, // magic number
            0x02, // data
            0x01, // version
            0x01, // os abi
            0x00, // abi version
            0x00, 0x00, 0x00, 0x00, 0x00, 0x00, 0x00, 0x00, // padding
        ],
        Ident {
            class: Class::Bit64,
            data: Data::Lsb,
            version: Version::Current,
            os_abi: OsAbi::SystemV,
            abi_version: 0x00,
        },
    );
}

fn fixture() -> Vec<u8> {
    vec![
        0x7f, 0x45, 0x4c, 0x46, // magic number
        0x02, // data
        0x01, // version
        0x01, // os abi
        0x00, // abi version
        0x00, 0x00, 0x00, 0x00, 0x00, 0x00, 0x00, // padding
        0x00, 0x03, // type
        0x00, 0x3e, // machine
        0x00, 0x01, 0x00, 0x00, // version
        0x00, 0x60, 0x95, 0x00, 0x00, 0x00, 0x00, 0x00, // entry
        0x00, 0x40, 0x00, 0x00, 0x00, 0x00, 0x00, 0x00, // ph_off
        0x00, 0x88, 0x1c, 0x42, 0x00, 0x00, 0x00, 0x00, // sh_off
        0x00, 0x00, 0x00, 0x00, // flags
        0x00, 0x40, // eh_size
        0x00, 0x38, // ph_ent_size
        0x00, 0x0c, // ph_num
        0x00, 0x40, // sh_ent_size
        0x00, 0x2b, // sh_num
        0x00, 0x2a, // sh_str_ndx
        0x00,
    ]
}

fn fixture_header() -> Header {
    Header {
        ident: Ident {
            class: Class::Bit64,
            data: Data::Lsb,
            version: Version::Current,
            os_abi: OsAbi::SystemV,
            abi_version: 0x00,
        },
        ty: Type::Dyn,
        machine: Machine::X86_64,
        version: 0x01,
        entry: 0x9560,
        ph_off: 64,
        sh_off: 4332680,
        flags: 0x0,
        eh_size: 64,
        ph_ent_size: 56,
        ph_num: 12,
        sh_ent_size: 64,
        sh_num: 43,
        sh_str_ndx: 42,
    }
}

#[test]
fn elf_header64_test() {
    helper(parse_elf_header, &fixture(), fixture_header());
}
