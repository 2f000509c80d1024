use vstd::prelude::*;

use crate::header::{
    class_of, data_of, machine_of, os_abi_of, type_of, version_of, Class, Data, Header, Ident,
    Machine, OsAbi, Type, Version,
};

verus! {

/// Why a buffer could not be decoded.
#[derive(Debug, Clone, Copy, PartialEq, Eq, Structural)]
pub enum ParseError {
    /// The buffer does not begin with the magic signature `0x7F 'E' 'L' 'F'`.
    BadMagic,
    /// The buffer ends inside a field: `needed` more bytes would complete it.
    Incomplete { needed: usize },
}

/// The magic signature that every ELF object begins with.
pub open spec fn elf_magic() -> Seq<u8> {
    seq![0x7Fu8, 0x45u8, 0x4Cu8, 0x46u8]
}

/// The buffer begins with the whole magic signature.
pub open spec fn starts_with_magic(b: Seq<u8>) -> bool {
    b.len() >= 4 && b.take(4) == elf_magic()
}

/// Some byte of the buffer differs from the magic signature at the same place,
/// so that no longer buffer with the same start can begin with it.
pub open spec fn conflicts_with_magic(b: Seq<u8>) -> bool {
    exists|i: int| 0 <= i < b.len() && i < 4 && #[trigger] b[i] != elf_magic()[i]
}

/// The unsigned integer held little-endian in the two bytes at `at`.
pub open spec fn le16_at(b: Seq<u8>, at: int) -> int {
    b[at] as int + 0x100 * (b[at + 1] as int)
}

/// The unsigned integer held little-endian in the four bytes at `at`.
pub open spec fn le32_at(b: Seq<u8>, at: int) -> int {
    le16_at(b, at) + 0x1_0000 * le16_at(b, at + 2)
}

/// The unsigned integer held little-endian in the eight bytes at `at`.
pub open spec fn le64_at(b: Seq<u8>, at: int) -> int {
    le32_at(b, at) + 0x1_0000_0000 * le32_at(b, at + 4)
}

/// `r` is the outcome of reading a field of `width` bytes from the start of
/// `b`: when the bytes are there, `value` and the bytes after the field;
/// else the count of bytes missing.
pub open spec fn read_result<T>(
    b: Seq<u8>,
    width: int,
    r: Result<(&[u8], T), ParseError>,
    value: T,
) -> bool {
    match r {
        Ok((rest, v)) => b.len() >= width && v == value && rest@ == b.skip(width),
        Err(e) => b.len() < width && e == ParseError::Incomplete {
            needed: (width - b.len()) as usize,
        },
    }
}

fn read_u8(raw: &[u8]) -> (r: Result<(&[u8], u8), ParseError>)
    ensures
        read_result(raw@, 1, r, raw@[0]),
{
    if raw.len() < 1 {
        return Err(ParseError::Incomplete { needed: 1 });
    }
    let v = raw[0];
    let (_, rest) = raw.split_at(1);
    Ok((rest, v))
}

fn read_le_u16(raw: &[u8]) -> (r: Result<(&[u8], u16), ParseError>)
    ensures
        read_result(raw@, 2, r, le16_at(raw@, 0) as u16),
{
    if raw.len() < 2 {
        return Err(ParseError::Incomplete { needed: 2 - raw.len() });
    }
    let v: u16 = raw[0] as u16 + 0x100 * (raw[1] as u16);
    let (_, rest) = raw.split_at(2);
    Ok((rest, v))
}

fn read_le_u32(raw: &[u8]) -> (r: Result<(&[u8], u32), ParseError>)
    ensures
        read_result(raw@, 4, r, le32_at(raw@, 0) as u32),
{
    if raw.len() < 4 {
        return Err(ParseError::Incomplete { needed: 4 - raw.len() });
    }
    let lo: u32 = raw[0] as u32 + 0x100 * (raw[1] as u32);
    let hi: u32 = raw[2] as u32 + 0x100 * (raw[3] as u32);
    let v: u32 = lo + 0x1_0000 * hi;
    let (_, rest) = raw.split_at(4);
    Ok((rest, v))
}

fn read_le_u64(raw: &[u8]) -> (r: Result<(&[u8], u64), ParseError>)
    ensures
        read_result(raw@, 8, r, le64_at(raw@, 0) as u64),
{
    if raw.len() < 8 {
        return Err(ParseError::Incomplete { needed: 8 - raw.len() });
    }
    let (lo_bytes, hi_bytes) = raw.split_at(4);
    let lo = match read_le_u32(lo_bytes) {
        Ok((_, v)) => v,
        Err(e) => return Err(e),
    };
    let (rest, hi) = match read_le_u32(hi_bytes) {
        Ok(x) => x,
        Err(e) => return Err(e),
    };
    let v: u64 = lo as u64 + 0x1_0000_0000 * (hi as u64);
    proof {
        assert(le32_at(lo_bytes@, 0) == le32_at(raw@, 0));
        assert(le32_at(hi_bytes@, 0) == le32_at(raw@, 4));
        assert(rest@ =~= raw@.skip(8));
    }
    Ok((rest, v))
}

/// Matches the magic signature at the start of `raw`; on success hands back
/// the four signature bytes and what follows them.
pub fn parse_magic_number(raw: &[u8]) -> (r: Result<(&[u8], &[u8]), ParseError>)
    ensures
        r is Ok <==> starts_with_magic(raw@),
        match r {
            Ok((rest, magic)) => magic@ == elf_magic() && rest@ == raw@.skip(4),
            Err(e) => if conflicts_with_magic(raw@) {
                e == ParseError::BadMagic
            } else {
                raw@.len() < 4 && e == ParseError::Incomplete { needed: (4 - raw@.len()) as usize }
            },
        },
{
    let magic: [u8; 4] = [0x7F, 0x45, 0x4C, 0x46];
    assert(magic@ =~= elf_magic());
    let n: usize = if raw.len() < 4 {
        raw.len()
    } else {
        4
    };
    let mut i: usize = 0;
    while i < n
        invariant
            n <= 4,
            n <= raw@.len(),
            n == 4 || n == raw@.len(),
            i <= n,
            magic@ == elf_magic(),
            forall|j: int| 0 <= j < i ==> raw@[j] == elf_magic()[j],
        decreases n - i,
    {
        if raw[i] != magic[i] {
            return Err(ParseError::BadMagic);
        }
        i = i + 1;
    }
    assert(!conflicts_with_magic(raw@));
    if raw.len() < 4 {
        return Err(ParseError::Incomplete { needed: 4 - raw.len() });
    }
    let (head, rest) = raw.split_at(4);
    assert(head@ =~= elf_magic());
    Ok((rest, head))
}

/// Reads one byte and classifies it as a word-size class.
pub fn parse_class(raw: &[u8]) -> (r: Result<(&[u8], Class), ParseError>)
    ensures
        read_result(raw@, 1, r, class_of(raw@[0])),
{
    match read_u8(raw) {
        Ok((rest, v)) => Ok((rest, Class::from(v))),
        Err(e) => Err(e),
    }
}

/// Reads one byte and classifies it as a data encoding.
pub fn parse_data(raw: &[u8]) -> (r: Result<(&[u8], Data), ParseError>)
    ensures
        read_result(raw@, 1, r, data_of(raw@[0])),
{
    match read_u8(raw) {
        Ok((rest, v)) => Ok((rest, Data::from(v))),
        Err(e) => Err(e),
    }
}

/// Reads one byte and classifies it as an identification version.
pub fn parse_version(raw: &[u8]) -> (r: Result<(&[u8], Version), ParseError>)
    ensures
        read_result(raw@, 1, r, version_of(raw@[0])),
{
    match read_u8(raw) {
        Ok((rest, v)) => Ok((rest, Version::from(v))),
        Err(e) => Err(e),
    }
}

/// Reads one byte and classifies it as an OS/ABI.
pub fn parse_os_api(raw: &[u8]) -> (r: Result<(&[u8], OsAbi), ParseError>)
    ensures
        read_result(raw@, 1, r, os_abi_of(raw@[0])),
{
    match read_u8(raw) {
        Ok((rest, v)) => Ok((rest, OsAbi::from(v))),
        Err(e) => Err(e),
    }
}

/// Reads the one-byte ABI version, unclassified.
pub fn parse_abi_version(raw: &[u8]) -> (r: Result<(&[u8], u8), ParseError>)
    ensures
        read_result(raw@, 1, r, raw@[0]),
{
    read_u8(raw)
}

/// Reads two bytes, little-endian, and classifies them as a file type.
pub fn parse_type(raw: &[u8]) -> (r: Result<(&[u8], Type), ParseError>)
    ensures
        read_result(raw@, 2, r, type_of(le16_at(raw@, 0) as u16)),
{
    match read_le_u16(raw) {
        Ok((rest, v)) => Ok((rest, Type::from(v))),
        Err(e) => Err(e),
    }
}

/// Reads two bytes, little-endian, and classifies them as a machine.
pub fn parse_machine(raw: &[u8]) -> (r: Result<(&[u8], Machine), ParseError>)
    ensures
        read_result(raw@, 2, r, machine_of(le16_at(raw@, 0) as u16)),
{
    match read_le_u16(raw) {
        Ok((rest, v)) => Ok((rest, Machine::from(v))),
        Err(e) => Err(e),
    }
}

/// The offset at which the header field that holds byte `len` ends: where a
/// buffer of `len` bytes runs out, the field it cuts short.
pub open spec fn field_end(len: int) -> int {
    if len < 4 {
        4  // magic signature
    } else if len < 9 {
        len + 1  // class, data, version, OS/ABI, ABI version
    } else if len < 16 {
        16  // padding
    } else if len < 18 {
        18  // type
    } else if len < 20 {
        20  // machine
    } else if len < 24 {
        24  // version
    } else if len < 32 {
        32  // entry
    } else if len < 40 {
        40  // program header offset
    } else if len < 48 {
        48  // section header offset
    } else if len < 52 {
        52  // flags
    } else if len < 54 {
        54  // header size
    } else if len < 56 {
        56  // program header entry size
    } else if len < 58 {
        58  // program header count
    } else if len < 60 {
        60  // section header entry size
    } else if len < 62 {
        62  // section header count
    } else {
        64  // section name string table index
    }
}

/// The outcome of decoding a structure of `size` bytes at the start of `b`
/// when the magic signature matches: the bytes missing from the field that
/// `b` cuts short, if it is short.
pub open spec fn shortfall(b: Seq<u8>, size: int) -> Option<ParseError> {
    if conflicts_with_magic(b) {
        Some(ParseError::BadMagic)
    } else if b.len() < size {
        Some(ParseError::Incomplete { needed: (field_end(b.len() as int) - b.len()) as usize })
    } else {
        None
    }
}

/// The identification block that the first 16 bytes of `b` hold.
pub open spec fn ident_of(b: Seq<u8>) -> Ident {
    Ident {
        class: class_of(b[4]),
        data: data_of(b[5]),
        version: version_of(b[6]),
        os_abi: os_abi_of(b[7]),
        abi_version: b[8],
    }
}

/// The header that the first 64 bytes of `b` hold. Every multi-byte field is
/// read little-endian, whatever byte order the identification block declares:
/// the data encoding is recorded, not acted on.
pub open spec fn header_of(b: Seq<u8>) -> Header {
    Header {
        ident: ident_of(b),
        ty: type_of(le16_at(b, 16) as u16),
        machine: machine_of(le16_at(b, 18) as u16),
        version: le32_at(b, 20) as u32,
        entry: le64_at(b, 24) as u64,
        ph_off: le64_at(b, 32) as u64,
        sh_off: le64_at(b, 40) as u64,
        flags: le32_at(b, 48) as u32,
        eh_size: le16_at(b, 52) as u16,
        ph_ent_size: le16_at(b, 54) as u16,
        ph_num: le16_at(b, 56) as u16,
        sh_ent_size: le16_at(b, 58) as u16,
        sh_num: le16_at(b, 60) as u16,
        sh_str_ndx: le16_at(b, 62) as u16,
    }
}

/// What decoding the identification block of `b` yields.
pub open spec fn ident_outcome(b: Seq<u8>) -> Result<Ident, ParseError> {
    match shortfall(b, 16) {
        Some(e) => Err(e),
        None => Ok(ident_of(b)),
    }
}

/// What decoding the file header of `b` yields.
pub open spec fn header_outcome(b: Seq<u8>) -> Result<Header, ParseError> {
    match shortfall(b, 64) {
        Some(e) => Err(e),
        None => Ok(header_of(b)),
    }
}

/// Decodes the 16-byte identification block at the start of `raw`.
pub fn parse_ident(raw: &[u8]) -> (r: Result<(&[u8], Ident), ParseError>)
    ensures
        match r {
            Ok((rest, ident)) => ident_outcome(raw@) == Ok::<Ident, ParseError>(ident)
                && rest@ == raw@.skip(16),
            Err(e) => ident_outcome(raw@) == Err::<Ident, ParseError>(e),
        },
{
    let (r, _) = match parse_magic_number(raw) {
        Ok(x) => x,
        Err(e) => return Err(e),
    };
    let (r, class) = match parse_class(r) {
        Ok(x) => x,
        Err(e) => return Err(e),
    };
    let (r, data) = match parse_data(r) {
        Ok(x) => x,
        Err(e) => return Err(e),
    };
    let (r, version) = match parse_version(r) {
        Ok(x) => x,
        Err(e) => return Err(e),
    };
    let (r, os_abi) = match parse_os_api(r) {
        Ok(x) => x,
        Err(e) => return Err(e),
    };
    let (r, abi_version) = match parse_abi_version(r) {
        Ok(x) => x,
        Err(e) => return Err(e),
    };
    if r.len() < 7 {
        return Err(ParseError::Incomplete { needed: 7 - r.len() });
    }
    let (_, r) = r.split_at(7);
    Ok((r, Ident { class, data, version, os_abi, abi_version }))
}

/// Decodes the 64-byte file header at the start of `raw`, and hands back
/// the bytes after it. Nothing is checked but the magic signature and the
/// length: offsets, counts and sizes are taken as they stand.
pub fn parse_elf_header(raw: &[u8]) -> (r: Result<(&[u8], Header), ParseError>)
    ensures
        match r {
            Ok((rest, header)) => header_outcome(raw@) == Ok::<Header, ParseError>(header)
                && rest@ == raw@.skip(64),
            Err(e) => header_outcome(raw@) == Err::<Header, ParseError>(e),
        },
{
    let (r, ident) = match parse_ident(raw) {
        Ok(x) => x,
        Err(e) => return Err(e),
    };
    let (r, ty) = match parse_type(r) {
        Ok(x) => x,
        Err(e) => return Err(e),
    };
    let (r, machine) = match parse_machine(r) {
        Ok(x) => x,
        Err(e) => return Err(e),
    };
    let (r, version) = match read_le_u32(r) {
        Ok(x) => x,
        Err(e) => return Err(e),
    };
    let (r, entry) = match read_le_u64(r) {
        Ok(x) => x,
        Err(e) => return Err(e),
    };
    let (r, ph_off) = match read_le_u64(r) {
        Ok(x) => x,
        Err(e) => return Err(e),
    };
    let (r, sh_off) = match read_le_u64(r) {
        Ok(x) => x,
        Err(e) => return Err(e),
    };
    let (r, flags) = match read_le_u32(r) {
        Ok(x) => x,
        Err(e) => return Err(e),
    };
    let (r, eh_size) = match read_le_u16(r) {
        Ok(x) => x,
        Err(e) => return Err(e),
    };
    let (r, ph_ent_size) = match read_le_u16(r) {
        Ok(x) => x,
        Err(e) => return Err(e),
    };
    let (r, ph_num) = match read_le_u16(r) {
        Ok(x) => x,
        Err(e) => return Err(e),
    };
    let (r, sh_ent_size) = match read_le_u16(r) {
        Ok(x) => x,
        Err(e) => return Err(e),
    };
    let (r, sh_num) = match read_le_u16(r) {
        Ok(x) => x,
        Err(e) => return Err(e),
    };
    let (r, sh_str_ndx) = match read_le_u16(r) {
        Ok(x) => x,
        Err(e) => return Err(e),
    };
    Ok((
        r,
        Header {
            ident,
            ty,
            machine,
            version,
            entry,
            ph_off,
            sh_off,
            flags,
            eh_size,
            ph_ent_size,
            ph_num,
            sh_ent_size,
            sh_num,
            sh_str_ndx,
        },
    ))
}

/// Every prefix shorter than 64 bytes of a buffer that begins with the magic
/// signature fails to decode as "incomplete input", never as a bad signature
/// and never as a header.
pub proof fn lemma_truncated_header_incomplete(b: Seq<u8>, k: int)
    requires
        starts_with_magic(b),
        0 <= k < 64,
        k <= b.len(),
    ensures
        header_outcome(b.take(k)) matches Err(ParseError::Incomplete { needed })
            && needed == field_end(k) - k && needed > 0,
{
    let p = b.take(k);
    assert forall|i: int| 0 <= i < p.len() && i < 4 implies p[i] == elf_magic()[i] by {
        assert(p[i] == b.take(4)[i]);
    }
}

} // verus!
