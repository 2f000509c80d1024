use vstd::prelude::*;

verus! {

/// The identification block: the first 16 bytes of the header, less the
/// magic signature and the seven reserved padding bytes.
#[derive(Debug, Clone, Copy, PartialEq, Eq, Structural, PartialOrd)]
pub struct Ident {
    pub class: Class,
    pub data: Data,
    pub version: Version,
    pub os_abi: OsAbi,
    /// Vendor-specific ABI version, kept as it was read.
    pub abi_version: u8,
}

/// The decoded 64-byte file header of a 64-bit ELF object.
#[derive(Debug, Clone, Copy, PartialEq, Eq, Structural, PartialOrd)]
pub struct Header {
    pub ident: Ident,
    pub ty: Type,
    pub machine: Machine,
    /// Format version, kept apart from the identification version.
    pub version: u32,
    /// Virtual address of the entry point.
    pub entry: u64,
    /// File offset of the program header table.
    pub ph_off: u64,
    /// File offset of the section header table.
    pub sh_off: u64,
    /// Processor-specific flags.
    pub flags: u32,
    /// Size of this header.
    pub eh_size: u16,
    /// Size of one program header table entry.
    pub ph_ent_size: u16,
    /// Number of entries in the program header table.
    pub ph_num: u16,
    /// Size of one section header table entry.
    pub sh_ent_size: u16,
    /// Number of entries in the section header table.
    pub sh_num: u16,
    /// Index in the section header table of the section name string table.
    pub sh_str_ndx: u16,
}

/// An ELF object, of which only the file header is decoded.
#[derive(Debug, Clone, Copy, PartialEq, Eq, Structural, PartialOrd)]
pub struct ELF {
    pub header: Header,
}

/// Word-size class of the object.
#[derive(Debug, Clone, Copy, PartialEq, Eq, Structural, PartialOrd)]
pub enum Class {
    /// Invalid class.
    Invalid,
    /// 32-bit objects.
    Bit32,
    /// 64-bit objects.
    Bit64,
    /// Any code outside the table.
    Unknown,
}

/// The variant that a class code names: its entry in the table, else `Unknown`.
pub open spec fn class_of(code: u8) -> Class {
    match code {
        0x0 => Class::Invalid,
        0x1 => Class::Bit32,
        0x2 => Class::Bit64,
        _ => Class::Unknown,
    }
}

impl Class {
    /// The code that the table gives this variant; none for `Unknown`.
    pub open spec fn table_code(self) -> Option<u8> {
        match self {
            Class::Invalid => Some(0x0),
            Class::Bit32 => Some(0x1),
            Class::Bit64 => Some(0x2),
            Class::Unknown => None,
        }
    }
}

impl From<u8> for Class {
    fn from(value: u8) -> Self {
        match value {
            0x0 => Class::Invalid,
            0x1 => Class::Bit32,
            0x2 => Class::Bit64,
            _ => Class::Unknown,
        }
    }
}

impl vstd::std_specs::convert::FromSpecImpl<u8> for Class {
    open spec fn obeys_from_spec() -> bool {
        true
    }

    open spec fn from_spec(v: u8) -> Class {
        class_of(v)
    }
}

/// Byte order the object declares for its data.
#[derive(Debug, Clone, Copy, PartialEq, Eq, Structural, PartialOrd)]
pub enum Data {
    /// Invalid data encoding.
    Invalid,
    /// Little-endian.
    Lsb,
    /// Big-endian.
    Msb,
    /// Any code outside the table.
    Unknown,
}

/// The variant that a data-encoding code names: its entry in the table, else `Unknown`.
pub open spec fn data_of(code: u8) -> Data {
    match code {
        0x0 => Data::Invalid,
        0x1 => Data::Lsb,
        0x2 => Data::Msb,
        _ => Data::Unknown,
    }
}

impl Data {
    /// The code that the table gives this variant; none for `Unknown`.
    pub open spec fn table_code(self) -> Option<u8> {
        match self {
            Data::Invalid => Some(0x0),
            Data::Lsb => Some(0x1),
            Data::Msb => Some(0x2),
            Data::Unknown => None,
        }
    }
}

impl From<u8> for Data {
    fn from(value: u8) -> Self {
        match value {
            0x0 => Data::Invalid,
            0x1 => Data::Lsb,
            0x2 => Data::Msb,
            _ => Data::Unknown,
        }
    }
}

impl vstd::std_specs::convert::FromSpecImpl<u8> for Data {
    open spec fn obeys_from_spec() -> bool {
        true
    }

    open spec fn from_spec(v: u8) -> Data {
        data_of(v)
    }
}

/// Version of the identification block.
#[derive(Debug, Clone, Copy, PartialEq, Eq, Structural, PartialOrd)]
pub enum Version {
    Current,
    /// Any code outside the table.
    Unknown,
}

/// The variant that an identification version code names: its entry in the table, else `Unknown`.
pub open spec fn version_of(code: u8) -> Version {
    match code {
        0x1 => Version::Current,
        _ => Version::Unknown,
    }
}

impl Version {
    /// The code that the table gives this variant; none for `Unknown`.
    pub open spec fn table_code(self) -> Option<u8> {
        match self {
            Version::Current => Some(0x1),
            Version::Unknown => None,
        }
    }
}

impl From<u8> for Version {
    fn from(value: u8) -> Self {
        match value {
            0x1 => Version::Current,
            _ => Version::Unknown,
        }
    }
}

impl vstd::std_specs::convert::FromSpecImpl<u8> for Version {
    open spec fn obeys_from_spec() -> bool {
        true
    }

    open spec fn from_spec(v: u8) -> Version {
        version_of(v)
    }
}

/// Operating system and ABI that the object targets.
#[derive(Debug, Clone, Copy, PartialEq, Eq, Structural, PartialOrd)]
pub enum OsAbi {
    SystemV,
    HpUx,
    NetBsd,
    Linux,
    GnuHurd,
    Solaris,
    Aix,
    Irix,
    FreeBsd,
    Tru64,
    NovellModesto,
    OpenBsd,
    OpenVms,
    NonStopKernel,
    Aros,
    FenixOs,
    CloudAbi,
    OpenVos,
    /// Any code outside the table.
    Unknown,
}

/// The variant that an OS/ABI code names: its entry in the table, else `Unknown`.
pub open spec fn os_abi_of(code: u8) -> OsAbi {
    match code {
        0x0 => OsAbi::SystemV,
        0x1 => OsAbi::HpUx,
        0x2 => OsAbi::NetBsd,
        0x3 => OsAbi::Linux,
        0x4 => OsAbi::GnuHurd,
        0x6 => OsAbi::Solaris,
        0x7 => OsAbi::Aix,
        0x8 => OsAbi::Irix,
        0x9 => OsAbi::FreeBsd,
        0xA => OsAbi::Tru64,
        0xB => OsAbi::NovellModesto,
        0xC => OsAbi::OpenBsd,
        0xD => OsAbi::OpenVms,
        0xE => OsAbi::NonStopKernel,
        0xF => OsAbi::Aros,
        0x10 => OsAbi::FenixOs,
        0x11 => OsAbi::CloudAbi,
        0x12 => OsAbi::OpenVos,
        _ => OsAbi::Unknown,
    }
}

impl OsAbi {
    /// The code that the table gives this variant; none for `Unknown`.
    pub open spec fn table_code(self) -> Option<u8> {
        match self {
            OsAbi::SystemV => Some(0x0),
            OsAbi::HpUx => Some(0x1),
            OsAbi::NetBsd => Some(0x2),
            OsAbi::Linux => Some(0x3),
            OsAbi::GnuHurd => Some(0x4),
            OsAbi::Solaris => Some(0x6),
            OsAbi::Aix => Some(0x7),
            OsAbi::Irix => Some(0x8),
            OsAbi::FreeBsd => Some(0x9),
            OsAbi::Tru64 => Some(0xA),
            OsAbi::NovellModesto => Some(0xB),
            OsAbi::OpenBsd => Some(0xC),
            OsAbi::OpenVms => Some(0xD),
            OsAbi::NonStopKernel => Some(0xE),
            OsAbi::Aros => Some(0xF),
            OsAbi::FenixOs => Some(0x10),
            OsAbi::CloudAbi => Some(0x11),
            OsAbi::OpenVos => Some(0x12),
            OsAbi::Unknown => None,
        }
    }
}

impl From<u8> for OsAbi {
    fn from(value: u8) -> Self {
        match value {
            0x0 => OsAbi::SystemV,
            0x1 => OsAbi::HpUx,
            0x2 => OsAbi::NetBsd,
            0x3 => OsAbi::Linux,
            0x4 => OsAbi::GnuHurd,
            0x6 => OsAbi::Solaris,
            0x7 => OsAbi::Aix,
            0x8 => OsAbi::Irix,
            0x9 => OsAbi::FreeBsd,
            0xA => OsAbi::Tru64,
            0xB => OsAbi::NovellModesto,
            0xC => OsAbi::OpenBsd,
            0xD => OsAbi::OpenVms,
            0xE => OsAbi::NonStopKernel,
            0xF => OsAbi::Aros,
            0x10 => OsAbi::FenixOs,
            0x11 => OsAbi::CloudAbi,
            0x12 => OsAbi::OpenVos,
            _ => OsAbi::Unknown,
        }
    }
}

impl vstd::std_specs::convert::FromSpecImpl<u8> for OsAbi {
    open spec fn obeys_from_spec() -> bool {
        true
    }

    open spec fn from_spec(v: u8) -> OsAbi {
        os_abi_of(v)
    }
}

/// Kind of object file.
#[derive(Debug, Clone, Copy, PartialEq, Eq, Structural, PartialOrd)]
pub enum Type {
    NoType,
    Rel,
    Exec,
    Dyn,
    Core,
    Loos,
    Hios,
    Loproc,
    Hiproc,
    /// Any code outside the table.
    Unknown,
}

/// The variant that a file type code names: its entry in the table, else `Unknown`.
pub open spec fn type_of(code: u16) -> Type {
    match code {
        0x0 => Type::NoType,
        0x1 => Type::Rel,
        0x2 => Type::Exec,
        0x3 => Type::Dyn,
        0x4 => Type::Core,
        0xFE00 => Type::Loos,
        0xFEFF => Type::Hios,
        0xFF00 => Type::Loproc,
        0xFFFF => Type::Hiproc,
        _ => Type::Unknown,
    }
}

impl Type {
    /// The code that the table gives this variant; none for `Unknown`.
    pub open spec fn table_code(self) -> Option<u16> {
        match self {
            Type::NoType => Some(0x0),
            Type::Rel => Some(0x1),
            Type::Exec => Some(0x2),
            Type::Dyn => Some(0x3),
            Type::Core => Some(0x4),
            Type::Loos => Some(0xFE00),
            Type::Hios => Some(0xFEFF),
            Type::Loproc => Some(0xFF00),
            Type::Hiproc => Some(0xFFFF),
            Type::Unknown => None,
        }
    }
}

impl From<u16> for Type {
    fn from(value: u16) -> Self {
        match value {
            0x0 => Type::NoType,
            0x1 => Type::Rel,
            0x2 => Type::Exec,
            0x3 => Type::Dyn,
            0x4 => Type::Core,
            0xFE00 => Type::Loos,
            0xFEFF => Type::Hios,
            0xFF00 => Type::Loproc,
            0xFFFF => Type::Hiproc,
            _ => Type::Unknown,
        }
    }
}

impl vstd::std_specs::convert::FromSpecImpl<u16> for Type {
    open spec fn obeys_from_spec() -> bool {
        true
    }

    open spec fn from_spec(v: u16) -> Type {
        type_of(v)
    }
}

/// Instruction set architecture that the object targets.
#[derive(Debug, Clone, Copy, PartialEq, Eq, Structural, PartialOrd)]
pub enum Machine {
    NoMachine,
    AtTWe32100,
    Sparc,
    X86,
    M68k,
    M88k,
    Iamcu,
    IbmSystem370,
    Mips,
    S370,
    MipsRs3Le,
    Parisc,
    I80960,
    PowerPc,
    PowerPc64,
    S390,
    Spu,
    NecV800,
    FujitsuFr20,
    TrWRh32,
    MotorolaRce,
    Arm,
    Alpha,
    SuperH,
    SparcV9,
    Tricore,
    Arc,
    H8_300,
    H8_300H,
    H8S,
    H8_500,
    Ia64,
    MipsX,
    Coldfire,
    M68HC12,
    Mma,
    Pcp,
    Ncpu,
    Ndr1,
    Starcore,
    Me16,
    St100,
    Tinyj,
    X86_64,
    Pdsp,
    Pdp10,
    Pdp11,
    Fx66,
    St9plus,
    St7,
    Mc68HC16,
    Mc68HC11,
    Mc68HC08,
    Mc68HC05,
    Svx,
    St19,
    Vax,
    Axis,
    Infineon,
    Element14,
    Latticemico32,
    TMS320C6000,
    McstElbrus,
    Arm64,
    Z80,
    RiscV,
    Bpf,
    Wdc65816,
    /// Any code outside the table.
    Unknown,
}

/// The variant that a machine code names: its entry in the table, else `Unknown`.
pub open spec fn machine_of(code: u16) -> Machine {
    match code {
        0x0 => Machine::NoMachine,
        0x1 => Machine::AtTWe32100,
        0x2 => Machine::Sparc,
        0x3 => Machine::X86,
        0x4 => Machine::M68k,
        0x5 => Machine::M88k,
        0x6 => Machine::Iamcu,
        0x7 => Machine::IbmSystem370,
        0x8 => Machine::Mips,
        0x9 => Machine::S370,
        0xA => Machine::MipsRs3Le,
        0xE => Machine::Parisc,
        0x13 => Machine::I80960,
        0x14 => Machine::PowerPc,
        0x15 => Machine::PowerPc64,
        0x16 => Machine::S390,
        0x17 => Machine::Spu,
        0x24 => Machine::NecV800,
        0x25 => Machine::FujitsuFr20,
        0x26 => Machine::TrWRh32,
        0x27 => Machine::MotorolaRce,
        0x28 => Machine::Arm,
        0x29 => Machine::Alpha,
        0x2A => Machine::SuperH,
        0x2B => Machine::SparcV9,
        0x2C => Machine::Tricore,
        0x2D => Machine::Arc,
        0x2E => Machine::H8_300,
        0x2F => Machine::H8_300H,
        0x30 => Machine::H8S,
        0x31 => Machine::H8_500,
        0x32 => Machine::Ia64,
        0x33 => Machine::MipsX,
        0x34 => Machine::Coldfire,
        0x35 => Machine::M68HC12,
        0x36 => Machine::Mma,
        0x37 => Machine::Pcp,
        0x38 => Machine::Ncpu,
        0x39 => Machine::Ndr1,
        0x3A => Machine::Starcore,
        0x3B => Machine::Me16,
        0x3C => Machine::St100,
        0x3D => Machine::Tinyj,
        0x3E => Machine::X86_64,
        0x3F => Machine::Pdsp,
        0x40 => Machine::Pdp10,
        0x41 => Machine::Pdp11,
        0x42 => Machine::Fx66,
        0x43 => Machine::St9plus,
        0x44 => Machine::St7,
        0x45 => Machine::Mc68HC16,
        0x46 => Machine::Mc68HC11,
        0x47 => Machine::Mc68HC08,
        0x48 => Machine::Mc68HC05,
        0x49 => Machine::Svx,
        0x4A => Machine::St19,
        0x4B => Machine::Vax,
        0x4C => Machine::Axis,
        0x4D => Machine::Infineon,
        0x4E => Machine::Element14,
        0x4F => Machine::Latticemico32,
        0x8C => Machine::TMS320C6000,
        0xAF => Machine::McstElbrus,
        0xB7 => Machine::Arm64,
        0xDC => Machine::Z80,
        0xF3 => Machine::RiscV,
        0xF7 => Machine::Bpf,
        0x101 => Machine::Wdc65816,
        _ => Machine::Unknown,
    }
}

impl Machine {
    /// The code that the table gives this variant; none for `Unknown`.
    pub open spec fn table_code(self) -> Option<u16> {
        match self {
            Machine::NoMachine => Some(0x0),
            Machine::AtTWe32100 => Some(0x1),
            Machine::Sparc => Some(0x2),
            Machine::X86 => Some(0x3),
            Machine::M68k => Some(0x4),
            Machine::M88k => Some(0x5),
            Machine::Iamcu => Some(0x6),
            Machine::IbmSystem370 => Some(0x7),
            Machine::Mips => Some(0x8),
            Machine::S370 => Some(0x9),
            Machine::MipsRs3Le => Some(0xA),
            Machine::Parisc => Some(0xE),
            Machine::I80960 => Some(0x13),
            Machine::PowerPc => Some(0x14),
            Machine::PowerPc64 => Some(0x15),
            Machine::S390 => Some(0x16),
            Machine::Spu => Some(0x17),
            Machine::NecV800 => Some(0x24),
            Machine::FujitsuFr20 => Some(0x25),
            Machine::TrWRh32 => Some(0x26),
            Machine::MotorolaRce => Some(0x27),
            Machine::Arm => Some(0x28),
            Machine::Alpha => Some(0x29),
            Machine::SuperH => Some(0x2A),
            Machine::SparcV9 => Some(0x2B),
            Machine::Tricore => Some(0x2C),
            Machine::Arc => Some(0x2D),
            Machine::H8_300 => Some(0x2E),
            Machine::H8_300H => Some(0x2F),
            Machine::H8S => Some(0x30),
            Machine::H8_500 => Some(0x31),
            Machine::Ia64 => Some(0x32),
            Machine::MipsX => Some(0x33),
            Machine::Coldfire => Some(0x34),
            Machine::M68HC12 => Some(0x35),
            Machine::Mma => Some(0x36),
            Machine::Pcp => Some(0x37),
            Machine::Ncpu => Some(0x38),
            Machine::Ndr1 => Some(0x39),
            Machine::Starcore => Some(0x3A),
            Machine::Me16 => Some(0x3B),
            Machine::St100 => Some(0x3C),
            Machine::Tinyj => Some(0x3D),
            Machine::X86_64 => Some(0x3E),
            Machine::Pdsp => Some(0x3F),
            Machine::Pdp10 => Some(0x40),
            Machine::Pdp11 => Some(0x41),
            Machine::Fx66 => Some(0x42),
            Machine::St9plus => Some(0x43),
            Machine::St7 => Some(0x44),
            Machine::Mc68HC16 => Some(0x45),
            Machine::Mc68HC11 => Some(0x46),
            Machine::Mc68HC08 => Some(0x47),
            Machine::Mc68HC05 => Some(0x48),
            Machine::Svx => Some(0x49),
            Machine::St19 => Some(0x4A),
            Machine::Vax => Some(0x4B),
            Machine::Axis => Some(0x4C),
            Machine::Infineon => Some(0x4D),
            Machine::Element14 => Some(0x4E),
            Machine::Latticemico32 => Some(0x4F),
            Machine::TMS320C6000 => Some(0x8C),
            Machine::McstElbrus => Some(0xAF),
            Machine::Arm64 => Some(0xB7),
            Machine::Z80 => Some(0xDC),
            Machine::RiscV => Some(0xF3),
            Machine::Bpf => Some(0xF7),
            Machine::Wdc65816 => Some(0x101),
            Machine::Unknown => None,
        }
    }
}

impl From<u16> for Machine {
    fn from(value: u16) -> Self {
        match value {
            0x0 => Machine::NoMachine,
            0x1 => Machine::AtTWe32100,
            0x2 => Machine::Sparc,
            0x3 => Machine::X86,
            0x4 => Machine::M68k,
            0x5 => Machine::M88k,
            0x6 => Machine::Iamcu,
            0x7 => Machine::IbmSystem370,
            0x8 => Machine::Mips,
            0x9 => Machine::S370,
            0xA => Machine::MipsRs3Le,
            0xE => Machine::Parisc,
            0x13 => Machine::I80960,
            0x14 => Machine::PowerPc,
            0x15 => Machine::PowerPc64,
            0x16 => Machine::S390,
            0x17 => Machine::Spu,
            0x24 => Machine::NecV800,
            0x25 => Machine::FujitsuFr20,
            0x26 => Machine::TrWRh32,
            0x27 => Machine::MotorolaRce,
            0x28 => Machine::Arm,
            0x29 => Machine::Alpha,
            0x2A => Machine::SuperH,
            0x2B => Machine::SparcV9,
            0x2C => Machine::Tricore,
            0x2D => Machine::Arc,
            0x2E => Machine::H8_300,
            0x2F => Machine::H8_300H,
            0x30 => Machine::H8S,
            0x31 => Machine::H8_500,
            0x32 => Machine::Ia64,
            0x33 => Machine::MipsX,
            0x34 => Machine::Coldfire,
            0x35 => Machine::M68HC12,
            0x36 => Machine::Mma,
            0x37 => Machine::Pcp,
            0x38 => Machine::Ncpu,
            0x39 => Machine::Ndr1,
            0x3A => Machine::Starcore,
            0x3B => Machine::Me16,
            0x3C => Machine::St100,
            0x3D => Machine::Tinyj,
            0x3E => Machine::X86_64,
            0x3F => Machine::Pdsp,
            0x40 => Machine::Pdp10,
            0x41 => Machine::Pdp11,
            0x42 => Machine::Fx66,
            0x43 => Machine::St9plus,
            0x44 => Machine::St7,
            0x45 => Machine::Mc68HC16,
            0x46 => Machine::Mc68HC11,
            0x47 => Machine::Mc68HC08,
            0x48 => Machine::Mc68HC05,
            0x49 => Machine::Svx,
            0x4A => Machine::St19,
            0x4B => Machine::Vax,
            0x4C => Machine::Axis,
            0x4D => Machine::Infineon,
            0x4E => Machine::Element14,
            0x4F => Machine::Latticemico32,
            0x8C => Machine::TMS320C6000,
            0xAF => Machine::McstElbrus,
            0xB7 => Machine::Arm64,
            0xDC => Machine::Z80,
            0xF3 => Machine::RiscV,
            0xF7 => Machine::Bpf,
            0x101 => Machine::Wdc65816,
            _ => Machine::Unknown,
        }
    }
}

impl vstd::std_specs::convert::FromSpecImpl<u16> for Machine {
    open spec fn obeys_from_spec() -> bool {
        true
    }

    open spec fn from_spec(v: u16) -> Machine {
        machine_of(v)
    }
}

/// The class table is one-to-one and total: a code names a variant other
/// than `Unknown` exactly when it is that variant's table code, and every
/// code that no variant has names `Unknown`.
pub proof fn lemma_class_table(code: u8)
    ensures
        forall|v: Class| v !is Unknown ==> (class_of(code) == v <==> #[trigger] v.table_code() == Some(code)),
        class_of(code) is Unknown <==> forall|v: Class| #[trigger] v.table_code() != Some(code),
{
    assert(class_of(code) !is Unknown ==> class_of(code).table_code() == Some(code));
}

/// The data-encoding table is one-to-one and total: a code names a variant other
/// than `Unknown` exactly when it is that variant's table code, and every
/// code that no variant has names `Unknown`.
pub proof fn lemma_data_table(code: u8)
    ensures
        forall|v: Data| v !is Unknown ==> (data_of(code) == v <==> #[trigger] v.table_code() == Some(code)),
        data_of(code) is Unknown <==> forall|v: Data| #[trigger] v.table_code() != Some(code),
{
    assert(data_of(code) !is Unknown ==> data_of(code).table_code() == Some(code));
}

/// The version table is one-to-one and total: a code names a variant other
/// than `Unknown` exactly when it is that variant's table code, and every
/// code that no variant has names `Unknown`.
pub proof fn lemma_version_table(code: u8)
    ensures
        forall|v: Version| v !is Unknown ==> (version_of(code) == v <==> #[trigger] v.table_code() == Some(code)),
        version_of(code) is Unknown <==> forall|v: Version| #[trigger] v.table_code() != Some(code),
{
    assert(version_of(code) !is Unknown ==> version_of(code).table_code() == Some(code));
}

/// The OS/ABI table is one-to-one and total: a code names a variant other
/// than `Unknown` exactly when it is that variant's table code, and every
/// code that no variant has names `Unknown`.
pub proof fn lemma_os_abi_table(code: u8)
    ensures
        forall|v: OsAbi| v !is Unknown ==> (os_abi_of(code) == v <==> #[trigger] v.table_code() == Some(code)),
        os_abi_of(code) is Unknown <==> forall|v: OsAbi| #[trigger] v.table_code() != Some(code),
{
    assert(os_abi_of(code) !is Unknown ==> os_abi_of(code).table_code() == Some(code));
}

/// The file type table is one-to-one and total: a code names a variant other
/// than `Unknown` exactly when it is that variant's table code, and every
/// code that no variant has names `Unknown`.
pub proof fn lemma_type_table(code: u16)
    ensures
        forall|v: Type| v !is Unknown ==> (type_of(code) == v <==> #[trigger] v.table_code() == Some(code)),
        type_of(code) is Unknown <==> forall|v: Type| #[trigger] v.table_code() != Some(code),
{
    assert(type_of(code) !is Unknown ==> type_of(code).table_code() == Some(code));
}

/// The machine table is one-to-one and total: a code names a variant other
/// than `Unknown` exactly when it is that variant's table code, and every
/// code that no variant has names `Unknown`.
pub proof fn lemma_machine_table(code: u16)
    ensures
        forall|v: Machine| v !is Unknown ==> (machine_of(code) == v <==> #[trigger] v.table_code() == Some(code)),
        machine_of(code) is Unknown <==> forall|v: Machine| #[trigger] v.table_code() != Some(code),
{
    assert(machine_of(code) !is Unknown ==> machine_of(code).table_code() == Some(code));
}

/// Classification is idempotent: classifying again the table code of the
/// variant that a code was classified as gives the same variant.
pub proof fn lemma_classification_idempotent(c8: u8, c16: u16)
    ensures
        class_of(c8).table_code() matches Some(k) ==> class_of(k) == class_of(c8),
        data_of(c8).table_code() matches Some(k) ==> data_of(k) == data_of(c8),
        version_of(c8).table_code() matches Some(k) ==> version_of(k) == version_of(c8),
        os_abi_of(c8).table_code() matches Some(k) ==> os_abi_of(k) == os_abi_of(c8),
        type_of(c16).table_code() matches Some(k) ==> type_of(k) == type_of(c16),
        machine_of(c16).table_code() matches Some(k) ==> machine_of(k) == machine_of(c16),
{
    lemma_class_table(c8);
    lemma_data_table(c8);
    lemma_version_table(c8);
    lemma_os_abi_table(c8);
    lemma_type_table(c16);
    lemma_machine_table(c16);
}

} // verus!
