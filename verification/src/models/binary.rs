//! Executable formats and stored payload records.

use vstd::prelude::*;

verus! {

/// A payload held by the storage service, with the window in which it may be fetched.
/// Both instants are UTC, in whole seconds since the Unix epoch. The merger takes the
/// bytes behind such a record as they are and leaves expiry to the service.
#[derive(Debug, Clone)]
pub struct StoredBinary {
    pub id: String,
    pub path: String,
    pub size: u64,
    pub created_at: i64,
    pub expires_at: i64,
}

/// The executable formats that a buffer's first bytes can announce.
#[derive(Debug, Clone, Copy, PartialEq, Eq, Structural)]
pub enum ObjectFamily {
    Elf,
    Pe,
    MachO,
    /// Any other kind of object, and whatever is no object at all.
    Other,
}

/// The number of leading bytes from which a format is told. A shorter buffer is of no
/// format.
pub const HINT_LENGTH: usize = 16;

/// The buffer is long enough to be looked at and opens with the ELF identification.
pub open spec fn has_elf_magic(data: Seq<u8>) -> bool {
    &&& data.len() >= HINT_LENGTH
    &&& data[0] == 0x7f
    &&& data[1] == 0x45
    &&& data[2] == 0x4c
    &&& data[3] == 0x46
}

/// The buffer is long enough to be looked at and opens with the DOS signature that
/// heads every PE file.
pub open spec fn has_pe_magic(data: Seq<u8>) -> bool {
    &&& data.len() >= HINT_LENGTH
    &&& data[0] == 0x4d
    &&& data[1] == 0x5a
}

/// The first four bytes of a buffer read as one big-endian number.
pub open spec fn leading_word(data: Seq<u8>) -> int {
    ((data[0] as int * 256 + data[1] as int) * 256 + data[2] as int) * 256 + data[3] as int
}

/// The signature of a thin Mach-O binary with 32-bit structures, in either byte order.
pub open spec fn is_narrow_mach_word(word: int) -> bool {
    word == 0xfeed_face || word == 0xcefa_edfe
}

/// The signature of a thin Mach-O binary with 64-bit structures, in either byte order.
pub open spec fn is_wide_mach_word(word: int) -> bool {
    word == 0xfeed_facf || word == 0xcffa_edfe
}

/// The signature of a fat Mach-O binary.
pub open spec fn is_fat_mach_word(word: int) -> bool {
    word == 0xcafe_babe
}

/// The buffer is long enough to be looked at and opens with a Mach-O signature.
pub open spec fn has_mach_magic(data: Seq<u8>) -> bool {
    &&& data.len() >= HINT_LENGTH
    &&& {
        ||| is_narrow_mach_word(leading_word(data))
        ||| is_wide_mach_word(leading_word(data))
        ||| is_fat_mach_word(leading_word(data))
    }
}

/// The format that the first bytes of a buffer announce. The three signatures exclude
/// each other, so the order of the tests does not matter.
pub open spec fn hinted_family(data: Seq<u8>) -> ObjectFamily {
    if has_elf_magic(data) {
        ObjectFamily::Elf
    } else if has_pe_magic(data) {
        ObjectFamily::Pe
    } else if has_mach_magic(data) {
        ObjectFamily::MachO
    } else {
        ObjectFamily::Other
    }
}

/// The buffer begins with a whole ELF header: the identification names the 32-bit or the
/// 64-bit class and one of the two byte orders, and the buffer holds all of the header
/// of that class.
pub open spec fn has_elf_header(data: Seq<u8>) -> bool {
    &&& has_elf_magic(data)
    &&& (data[4] == 1 && data.len() >= 52) || (data[4] == 2 && data.len() >= 64)
    &&& data[5] == 1 || data[5] == 2
}

/// The four bytes from `at` on read as one little-endian number.
pub open spec fn little_endian_word(data: Seq<u8>, at: int) -> int {
    ((data[at + 3] as int * 256 + data[at + 2] as int) * 256 + data[at + 1] as int) * 256
        + data[at] as int
}

/// The buffer begins with a whole DOS header whose pointer, at offset 0x3c, leads to the
/// PE signature inside the buffer.
pub open spec fn has_pe_header(data: Seq<u8>) -> bool {
    &&& data.len() >= 64
    &&& data[0] == 0x4d
    &&& data[1] == 0x5a
    &&& little_endian_word(data, 0x3c) + 4 <= data.len()
    &&& data[little_endian_word(data, 0x3c)] == 0x50
    &&& data[little_endian_word(data, 0x3c) + 1] == 0x45
    &&& data[little_endian_word(data, 0x3c) + 2] == 0
    &&& data[little_endian_word(data, 0x3c) + 3] == 0
}

/// The buffer begins with a whole Mach-O header: 28 bytes for a thin binary with 32-bit
/// structures, 32 bytes for one with 64-bit structures; a fat binary's header has room
/// in any buffer that is long enough to be looked at.
pub open spec fn has_mach_header(data: Seq<u8>) -> bool {
    &&& has_mach_magic(data)
    &&& is_narrow_mach_word(leading_word(data)) ==> data.len() >= 28
    &&& is_wide_mach_word(leading_word(data)) ==> data.len() >= 32
}

/// The platform of a payload: that of the format whose header the buffer begins with,
/// `UNKNOWN` where it begins with none.
pub open spec fn classified(data: Seq<u8>) -> Platform {
    if has_elf_header(data) {
        Platform::LINUX_ELF
    } else if has_pe_header(data) {
        Platform::WINDOWS_PE
    } else if has_mach_header(data) {
        Platform::MACOS_MACH_O
    } else {
        Platform::UNKNOWN
    }
}

/// A payload is of a platform exactly when it begins with a whole header of that
/// platform's format. A buffer that is shorter than sixteen bytes, or opens with none of
/// the three signatures, is of no platform.
pub proof fn lemma_platform_needs_its_header(data: Seq<u8>)
    ensures
        classified(data) == Platform::LINUX_ELF <==> has_elf_header(data),
        classified(data) == Platform::WINDOWS_PE <==> has_pe_header(data),
        classified(data) == Platform::MACOS_MACH_O <==> has_mach_header(data),
        data.len() < HINT_LENGTH ==> classified(data) == Platform::UNKNOWN,
        !has_elf_magic(data) && !has_pe_magic(data) && !has_mach_magic(data) ==> classified(data)
            == Platform::UNKNOWN,
{
    if has_mach_magic(data) {
        assert(data[0] == 0xfe || data[0] == 0xce || data[0] == 0xcf || data[0] == 0xca);
    }
}

/// Asks goblin's `peek_bytes` which format the first sixteen bytes announce.
///
/// Not proved: that `peek_bytes` answers with the ELF hint exactly for the ELF
/// identification, with the PE hint exactly for the DOS signature, and with one of its
/// two Mach-O hints exactly for the five Mach-O signatures. It compares the leading
/// bytes with fixed values and does nothing else; the hints it has for archives and for
/// TE and COFF images begin with other bytes than these and count as `Other` here.
#[verifier::external_body]
fn peek_family(data: &[u8]) -> (family: ObjectFamily)
    requires
        data@.len() >= HINT_LENGTH,
    ensures
        family == hinted_family(data@),
{
    let head: &[u8; 16] = match data[..16].try_into() {
        Ok(head) => head,
        Err(_) => return ObjectFamily::Other,
    };
    match goblin::peek_bytes(head) {
        Ok(goblin::Hint::Elf(_)) => ObjectFamily::Elf,
        Ok(goblin::Hint::PE) => ObjectFamily::Pe,
        Ok(goblin::Hint::Mach(_)) => ObjectFamily::MachO,
        Ok(goblin::Hint::MachFat(_)) => ObjectFamily::MachO,
        _ => ObjectFamily::Other,
    }
}

/// Asks goblin's `Elf::parse_header` whether the buffer begins with an ELF header.
///
/// Not proved: that the header parses exactly when the buffer opens with the ELF
/// identification, names class 1 or 2 and byte order 1 or 2 there, and is at least as
/// long as the header of its class, 52 or 64 bytes. The parser reads the fields one
/// after another and fails where the buffer ends; it computes nothing from them.
#[verifier::external_body]
fn elf_header_parses(data: &[u8]) -> (parses: bool)
    ensures
        parses == has_elf_header(data@),
{
    goblin::elf::Elf::parse_header(data).is_ok()
}

/// Asks goblin's `DosHeader::parse` whether the buffer begins with the header of a PE
/// file.
///
/// Not proved: that the header parses exactly when the buffer holds the 64 bytes of a
/// DOS header with the DOS signature, and the little-endian pointer at offset 0x3c
/// leads to four bytes inside the buffer that are the PE signature. The parser reads
/// the fields one after another, then the signature at the pointer, and fails where a
/// read leaves the buffer; it computes nothing from them.
#[verifier::external_body]
fn pe_header_parses(data: &[u8]) -> (parses: bool)
    ensures
        parses == has_pe_header(data@),
{
    goblin::pe::header::DosHeader::parse(data).is_ok()
}

/// Whether a buffer that opens with a Mach-O signature holds all of the header that the
/// signature announces.
fn mach_header_fits(data: &[u8]) -> (fits: bool)
    requires
        has_mach_magic(data@),
    ensures
        fits == has_mach_header(data@),
{
    let word: u32 = ((data[0] as u32 * 256 + data[1] as u32) * 256 + data[2] as u32) * 256
        + data[3] as u32;
    if word == 0xfeed_face || word == 0xcefa_edfe {
        data.len() >= 28
    } else if word == 0xfeed_facf || word == 0xcffa_edfe {
        data.len() >= 32
    } else {
        true
    }
}

/// The executable format family of a payload.
#[allow(non_camel_case_types)]
#[derive(Debug, Clone, Copy, PartialEq, Eq, Structural)]
pub enum Platform {
    LINUX_ELF,
    WINDOWS_PE,
    MACOS_MACH_O,
    UNKNOWN,
}

impl Platform {
    /// The platform that runs objects of a family.
    pub open spec fn of_family(family: ObjectFamily) -> Platform {
        match family {
            ObjectFamily::Elf => Platform::LINUX_ELF,
            ObjectFamily::Pe => Platform::WINDOWS_PE,
            ObjectFamily::MachO => Platform::MACOS_MACH_O,
            ObjectFamily::Other => Platform::UNKNOWN,
        }
    }

    /// The platform that runs objects of a family; `UNKNOWN` for what is none of the
    /// three executable formats.
    pub fn from_family(family: ObjectFamily) -> (platform: Platform)
        ensures
            platform == Platform::of_family(family),
    {
        match family {
            ObjectFamily::Elf => Platform::LINUX_ELF,
            ObjectFamily::Pe => Platform::WINDOWS_PE,
            ObjectFamily::MachO => Platform::MACOS_MACH_O,
            ObjectFamily::Other => Platform::UNKNOWN,
        }
    }

    /// Classifies a payload by the header it begins with. A buffer that is too short,
    /// of no known format, or cut off or damaged inside its header is `UNKNOWN`:
    /// detection has no error. What follows the header is not read.
    pub fn detect(data: &[u8]) -> (platform: Platform)
        ensures
            platform == classified(data@),
    {
        if data.len() < HINT_LENGTH {
            return Platform::UNKNOWN;
        }
        let family = peek_family(data);
        let whole = match family {
            ObjectFamily::Elf => elf_header_parses(data),
            ObjectFamily::Pe => pe_header_parses(data),
            ObjectFamily::MachO => mach_header_fits(data),
            ObjectFamily::Other => false,
        };
        if whole {
            Platform::from_family(family)
        } else {
            Platform::UNKNOWN
        }
    }

    /// The display name of each platform.
    pub open spec fn name_text(self) -> Seq<char> {
        match self {
            Platform::LINUX_ELF => "Linux ELF"@,
            Platform::WINDOWS_PE => "Windows PE"@,
            Platform::MACOS_MACH_O => "macOS Mach-O"@,
            Platform::UNKNOWN => "Unknown"@,
        }
    }

    /// The platform's name for messages.
    pub fn name(&self) -> (text: &'static str)
        ensures
            text@ == self.name_text(),
    {
        match self {
            Platform::LINUX_ELF => "Linux ELF",
            Platform::WINDOWS_PE => "Windows PE",
            Platform::MACOS_MACH_O => "macOS Mach-O",
            Platform::UNKNOWN => "Unknown",
        }
    }

    pub fn is_windows_pe(&self) -> (answer: bool)
        ensures
            answer == (*self == Platform::WINDOWS_PE),
    {
        matches!(self, Platform::WINDOWS_PE)
    }

    /// Whether a merge strategy exists for the platform. One does for Windows PE and
    /// for no other: this is what `CapabilityTable::implemented` records.
    pub fn is_supported(&self) -> (supported: bool)
        ensures
            supported == (*self == Platform::WINDOWS_PE),
            supported == CapabilityTable::implemented_table().supports_platform(*self),
    {
        CapabilityTable::implemented().supports(*self)
    }
}

/// Which platforms can be merged, one entry for each, set as strategies are added. A
/// payload of unknown format has no entry and is never supported.
#[derive(Debug, Clone, Copy, PartialEq, Eq, Structural)]
pub struct CapabilityTable {
    pub linux_elf: bool,
    pub windows_pe: bool,
    pub macos_mach_o: bool,
}

impl CapabilityTable {
    /// The table of the strategies that the merger holds: Windows PE and nothing else.
    pub open spec fn implemented_table() -> CapabilityTable {
        CapabilityTable { linux_elf: false, windows_pe: true, macos_mach_o: false }
    }

    pub open spec fn supports_platform(self, platform: Platform) -> bool {
        match platform {
            Platform::LINUX_ELF => self.linux_elf,
            Platform::WINDOWS_PE => self.windows_pe,
            Platform::MACOS_MACH_O => self.macos_mach_o,
            Platform::UNKNOWN => false,
        }
    }

    /// The table of the strategies that the merger holds: Windows PE and nothing else.
    pub fn implemented() -> (table: CapabilityTable)
        ensures
            table == CapabilityTable::implemented_table(),
    {
        CapabilityTable { linux_elf: false, windows_pe: true, macos_mach_o: false }
    }

    /// Whether the table holds the platform as one that can be merged.
    pub fn supports(&self, platform: Platform) -> (supported: bool)
        ensures
            supported == self.supports_platform(platform),
    {
        match platform {
            Platform::LINUX_ELF => self.linux_elf,
            Platform::WINDOWS_PE => self.windows_pe,
            Platform::MACOS_MACH_O => self.macos_mach_o,
            Platform::UNKNOWN => false,
        }
    }
}

} // verus!
