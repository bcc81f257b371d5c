//! The iNES cartridge container: a 16-byte header, an optional trainer,
//! then the PRG and CHR payloads.

use vstd::prelude::*;

verus! {

/// Load cap: inputs larger than this are rejected, in case a caller hands
/// over something that is not a ROM at all.
pub const MAX_ROM_SIZE: usize = 5 * 1024 * 1024;

/// How the cartridge mirrors its nametables.
#[derive(Debug, Clone, Copy, PartialEq, Eq, Structural)]
pub enum MirroringType {
    Horizontal,
    Vertical,
    FourScreen,
}

/// A parsed cartridge: the program payload, the character payload, and the
/// mirroring the control byte selects.
#[derive(Debug, Clone, PartialEq, Eq)]
pub struct Rom {
    pub prg: Vec<u8>,
    pub chr: Vec<u8>,
    pub mirroring_type: MirroringType,
}

/// The fields of the 16-byte iNES header: bank counts and the two control
/// bytes.
#[derive(Debug, Clone, Copy, PartialEq, Eq, Structural)]
pub struct InesHeader {
    pub prg_banks: usize,
    pub chr_banks: usize,
    pub control_1: u8,
    pub control_2: u8,
}

/// Why an input failed to parse.
#[derive(Debug, Clone, Copy, PartialEq, Eq, Structural)]
pub enum ParseErrorKind {
    /// The input is too short for a header or does not start with "NES".
    HeaderNotFound,
    /// The fourth magic byte is not 0x1A.
    IncorrectHeader,
    /// The payloads announced in the header run past the end of the input.
    TruncatedPayload,
    /// The input exceeds the load cap.
    OversizeInput,
}

/// A parse failure: its kind together with a human-readable message.
#[derive(Debug)]
pub struct ParseError {
    pub message: String,
    pub kind: ParseErrorKind,
}

impl ParseError {
    pub fn new(message: String, kind: ParseErrorKind) -> (e: ParseError)
        ensures
            e.message == message,
            e.kind == kind,
    {
        ParseError { message, kind }
    }
}

/// The message each kind of parse failure carries.
pub open spec fn spec_error_message(kind: ParseErrorKind) -> Seq<char> {
    match kind {
        ParseErrorKind::HeaderNotFound => "could not find NES"@,
        ParseErrorKind::IncorrectHeader => "4th byte is not 0x1A"@,
        ParseErrorKind::TruncatedPayload => "payload shorter than the header announces"@,
        ParseErrorKind::OversizeInput => "input exceeds the ROM size cap"@,
    }
}

/// Why the header alone rejects an input, if it does: too short or without
/// the "NES" magic, or with the wrong fourth magic byte.
pub open spec fn spec_header_error(b: Seq<u8>) -> Option<ParseErrorKind> {
    if b.len() < 16 {
        Some(ParseErrorKind::HeaderNotFound)
    } else if !(b[0] == 0x4E && b[1] == 0x45 && b[2] == 0x53) {
        Some(ParseErrorKind::HeaderNotFound)
    } else if b[3] != 0x1A {
        Some(ParseErrorKind::IncorrectHeader)
    } else {
        None
    }
}

/// The size in bytes of the program payload: 16 KiB per announced bank.
pub open spec fn spec_prg_size(b: Seq<u8>) -> int {
    b[4] * 0x4000
}

/// The size in bytes of the character payload: 8 KiB per announced bank.
pub open spec fn spec_chr_size(b: Seq<u8>) -> int {
    b[5] * 0x2000
}

/// Whether the first control byte announces a 512-byte trainer before the
/// payloads.
pub open spec fn spec_has_trainer(b: Seq<u8>) -> bool {
    (b[6] / 4) % 2 == 1
}

/// Where the program payload starts: after the header, and after the
/// trainer when one is present.
pub open spec fn spec_payload_start(b: Seq<u8>) -> int {
    16 + if spec_has_trainer(b) {
        512int
    } else {
        0
    }
}

/// The mirroring the first control byte selects: its four-screen bit wins,
/// else its low bit picks vertical over horizontal.
pub open spec fn spec_mirroring(b: Seq<u8>) -> MirroringType {
    if (b[6] / 8) % 2 == 1 {
        MirroringType::FourScreen
    } else if b[6] % 2 == 1 {
        MirroringType::Vertical
    } else {
        MirroringType::Horizontal
    }
}

/// Why an input rejects, if it does: the cap, then the header checks, then
/// the payload length.
pub open spec fn spec_parse_error(b: Seq<u8>) -> Option<ParseErrorKind> {
    if b.len() > 5 * 1024 * 1024 {
        Some(ParseErrorKind::OversizeInput)
    } else if spec_header_error(b) is Some {
        spec_header_error(b)
    } else if b.len() < spec_payload_start(b) + spec_prg_size(b) + spec_chr_size(b) {
        Some(ParseErrorKind::TruncatedPayload)
    } else {
        None
    }
}

/// The program payload of a well-formed input.
pub open spec fn spec_parse_prg(b: Seq<u8>) -> Seq<u8> {
    b.subrange(spec_payload_start(b), spec_payload_start(b) + spec_prg_size(b))
}

/// The character payload of a well-formed input.
pub open spec fn spec_parse_chr(b: Seq<u8>) -> Seq<u8> {
    b.subrange(
        spec_payload_start(b) + spec_prg_size(b),
        spec_payload_start(b) + spec_prg_size(b) + spec_chr_size(b),
    )
}

/// Validate the 16-byte header and read its fields. Returns the header
/// exactly when the input is at least 16 bytes long and carries the four
/// magic bytes; the error kind says which check failed.
pub fn parse_ines_header(b: &Vec<u8>) -> (r: Result<InesHeader, ParseError>)
    ensures
        match spec_header_error(b@) {
            Some(kind) => {
                &&& r matches Err(e)
                &&& e.kind == kind
                &&& e.message@ == spec_error_message(kind)
            },
            None => {
                &&& r matches Ok(h)
                &&& h.prg_banks == b@[4]
                &&& h.chr_banks == b@[5]
                &&& h.control_1 == b@[6]
                &&& h.control_2 == b@[7]
            },
        },
{
    if b.len() < 16 {
        return Err(
            ParseError::new("could not find NES".to_owned(), ParseErrorKind::HeaderNotFound),
        );
    }
    if !(b[0] == 0x4E && b[1] == 0x45 && b[2] == 0x53) {
        return Err(
            ParseError::new("could not find NES".to_owned(), ParseErrorKind::HeaderNotFound),
        );
    }
    if b[3] != 0x1A {
        return Err(
            ParseError::new("4th byte is not 0x1A".to_owned(), ParseErrorKind::IncorrectHeader),
        );
    }
    Ok(
        InesHeader {
            prg_banks: b[4] as usize,
            chr_banks: b[5] as usize,
            control_1: b[6],
            control_2: b[7],
        },
    )
}

/// Parse an iNES image into a `Rom`. Returns the ROM exactly when the
/// input passes the size cap, carries the magic header, and is long enough
/// for the payloads its header announces; the error kind says which check
/// failed first.
pub fn parse_ines(b: &Vec<u8>) -> (r: Result<Rom, ParseError>)
    ensures
        match spec_parse_error(b@) {
            Some(kind) => {
                &&& r matches Err(e)
                &&& e.kind == kind
                &&& e.message@ == spec_error_message(kind)
            },
            None => {
                &&& r matches Ok(rom)
                &&& rom.prg@ == spec_parse_prg(b@)
                &&& rom.chr@ == spec_parse_chr(b@)
                &&& rom.mirroring_type == spec_mirroring(b@)
            },
        },
{
    if b.len() > MAX_ROM_SIZE {
        return Err(
            ParseError::new(
                "input exceeds the ROM size cap".to_owned(),
                ParseErrorKind::OversizeInput,
            ),
        );
    }
    let header = match parse_ines_header(b) {
        Err(e) => {
            return Err(e);
        },
        Ok(h) => h,
    };
    let trainer = (header.control_1 / 4) % 2 == 1;
    let start: usize = if trainer {
        16 + 512
    } else {
        16
    };
    let prg_size: usize = header.prg_banks * 0x4000;
    let chr_size: usize = header.chr_banks * 0x2000;
    if b.len() < start + prg_size + chr_size {
        return Err(
            ParseError::new(
                "payload shorter than the header announces".to_owned(),
                ParseErrorKind::TruncatedPayload,
            ),
        );
    }
    let prg = vstd::slice::slice_to_vec(&b[start..start + prg_size]);
    let chr = vstd::slice::slice_to_vec(&b[start + prg_size..start + prg_size + chr_size]);
    let mirroring_type = if (header.control_1 / 8) % 2 == 1 {
        MirroringType::FourScreen
    } else if header.control_1 % 2 == 1 {
        MirroringType::Vertical
    } else {
        MirroringType::Horizontal
    };
    Ok(Rom { prg, chr, mirroring_type })
}

/// The control byte a mirroring serializes to.
pub open spec fn spec_mirroring_control(mt: MirroringType) -> u8 {
    match mt {
        MirroringType::Horizontal => 0,
        MirroringType::Vertical => 1,
        MirroringType::FourScreen => 8,
    }
}

/// The 16-byte header of a serialized image: the magic, the bank counts,
/// the mirroring control byte, and zero padding.
pub open spec fn spec_ines_header_bytes(prg_banks: u8, chr_banks: u8, control_1: u8) -> Seq<
    u8,
> {
    seq![
        0x4Eu8,
        0x45,
        0x53,
        0x1A,
        prg_banks,
        chr_banks,
        control_1,
        0,
        0,
        0,
        0,
        0,
        0,
        0,
        0,
        0,
    ]
}

/// A whole serialized image: the header, then the program payload, then the
/// character payload, with no trainer.
pub open spec fn spec_serialize(prg: Seq<u8>, chr: Seq<u8>, mt: MirroringType) -> Seq<u8> {
    spec_ines_header_bytes(
        (prg.len() / 0x4000) as u8,
        (chr.len() / 0x2000) as u8,
        spec_mirroring_control(mt),
    ) + prg + chr
}

/// Serialize a ROM back into the iNES container. The payloads must be
/// whole banks, few enough to count in one byte each, and small enough to
/// stay under the load cap.
pub fn serialize_ines(rom: &Rom) -> (r: Vec<u8>)
    requires
        rom.prg@.len() % 0x4000 == 0,
        rom.prg@.len() / 0x4000 < 0x100,
        rom.chr@.len() % 0x2000 == 0,
        rom.chr@.len() / 0x2000 < 0x100,
        16 + rom.prg@.len() + rom.chr@.len() <= 5 * 1024 * 1024,
    ensures
        r@ == spec_serialize(rom.prg@, rom.chr@, rom.mirroring_type),
{
    let control_1: u8 = match rom.mirroring_type {
        MirroringType::Horizontal => 0,
        MirroringType::Vertical => 1,
        MirroringType::FourScreen => 8,
    };
    let mut out: Vec<u8> = Vec::new();
    out.push(0x4E);
    out.push(0x45);
    out.push(0x53);
    out.push(0x1A);
    out.push((rom.prg.len() / 0x4000) as u8);
    out.push((rom.chr.len() / 0x2000) as u8);
    out.push(control_1);
    out.push(0);
    out.push(0);
    out.push(0);
    out.push(0);
    out.push(0);
    out.push(0);
    out.push(0);
    out.push(0);
    out.push(0);
    proof {
        assert(out@ =~= spec_ines_header_bytes(
            (rom.prg@.len() / 0x4000) as u8,
            (rom.chr@.len() / 0x2000) as u8,
            spec_mirroring_control(rom.mirroring_type),
        ));
    }
    out.extend_from_slice(rom.prg.as_slice());
    out.extend_from_slice(rom.chr.as_slice());
    proof {
        assert(out@ =~= spec_serialize(rom.prg@, rom.chr@, rom.mirroring_type));
    }
    out
}

/// Serializing whole-bank payloads and parsing the result yields them back
/// unchanged, with the same mirroring: the container round-trips.
pub proof fn lemma_ines_round_trip(prg: Seq<u8>, chr: Seq<u8>, mt: MirroringType)
    requires
        prg.len() % 0x4000 == 0,
        prg.len() / 0x4000 < 0x100,
        chr.len() % 0x2000 == 0,
        chr.len() / 0x2000 < 0x100,
        16 + prg.len() + chr.len() <= 5 * 1024 * 1024,
    ensures
        spec_parse_error(spec_serialize(prg, chr, mt)) is None,
        spec_parse_prg(spec_serialize(prg, chr, mt)) == prg,
        spec_parse_chr(spec_serialize(prg, chr, mt)) == chr,
        spec_mirroring(spec_serialize(prg, chr, mt)) == mt,
{
    let b = spec_serialize(prg, chr, mt);
    vstd::arithmetic::div_mod::lemma_fundamental_div_mod(prg.len() as int, 0x4000);
    vstd::arithmetic::div_mod::lemma_fundamental_div_mod(chr.len() as int, 0x2000);
    assert(b[4] == (prg.len() / 0x4000) as u8);
    assert(b[5] == (chr.len() / 0x2000) as u8);
    assert(b[6] == spec_mirroring_control(mt));
    assert(spec_prg_size(b) == prg.len());
    assert(spec_chr_size(b) == chr.len());
    assert(!spec_has_trainer(b));
    assert(spec_parse_prg(b) =~= prg);
    assert(spec_parse_chr(b) =~= chr);
}

} // verus!
