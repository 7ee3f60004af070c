//! CRT files: a 64-byte cartridge header (signature, header length,
//! version, hardware type, EXROM and GAME lines, name), then CHIP packets,
//! each a 16-byte header (signature, packet length, chip type, bank, load
//! address, image size) and the chip's bytes. Numbers are big-endian.

use vstd::prelude::*;
use crate::device::cartridge::{chip_type_of, hw_type_of, Cartridge, Chip, ChipType, HwType};
use super::autostart::Method;
use super::{Image, LoadError, Loader};

verus! {

/// The length of a CRT header.
pub const CRT_HEADER_LEN: usize = 0x40;

/// The length of a CHIP packet header.
pub const CHIP_HEADER_LEN: usize = 0x10;

/// The bytes a CRT file starts with: "C64 CARTRIDGE   ".
pub open spec fn crt_signature() -> Seq<u8> {
    seq![0x43u8, 0x36, 0x34, 0x20, 0x43, 0x41, 0x52, 0x54, 0x52, 0x49, 0x44, 0x47, 0x45, 0x20, 0x20, 0x20]
}

/// The bytes a CHIP packet starts with: "CHIP".
pub open spec fn chip_signature() -> Seq<u8> {
    seq![0x43u8, 0x48, 0x49, 0x50]
}

/// The big-endian word at `i`.
pub open spec fn be16(d: Seq<u8>, i: int) -> int {
    d[i] as int * 0x100 + d[i + 1] as int
}

/// The big-endian double word at `i`.
pub open spec fn be32(d: Seq<u8>, i: int) -> int {
    d[i] as int * 0x100_0000 + d[i + 1] as int * 0x1_0000 + d[i + 2] as int * 0x100 + d[i + 3] as int
}

/// Why a CRT file is refused.
#[derive(Clone, Copy, PartialEq, Eq, Structural)]
pub enum CrtFault {
    /// The file ends inside a header or a chip's bytes.
    Eof,
    /// The file does not start with the cartridge signature.
    Signature,
    /// The hardware type is not one the emulator knows.
    HwType,
    /// A packet does not start with "CHIP", or is shorter than its contents.
    Chip,
    /// A chip's type is not ROM, RAM or flash.
    ChipType,
    /// A chip's bank number does not fit in a byte.
    Bank,
}

/// The error text of each refusal (an end of file has none).
pub open spec fn fault_text(f: CrtFault) -> Seq<char> {
    match f {
        CrtFault::Eof => seq![],
        CrtFault::Signature => "invalid cartridge signature"@,
        CrtFault::HwType => "unsupported cartridge type"@,
        CrtFault::Chip => "invalid chip packet"@,
        CrtFault::ChipType => "unsupported chip type"@,
        CrtFault::Bank => "unsupported bank number"@,
    }
}

/// A chip as a value: type code, bank, load address, size and bytes.
pub type ChipValue = (u16, u8, u16, u16, Seq<u8>);

/// The chip packet at `pos`, and where the next one starts.
pub open spec fn chip_at(data: Seq<u8>, pos: int) -> Result<(ChipValue, int), CrtFault> {
    if pos + CHIP_HEADER_LEN > data.len() {
        Err(CrtFault::Eof)
    } else if data.subrange(pos, pos + 4) != chip_signature() {
        Err(CrtFault::Chip)
    } else if be16(data, pos + 8) >= 3 {
        Err(CrtFault::ChipType)
    } else if be16(data, pos + 10) >= 0x100 {
        Err(CrtFault::Bank)
    } else if be32(data, pos + 4) < CHIP_HEADER_LEN + be16(data, pos + 14) {
        Err(CrtFault::Chip)
    } else if pos + CHIP_HEADER_LEN + be16(data, pos + 14) > data.len() {
        Err(CrtFault::Eof)
    } else {
        let start = pos + CHIP_HEADER_LEN;
        let size = be16(data, pos + 14);
        Ok((
            (
                be16(data, pos + 8) as u16,
                be16(data, pos + 10) as u8,
                be16(data, pos + 12) as u16,
                size as u16,
                data.subrange(start, start + size),
            ),
            pos + be32(data, pos + 4),
        ))
    }
}

/// The chips of the packets from `pos` to the end of the file.
pub open spec fn chips_from(data: Seq<u8>, pos: int) -> Result<Seq<ChipValue>, CrtFault>
    decreases data.len() - pos,
{
    if pos < 0 || pos >= data.len() {
        Ok(seq![])
    } else {
        match chip_at(data, pos) {
            Err(f) => Err(f),
            Ok((chip, next)) => if next <= pos {
                Err(CrtFault::Chip)
            } else if next >= data.len() {
                Ok(seq![chip])
            } else {
                match chips_from(data, next) {
                    Err(f) => Err(f),
                    Ok(rest) => Ok(seq![chip] + rest),
                }
            },
        }
    }
}

/// Where the chip packets start: after the header, whose length field is
/// taken as at least 64 bytes.
pub open spec fn packets_start(data: Seq<u8>) -> int {
    if be32(data, 0x10) < CRT_HEADER_LEN {
        CRT_HEADER_LEN as int
    } else {
        be32(data, 0x10)
    }
}

/// A cartridge as a CRT file describes it: version, hardware type code,
/// EXROM and GAME (true for a nonzero line byte), and its chips.
pub open spec fn crt_contents(data: Seq<u8>) -> Result<(u16, u8, bool, bool, Seq<ChipValue>), CrtFault> {
    if data.len() < CRT_HEADER_LEN {
        Err(CrtFault::Eof)
    } else if data.subrange(0, 16) != crt_signature() {
        Err(CrtFault::Signature)
    } else if be16(data, 0x16) >= 7 {
        Err(CrtFault::HwType)
    } else {
        match chips_from(data, packets_start(data)) {
            Err(f) => Err(f),
            Ok(chips) => Ok((be16(data, 0x14) as u16, be16(data, 0x16) as u8, data[0x18] != 0,
                data[0x19] != 0, chips)),
        }
    }
}

/// Whether a chip holds the given chip value.
pub open spec fn chip_is(c: Chip, v: ChipValue) -> bool {
    &&& chip_type_of(v.0) == Some(c.chip_type)
    &&& c.bank_number == v.1
    &&& c.offset == v.2
    &&& c.size == v.3
    &&& c.data@ == v.4
}

/// Whether a cartridge is the one a CRT file describes, banks at 0.
pub open spec fn cartridge_is(c: Cartridge, v: (u16, u8, bool, bool, Seq<ChipValue>)) -> bool {
    &&& c.version == v.0
    &&& hw_type_of(v.1) == Some(c.hw_type)
    &&& c.exrom == v.2
    &&& c.game == v.3
    &&& c.banks@.len() == v.4.len()
    &&& forall|i: int| 0 <= i < v.4.len() ==> chip_is(#[trigger] c.banks@[i], v.4[i])
    &&& c.bank_lo == 0
    &&& c.bank_hi == 0
}

/// `acc` in front of the chips of `r`, or its fault.
pub open spec fn prepend(acc: Seq<ChipValue>, r: Result<Seq<ChipValue>, CrtFault>) -> Result<Seq<ChipValue>, CrtFault> {
    match r {
        Ok(rest) => Ok(acc + rest),
        Err(f) => Err(f),
    }
}

/// How a refusal is reported.
pub open spec fn crt_error_is(e: LoadError, f: CrtFault) -> bool {
    if f == CrtFault::Eof {
        e == LoadError::UnexpectedEof
    } else {
        e matches LoadError::InvalidData(m) && m@ == fault_text(f)
    }
}

/// The big-endian word at `i`.
fn read_be16(data: &[u8], i: usize) -> (r: u16)
    requires
        i + 2 <= data@.len(),
    ensures
        r == be16(data@, i as int),
{
    (data[i] as u16) * 0x100 + data[i + 1] as u16
}

/// The big-endian double word at `i`.
fn read_be32(data: &[u8], i: usize) -> (r: u64)
    requires
        i + 4 <= data@.len(),
    ensures
        r == be32(data@, i as int),
{
    (data[i] as u64) * 0x100_0000 + (data[i + 1] as u64) * 0x1_0000 + (data[i + 2] as u64) * 0x100
        + data[i + 3] as u64
}

/// Whether `data[pos..]` starts with `expected`.
fn has_bytes(data: &[u8], pos: usize, expected: &[u8]) -> (r: bool)
    requires
        pos + expected@.len() <= data@.len(),
    ensures
        r == (data@.subrange(pos as int, pos + expected@.len()) == expected@),
{
    let n = expected.len();
    let mut i: usize = 0;
    while i < n
        invariant
            n == expected@.len(),
            pos + n <= data@.len(),
            data@.len() == data.len(),
            i <= n,
            forall|j: int| 0 <= j < i ==> data@[pos + j] == expected@[j],
        decreases n - i,
    {
        if data[pos + i] != expected[i] {
            assert(data@.subrange(pos as int, pos + n)[i as int] != expected@[i as int]);
            return false;
        }
        i = i + 1;
    }
    assert(data@.subrange(pos as int, pos + n) =~= expected@);
    true
}

/// A copy of `data[start..end]`.
fn copy_range(data: &[u8], start: usize, end: usize) -> (r: Vec<u8>)
    requires
        start <= end <= data@.len(),
    ensures
        r@ == data@.subrange(start as int, end as int),
{
    let mut out: Vec<u8> = Vec::new();
    let mut i: usize = start;
    while i < end
        invariant
            start <= i <= end,
            end <= data@.len(),
            out@ == data@.subrange(start as int, i as int),
        decreases end - i,
    {
        out.push(data[i]);
        i = i + 1;
        assert(out@ =~= data@.subrange(start as int, i as int));
    }
    out
}

/// Loads CRT files.
pub struct CrtLoader {}

impl CrtLoader {
    /// A CRT loader.
    pub fn new() -> (r: CrtLoader) {
        CrtLoader {}
    }

    /// The load error that reports `f`.
    fn error_of(f: CrtFault) -> (e: LoadError)
        ensures
            crt_error_is(e, f),
    {
        match f {
            CrtFault::Eof => LoadError::UnexpectedEof,
            CrtFault::Signature => LoadError::InvalidData(String::from_str("invalid cartridge signature")),
            CrtFault::HwType => LoadError::InvalidData(String::from_str("unsupported cartridge type")),
            CrtFault::Chip => LoadError::InvalidData(String::from_str("invalid chip packet")),
            CrtFault::ChipType => LoadError::InvalidData(String::from_str("unsupported chip type")),
            CrtFault::Bank => LoadError::InvalidData(String::from_str("unsupported bank number")),
        }
    }

    /// Reads the chip packet at `pos`.
    fn read_chip(&self, data: &[u8], pos: usize) -> (r: Result<(Chip, usize), CrtFault>)
        requires
            pos < data@.len(),
        ensures
            match chip_at(data@, pos as int) {
                Err(f) => r == Err::<(Chip, usize), CrtFault>(f),
                Ok((v, next)) => r matches Ok((c, n)) && chip_is(c, v) && (n as int == if next
                    < data@.len() {
                    next
                } else {
                    data@.len() as int
                }),
            },
    {
        if data.len() - pos < CHIP_HEADER_LEN {
            return Err(CrtFault::Eof);
        }
        let sig: [u8; 4] = [0x43, 0x48, 0x49, 0x50];
        assert(sig@ =~= chip_signature());
        if !has_bytes(data, pos, sig.as_slice()) {
            return Err(CrtFault::Chip);
        }
        let packet_len = read_be32(data, pos + 4);
        let chip_type = read_be16(data, pos + 8);
        let bank = read_be16(data, pos + 10);
        let offset = read_be16(data, pos + 12);
        let size = read_be16(data, pos + 14);
        if chip_type >= 3 {
            return Err(CrtFault::ChipType);
        }
        if bank >= 0x100 {
            return Err(CrtFault::Bank);
        }
        if packet_len < CHIP_HEADER_LEN as u64 + size as u64 {
            return Err(CrtFault::Chip);
        }
        let start = pos + CHIP_HEADER_LEN;
        if (data.len() - start) < size as usize {
            return Err(CrtFault::Eof);
        }
        let bytes = copy_range(data, start, start + size as usize);
        let chip = Chip {
            chip_type: ChipType::from(chip_type),
            bank_number: bank as u8,
            offset,
            size,
            data: bytes,
        };
        let n: usize = if packet_len >= (data.len() - pos) as u64 {
            data.len()
        } else {
            pos + packet_len as usize
        };
        Ok((chip, n))
    }

    /// Reads the cartridge a CRT file holds.
    pub fn read_cartridge(&self, data: &[u8]) -> (r: Result<Cartridge, LoadError>)
        ensures
            match crt_contents(data@) {
                Ok(v) => r matches Ok(c) && cartridge_is(c, v),
                Err(f) => r matches Err(e) && crt_error_is(e, f),
            },
    {
        if data.len() < CRT_HEADER_LEN {
            return Err(LoadError::UnexpectedEof);
        }
        let sig: [u8; 16] = [
            0x43, 0x36, 0x34, 0x20, 0x43, 0x41, 0x52, 0x54, 0x52, 0x49, 0x44, 0x47, 0x45, 0x20, 0x20, 0x20,
        ];
        assert(sig@ =~= crt_signature());
        if !has_bytes(data, 0, sig.as_slice()) {
            return Err(LoadError::InvalidData(String::from_str("invalid cartridge signature")));
        }
        let header_len = read_be32(data, 0x10);
        let version = read_be16(data, 0x14);
        let hw_type = read_be16(data, 0x16);
        if hw_type >= 7 {
            return Err(LoadError::InvalidData(String::from_str("unsupported cartridge type")));
        }
        let mut cartridge = Cartridge {
            version,
            hw_type: HwType::from(hw_type as u8),
            exrom: data[0x18] != 0,
            game: data[0x19] != 0,
            banks: Vec::new(),
            bank_lo: 0,
            bank_hi: 0,
        };
        let start: u64 = if header_len < CRT_HEADER_LEN as u64 {
            CRT_HEADER_LEN as u64
        } else {
            header_len
        };
        let mut pos: usize = if start >= data.len() as u64 {
            data.len()
        } else {
            start as usize
        };
        let ghost whole = chips_from(data@, packets_start(data@));
        assert(data@.subrange(0, 16) == crt_signature());
        let ghost mut acc: Seq<ChipValue> = seq![];
        assert(whole == prepend(acc, chips_from(data@, pos as int))) by {
            assert(seq![] + Seq::<ChipValue>::empty() =~= Seq::<ChipValue>::empty());
            match chips_from(data@, pos as int) {
                Ok(rest) => assert(acc + rest =~= rest),
                Err(_) => {},
            }
        }
        while pos < data.len()
            invariant
                pos <= data@.len(),
                whole == chips_from(data@, packets_start(data@)),
                crt_contents(data@) == match whole {
                    Err(f) => Err(f),
                    Ok(chips) => Ok((version, hw_type as u8, data@[0x18] != 0, data@[0x19] != 0, chips)),
                },
                whole == prepend(acc, chips_from(data@, pos as int)),
                cartridge.banks@.len() == acc.len(),
                forall|i: int| 0 <= i < acc.len() ==> chip_is(#[trigger] cartridge.banks@[i], acc[i]),
                cartridge.version == version,
                hw_type_of(hw_type as u8) == Some(cartridge.hw_type),
                cartridge.exrom == (data@[0x18] != 0),
                cartridge.game == (data@[0x19] != 0),
                cartridge.bank_lo == 0,
                cartridge.bank_hi == 0,
            decreases data@.len() - pos,
        {
            match self.read_chip(data, pos) {
                Err(f) => {
                    return Err(CrtLoader::error_of(f));
                },
                Ok((chip, next)) => {
                    let ghost v = chip_at(data@, pos as int)->Ok_0.0;
                    let ghost real_next = chip_at(data@, pos as int)->Ok_0.1;
                    proof {
                        assert(chips_from(data@, next as int) == chips_from(data@, real_next));
                        match chips_from(data@, real_next) {
                            Ok(rest) => assert(acc.push(v) + rest =~= acc + (seq![v] + rest)),
                            Err(_) => {},
                        }
                    }
                    cartridge.add(chip);
                    proof {
                        acc = acc.push(v);
                    }
                    pos = next;
                },
            }
        }
        assert(acc + Seq::<ChipValue>::empty() =~= acc);
        Ok(cartridge)
    }
}

impl Loader for CrtLoader {
    open spec fn extension(&self) -> Seq<char> {
        "crt"@
    }

    /// Loads the cartridge; it starts by being plugged in and the machine reset.
    fn autostart(&self, data: &[u8]) -> (r: Result<Method, LoadError>)
        ensures
            match crt_contents(data@) {
                Ok(v) => r matches Ok(Method::WithImage(Image::Crt(c))) && cartridge_is(c, v),
                Err(f) => r matches Err(e) && crt_error_is(e, f),
            },
    {
        match self.read_cartridge(data) {
            Ok(cartridge) => Ok(Method::WithImage(Image::Crt(cartridge))),
            Err(e) => Err(e),
        }
    }

    /// Loads the cartridge.
    fn load(&self, data: &[u8]) -> (r: Result<Image, LoadError>)
        ensures
            match crt_contents(data@) {
                Ok(v) => r matches Ok(Image::Crt(c)) && cartridge_is(c, v),
                Err(f) => r matches Err(e) && crt_error_is(e, f),
            },
    {
        match self.read_cartridge(data) {
            Ok(cartridge) => Ok(Image::Crt(cartridge)),
            Err(e) => Err(e),
        }
    }
}

} // verus!
