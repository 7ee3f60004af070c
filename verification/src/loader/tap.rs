//! TAP files: a header, then the tape's pulses, one byte per pulse (in
//! units of 8 cycles) with zero escaping longer pulses.

use vstd::prelude::*;
use byteorder::{ByteOrder, LittleEndian};
use crate::device::tape::{Tape, MAX_PULSE};
use super::autostart::{Autostart, Method, Mode};
use super::{Image, LoadError, Loader};

verus! {

/// `byteorder`'s `LittleEndian::read_u32`: the first four bytes of `buf` as a
/// little-endian number; it panics on fewer than four bytes, which `requires`
/// leaves out.
#[verifier::external_body]
fn read_u32_le(buf: &[u8]) -> (r: u32)
    requires
        buf@.len() >= 4,
    ensures
        r == buf@[0] as int + buf@[1] as int * 0x100 + buf@[2] as int * 0x1_0000 + buf@[3] as int
            * 0x100_0000,
{
    LittleEndian::read_u32(buf)
}

/// The bytes every TAP file starts with: "C64-TAPE-RAW".
pub open spec fn tape_signature() -> Seq<u8> {
    seq![0x43u8, 0x36, 0x34, 0x2d, 0x54, 0x41, 0x50, 0x45, 0x2d, 0x52, 0x41, 0x57]
}

/// The length of a TAP header.
pub const HEADER_LEN: usize = 20;

/// A TAP header: signature, version, three reserved bytes and the data size.
pub struct Header {
    pub signature: [u8; 12],
    pub version: u8,
    pub reserved: [u8; 3],
    pub size: u32,
}

/// The size field of a header held in `data`.
pub open spec fn size_field(data: Seq<u8>) -> int {
    data[16] as int + data[17] as int * 0x100 + data[18] as int * 0x1_0000 + data[19] as int
        * 0x100_0000
}

/// The pulse that starts at `pos`, in cycles, and where the next one starts:
/// a byte `n` other than zero is `8 n` cycles; zero is 2048 cycles in
/// version 0, and in version 1 the three bytes after it hold the length.
pub open spec fn pulse_at(data: Seq<u8>, version: u8, pos: int) -> Option<(u32, int)> {
    if pos >= data.len() {
        None
    } else if data[pos] != 0 {
        Some((((data[pos] as int) * 8) as u32, pos + 1))
    } else if version == 0 {
        Some((2048u32, pos + 1))
    } else {
        Some(
            (
                (data[pos + 1] as int + data[pos + 2] as int * 0x100 + data[pos + 3] as int * 0x1_0000) as u32,
                pos + 4,
            ),
        )
    }
}

/// Whether the pulses of a version 1 tape, read from `pos`, run to the end
/// of the data without a long pulse whose length bytes are cut off.
pub open spec fn complete_from(data: Seq<u8>, pos: int) -> bool
    decreases data.len() - pos,
{
    if pos < 0 || pos >= data.len() {
        true
    } else if data[pos] != 0 {
        complete_from(data, pos + 1)
    } else {
        pos + 3 < data.len() && complete_from(data, pos + 4)
    }
}

/// Whether a version 1 tape's pulses read from `start` run to the end.
fn pulses_complete(data: &Vec<u8>, start: usize) -> (r: bool)
    ensures
        r == complete_from(data@, start as int),
{
    let n = data.len();
    let mut i: usize = start;
    while i < n
        invariant
            n == data@.len(),
            start <= i,
            complete_from(data@, start as int) == complete_from(data@, i as int),
        decreases n - i,
    {
        if data[i] != 0 {
            i = i + 1;
        } else {
            if n - i <= 3 {
                return false;
            }
            i = i + 4;
        }
    }
    true
}

/// A tape image being played.
pub struct TapTape {
    pub version: u8,
    pub data: Vec<u8>,
    pub pos: usize,
}

impl TapTape {
    /// Whether the tape can be played: a known version, the position within
    /// the data, and (in version 1) pulses that run to the end both from the
    /// start and from the position.
    pub open spec fn playable(&self) -> bool {
        &&& self.version <= 1
        &&& self.pos <= self.data@.len()
        &&& (self.version == 1 ==> complete_from(self.data@, 0) && complete_from(
            self.data@,
            self.pos as int,
        ))
    }

    /// Whether the tape is playable; one that is not would fail on its
    /// unknown version or on a long pulse cut off by the end of the data.
    pub fn is_playable(&self) -> (r: bool)
        ensures
            r == self.playable(),
    {
        if self.version > 1 || self.pos > self.data.len() {
            return false;
        }
        if self.version == 0 {
            return true;
        }
        pulses_complete(&self.data, 0) && pulses_complete(&self.data, self.pos)
    }
}

impl Tape for TapTape {
    open spec fn inv(&self) -> bool {
        self.playable()
    }

    open spec fn can_seek(&self, pos: usize) -> bool {
        self.version == 0 || pos >= self.data@.len() || complete_from(self.data@, pos as int)
    }

    open spec fn next_pulse(&self) -> Option<u32> {
        match pulse_at(self.data@, self.version, self.pos as int) {
            Some((pulse, _)) => Some(pulse),
            None => None,
        }
    }

    open spec fn after_read(&self) -> TapTape {
        match pulse_at(self.data@, self.version, self.pos as int) {
            Some((_, next)) => TapTape { pos: next as usize, ..*self },
            None => *self,
        }
    }

    open spec fn after_seek(&self, pos: usize) -> (TapTape, bool) {
        if pos < self.data@.len() {
            (TapTape { pos, ..*self }, true)
        } else {
            (*self, false)
        }
    }

    proof fn lemma_rewind(&self) {
    }

    /// Reads the pulse at the current position and moves past it.
    fn read_pulse(&mut self) -> (r: Option<u32>)
        ensures
            match pulse_at(old(self).data@, old(self).version, old(self).pos as int) {
                Some((pulse, next)) => r == Some(pulse) && final(self).pos == next,
                None => r is None && final(self).pos == old(self).pos,
            },
            final(self).data == old(self).data,
            final(self).version == old(self).version,
    {
        if self.pos < self.data.len() {
            let value = self.data[self.pos] as u32;
            self.pos = self.pos + 1;
            if value != 0 {
                assert(value < 256 ==> value << 3u32 == value * 8) by (bit_vector);
                Some(value << 3)
            } else {
                let pulse = if self.version == 0 {
                    assert(256u32 << 3u32 == 2048u32) by (bit_vector);
                    256u32 << 3
                } else {
                    let byte1 = self.data[self.pos] as u32;
                    let byte2 = self.data[self.pos + 1] as u32;
                    let byte3 = self.data[self.pos + 2] as u32;
                    self.pos = self.pos + 3;
                    assert((byte3 << 16) | (byte2 << 8) | byte1 == byte1 + byte2 * 0x100 + byte3
                        * 0x1_0000 && byte1 + byte2 * 0x100 + byte3 * 0x1_0000 <= 0xff_ffff) by (bit_vector)
                        requires
                            byte1 < 256,
                            byte2 < 256,
                            byte3 < 256,
                    ;
                    (byte3 << 16) | (byte2 << 8) | byte1
                };
                assert(MAX_PULSE == 0x00ff_ffff);
                Some(pulse)
            }
        } else {
            None
        }
    }

    /// Moves to `pos` if it is on the tape.
    fn seek(&mut self, pos: usize) -> (r: bool)
        ensures
            r == (pos < old(self).data@.len()),
            final(self).pos == if r { pos } else { old(self).pos },
            final(self).data == old(self).data,
            final(self).version == old(self).version,
    {
        if pos < self.data.len() {
            self.pos = pos;
            true
        } else {
            false
        }
    }
}

/// A loaded tape, handed over to the datassette when mounted.
pub struct TapImage {
    pub tape: Option<TapTape>,
}

/// Loads TAP files.
pub struct TapLoader {}

impl TapLoader {
    /// A TAP loader.
    pub fn new() -> (r: TapLoader) {
        TapLoader {}
    }

    /// Reads the header at the start of `data`.
    pub fn read_header(&self, data: &[u8]) -> (r: Result<Header, LoadError>)
        ensures
            data@.len() < HEADER_LEN ==> (r matches Err(LoadError::InvalidData(m)) && m@
                == "invalid tape header"@),
            data@.len() >= HEADER_LEN ==> (r matches Ok(h) && h.signature@ == data@.subrange(0, 12)
                && h.version == data@[12] && h.reserved@ == data@.subrange(13, 16) && h.size
                == size_field(data@)),
    {
        if data.len() < HEADER_LEN {
            return Err(LoadError::InvalidData(String::from_str("invalid tape header")));
        }
        let signature: [u8; 12] = [
            data[0],
            data[1],
            data[2],
            data[3],
            data[4],
            data[5],
            data[6],
            data[7],
            data[8],
            data[9],
            data[10],
            data[11],
        ];
        let reserved: [u8; 3] = [data[13], data[14], data[15]];
        let size_bytes: [u8; 4] = [data[16], data[17], data[18], data[19]];
        let size = read_u32_le(size_bytes.as_slice());
        assert(signature@ =~= data@.subrange(0, 12));
        assert(reserved@ =~= data@.subrange(13, 16));
        Ok(Header { signature, version: data[12], reserved, size })
    }

    /// Checks the header's signature.
    pub fn validate_header(&self, header: &Header) -> (r: Result<(), LoadError>)
        ensures
            header.signature@ == tape_signature() ==> r is Ok,
            header.signature@ != tape_signature() ==> (r matches Err(LoadError::InvalidData(m))
                && m@ == "invalid cartridge signature"@),
    {
        let expected: [u8; 12] = [
            0x43, 0x36, 0x34, 0x2d, 0x54, 0x41, 0x50, 0x45, 0x2d, 0x52, 0x41, 0x57,
        ];
        assert(expected@ =~= tape_signature());
        let mut i: usize = 0;
        while i < 12
            invariant
                i <= 12,
                expected@ == tape_signature(),
                forall|j: int| 0 <= j < i ==> header.signature@[j] == expected@[j],
            decreases 12 - i,
        {
            if header.signature[i] != expected[i] {
                return Err(LoadError::InvalidData(String::from_str("invalid cartridge signature")));
            }
            i = i + 1;
        }
        assert(header.signature@ =~= tape_signature());
        Ok(())
    }

    /// Reads and checks the header, then takes the data it announces.
    pub fn read_tape(&self, data: &[u8]) -> (r: Result<TapTape, LoadError>)
        ensures
            data@.len() < HEADER_LEN ==> (r matches Err(LoadError::InvalidData(m)) && m@
                == "invalid tape header"@),
            data@.len() >= HEADER_LEN && data@.subrange(0, 12) != tape_signature() ==> (r matches Err(
                LoadError::InvalidData(m),
            ) && m@ == "invalid cartridge signature"@),
            data@.len() >= HEADER_LEN && data@.subrange(0, 12) == tape_signature() && data@.len()
                - HEADER_LEN < size_field(data@) ==> r == Err::<TapTape, LoadError>(
                LoadError::UnexpectedEof,
            ),
            data@.len() >= HEADER_LEN && data@.subrange(0, 12) == tape_signature() && data@.len()
                - HEADER_LEN >= size_field(data@) ==> (r matches Ok(t) && t.version == data@[12]
                && t.pos == 0 && t.data@ == data@.subrange(
                HEADER_LEN as int,
                HEADER_LEN + size_field(data@),
            )),
    {
        let header = match self.read_header(data) {
            Ok(h) => h,
            Err(e) => {
                return Err(e);
            },
        };
        match self.validate_header(&header) {
            Ok(_) => {},
            Err(e) => {
                return Err(e);
            },
        }
        let size = header.size as usize;
        if data.len() - HEADER_LEN < size {
            return Err(LoadError::UnexpectedEof);
        }
        let mut bytes: Vec<u8> = Vec::new();
        let mut i: usize = 0;
        let n = data.len();
        while i < size
            invariant
                i <= size,
                n == data@.len(),
                HEADER_LEN + size <= data@.len(),
                bytes@ == data@.subrange(HEADER_LEN as int, HEADER_LEN + i),
            decreases size - i,
        {
            bytes.push(data[HEADER_LEN + i]);
            i = i + 1;
            assert(bytes@ =~= data@.subrange(HEADER_LEN as int, HEADER_LEN + i));
        }
        Ok(TapTape { version: header.version, data: bytes, pos: 0 })
    }
}

impl Loader for TapLoader {
    open spec fn extension(&self) -> Seq<char> {
        "tap"@
    }

    /// Loads the tape and starts it with RUN.
    fn autostart(&self, data: &[u8]) -> (r: Result<Method, LoadError>)
        ensures
            r is Ok == (data@.len() >= HEADER_LEN && data@.subrange(0, 12) == tape_signature()
                && data@.len() - HEADER_LEN >= size_field(data@)),
    {
        match self.load(data) {
            Ok(image) => Ok(Method::WithAutostart(Some(Autostart::new(Mode::Run, image)))),
            Err(e) => Err(e),
        }
    }

    /// Loads the tape.
    fn load(&self, data: &[u8]) -> (r: Result<Image, LoadError>)
        ensures
            r is Ok == (data@.len() >= HEADER_LEN && data@.subrange(0, 12) == tape_signature()
                && data@.len() - HEADER_LEN >= size_field(data@)),
            r matches Ok(Image::Tap(image)) ==> (image.tape matches Some(t) && t.version
                == data@[12] && t.pos == 0 && t.data@ == data@.subrange(
                HEADER_LEN as int,
                HEADER_LEN + size_field(data@),
            )),
            r matches Ok(image) ==> image is Tap,
    {
        match self.read_tape(data) {
            Ok(tape) => Ok(Image::Tap(TapImage { tape: Some(tape) })),
            Err(e) => Err(e),
        }
    }
}

} // verus!
