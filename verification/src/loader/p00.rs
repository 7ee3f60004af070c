//! P00 files: a 26-byte PC64 header ("C64File", the program's name and a
//! record size), then the program as a PRG file holds it.

use vstd::prelude::*;
use super::autostart::{Autostart, Method, Mode};
use super::prg::{prg_image, PrgImage, PrgLoader};
use super::{copy_from, Image, LoadError, Loader};

verus! {

/// The length of a P00 header.
pub const P00_HEADER_LEN: usize = 26;

/// The bytes a P00 file starts with: "C64File" and a zero.
pub open spec fn p00_signature() -> Seq<u8> {
    seq![0x43u8, 0x36, 0x34, 0x46, 0x69, 0x6c, 0x65, 0x00]
}

/// Whether `data` starts with a whole header carrying the P00 signature.
pub open spec fn p00_header_ok(data: Seq<u8>) -> bool {
    data.len() >= P00_HEADER_LEN && data.subrange(0, 8) == p00_signature()
}

/// The program a P00 file holds after its header.
pub open spec fn p00_program(data: Seq<u8>) -> Seq<u8> {
    data.subrange(P00_HEADER_LEN as int, data.len() as int)
}

/// Loads P00 files.
pub struct P00Loader {}

impl P00Loader {
    /// A P00 loader.
    pub fn new() -> (r: P00Loader) {
        P00Loader {}
    }

    /// Checks the header and splits the program after it into its load
    /// address and bytes.
    pub fn read_image(&self, data: &[u8]) -> (r: Result<PrgImage, LoadError>)
        ensures
            data@.len() < P00_HEADER_LEN ==> r == Err::<PrgImage, LoadError>(LoadError::UnexpectedEof),
            data@.len() >= P00_HEADER_LEN && !p00_header_ok(data@) ==> (r matches Err(
                LoadError::InvalidData(m),
            ) && m@ == "invalid P00 signature"@),
            p00_header_ok(data@) ==> match prg_image(p00_program(data@)) {
                Some((offset, program)) => r matches Ok(image) && image.offset == offset
                    && image.data@ == program,
                None => r == Err::<PrgImage, LoadError>(LoadError::UnexpectedEof),
            },
    {
        if data.len() < P00_HEADER_LEN {
            return Err(LoadError::UnexpectedEof);
        }
        let expected: [u8; 8] = [0x43, 0x36, 0x34, 0x46, 0x69, 0x6c, 0x65, 0x00];
        assert(expected@ =~= p00_signature());
        let mut i: usize = 0;
        while i < 8
            invariant
                i <= 8,
                data@.len() >= P00_HEADER_LEN,
                expected@ == p00_signature(),
                forall|j: int| 0 <= j < i ==> data@[j] == expected@[j],
            decreases 8 - i,
        {
            if data[i] != expected[i] {
                assert(data@.subrange(0, 8)[i as int] != p00_signature()[i as int]);
                return Err(LoadError::InvalidData(String::from_str("invalid P00 signature")));
            }
            i = i + 1;
        }
        assert(data@.subrange(0, 8) =~= p00_signature());
        let program = copy_from(data, P00_HEADER_LEN);
        PrgLoader::new().read_image(program.as_slice())
    }
}

impl Loader for P00Loader {
    open spec fn extension(&self) -> Seq<char> {
        "p00"@
    }

    /// Loads the program and starts it with RUN.
    fn autostart(&self, data: &[u8]) -> (r: Result<Method, LoadError>)
        ensures
            p00_header_ok(data@) ==> match prg_image(p00_program(data@)) {
                Some((offset, program)) => r matches Ok(Method::WithAutostart(Some(a)))
                    && a.mode == Mode::Run && (a.image matches Image::Prg(image) && image.offset
                    == offset && image.data@ == program),
                None => r is Err,
            },
            !p00_header_ok(data@) ==> r is Err,
    {
        match self.read_image(data) {
            Ok(image) => Ok(Method::WithAutostart(Some(Autostart::new(Mode::Run, Image::Prg(image))))),
            Err(e) => Err(e),
        }
    }

    /// Loads the program.
    fn load(&self, data: &[u8]) -> (r: Result<Image, LoadError>)
        ensures
            data@.len() < P00_HEADER_LEN ==> r == Err::<Image, LoadError>(LoadError::UnexpectedEof),
            data@.len() >= P00_HEADER_LEN && !p00_header_ok(data@) ==> (r matches Err(
                LoadError::InvalidData(m),
            ) && m@ == "invalid P00 signature"@),
            p00_header_ok(data@) ==> match prg_image(p00_program(data@)) {
                Some((offset, program)) => r matches Ok(Image::Prg(image)) && image.offset == offset
                    && image.data@ == program,
                None => r == Err::<Image, LoadError>(LoadError::UnexpectedEof),
            },
    {
        match self.read_image(data) {
            Ok(image) => Ok(Image::Prg(image)),
            Err(e) => Err(e),
        }
    }
}

} // verus!
