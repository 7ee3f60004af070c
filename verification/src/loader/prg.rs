//! PRG files: a little-endian load address followed by the program.

use vstd::prelude::*;
use byteorder::{ByteOrder, LittleEndian};
use super::autostart::{Autostart, Method, Mode};
use super::{copy_from, Image, LoadError, Loader};

verus! {

/// `byteorder`'s `LittleEndian::read_u16`: the first two bytes of `buf` as a
/// little-endian word; it panics on fewer than two bytes, which `requires`
/// leaves out.
#[verifier::external_body]
fn read_u16_le(buf: &[u8]) -> (r: u16)
    requires
        buf@.len() >= 2,
    ensures
        r == buf@[0] as int + buf@[1] as int * 256,
{
    LittleEndian::read_u16(buf)
}

/// A program and the address it loads at.
pub struct PrgImage {
    pub data: Vec<u8>,
    pub offset: u16,
}

/// Loads PRG files.
pub struct PrgLoader {}

/// The image a PRG file holds, or `None` when the file is too short to hold
/// a load address.
pub open spec fn prg_image(data: Seq<u8>) -> Option<(u16, Seq<u8>)> {
    if data.len() < 2 {
        None
    } else {
        Some(((data[0] as int + data[1] as int * 256) as u16, data.subrange(2, data.len() as int)))
    }
}

impl PrgLoader {
    /// A PRG loader.
    pub fn new() -> (r: PrgLoader) {
        PrgLoader {}
    }

    /// Splits a PRG file into its load address and program.
    pub fn read_image(&self, data: &[u8]) -> (r: Result<PrgImage, LoadError>)
        ensures
            match prg_image(data@) {
                Some((offset, program)) => r matches Ok(image) && image.offset == offset
                    && image.data@ == program,
                None => r == Err::<PrgImage, LoadError>(LoadError::UnexpectedEof),
            },
    {
        if data.len() < 2 {
            return Err(LoadError::UnexpectedEof);
        }
        let offset = read_u16_le(data);
        let program = copy_from(data, 2);
        Ok(PrgImage { data: program, offset })
    }
}

impl Loader for PrgLoader {
    open spec fn extension(&self) -> Seq<char> {
        "prg"@
    }

    /// Loads the program and starts it with RUN.
    fn autostart(&self, data: &[u8]) -> (r: Result<Method, LoadError>)
        ensures
            match prg_image(data@) {
                Some((offset, program)) => r matches Ok(Method::WithAutostart(Some(a)))
                    && a.mode == Mode::Run && (a.image matches Image::Prg(image) && image.offset
                    == offset && image.data@ == program),
                None => r is Err,
            },
    {
        match self.read_image(data) {
            Ok(image) => Ok(Method::WithAutostart(Some(Autostart::new(Mode::Run, Image::Prg(image))))),
            Err(e) => Err(e),
        }
    }

    /// Loads the program.
    fn load(&self, data: &[u8]) -> (r: Result<Image, LoadError>)
        ensures
            match prg_image(data@) {
                Some((offset, program)) => r matches Ok(Image::Prg(image)) && image.offset == offset
                    && image.data@ == program,
                None => r == Err::<Image, LoadError>(LoadError::UnexpectedEof),
            },
    {
        match self.read_image(data) {
            Ok(image) => Ok(Image::Prg(image)),
            Err(e) => Err(e),
        }
    }
}

} // verus!
