//! Program and tape image loaders: each turns the bytes of an image file
//! into an image the machine can mount.

pub mod autostart;
pub mod bin;
pub mod crt;
pub mod hex;
pub mod loaders;
pub mod p00;
pub mod prg;
pub mod tap;

use vstd::prelude::*;
use self::autostart::Method;

pub use self::autostart::Autostart;
pub use self::bin::{BinImage, BinLoader};
pub use self::crt::CrtLoader;
pub use self::hex::HexLoader;
pub use self::loaders::Loaders;
pub use self::p00::P00Loader;
pub use self::prg::{PrgImage, PrgLoader};
pub use self::tap::{TapImage, TapLoader, TapTape};

verus! {

/// Why an image could not be loaded.
#[derive(PartialEq, Eq, Debug)]
pub enum LoadError {
    /// The file ends before its header or its data does.
    UnexpectedEof,
    /// The file is not an image of the expected kind.
    InvalidData(String),
}

/// A loaded image.
pub enum Image {
    Bin(BinImage),
    Crt(crate::device::cartridge::Cartridge),
    Prg(PrgImage),
    Tap(TapImage),
}

/// A loader of one kind of image file, given the file's bytes.
pub trait Loader {
    /// The file name extension of the images this loader reads.
    spec fn extension(&self) -> Seq<char>;

    /// Loads the image and says how to start it.
    fn autostart(&self, data: &[u8]) -> Result<Method, LoadError>;

    /// Loads the image.
    fn load(&self, data: &[u8]) -> Result<Image, LoadError>;
}

/// A copy of `data[start..]`.
pub fn copy_from(data: &[u8], start: usize) -> (r: Vec<u8>)
    requires
        start <= data@.len(),
    ensures
        r@ == data@.subrange(start as int, data@.len() as int),
{
    let mut out: Vec<u8> = Vec::new();
    let mut i: usize = start;
    while i < data.len()
        invariant
            start <= i <= data@.len(),
            out@ == data@.subrange(start as int, i as int),
        decreases data@.len() - i,
    {
        out.push(data[i]);
        i = i + 1;
        assert(out@ =~= data@.subrange(start as int, i as int));
    }
    out
}

} // verus!
