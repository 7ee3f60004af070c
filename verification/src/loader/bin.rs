//! Raw binary images, placed at a fixed address.

use vstd::prelude::*;
use super::autostart::Method;
use super::{copy_from, Image, LoadError, Loader};

verus! {

/// A raw binary and the address it is placed at.
pub struct BinImage {
    pub data: Vec<u8>,
    pub offset: u16,
}

/// Loads raw binaries at a fixed address.
pub struct BinLoader {
    pub offset: u16,
}

impl BinLoader {
    /// A loader placing binaries at `offset`.
    pub fn new(offset: u16) -> (r: Self)
        ensures
            r.offset == offset,
    {
        Self { offset }
    }
}

impl Loader for BinLoader {
    open spec fn extension(&self) -> Seq<char> {
        "bin"@
    }

    /// The whole file is the binary; it is mounted and jumped to.
    fn autostart(&self, data: &[u8]) -> (r: Result<Method, LoadError>)
        ensures
            r matches Ok(Method::WithBinImage(Image::Bin(image))) && image.data@ == data@
                && image.offset == self.offset,
    {
        match self.load(data) {
            Ok(image) => Ok(Method::WithBinImage(image)),
            Err(e) => Err(e),
        }
    }

    /// The whole file is the binary.
    fn load(&self, data: &[u8]) -> (r: Result<Image, LoadError>)
        ensures
            r matches Ok(Image::Bin(image)) && image.data@ == data@ && image.offset == self.offset,
    {
        let bytes = copy_from(data, 0);
        assert(data@.subrange(0, data@.len() as int) =~= data@);
        Ok(Image::Bin(BinImage { data: bytes, offset: self.offset }))
    }
}

} // verus!
