//! Choosing a loader by file name extension.

use vstd::prelude::*;
use crate::text::str_eq;
use super::crt::CrtLoader;
use super::p00::P00Loader;
use super::prg::PrgLoader;
use super::tap::TapLoader;
use super::Loader;

verus! {

/// The extensions a loader exists for.
pub open spec fn known_ext(ext: Seq<char>) -> bool {
    ext == "crt"@ || ext == "p00"@ || ext == "prg"@ || ext == "tap"@
}

/// Picks loaders by extension.
pub struct Loaders;

impl Loaders {
    /// The loader for files with extension `ext`: "crt", "p00", "prg" or "tap".
    /// With no extension or any other one there is no loader: the result is
    /// `None` where a panic ("invalid loader") would leave the caller nothing
    /// to handle; a caller that wants that panic raises it on `None`.
    pub fn from_ext(ext: Option<&str>) -> (r: Option<Box<dyn Loader>>)
        ensures
            r is Some == match ext {
                Some(e) => known_ext(e@),
                None => false,
            },
            r matches Some(l) ==> ext matches Some(e) && l.extension() == e@,
    {
        match ext {
            Some(e) => {
                if str_eq(e, "crt") {
                    boxed_loader(0)
                } else if str_eq(e, "p00") {
                    boxed_loader(1)
                } else if str_eq(e, "prg") {
                    boxed_loader(2)
                } else if str_eq(e, "tap") {
                    boxed_loader(3)
                } else {
                    None
                }
            },
            None => None,
        }
    }

    /// The loader for the file name `path`, by the text after its last dot;
    /// `None`, in place of a panic, when no loader reads that extension.
    pub fn from_path(path: &str) -> (r: Option<Box<dyn Loader>>)
        ensures
            r is Some == known_ext(extension_of(path@)),
            r matches Some(l) ==> l.extension() == extension_of(path@),
    {
        let ext = extension(path);
        Loaders::from_ext(Some(ext))
    }
}

/// The loader of `kind`: 0 CRT, 1 P00, 2 PRG, anything else TAP.
fn boxed_loader(kind: u8) -> (r: Option<Box<dyn Loader>>)
    ensures
        r matches Some(l) && l.extension() == (if kind == 0 {
            "crt"@
        } else if kind == 1 {
            "p00"@
        } else if kind == 2 {
            "prg"@
        } else {
            "tap"@
        }),
{
    if kind == 0 {
        Some(Box::new(CrtLoader::new()))
    } else if kind == 1 {
        Some(Box::new(P00Loader::new()))
    } else if kind == 2 {
        Some(Box::new(PrgLoader::new()))
    } else {
        Some(Box::new(TapLoader::new()))
    }
}

/// The extension of a file name: the text after its last dot, or nothing.
pub open spec fn extension_of(path: Seq<char>) -> Seq<char>
    decreases path.len(),
{
    if path.len() == 0 {
        seq![]
    } else if path.last() == '.' {
        seq![]
    } else if !path.drop_last().contains('.') {
        seq![]
    } else {
        extension_of(path.drop_last()).push(path.last())
    }
}

/// The extension of a file name.
fn extension<'a>(path: &'a str) -> (r: &'a str)
    ensures
        r@ == extension_of(path@),
{
    let n = path.unicode_len();
    let mut i: usize = n;
    while i > 0
        invariant
            n == path@.len(),
            i <= n,
            forall|j: int| i <= j < n ==> path@[j] != '.',
        decreases i,
    {
        if path.get_char(i - 1) == '.' {
            proof {
                lemma_extension_after_dot(path@, (i - 1) as int);
            }
            return path.substring_char(i, n);
        }
        i = i - 1;
    }
    proof {
        lemma_extension_without_dot(path@);
    }
    path.substring_char(0, 0)
}

/// The extension is what follows the last dot.
proof fn lemma_extension_after_dot(path: Seq<char>, d: int)
    requires
        0 <= d < path.len(),
        path[d] == '.',
        forall|j: int| d < j < path.len() ==> path[j] != '.',
    ensures
        extension_of(path) == path.subrange(d + 1, path.len() as int),
    decreases path.len(),
{
    if d == path.len() - 1 {
        assert(path.subrange(d + 1, path.len() as int) =~= Seq::<char>::empty());
    } else {
        let p = path.drop_last();
        assert(p[d] == '.');
        assert(p.contains('.'));
        lemma_extension_after_dot(p, d);
        assert(path.subrange(d + 1, path.len() as int) =~= p.subrange(d + 1, p.len() as int).push(
            path.last(),
        ));
    }
}

/// Without a dot there is no extension.
proof fn lemma_extension_without_dot(path: Seq<char>)
    requires
        forall|j: int| 0 <= j < path.len() ==> path[j] != '.',
    ensures
        extension_of(path) == Seq::<char>::empty(),
{
    if path.len() > 0 {
        assert(!path.drop_last().contains('.'));
    }
}

} // verus!
