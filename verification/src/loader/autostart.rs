//! Starting a loaded program: mount its image, then type RUN.

use vstd::prelude::*;
use super::Image;

verus! {

/// How a program is started after its image is mounted.
#[derive(Clone, Copy, PartialEq, Eq, Structural)]
pub enum Mode {
    Run,
}

/// An image to mount and the way to start it.
pub struct Autostart {
    pub mode: Mode,
    pub image: Image,
}

impl Autostart {
    /// An autostart of `image` in `mode`.
    pub fn new(mode: Mode, image: Image) -> (r: Autostart)
        ensures
            r.mode == mode,
            r.image == image,
    {
        Autostart { mode, image }
    }

    /// The command typed to start the program.
    pub fn get_command(&self) -> (r: &'static str)
        ensures
            self.mode == Mode::Run ==> r@ == "RUN"@,
    {
        match self.mode {
            Mode::Run => "RUN",
        }
    }
}

/// How a loaded image is brought into the machine.
pub enum Method {
    /// Mount the image, then reset.
    WithImage(Image),
    /// Mount the image and jump to it.
    WithBinImage(Image),
    /// Reset, then mount and start the program.
    WithAutostart(Option<Autostart>),
}

} // verus!
