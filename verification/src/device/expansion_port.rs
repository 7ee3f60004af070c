//! The expansion port: holds a cartridge and drives the GAME and EXROM lines.

use vstd::prelude::*;
use crate::bits::{set_bit_u8, with_bit_u8};
use crate::common::io_port::{noticed, IoPort};
use crate::common::traits::Addressable;
use super::cartridge::{can_switch, Cartridge, CartridgeView};

verus! {

/// Port line bit carrying GAME.
pub const GAME_LINE: usize = 3;
/// Port line bit carrying EXROM.
pub const EXROM_LINE: usize = 4;

/// The GAME and EXROM lines of the expansion port.
#[derive(Copy, Clone, PartialEq, Eq, Structural)]
pub enum IoLine {
    Game,
    Exrom,
}

impl IoLine {
    /// The line's bit.
    pub fn value(self) -> (r: usize)
        ensures
            r == (match self {
                IoLine::Game => GAME_LINE,
                IoLine::Exrom => EXROM_LINE,
            }),
    {
        match self {
            IoLine::Game => GAME_LINE,
            IoLine::Exrom => EXROM_LINE,
        }
    }
}

/// The line byte for the given GAME and EXROM levels.
pub open spec fn line_value(game: bool, exrom: bool) -> u8 {
    with_bit_u8(with_bit_u8(0, GAME_LINE as u8, game), EXROM_LINE as u8, exrom)
}

/// The expansion port: an optional cartridge and the lines it drives.
pub struct ExpansionPort {
    pub cartridge: Option<Cartridge>,
    pub io_line: IoPort,
}

impl ExpansionPort {
    /// An empty port driving `io_line`.
    pub fn new(io_line: IoPort) -> (r: Self)
        ensures
            r.cartridge is None,
            r.io_line == io_line,
    {
        Self { cartridge: None, io_line }
    }

    fn line_byte(game: bool, exrom: bool) -> (r: u8)
        ensures
            r == line_value(game, exrom),
    {
        let mut io_value: u8 = 0;
        io_value = set_bit_u8(io_value, IoLine::Game.value(), game);
        io_value = set_bit_u8(io_value, IoLine::Exrom.value(), exrom);
        io_value
    }

    /// Inserts `cartridge` and drives its GAME and EXROM levels.
    pub fn attach(&mut self, cartridge: Cartridge)
        ensures
            final(self).cartridge == Some(cartridge),
            final(self).io_line == noticed(IoPort {
                output: line_value(cartridge.game, cartridge.exrom),
                ..old(self).io_line
            }),
    {
        let io_value = Self::line_byte(cartridge.get_game(), cartridge.get_exrom());
        self.io_line.set_value(io_value);
        self.cartridge = Some(cartridge);
    }

    /// Removes the cartridge, releasing both lines high.
    pub fn detach(&mut self)
        ensures
            final(self).cartridge is None,
            old(self).cartridge is Some ==> final(self).io_line == noticed(IoPort {
                output: line_value(true, true),
                ..old(self).io_line
            }),
            old(self).cartridge is None ==> final(self).io_line == old(self).io_line,
    {
        if self.cartridge.is_some() {
            self.cartridge = None;
            let io_value = Self::line_byte(true, true);
            self.io_line.set_value(io_value);
        }
    }

    /// Resets the cartridge to bank 0 and drives its lines, or releases them without one.
    pub fn reset(&mut self)
        requires
            old(self).cartridge matches Some(c) ==> can_switch(c.banks@, 0),
        ensures
            old(self).cartridge is None ==> final(self).cartridge is None
                && final(self).io_line == noticed(IoPort { output: line_value(true, true), ..old(self).io_line }),
            old(self).cartridge matches Some(c) ==> final(self).cartridge matches Some(d)
                && d.bank_lo == 0 && d.bank_hi == 0 && d.banks@ == c.banks@
                && d.game == c.game && d.exrom == c.exrom && d.hw_type == c.hw_type
                && final(self).io_line == noticed(IoPort { output: line_value(c.game, c.exrom), ..old(self).io_line }),
    {
        match self.cartridge {
            Some(ref mut cartridge) => {
                cartridge.reset();
                let io_value = Self::line_byte(cartridge.get_game(), cartridge.get_exrom());
                self.io_line.set_value(io_value);
            },
            None => {
                let io_value = Self::line_byte(true, true);
                self.io_line.set_value(io_value);
            },
        }
    }
}

impl View for ExpansionPort {
    type V = Option<CartridgeView>;

    open spec fn view(&self) -> Option<CartridgeView> {
        match self.cartridge {
            Some(c) => Some(c@),
            None => None,
        }
    }
}

impl Addressable for ExpansionPort {
    /// The cartridge's byte, or 0 with no cartridge.
    open spec fn peek(port: Option<CartridgeView>, address: u16) -> u8 {
        match port {
            Some(c) => <Cartridge as Addressable>::peek(c, address),
            None => 0,
        }
    }

    open spec fn poke(port: Option<CartridgeView>, address: u16, value: u8) -> Option<CartridgeView> {
        match port {
            Some(c) => Some(<Cartridge as Addressable>::poke(c, address, value)),
            None => None,
        }
    }

    open spec fn readable(port: Option<CartridgeView>, address: u16) -> bool {
        match port {
            Some(c) => <Cartridge as Addressable>::readable(c, address),
            None => true,
        }
    }

    open spec fn writable(port: Option<CartridgeView>, address: u16, value: u8) -> bool {
        match port {
            Some(c) => <Cartridge as Addressable>::writable(c, address, value),
            None => true,
        }
    }

    fn read(&self, address: u16) -> (value: u8) {
        match self.cartridge {
            Some(ref cartridge) => cartridge.read(address),
            None => 0,
        }
    }

    fn write(&mut self, address: u16, value: u8)
        ensures
            final(self).io_line == old(self).io_line,
    {
        match self.cartridge {
            Some(ref mut cartridge) => cartridge.write(address, value),
            None => {},
        }
    }
}

} // verus!
