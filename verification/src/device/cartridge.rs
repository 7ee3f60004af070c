//! Cartridges: ROM chips in banks, and the bank switching of the common
//! cartridge hardware types.

use vstd::prelude::*;
use crate::common::traits::Addressable;

verus! {

/// The kind of memory chip in a cartridge bank.
#[derive(Clone, Copy, PartialEq, Eq, Structural)]
pub enum ChipType {
    Rom,
    Ram,
    FlashRom,
}

/// The chip kind a CRT chip header code names, where it names one.
pub open spec fn chip_type_of(code: u16) -> Option<ChipType> {
    if code == 0 {
        Some(ChipType::Rom)
    } else if code == 1 {
        Some(ChipType::Ram)
    } else if code == 2 {
        Some(ChipType::FlashRom)
    } else {
        None
    }
}

impl ChipType {
    /// The chip kind of header code `chip_type` (0 ROM, 1 RAM, 2 flash).
    pub fn from(chip_type: u16) -> (r: ChipType)
        requires
            chip_type < 3,
        ensures
            chip_type_of(chip_type) == Some(r),
    {
        if chip_type == 0 {
            ChipType::Rom
        } else if chip_type == 1 {
            ChipType::Ram
        } else {
            ChipType::FlashRom
        }
    }
}

/// One chip of a cartridge: its bank, load address and contents.
pub struct Chip {
    pub chip_type: ChipType,
    pub bank_number: u8,
    pub offset: u16,
    pub size: u16,
    pub data: Vec<u8>,
}

/// The cartridge hardware type, deciding how banks are switched.
#[derive(Clone, Copy, PartialEq, Eq, Structural)]
pub enum HwType {
    Normal,
    ActionReplay,
    KCSPower,
    Final3,
    SimonsBasic,
    OceanType1,
    Expert,
}

/// The hardware type a CRT header code names, where it names one.
pub open spec fn hw_type_of(value: u8) -> Option<HwType> {
    if value == 0 {
        Some(HwType::Normal)
    } else if value == 1 {
        Some(HwType::ActionReplay)
    } else if value == 2 {
        Some(HwType::KCSPower)
    } else if value == 3 {
        Some(HwType::Final3)
    } else if value == 4 {
        Some(HwType::SimonsBasic)
    } else if value == 5 {
        Some(HwType::OceanType1)
    } else if value == 6 {
        Some(HwType::Expert)
    } else {
        None
    }
}

impl HwType {
    /// The hardware type of header code `value` (0 to 6).
    pub fn from(value: u8) -> (r: HwType)
        requires
            value < 7,
        ensures
            hw_type_of(value) == Some(r),
    {
        if value == 0 {
            HwType::Normal
        } else if value == 1 {
            HwType::ActionReplay
        } else if value == 2 {
            HwType::KCSPower
        } else if value == 3 {
            HwType::Final3
        } else if value == 4 {
            HwType::SimonsBasic
        } else if value == 5 {
            HwType::OceanType1
        } else {
            HwType::Expert
        }
    }
}

/// A cartridge: its chips and the banks currently mapped at $8000 and $A000.
pub struct Cartridge {
    pub version: u16,
    pub hw_type: HwType,
    pub exrom: bool,
    pub game: bool,
    pub banks: Vec<Chip>,
    pub bank_lo: usize,
    pub bank_hi: usize,
}

/// Whether a chip of bank `n` is loaded below $A000.
pub open spec fn has_lo_bank(banks: Seq<Chip>, n: u8) -> bool {
    exists|i: int| 0 <= i < banks.len() && banks[i].bank_number == n && banks[i].offset < 0xa000
}

/// Whether a chip of bank `n` is loaded at or above $A000.
pub open spec fn has_hi_bank(banks: Seq<Chip>, n: u8) -> bool {
    exists|i: int| 0 <= i < banks.len() && banks[i].bank_number == n && banks[i].offset >= 0xa000
}

/// Whether bank `n` can be switched in: it has a low chip, and a high chip or
/// (counting chips by bank number) a 16K chip at position `n`.
pub open spec fn can_switch(banks: Seq<Chip>, n: u8) -> bool {
    &&& has_lo_bank(banks, n)
    &&& (has_hi_bank(banks, n) || ((n as int) < banks.len() && banks[n as int].size >= 0x4000))
}

/// Whether a write of `value` to `address` is one the hardware accepts.
pub open spec fn io_write_ok(c: Cartridge, address: u16, value: u8) -> bool {
    if address == 0xde00 && c.hw_type == HwType::OceanType1 {
        can_switch(c.banks@, value & 0x3f)
    } else if address == 0xdfff && c.hw_type == HwType::Final3 {
        value >= 0x40 && can_switch(c.banks@, (value - 0x40) as u8)
    } else {
        true
    }
}

impl Cartridge {
    /// The EXROM line.
    pub fn get_exrom(&self) -> (r: bool)
        ensures
            r == self.exrom,
    {
        self.exrom
    }

    /// The GAME line.
    pub fn get_game(&self) -> (r: bool)
        ensures
            r == self.game,
    {
        self.game
    }

    /// Adds a chip.
    pub fn add(&mut self, chip: Chip)
        ensures
            final(self).banks@ == old(self).banks@.push(chip),
            final(self).bank_lo == old(self).bank_lo,
            final(self).bank_hi == old(self).bank_hi,
            final(self).game == old(self).game,
            final(self).exrom == old(self).exrom,
            final(self).hw_type == old(self).hw_type,
            final(self).version == old(self).version,
    {
        self.banks.push(chip);
    }

    /// Switches bank 0 in.
    pub fn reset(&mut self)
        requires
            can_switch(old(self).banks@, 0),
        ensures
            final(self).bank_lo == 0,
            final(self).bank_hi == 0,
            final(self).banks@ == old(self).banks@,
            final(self).game == old(self).game,
            final(self).exrom == old(self).exrom,
            final(self).hw_type == old(self).hw_type,
            final(self).version == old(self).version,
    {
        self.switch_bank(0);
    }

    /// Maps bank `bank_number` at both $8000 and $A000.
    pub fn switch_bank(&mut self, bank_number: u8)
        requires
            can_switch(old(self).banks@, bank_number),
        ensures
            final(self).bank_lo == bank_number as usize,
            final(self).bank_hi == bank_number as usize,
            final(self).banks@ == old(self).banks@,
            final(self).game == old(self).game,
            final(self).exrom == old(self).exrom,
            final(self).hw_type == old(self).hw_type,
            final(self).version == old(self).version,
    {
        let n = self.banks.len();
        let mut lo: Option<usize> = None;
        let mut hi: Option<usize> = None;
        let mut i: usize = 0;
        while i < n
            invariant
                n == self.banks@.len(),
                i <= n,
                lo matches Some(j) ==> j < n && self.banks@[j as int].bank_number == bank_number
                    && self.banks@[j as int].offset < 0xa000,
                lo is None ==> forall|j: int| 0 <= j < i ==> !(self.banks@[j].bank_number == bank_number
                    && self.banks@[j].offset < 0xa000),
                hi matches Some(j) ==> j < n && self.banks@[j as int].bank_number == bank_number
                    && self.banks@[j as int].offset >= 0xa000,
                hi is None ==> forall|j: int| 0 <= j < i ==> !(self.banks@[j].bank_number == bank_number
                    && self.banks@[j].offset >= 0xa000),
            decreases n - i,
        {
            let bank = &self.banks[i];
            if lo.is_none() && bank.bank_number == bank_number && bank.offset < 0xa000 {
                lo = Some(i);
            }
            if hi.is_none() && bank.bank_number == bank_number && bank.offset >= 0xa000 {
                hi = Some(i);
            }
            i = i + 1;
        }
        match lo {
            Some(j) => {
                self.bank_lo = self.banks[j].bank_number as usize;
            },
            None => {
                assert(false);
            },
        }
        match hi {
            Some(j) => {
                self.bank_hi = self.banks[j].bank_number as usize;
            },
            None => {
                self.bank_hi = self.bank_lo;
            },
        }
    }

    /// Reads the I/O area of the cartridge.
    pub fn read_io(&self, _address: u16) -> (r: u8)
        ensures
            r == 0,
    {
        0
    }

    /// Writes the I/O area: Simons' BASIC sets GAME from a write to $DE00,
    /// Ocean type 1 switches to the bank written to $DE00, Final Cartridge III
    /// to the bank written to $DFFF less $40.
    pub fn write_io(&mut self, address: u16, value: u8)
        requires
            io_write_ok(*old(self), address, value),
        ensures
            final(self)@ == io_written(old(self)@, address, value),
    {
        if address == 0xde00 && self.hw_type == HwType::SimonsBasic {
            self.game = value == 0x01;
        } else if address == 0xde00 && self.hw_type == HwType::OceanType1 {
            self.switch_bank(value & 0x3f);
        } else if address == 0xdfff && self.hw_type == HwType::Final3 {
            self.switch_bank(value - 0x40);
        }
    }
}

/// A cartridge as a value: its lines, hardware type, chips and the banks
/// switched in.
pub struct CartridgeView {
    pub version: u16,
    pub hw_type: HwType,
    pub exrom: bool,
    pub game: bool,
    pub banks: Seq<Chip>,
    pub bank_lo: usize,
    pub bank_hi: usize,
}

impl View for Cartridge {
    type V = CartridgeView;

    open spec fn view(&self) -> CartridgeView {
        CartridgeView {
            version: self.version,
            hw_type: self.hw_type,
            exrom: self.exrom,
            game: self.game,
            banks: self.banks@,
            bank_lo: self.bank_lo,
            bank_hi: self.bank_hi,
        }
    }
}

/// The cartridge after a write to its I/O area.
pub open spec fn io_written(c: CartridgeView, address: u16, value: u8) -> CartridgeView {
    if address == 0xde00 && c.hw_type == HwType::SimonsBasic {
        CartridgeView { game: value == 1, ..c }
    } else if address == 0xde00 && c.hw_type == HwType::OceanType1 {
        CartridgeView { bank_lo: (value & 0x3f) as usize, bank_hi: (value & 0x3f) as usize, ..c }
    } else if address == 0xdfff && c.hw_type == HwType::Final3 {
        CartridgeView { bank_lo: (value - 0x40) as usize, bank_hi: (value - 0x40) as usize, ..c }
    } else {
        c
    }
}

/// Whether the chip of bank index `bank` holds `address`.
pub open spec fn bank_holds(c: CartridgeView, bank: usize, address: u16) -> bool {
    &&& bank < c.banks.len()
    &&& c.banks[bank as int].offset <= address
    &&& address - c.banks[bank as int].offset < c.banks[bank as int].data@.len()
}

/// The byte of the chip of bank index `bank` at `address`.
pub open spec fn bank_byte(c: CartridgeView, bank: usize, address: u16) -> u8 {
    c.banks[bank as int].data@[address - c.banks[bank as int].offset]
}

impl Addressable for Cartridge {
    /// ROM at $8000-$9FFF from the low bank, at $A000-$BFFF from the high
    /// bank; the I/O area reads 0.
    open spec fn peek(c: CartridgeView, address: u16) -> u8 {
        if 0x8000 <= address <= 0x9fff {
            bank_byte(c, c.bank_lo, address)
        } else if 0xa000 <= address <= 0xbfff {
            bank_byte(c, c.bank_hi, address)
        } else {
            0
        }
    }

    open spec fn poke(c: CartridgeView, address: u16, value: u8) -> CartridgeView {
        io_written(c, address, value)
    }

    /// The ROM areas where the switched-in chip covers the address, and the
    /// I/O area.
    open spec fn readable(c: CartridgeView, address: u16) -> bool {
        if 0x8000 <= address <= 0x9fff {
            bank_holds(c, c.bank_lo, address)
        } else if 0xa000 <= address <= 0xbfff {
            bank_holds(c, c.bank_hi, address)
        } else {
            0xde00 <= address <= 0xdfff
        }
    }

    /// Only the I/O area, with a bank that exists where the write switches banks.
    open spec fn writable(c: CartridgeView, address: u16, value: u8) -> bool {
        &&& 0xde00 <= address <= 0xdfff
        &&& (address == 0xde00 && c.hw_type == HwType::OceanType1 ==> can_switch(c.banks, value & 0x3f))
        &&& (address == 0xdfff && c.hw_type == HwType::Final3 ==> value >= 0x40 && can_switch(
            c.banks,
            (value - 0x40) as u8,
        ))
    }

    fn read(&self, address: u16) -> (value: u8) {
        if 0x8000 <= address && address <= 0x9fff {
            let bank = &self.banks[self.bank_lo];
            bank.data[(address - bank.offset) as usize]
        } else if 0xa000 <= address && address <= 0xbfff {
            let bank = &self.banks[self.bank_hi];
            bank.data[(address - bank.offset) as usize]
        } else {
            self.read_io(address)
        }
    }

    fn write(&mut self, address: u16, value: u8) {
        self.write_io(address, value);
    }
}

} // verus!
