use zinc64::common::traits::Addressable;
use zinc64::common::IoPort;
use zinc64::device::cartridge::{Cartridge, Chip, ChipType, HwType};
use zinc64::device::expansion_port::ExpansionPort;

fn chip(bank_number: u8, fill: u8) -> Chip {
    Chip {
        chip_type: ChipType::Rom,
        bank_number,
        offset: 0x8000,
        size: 0x4000,
        data: vec![fill; 0x4000],
    }
}

fn ocean_cartridge() -> Cartridge {
    let mut cartridge = Cartridge {
        version: 0x0100,
        hw_type: HwType::OceanType1,
        exrom: false,
        game: false,
        banks: Vec::new(),
        bank_lo: 0,
        bank_hi: 0,
    };
    cartridge.add(chip(0, 0x10));
    cartridge.add(chip(1, 0x11));
    cartridge.reset();
    cartridge
}

#[test]
fn ocean_bank_switch_by_io_write() {
    let mut cartridge = ocean_cartridge();
    assert_eq!(0x10, cartridge.read(0x8000));
    assert_eq!(0x10, cartridge.read(0xa000));
    cartridge.write(0xde00, 0x01);
    assert_eq!(0x11, cartridge.read(0x8000));
    assert_eq!(0x11, cartridge.read(0xbfff));
    assert_eq!(0x00, cartridge.read(0xde00));
}

#[test]
fn simons_basic_game_line() {
    let mut cartridge = ocean_cartridge();
    cartridge.hw_type = HwType::SimonsBasic;
    cartridge.write(0xde00, 0x01);
    assert_eq!(true, cartridge.get_game());
    cartridge.write(0xde00, 0x00);
    assert_eq!(false, cartridge.get_game());
}

#[test]
fn expansion_port_reads_through_cartridge() {
    let mut port = ExpansionPort::new(IoPort::new(0xff, 0x00));
    assert_eq!(0, port.read(0x8000));
    port.attach(ocean_cartridge());
    assert_eq!(0x10, port.read(0x8000));
    assert_eq!(0x00, port.io_line.get_value() & 0x18);
    port.write(0xde00, 0x01);
    assert_eq!(0x11, port.read(0x9000));
    port.detach();
    assert_eq!(0, port.read(0x8000));
    assert_eq!(0x18, port.io_line.get_value() & 0x18);
}

#[test]
fn hardware_and_chip_types_from_codes() {
    assert!(HwType::from(5) == HwType::OceanType1);
    assert!(HwType::from(0) == HwType::Normal);
    assert!(ChipType::from(0) == ChipType::Rom);
    assert!(ChipType::from(2) == ChipType::FlashRom);
}
