use zinc64::device::datassette::Pulse;
use zinc64::common::{IoPort, Pin};
use zinc64::device::datassette::Datassette;
use zinc64::device::tape::Tape;
use zinc64::loader::autostart::{Method, Mode};
use zinc64::loader::{CrtLoader, HexLoader, Image, LoadError, Loader, Loaders, P00Loader, PrgLoader, TapLoader, TapTape};

fn tap_file(version: u8, data: &[u8]) -> Vec<u8> {
    let mut bytes = b"C64-TAPE-RAW".to_vec();
    bytes.push(version);
    bytes.extend_from_slice(&[0, 0, 0]);
    let size = data.len() as u32;
    bytes.extend_from_slice(&size.to_le_bytes());
    bytes.extend_from_slice(data);
    bytes
}

#[test]
fn prg_splits_load_address_and_program() {
    let loader = PrgLoader::new();
    match loader.load(&[0x01, 0x08, 0xa9, 0x00]) {
        Ok(Image::Prg(image)) => {
            assert_eq!(0x0801, image.offset);
            assert_eq!(vec![0xa9, 0x00], image.data);
        }
        _ => panic!("expected a program"),
    }
}

#[test]
fn prg_too_short_for_address() {
    let loader = PrgLoader::new();
    match loader.load(&[0x01]) {
        Err(error) => assert_eq!(LoadError::UnexpectedEof, error),
        _ => panic!("expected an error"),
    }
}

#[test]
fn prg_autostarts_with_run() {
    let loader = PrgLoader::new();
    match loader.autostart(&[0x00, 0xc0]) {
        Ok(Method::WithAutostart(Some(autostart))) => {
            assert!(autostart.mode == Mode::Run);
            assert_eq!("RUN", autostart.get_command());
        }
        _ => panic!("expected an autostart"),
    }
}

#[test]
fn tap_pulses_short_and_long() {
    let loader = TapLoader::new();
    let file = tap_file(1, &[0x30, 0x00, 0x10, 0x20, 0x00]);
    let mut tape = match loader.load(&file) {
        Ok(Image::Tap(image)) => image.tape.unwrap(),
        _ => panic!("expected a tape"),
    };
    assert_eq!(1, tape.version);
    assert!(tape.is_playable());
    assert_eq!(Some(0x30 * 8), tape.read_pulse());
    assert_eq!(Some(0x002010), tape.read_pulse());
    assert_eq!(None, tape.read_pulse());
    assert!(tape.seek(0));
    assert_eq!(Some(0x30 * 8), tape.read_pulse());
    assert!(!tape.seek(5));
}

#[test]
fn tap_version_zero_long_pulse() {
    let mut tape = TapTape { version: 0, data: vec![0x00, 0x01], pos: 0 };
    assert!(tape.is_playable());
    assert_eq!(Some(2048), tape.read_pulse());
    assert_eq!(Some(8), tape.read_pulse());
}

#[test]
fn tap_truncated_long_pulse_is_not_playable() {
    let tape = TapTape { version: 1, data: vec![0x10, 0x00, 0x01], pos: 0 };
    assert!(!tape.is_playable());
    let tape = TapTape { version: 1, data: vec![0x10, 0x00, 0x01, 0x00, 0x00], pos: 0 };
    assert!(tape.is_playable());
    let tape = TapTape { version: 2, data: vec![0x10], pos: 0 };
    assert!(!tape.is_playable());
}

#[test]
fn tap_header_errors() {
    let loader = TapLoader::new();
    match loader.load(b"C64-TAPE") {
        Err(LoadError::InvalidData(message)) => assert_eq!("invalid tape header", message),
        _ => panic!("expected an error"),
    }
    let mut file = tap_file(1, &[0x30]);
    file[0] = b'X';
    match loader.load(&file) {
        Err(LoadError::InvalidData(message)) => assert_eq!("invalid cartridge signature", message),
        _ => panic!("expected an error"),
    }
    let mut file = tap_file(1, &[0x30, 0x31]);
    file.pop();
    match loader.load(&file) {
        Err(error) => assert_eq!(LoadError::UnexpectedEof, error),
        _ => panic!("expected an error"),
    }
}

#[test]
fn loaders_by_extension() {
    assert!(Loaders::from_ext(Some("prg")).is_some());
    assert!(Loaders::from_ext(Some("tap")).is_some());
    assert!(Loaders::from_ext(Some("crt")).is_some());
    assert!(Loaders::from_ext(Some("p00")).is_some());
    assert!(Loaders::from_ext(Some("d64")).is_none());
    assert!(Loaders::from_ext(None).is_none());
    assert!(Loaders::from_path("games/elite.tap").is_some());
    assert!(Loaders::from_path("games/elite").is_none());
    let loader = Loaders::from_path("demo.prg").unwrap();
    match loader.load(&[0x00, 0x10, 0x60]) {
        Ok(Image::Prg(image)) => assert_eq!(0x1000, image.offset),
        _ => panic!("expected a program"),
    }
}

#[test]
fn hex_bytes_and_words() {
    let loader = HexLoader::new();
    assert_eq!(0x0c, loader.map_hex('C'));
    assert_eq!(0xff, loader.map_hex('g'));
    assert_eq!(Some(0xa9), loader.parse_byte("a9"));
    assert_eq!(None, loader.parse_byte("g0"));
    assert_eq!(None, loader.parse_byte("a"));
    assert_eq!(Some(0x0801), loader.parse_word("0801"));
    assert_eq!(None, loader.parse_word("08x1"));
}

#[test]
fn datassette_plays_tape_onto_flag_pin() {
    let mut datassette: Datassette<TapTape> = Datassette::new();
    let mut flag = Pin::new_low();
    let mut port = IoPort::new(0x2f, 0xff);
    port.set_value(0x00);
    datassette.attach(TapTape { version: 0, data: vec![0x01], pos: 0 });
    datassette.play(&mut port);
    assert!(datassette.is_playing(&port));
    for _ in 0..4 {
        datassette.clock(&mut flag, &mut port);
        assert!(flag.is_low());
    }
    for _ in 0..4 {
        datassette.clock(&mut flag, &mut port);
        assert!(flag.is_high());
    }
    datassette.clock(&mut flag, &mut port);
    assert!(!datassette.is_playing(&port));
}

#[test]
fn hex_listing_skips_comments_and_directives() {
    let loader = HexLoader::new();
    let text = ".text ; start\n78 a9 FF ; sei, lda #$ff\r\n\n  8d 02 dc\n";
    let bytes = loader.parse_listing(text).ok().unwrap();
    assert_eq!(vec![0x78, 0xa9, 0xff, 0x8d, 0x02, 0xdc], bytes);
    match loader.load(text, 0xc000) {
        Ok(Image::Bin(image)) => {
            assert_eq!(0xc000, image.offset);
            assert_eq!(6, image.data.len());
        }
        _ => panic!("expected a binary image"),
    }
}

#[test]
fn hex_listing_reports_first_bad_token() {
    let loader = HexLoader::new();
    let err = loader.parse_listing("a9 00\n8d xyz 01 ; bad\nzz\n").err().unwrap();
    assert_eq!(2, err.line);
    assert_eq!("xyz", err.token);
    let err = loader.parse_listing("a9 0").err().unwrap();
    assert_eq!(1, err.line);
    assert_eq!("0", err.token);
    assert_eq!(0, loader.parse_listing("; only a comment").ok().unwrap().len());
}

fn crt_file(hw_type: u8, chips: &[(u16, u16, Vec<u8>)]) -> Vec<u8> {
    let mut data = b"C64 CARTRIDGE   ".to_vec();
    data.extend_from_slice(&[0x00, 0x00, 0x00, 0x40]);
    data.extend_from_slice(&[0x01, 0x00]);
    data.extend_from_slice(&[0x00, hw_type]);
    data.push(0x00);
    data.push(0x01);
    data.resize(0x40, 0);
    for (bank, address, bytes) in chips {
        let len = 0x10 + bytes.len() as u32;
        data.extend_from_slice(b"CHIP");
        data.extend_from_slice(&len.to_be_bytes());
        data.extend_from_slice(&[0x00, 0x00]);
        data.extend_from_slice(&bank.to_be_bytes());
        data.extend_from_slice(&address.to_be_bytes());
        data.extend_from_slice(&(bytes.len() as u16).to_be_bytes());
        data.extend_from_slice(bytes);
    }
    data
}

#[test]
fn crt_loader_reads_header_and_chips() {
    let data = crt_file(5, &[(0, 0x8000, vec![1, 2, 3]), (1, 0xa000, vec![9])]);
    match CrtLoader::new().load(&data) {
        Ok(Image::Crt(cartridge)) => {
            assert_eq!(0x0100, cartridge.version);
            assert!(!cartridge.exrom);
            assert!(cartridge.game);
            assert_eq!(2, cartridge.banks.len());
            assert_eq!(0, cartridge.banks[0].bank_number);
            assert_eq!(0x8000, cartridge.banks[0].offset);
            assert_eq!(vec![1, 2, 3], cartridge.banks[0].data);
            assert_eq!(1, cartridge.banks[1].bank_number);
            assert_eq!(0xa000, cartridge.banks[1].offset);
            assert_eq!(1, cartridge.banks[1].size);
        }
        _ => panic!("expected a cartridge"),
    }
}

#[test]
fn crt_loader_refuses_bad_files() {
    let loader = CrtLoader::new();
    assert_eq!(Some(LoadError::UnexpectedEof), loader.load(&[0x43; 10]).err());
    let mut data = crt_file(0, &[(0, 0x8000, vec![1, 2, 3])]);
    data[0] = b'X';
    assert_eq!(
        Some(LoadError::InvalidData("invalid cartridge signature".to_string())),
        loader.load(&data).err()
    );
    let data = crt_file(9, &[]);
    assert_eq!(
        Some(LoadError::InvalidData("unsupported cartridge type".to_string())),
        loader.load(&data).err()
    );
    let mut data = crt_file(0, &[(0, 0x8000, vec![1, 2, 3])]);
    data.truncate(data.len() - 1);
    assert_eq!(Some(LoadError::UnexpectedEof), loader.load(&data).err());
    let mut data = crt_file(0, &[(0, 0x8000, vec![1, 2, 3])]);
    data[0x40] = b'X';
    assert_eq!(
        Some(LoadError::InvalidData("invalid chip packet".to_string())),
        loader.load(&data).err()
    );
}

#[test]
fn p00_loader_reads_program_after_header() {
    let mut data = b"C64File\0".to_vec();
    data.extend_from_slice(b"HELLO\0\0\0\0\0\0\0\0\0\0\0\0");
    data.push(0);
    data.extend_from_slice(&[0x01, 0x08, 0xa9, 0x00]);
    match P00Loader::new().load(&data) {
        Ok(Image::Prg(image)) => {
            assert_eq!(0x0801, image.offset);
            assert_eq!(vec![0xa9, 0x00], image.data);
        }
        _ => panic!("expected a program"),
    }
    data[0] = b'X';
    assert_eq!(
        Some(LoadError::InvalidData("invalid P00 signature".to_string())),
        P00Loader::new().load(&data).err()
    );
    assert_eq!(Some(LoadError::UnexpectedEof), P00Loader::new().load(&data[..20]).err());
}

#[test]
fn pulse_goes_high_after_its_low_part() {
    let mut pulse = Pulse::new(10, 50);
    let levels: Vec<bool> = (0..10).map(|_| pulse.advance()).collect();
    assert_eq!(vec![false, false, false, false, false, true, true, true, true, true], levels);
    assert!(pulse.is_done());
}
