use zinc64::app::command::Command;
use zinc64::app::debugger::{help_text, CommandParser};

fn parse(input: &str) -> Result<Command, String> {
    let parser = CommandParser::new();
    parser.parse(&input.to_string())
}

#[test]
fn parser_starts_in_hex() {
    let mut parser = CommandParser::new();
    assert_eq!(16, parser.get_radix());
    parser.set_radix(10);
    assert_eq!(10, parser.get_radix());
}

#[test]
fn goto_reads_hex_address() {
    match parse("g 1000\n") {
        Ok(Command::Goto(address)) => assert_eq!(0x1000, address),
        _ => panic!("expected goto"),
    }
    match parse("goto ffff") {
        Ok(Command::Goto(address)) => assert_eq!(0xffff, address),
        _ => panic!("expected goto"),
    }
}

#[test]
fn goto_in_decimal_radix() {
    let mut parser = CommandParser::new();
    parser.set_radix(10);
    match parser.parse(&"g 4096".to_string()) {
        Ok(Command::Goto(address)) => assert_eq!(4096, address),
        _ => panic!("expected goto"),
    }
}

#[test]
fn next_and_step_default_to_one() {
    match parse("n") {
        Ok(Command::Next(count)) => assert_eq!(1, count),
        _ => panic!("expected next"),
    }
    match parse("z 3") {
        Ok(Command::Step(count)) => assert_eq!(3, count),
        _ => panic!("expected step"),
    }
}

#[test]
fn reset_mode_one_is_hard() {
    match parse("reset 1") {
        Ok(Command::Reset(hard)) => assert_eq!(true, hard),
        _ => panic!("expected reset"),
    }
    match parse("reset") {
        Ok(Command::Reset(hard)) => assert_eq!(false, hard),
        _ => panic!("expected reset"),
    }
}

#[test]
fn fill_collects_comma_and_space_separated_bytes() {
    match parse("f 1000 1010 01,02 ff") {
        Ok(Command::Fill(start, end, data)) => {
            assert_eq!(0x1000, start);
            assert_eq!(0x1010, end);
            assert_eq!(vec![0x01, 0x02, 0xff], data);
        }
        _ => panic!("expected fill"),
    }
}

#[test]
fn hunt_needs_data() {
    match parse("h 1000 1010") {
        Err(message) => assert_eq!("Missing data", message),
        _ => panic!("expected error"),
    }
}

#[test]
fn fill_rejects_empty_piece() {
    match parse("f 1 2 1,,2") {
        Err(message) => assert_eq!("invalid number ", message),
        _ => panic!("expected error"),
    }
}

#[test]
fn missing_and_invalid_numbers() {
    match parse("g") {
        Err(message) => assert_eq!("missing argument", message),
        _ => panic!("expected error"),
    }
    match parse("g zz") {
        Err(message) => assert_eq!("invalid number zz", message),
        _ => panic!("expected error"),
    }
    match parse("g 10000") {
        Err(message) => assert_eq!("invalid number 10000", message),
        _ => panic!("expected error"),
    }
}

#[test]
fn extra_token_is_refused() {
    match parse("r x") {
        Err(message) => assert_eq!("Invalid token x", message),
        _ => panic!("expected error"),
    }
}

#[test]
fn unknown_or_empty_command_is_refused() {
    match parse("foo\n") {
        Err(message) => assert_eq!("Invalid command foo\n", message),
        _ => panic!("expected error"),
    }
    match parse("   ") {
        Err(message) => assert_eq!("Invalid command    ", message),
        _ => panic!("expected error"),
    }
}

#[test]
fn breakpoint_commands() {
    match parse("bk") {
        Ok(Command::BpList) => {}
        _ => panic!("expected list"),
    }
    match parse("bk 10") {
        Ok(Command::BpSet(address)) => assert_eq!(0x10, address),
        _ => panic!("expected set"),
    }
    match parse("ignore 2") {
        Ok(Command::BpIgnore(index, count)) => {
            assert_eq!(2, index);
            assert_eq!(1, count);
        }
        _ => panic!("expected ignore"),
    }
    match parse("del") {
        Ok(Command::BpDelete(index)) => assert_eq!(None, index),
        _ => panic!("expected delete"),
    }
}

#[test]
fn memory_commands() {
    match parse("m 1000 +10") {
        Ok(Command::Read(start, end)) => {
            assert_eq!(0x1000, start);
            assert_eq!(Some(0x10), end);
        }
        _ => panic!("expected read"),
    }
    match parse("t 1 2 3") {
        Ok(Command::Move(start, end, target)) => {
            assert_eq!((1, 2, 3), (start, end, target));
        }
        _ => panic!("expected move"),
    }
    match parse("d") {
        Ok(Command::Disassemble(start, end)) => {
            assert_eq!(None, start);
            assert_eq!(None, end);
        }
        _ => panic!("expected disassemble"),
    }
}

#[test]
fn stopwatch_reset_flag() {
    match parse("sw reset") {
        Ok(Command::Stopwatch(reset)) => assert_eq!(true, reset),
        _ => panic!("expected stopwatch"),
    }
    match parse("sw") {
        Ok(Command::Stopwatch(reset)) => assert_eq!(false, reset),
        _ => panic!("expected stopwatch"),
    }
}

#[test]
fn radix_and_exit() {
    match parse("radix a") {
        Ok(Command::Radix(radix)) => assert_eq!(Some(10), radix),
        _ => panic!("expected radix"),
    }
    match parse("x") {
        Ok(Command::Exit) => {}
        _ => panic!("expected exit"),
    }
}

#[test]
fn help_lists_commands_or_describes_one() {
    match parse("help") {
        Ok(Command::Help(None)) => {}
        _ => panic!("expected help"),
    }
    match parse("help goto") {
        Ok(Command::Help(Some(topic))) => assert_eq!("goto", topic),
        _ => panic!("expected help on goto"),
    }
    assert!(parse("help goto now").is_err());
    let list = help_text(None);
    assert!(list.starts_with("Available commands: "));
    assert!(list.contains("goto (g)"));
    assert!(list.contains("help"));
    assert_eq!(
        "goto <address> -- continue execution at address",
        help_text(Some("g"))
    );
    assert_eq!(help_text(Some("goto")), help_text(Some("g")));
    assert_eq!("Unknown command foo", help_text(Some("foo")));
}

#[test]
fn goto_reads_token_in_radix() {
    let mut parser = CommandParser::new();
    parser.set_radix(2);
    match parser.parse(&"g 1010".to_string()) {
        Ok(Command::Goto(address)) => assert_eq!(10, address),
        _ => panic!("expected goto"),
    }
    match parser.parse(&"g 12".to_string()) {
        Err(e) => assert_eq!("invalid number 12", e),
        _ => panic!("expected an error"),
    }
}
