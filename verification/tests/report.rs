use zinc64::app::command::{CommandResult, CpuState, InstructionInfo};

fn cpu_state() -> CpuState {
    CpuState { a: 0x01, x: 0x02, y: 0x03, sp: 0xff, p: 0x81, pc: 0x1234, port_00: 0x2f, port_01: 0x37 }
}

fn memory_reference(address: u16, buffer: &[u8]) -> String {
    let mut f = String::new();
    let mut address = address;
    let mut counter = 0;
    for value in buffer {
        if counter % 12 == 0 {
            f.push_str(&format!("${:04x} ", address));
            address = address.wrapping_add(12);
        }
        if counter % 4 == 0 {
            f.push_str(" ");
        }
        f.push_str(&format!(" {:02x}", value));
        counter += 1;
        if counter % 12 == 0 {
            f.push_str("\n");
        }
    }
    if buffer.len() % 12 != 0 {
        f.push_str("\n");
    }
    f
}

#[test]
fn error_result_text() {
    let result = CommandResult::Error("boom".to_string());
    assert_eq!("Error: boom\n", result.to_string());
}

#[test]
fn empty_result_text() {
    assert_eq!("", CommandResult::Empty.to_string());
}

#[test]
fn registers_result_text() {
    let result = CommandResult::Registers(cpu_state());
    assert_eq!(
        "PC   A  X  Y  SP 00 01 NV-BDIZC\n1234 01 02 03 ff 2f 37 10100001\n",
        result.to_string()
    );
}

#[test]
fn execution_state_result_text() {
    let info = InstructionInfo {
        opcode: 0xa9,
        instr_bytes: vec![0xa9, 0x05],
        instr_text: "lda #$05".to_string(),
    };
    let result = CommandResult::ExecutionState(cpu_state(), info);
    let expected = format!(
        "${:04x}: {:12} {:16} A:{:02x} X:{:02x} Y:{:02x} SP:{:02x} {}\n",
        0x1234, "a9 05 ", "lda #$05", 0x01, 0x02, 0x03, 0xff, "NvbdizC"
    );
    assert_eq!(expected, result.to_string());
}

#[test]
fn memory_result_text_matches_layout() {
    let buffer: Vec<u8> = (0u8..14).collect();
    let expected = memory_reference(0xfff8, &buffer);
    let result = CommandResult::Memory(0xfff8, buffer);
    assert_eq!(expected, result.to_string());
    let buffer: Vec<u8> = vec![0xab; 12];
    let expected = memory_reference(0x0400, &buffer);
    assert_eq!(expected, CommandResult::Memory(0x0400, buffer).to_string());
}

#[test]
fn text_result_lines() {
    let result = CommandResult::Text(vec!["one".to_string(), "two".to_string()]);
    assert_eq!("one\ntwo\n", result.to_string());
}
