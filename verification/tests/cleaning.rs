//! Section cleaning: the interrupt and register table shapes, the per-row
//! discard and normalization rules, and the whole three-section pipeline.

use svdgen::datasheet::{
    clean_datasheet_sections, clean_interrupt_rows, clean_interrupts, clean_mmio, clean_mmio_rows,
    CleanError,
};

fn row(cells: &[&str]) -> Vec<String> {
    cells.iter().map(|c| c.to_string()).collect()
}

#[test]
fn scenario_interrupt_row() {
    let rows = vec![row(&["FFFF EEEE", "Reset"])];
    let ps = clean_interrupt_rows(&rows).unwrap();
    assert_eq!(ps.len(), 1);
    let p = &ps[0];
    assert_eq!(p.name, "irq");
    assert_eq!(p.version, "1.0");
    assert_eq!(p.description, "Interrupts and exception table");
    assert_eq!(p.groupname, "irq");
    assert_eq!(p.baseaddress, "0x00000000");
    assert_eq!(p.addressblock.offset, "0x0");
    assert_eq!(p.addressblock.size, "0x00000470");
    assert_eq!(p.addressblock.usage, "irq");
    assert_eq!(p.registers.registers.len(), 1);
    let r = &p.registers.registers[0];
    assert_eq!(r.name, "Reset");
    assert_eq!(r.description, "Reset");
    assert_eq!(r.addressoffset, "0xFFFFEEEE");
    assert_eq!(r.size, 16);
    assert_eq!(r.access, "read-write");
    assert_eq!(r.resetvalue, 0);
    assert_eq!(r.resetmask, "0xFFFFFFFF");
    assert!(r.fields.is_empty());
}

#[test]
fn scenario_register_row() {
    let rows = vec![
        row(&["FFFF F640", "Timer mode register", "TMGM0", "R/W", "", "\u{d7}", "", "0000H"]),
    ];
    let ps = clean_mmio_rows(&rows, "mmio".to_string()).unwrap();
    assert_eq!(ps.len(), 1);
    let p = &ps[0];
    assert_eq!(p.name, "mmio");
    assert_eq!(p.groupname, "mmio");
    assert_eq!(p.version, "1.0");
    assert_eq!(p.description, "Memory Mapped IO, peripherals");
    assert_eq!(p.baseaddress, "0xFFFFF000");
    assert_eq!(p.addressblock.offset, "0x0");
    assert_eq!(p.addressblock.usage, "mmio");
    // the width accumulator resets to 0 after the emitted row
    assert_eq!(p.addressblock.size, "0");
    assert_eq!(p.registers.registers.len(), 1);
    let r = &p.registers.registers[0];
    assert_eq!(r.name, "TMGM0");
    assert_eq!(r.description, "Timer mode register");
    assert_eq!(r.addressoffset, "0xFFFFF640");
    assert_eq!(r.access, "read-write");
    assert_eq!(r.size, 16);
    assert_eq!(r.resetvalue, 0);
    assert_eq!(r.resetmask, "0xFFFFFFFF");
}

#[test]
fn scenario_header_row() {
    let rows = vec![row(&["Address", "Description", "Name", "Mode", "", "", "", ""])];
    let ps = clean_mmio_rows(&rows, "mmio".to_string()).unwrap();
    assert_eq!(ps[0].registers.registers.len(), 0);
    // nothing was emitted, so the width accumulator keeps its initial 8
    assert_eq!(ps[0].addressblock.size, "8");
}

#[test]
fn scenario_continuation_rows() {
    let empty_both = row(&["", "", "", "", "", "", "", ""]);
    let empty_addr = row(&["", "continued description", "SUFFIX", "R/W", "", "", "", ""]);
    let ps = clean_mmio_rows(&vec![empty_both, empty_addr], "mmio".to_string()).unwrap();
    assert_eq!(ps[0].registers.registers.len(), 0);
}

#[test]
fn register_name_carriage_return_stripped() {
    let rows = vec![row(&["FFFF F000", "Port 0", "P0\r", "R/W", "", "", "", "00H"])];
    let ps = clean_mmio_rows(&rows, "mmio".to_string()).unwrap();
    assert_eq!(ps[0].registers.registers[0].name, "P0");
}

#[test]
fn width_rules_across_rows() {
    let rows = vec![
        row(&["FFFF F100", "A", "RA", "R/W", "", "", "", ""]),
        row(&["FFFF F102", "B", "RB", "R/W", "", "", "\u{d7}", ""]),
        row(&["FFFF F104", "C", "RC", "R/W", "", "", "", ""]),
        row(&["FFFF F106", "D", "RD", "R/W", "", "\u{d7}", "", ""]),
    ];
    let ps = clean_mmio_rows(&rows, "mmio".to_string()).unwrap();
    let regs = &ps[0].registers.registers;
    // first row has no marker: the initial width 8 applies
    assert_eq!(regs[0].size, 8);
    // the 16-bit marker sets 16
    assert_eq!(regs[1].size, 16);
    // no marker after an emitted row: the reset accumulator 0 applies
    assert_eq!(regs[2].size, 0);
    // the 8-bit marker also sets 16
    assert_eq!(regs[3].size, 16);
}

#[test]
fn discarded_rows_do_not_touch_the_width() {
    let rows = vec![
        row(&["FFFF F200", "A", "RA", "R/W", "", "", "\u{d7}", ""]),
        row(&["Address", "Description", "Name", "Mode", "", "\u{d7}", "", ""]),
        row(&["", "noise", "NOISE", "R/W", "", "\u{d7}", "", ""]),
        row(&["FFFF F202", "B", "RB", "R/W", "", "", "", ""]),
    ];
    let ps = clean_mmio_rows(&rows, "mmio".to_string()).unwrap();
    let regs = &ps[0].registers.registers;
    assert_eq!(regs.len(), 2);
    assert_eq!(regs[0].size, 16);
    assert_eq!(regs[1].size, 0);
}

#[test]
fn unknown_mode_passes_through_the_row() {
    let rows = vec![row(&["FFFF F300", "Odd", "ODD", "R/W1", "", "", "", ""])];
    let ps = clean_mmio_rows(&rows, "pmmio".to_string()).unwrap();
    assert_eq!(ps[0].registers.registers[0].access, "R/W1");
    assert_eq!(ps[0].groupname, "pmmio");
    // the address-block usage tag stays mmio even for the pmmio group
    assert_eq!(ps[0].addressblock.usage, "mmio");
}

#[test]
fn interrupt_rows_need_two_columns() {
    let rows = vec![
        row(&["FFFF EEEE", "Reset"]),
        row(&["FFFF EEE0", "NMI", "extra"]),
    ];
    match clean_interrupt_rows(&rows) {
        Err(CleanError::RowShape(i)) => assert_eq!(i, 1),
        other => panic!("expected a row-shape error, got {:?}", other.map(|v| v.len())),
    }
}

#[test]
fn register_rows_need_eight_columns() {
    let rows = vec![row(&["FFFF F640", "Timer", "TMGM0", "R/W", "", "", ""])];
    match clean_mmio_rows(&rows, "mmio".to_string()) {
        Err(CleanError::RowShape(i)) => assert_eq!(i, 0),
        other => panic!("expected a row-shape error, got {:?}", other.map(|v| v.len())),
    }
}

#[test]
fn interrupt_section_from_raw_bytes() {
    let bytes = b"FFFF EEEE,Reset\nFFFF EEE0,NMI\n".to_vec();
    let ps = clean_interrupts(&bytes).unwrap();
    let regs = &ps[0].registers.registers;
    assert_eq!(regs.len(), 2);
    assert_eq!(regs[0].name, "Reset");
    assert_eq!(regs[0].addressoffset, "0xFFFFEEEE");
    assert_eq!(regs[1].name, "NMI");
    assert_eq!(regs[1].addressoffset, "0xFFFFEEE0");
}

#[test]
fn register_section_from_raw_bytes() {
    let bytes = format!(
        "Address,Description,Name,Mode,,,,\nFFFF F640,Timer mode register,TMGM0,R/W,,{m},,0000H\n",
        m = '\u{d7}'
    )
    .into_bytes();
    let ps = clean_mmio(&bytes, "mmio".to_string()).unwrap();
    let regs = &ps[0].registers.registers;
    assert_eq!(regs.len(), 1);
    assert_eq!(regs[0].name, "TMGM0");
    assert_eq!(regs[0].size, 16);
    assert_eq!(regs[0].access, "read-write");
}

#[test]
fn unreadable_table_is_a_parse_error() {
    // the second record has fewer fields than the first
    let bytes = b"a,b\nc\n".to_vec();
    match clean_interrupts(&bytes) {
        Err(CleanError::Parse(_)) => {}
        other => panic!("expected a parse error, got {:?}", other.map(|v| v.len())),
    }
}

#[test]
fn identical_bytes_yield_identical_registers() {
    let bytes = b"FFFF EEEE,Reset\nFFFF EEE0,NMI\n".to_vec();
    let first = clean_interrupts(&bytes).unwrap();
    let second = clean_interrupts(&bytes).unwrap();
    let a = &first[0].registers.registers;
    let b = &second[0].registers.registers;
    assert_eq!(a.len(), b.len());
    for (x, y) in a.iter().zip(b.iter()) {
        assert_eq!(x.name, y.name);
        assert_eq!(x.description, y.description);
        assert_eq!(x.addressoffset, y.addressoffset);
        assert_eq!(x.size, y.size);
        assert_eq!(x.access, y.access);
        assert_eq!(x.resetvalue, y.resetvalue);
        assert_eq!(x.resetmask, y.resetmask);
    }
}

#[test]
fn peripherals_ordered_irq_mmio_pmmio() {
    let irq = b"FFFF EEEE,Reset\n".to_vec();
    let mmio = b"FFFF F640,Timer mode register,TMGM0,R/W,,,,0000H\n".to_vec();
    let pmmio = b"FFFF FC00,Port mode,PMC0,R/W,,,,00H\n".to_vec();
    let sections = vec![irq, mmio, pmmio];
    let ps = clean_datasheet_sections(&sections).unwrap();
    assert_eq!(ps.peripheral.len(), 3);
    assert_eq!(ps.peripheral[0].groupname, "irq");
    assert_eq!(ps.peripheral[1].groupname, "mmio");
    assert_eq!(ps.peripheral[2].groupname, "pmmio");
}

#[test]
fn a_failing_section_aborts_the_whole_run() {
    let irq = b"FFFF EEEE,Reset\n".to_vec();
    let bad = b"a,b\nc\n".to_vec();
    let pmmio = b"FFFF FC00,Port mode,PMC0,R/W,,,,00H\n".to_vec();
    let sections = vec![irq, bad, pmmio];
    assert!(clean_datasheet_sections(&sections).is_err());
}
