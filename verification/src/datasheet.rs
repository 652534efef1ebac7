//! Section cleaning for the two known datasheet table shapes.
//!
//! The interrupt shape has two columns (address, interrupt/exception source);
//! the register shape has eight (address, description, name, mode, three
//! manipulation markers, reset value). Raw delimited bytes are read into
//! records, every record is normalized or discarded by the per-row rules,
//! and each section collapses into exactly one peripheral.

use vstd::prelude::*;

use crate::svd::{
    AddrBlock, AddrBlockV, FieldV, Peripheral, PeripheralV, Peripherals, Register, RegisterV,
    Registers, RegistersV,
};
use crate::text::{
    addr_normalized, lemma_norm_address_shape, norm_address, norm_mode, normalize_address,
    normalize_mode, parse_reset_value, reset_value_of, spec_u8_dec, strip_cr_back,
    strip_trailing_cr, string_eq, u8_to_dec,
};

verus! {

/// What `csv` reads from one section of extracted bytes: the records, each a
/// sequence of cell texts, or nothing when the bytes are not a readable
/// delimited table. The outcome is a function of the bytes alone.
pub uninterp spec fn csv_rows_of(bytes: Seq<u8>) -> Option<Seq<Seq<Seq<char>>>>;

/// Relies on `csv::Reader`: reading from a byte slice with headers disabled
/// yields every record in order, and fails when a record's field count
/// differs from the first record's.
#[verifier::external_body]
fn read_records(bytes: &Vec<u8>) -> (r: Result<Vec<Vec<String>>, String>)
    ensures
        r is Ok <==> csv_rows_of(bytes@) is Some,
        r matches Ok(rows) ==> Some(rows.deep_view()) == csv_rows_of(bytes@),
{
    let mut rdr = csv::ReaderBuilder::new().has_headers(false).from_reader(bytes.as_slice());
    let mut rows: Vec<Vec<String>> = Vec::new();
    for record in rdr.records() {
        match record {
            Ok(rec) => rows.push(rec.iter().map(|cell| cell.to_string()).collect()),
            Err(e) => return Err(e.to_string()),
        }
    }
    Ok(rows)
}

/// Why a section had to be abandoned: the bytes were not a readable
/// delimited table, or a record did not have the shape's column count.
/// Structural failures are fatal for the whole section; no partial output
/// survives them.
#[derive(Debug)]
pub enum CleanError {
    /// What the delimited-table reader reported.
    Parse(String),
    /// The index of the first record whose column count is wrong.
    RowShape(usize),
}

/// Every record has exactly `width` columns.
pub open spec fn rows_shaped(rows: Seq<Seq<Seq<char>>>, width: int) -> bool {
    forall|i: int| 0 <= i < rows.len() ==> (#[trigger] rows[i]).len() == width
}

/// The register an interrupt row yields: name and description are the
/// source text, the address is normalized, and width, access, reset value
/// and reset mask are fixed.
pub open spec fn spec_irq_register(address: Seq<char>, source: Seq<char>) -> RegisterV {
    RegisterV {
        name: source,
        description: source,
        addressoffset: norm_address(address),
        size: 16,
        access: "read-write"@,
        resetvalue: 0,
        resetmask: "0xFFFFFFFF"@,
        fields: Seq::empty(),
    }
}

pub open spec fn spec_irq_row_register(row: Seq<Seq<char>>) -> RegisterV {
    spec_irq_register(row[0], row[1])
}

/// Every interrupt row yields one register, in row order.
pub open spec fn spec_irq_registers(rows: Seq<Seq<Seq<char>>>) -> Seq<RegisterV> {
    rows.map_values(|row: Seq<Seq<char>>| spec_irq_row_register(row))
}

/// Builds the register for one interrupt row, per [`spec_irq_register`].
pub fn irq_register(address: &str, source: &str) -> (r: Register)
    ensures
        r.deep_view() == spec_irq_register(address@, source@),
{
    let r = Register {
        name: String::from_str(source),
        description: String::from_str(source),
        addressoffset: normalize_address(address),
        size: 16,
        access: String::from_str("read-write"),
        resetvalue: 0,
        resetmask: String::from_str("0xFFFFFFFF"),
        fields: Vec::new(),
    };
    proof {
        assert(r.fields.deep_view() =~= Seq::<FieldV>::empty());
    }
    r
}

/// The register a non-discarded register row yields: the carriage-return
/// artifact is stripped from the name, the address is normalized, the mode
/// is renamed, the reset value is parsed with the defaulting rule, and the
/// width is the one the caller computed for this row.
pub open spec fn spec_mmio_register(
    address: Seq<char>,
    description: Seq<char>,
    name: Seq<char>,
    mode: Seq<char>,
    reset: Seq<char>,
    width: u8,
) -> RegisterV {
    RegisterV {
        name: strip_cr_back(name),
        description: description,
        addressoffset: norm_address(address),
        size: width,
        access: norm_mode(mode),
        resetvalue: reset_value_of(reset),
        resetmask: "0xFFFFFFFF"@,
        fields: Seq::empty(),
    }
}

/// Builds the register for one register row, per [`spec_mmio_register`].
pub fn mmio_register(
    address: &str,
    description: &str,
    name: &str,
    mode: &str,
    reset: &str,
    width: u8,
) -> (r: Register)
    ensures
        r.deep_view() == spec_mmio_register(address@, description@, name@, mode@, reset@, width),
{
    let r = Register {
        name: strip_trailing_cr(name),
        description: String::from_str(description),
        addressoffset: normalize_address(address),
        size: width,
        access: normalize_mode(String::from_str(mode)),
        resetvalue: parse_reset_value(reset),
        resetmask: String::from_str("0xFFFFFFFF"),
        fields: Vec::new(),
    };
    proof {
        assert(r.fields.deep_view() =~= Seq::<FieldV>::empty());
    }
    r
}

/// The synthetic peripheral that collapses all interrupt rows: fixed name,
/// group, base address and address block.
pub open spec fn spec_irq_peripheral(regs: Seq<RegisterV>) -> PeripheralV {
    PeripheralV {
        name: "irq"@,
        version: "1.0"@,
        description: "Interrupts and exception table"@,
        groupname: "irq"@,
        baseaddress: "0x00000000"@,
        addressblock: AddrBlockV { offset: "0x0"@, size: "0x00000470"@, usage: "irq"@ },
        registers: RegistersV { registers: regs },
    }
}

/// The carried accumulator of the register-shape fold: the registers
/// emitted so far and the bit-width state, which starts at 8 and resets to
/// 0 after every emitted register.
pub ghost struct SectionFold {
    pub regs: Seq<RegisterV>,
    pub width: u8,
}

/// A register row that is dropped: its address repeats the pagination
/// header label, or is empty (continuation noise; continuation rows are not
/// merged into the preceding register).
pub open spec fn row_discarded(row: Seq<Seq<char>>) -> bool {
    row[0] == "Address"@ || row[0].len() == 0
}

/// The width for one emitted row: 16 when the 8-bit or the 16-bit
/// manipulation marker is present, else whatever the accumulator carried.
pub open spec fn row_width(prev: u8, row: Seq<Seq<char>>) -> u8 {
    if row[5] == "\u{d7}"@ || row[6] == "\u{d7}"@ {
        16
    } else {
        prev
    }
}

pub open spec fn spec_mmio_row_register(row: Seq<Seq<char>>, width: u8) -> RegisterV {
    spec_mmio_register(row[0], row[1], row[2], row[3], row[7], width)
}

/// Folds the register-shape rows in order: discarded rows leave the
/// accumulator untouched; every other row emits one register and resets the
/// carried width to 0.
pub open spec fn spec_mmio_fold(rows: Seq<Seq<Seq<char>>>) -> SectionFold
    decreases rows.len(),
{
    if rows.len() == 0 {
        SectionFold { regs: Seq::empty(), width: 8 }
    } else {
        let prev = spec_mmio_fold(rows.drop_last());
        let row = rows.last();
        if row_discarded(row) {
            prev
        } else {
            SectionFold {
                regs: prev.regs.push(spec_mmio_row_register(row, row_width(prev.width, row))),
                width: 0,
            }
        }
    }
}

proof fn lemma_mmio_fold_push(pref: Seq<Seq<Seq<char>>>, row: Seq<Seq<char>>)
    ensures
        spec_mmio_fold(pref.push(row)) == if row_discarded(row) {
            spec_mmio_fold(pref)
        } else {
            SectionFold {
                regs: spec_mmio_fold(pref).regs.push(
                    spec_mmio_row_register(row, row_width(spec_mmio_fold(pref).width, row)),
                ),
                width: 0,
            }
        },
{
    assert(pref.push(row).drop_last() =~= pref);
}

/// The one peripheral a register-shape section collapses into. The group
/// name is caller-supplied; the address-block size is the final value of
/// the width accumulator (an accepted artifact of the per-row width rule),
/// and the usage tag is fixed.
pub open spec fn spec_mmio_peripheral(groupname: Seq<char>, fold: SectionFold) -> PeripheralV {
    PeripheralV {
        name: groupname,
        version: "1.0"@,
        description: "Memory Mapped IO, peripherals"@,
        groupname: groupname,
        baseaddress: "0xFFFFF000"@,
        addressblock: AddrBlockV {
            offset: "0x0"@,
            size: spec_u8_dec(fold.width),
            usage: "mmio"@,
        },
        registers: RegistersV { registers: fold.regs },
    }
}

/// Every interrupt row's register carries the fixed shape: width 16,
/// access `read-write`, reset value 0, reset mask `0xFFFFFFFF`, no fields,
/// and a normalized address.
pub proof fn lemma_irq_registers_fixed(rows: Seq<Seq<Seq<char>>>)
    ensures
        forall|i: int|
            0 <= i < spec_irq_registers(rows).len() ==> {
                let reg = #[trigger] spec_irq_registers(rows)[i];
                reg.size == 16 && reg.access == "read-write"@ && reg.resetvalue == 0
                    && reg.resetmask == "0xFFFFFFFF"@ && reg.fields =~= Seq::<FieldV>::empty()
                    && addr_normalized(reg.addressoffset)
            },
{
    assert forall|i: int| 0 <= i < spec_irq_registers(rows).len() implies {
        let reg = #[trigger] spec_irq_registers(rows)[i];
        reg.size == 16 && reg.access == "read-write"@ && reg.resetvalue == 0 && reg.resetmask
            == "0xFFFFFFFF"@ && reg.fields =~= Seq::<FieldV>::empty() && addr_normalized(
            reg.addressoffset,
        )
    } by {
        lemma_norm_address_shape(rows[i][0]);
    }
}

/// Every register emitted for a non-discarded register row has an address
/// that starts with `0x` and contains no whitespace.
pub proof fn lemma_mmio_addresses_normalized(rows: Seq<Seq<Seq<char>>>)
    ensures
        forall|i: int|
            0 <= i < spec_mmio_fold(rows).regs.len() ==> addr_normalized(
                (#[trigger] spec_mmio_fold(rows).regs[i]).addressoffset,
            ),
    decreases rows.len(),
{
    if rows.len() > 0 {
        lemma_mmio_addresses_normalized(rows.drop_last());
        let prev = spec_mmio_fold(rows.drop_last());
        let row = rows.last();
        if !row_discarded(row) {
            lemma_norm_address_shape(row[0]);
            assert forall|i: int| 0 <= i < spec_mmio_fold(rows).regs.len() implies addr_normalized(
                (spec_mmio_fold(rows).regs[i]).addressoffset,
            ) by {
                if i < prev.regs.len() {
                    assert(spec_mmio_fold(rows).regs[i] == prev.regs[i]);
                } else {
                    assert(spec_mmio_fold(rows).regs[i] == spec_mmio_row_register(
                        row,
                        row_width(prev.width, row),
                    ));
                }
            }
        }
    }
}

/// Cleaning is a function of the section bytes (and group name) alone:
/// identical input bytes yield identical register sequences.
pub proof fn lemma_cleaning_deterministic(b1: Seq<u8>, b2: Seq<u8>, groupname: Seq<char>)
    requires
        b1 == b2,
    ensures
        spec_clean_interrupts(b1) == spec_clean_interrupts(b2),
        spec_clean_mmio(b1, groupname) == spec_clean_mmio(b2, groupname),
{
}

/// Cleans already-parsed interrupt-shape records. Succeeds exactly when
/// every record has the two interrupt columns, and then yields the one
/// synthetic `irq` peripheral holding one register per row.
pub fn clean_interrupt_rows(rows: &Vec<Vec<String>>) -> (r: Result<Vec<Peripheral>, CleanError>)
    ensures
        r is Ok <==> rows_shaped(rows.deep_view(), 2),
        r matches Ok(ps) ==> ps.deep_view() == seq![
            spec_irq_peripheral(spec_irq_registers(rows.deep_view())),
        ],
        r matches Err(e) ==> e matches CleanError::RowShape(i) && 0 <= i < rows.deep_view().len()
            && rows.deep_view()[i as int].len() != 2,
{
    let ghost rows_v = rows.deep_view();
    let mut regs: Vec<Register> = Vec::new();
    let n = rows.len();
    let mut idx: usize = 0;
    while idx < n
        invariant
            rows_v == rows.deep_view(),
            n == rows_v.len(),
            idx <= n,
            rows_shaped(rows_v.subrange(0, idx as int), 2),
            regs.deep_view() == spec_irq_registers(rows_v.subrange(0, idx as int)),
        decreases n - idx,
    {
        let row = &rows[idx];
        proof {
            assert(rows_v[idx as int] == row.deep_view());
        }
        if row.len() != 2 {
            proof {
                assert(rows_v[idx as int].len() != 2);
            }
            return Err(CleanError::RowShape(idx));
        }
        let reg = irq_register(row[0].as_str(), row[1].as_str());
        regs.push(reg);
        proof {
            assert(row.deep_view()[0] == row@[0]@);
            assert(row.deep_view()[1] == row@[1]@);
            let pref = rows_v.subrange(0, idx as int);
            assert(rows_v.subrange(0, (idx + 1) as int) =~= pref.push(rows_v[idx as int]));
            assert(spec_irq_registers(pref.push(rows_v[idx as int])) =~= spec_irq_registers(
                pref,
            ).push(spec_irq_row_register(rows_v[idx as int])));
            assert(regs.deep_view() =~= spec_irq_registers(rows_v.subrange(0, (idx + 1) as int)));
        }
        idx = idx + 1;
    }
    proof {
        assert(rows_v.subrange(0, n as int) =~= rows_v);
    }
    let addressblock = AddrBlock {
        offset: String::from_str("0x0"),
        size: String::from_str("0x00000470"),
        usage: String::from_str("irq"),
    };
    let peripheral = Peripheral {
        name: String::from_str("irq"),
        version: String::from_str("1.0"),
        description: String::from_str("Interrupts and exception table"),
        groupname: String::from_str("irq"),
        baseaddress: String::from_str("0x00000000"),
        addressblock: addressblock,
        registers: Registers { registers: regs },
    };
    let mut ps: Vec<Peripheral> = Vec::new();
    ps.push(peripheral);
    proof {
        assert(ps.deep_view() =~= seq![spec_irq_peripheral(spec_irq_registers(rows_v))]);
    }
    Ok(ps)
}

/// Cleans already-parsed register-shape records. Succeeds exactly when
/// every record has the eight register columns, and then yields the one
/// peripheral under the caller-supplied group name, holding the registers
/// of all non-discarded rows in row order.
pub fn clean_mmio_rows(rows: &Vec<Vec<String>>, groupname: String) -> (r: Result<
    Vec<Peripheral>,
    CleanError,
>)
    ensures
        r is Ok <==> rows_shaped(rows.deep_view(), 8),
        r matches Ok(ps) ==> ps.deep_view() == seq![
            spec_mmio_peripheral(groupname@, spec_mmio_fold(rows.deep_view())),
        ],
        r matches Err(e) ==> e matches CleanError::RowShape(i) && 0 <= i < rows.deep_view().len()
            && rows.deep_view()[i as int].len() != 8,
{
    let ghost rows_v = rows.deep_view();
    let mut regs: Vec<Register> = Vec::new();
    let mut width: u8 = 8;
    let n = rows.len();
    let mut idx: usize = 0;
    while idx < n
        invariant
            rows_v == rows.deep_view(),
            n == rows_v.len(),
            idx <= n,
            rows_shaped(rows_v.subrange(0, idx as int), 8),
            regs.deep_view() == spec_mmio_fold(rows_v.subrange(0, idx as int)).regs,
            width == spec_mmio_fold(rows_v.subrange(0, idx as int)).width,
        decreases n - idx,
    {
        let row = &rows[idx];
        proof {
            assert(rows_v[idx as int] == row.deep_view());
        }
        if row.len() != 8 {
            proof {
                assert(rows_v[idx as int].len() != 8);
            }
            return Err(CleanError::RowShape(idx));
        }
        proof {
            assert(row.deep_view()[0] == row@[0]@);
            assert(row.deep_view()[1] == row@[1]@);
            assert(row.deep_view()[2] == row@[2]@);
            assert(row.deep_view()[3] == row@[3]@);
            assert(row.deep_view()[5] == row@[5]@);
            assert(row.deep_view()[6] == row@[6]@);
            assert(row.deep_view()[7] == row@[7]@);
            let pref = rows_v.subrange(0, idx as int);
            assert(rows_v.subrange(0, (idx + 1) as int) =~= pref.push(rows_v[idx as int]));
            lemma_mmio_fold_push(pref, rows_v[idx as int]);
        }
        if string_eq(&row[0], "Address") || row[0].as_str().is_empty() {
            // repeated pagination header, or a continuation row: discarded
        } else {
            let w: u8 = if string_eq(&row[5], "\u{d7}") || string_eq(&row[6], "\u{d7}") {
                16
            } else {
                width
            };
            let reg = mmio_register(
                row[0].as_str(),
                row[1].as_str(),
                row[2].as_str(),
                row[3].as_str(),
                row[7].as_str(),
                w,
            );
            regs.push(reg);
            width = 0;
            proof {
                let pref = rows_v.subrange(0, idx as int);
                assert(regs.deep_view() =~= spec_mmio_fold(pref).regs.push(
                    spec_mmio_row_register(
                        rows_v[idx as int],
                        row_width(spec_mmio_fold(pref).width, rows_v[idx as int]),
                    ),
                ));
            }
        }
        idx = idx + 1;
    }
    proof {
        assert(rows_v.subrange(0, n as int) =~= rows_v);
    }
    let addressblock = AddrBlock {
        offset: String::from_str("0x0"),
        size: u8_to_dec(width),
        usage: String::from_str("mmio"),
    };
    let peripheral = Peripheral {
        name: groupname.clone(),
        version: String::from_str("1.0"),
        description: String::from_str("Memory Mapped IO, peripherals"),
        groupname: groupname,
        baseaddress: String::from_str("0xFFFFF000"),
        addressblock: addressblock,
        registers: Registers { registers: regs },
    };
    let mut ps: Vec<Peripheral> = Vec::new();
    ps.push(peripheral);
    proof {
        assert(ps.deep_view() =~= seq![
            spec_mmio_peripheral(groupname@, spec_mmio_fold(rows_v)),
        ]);
    }
    Ok(ps)
}

/// One interrupt-shape section cleaned end to end: `None` when the bytes
/// are not a readable table or a record lacks the two columns.
pub open spec fn spec_clean_interrupts(bytes: Seq<u8>) -> Option<Seq<PeripheralV>> {
    match csv_rows_of(bytes) {
        Some(rows) => if rows_shaped(rows, 2) {
            Some(seq![spec_irq_peripheral(spec_irq_registers(rows))])
        } else {
            None
        },
        None => None,
    }
}

/// One register-shape section cleaned end to end: `None` when the bytes
/// are not a readable table or a record lacks the eight columns.
pub open spec fn spec_clean_mmio(bytes: Seq<u8>, groupname: Seq<char>) -> Option<
    Seq<PeripheralV>,
> {
    match csv_rows_of(bytes) {
        Some(rows) => if rows_shaped(rows, 8) {
            Some(seq![spec_mmio_peripheral(groupname, spec_mmio_fold(rows))])
        } else {
            None
        },
        None => None,
    }
}

/// Cleans one interrupt-shape section from its raw bytes.
pub fn clean_interrupts(section: &Vec<u8>) -> (r: Result<Vec<Peripheral>, CleanError>)
    ensures
        r is Ok <==> spec_clean_interrupts(section@) is Some,
        r matches Ok(ps) ==> Some(ps.deep_view()) == spec_clean_interrupts(section@),
        csv_rows_of(section@) is None ==> r matches Err(CleanError::Parse(_)),
        csv_rows_of(section@) matches Some(rows) && !rows_shaped(rows, 2) ==> r matches Err(
            CleanError::RowShape(_),
        ),
{
    match read_records(section) {
        Ok(rows) => clean_interrupt_rows(&rows),
        Err(msg) => Err(CleanError::Parse(msg)),
    }
}

/// Cleans one register-shape section from its raw bytes, under the given
/// group name (`mmio` or `pmmio`).
pub fn clean_mmio(section: &Vec<u8>, groupname: String) -> (r: Result<Vec<Peripheral>, CleanError>)
    ensures
        r is Ok <==> spec_clean_mmio(section@, groupname@) is Some,
        r matches Ok(ps) ==> Some(ps.deep_view()) == spec_clean_mmio(section@, groupname@),
        csv_rows_of(section@) is None ==> r matches Err(CleanError::Parse(_)),
        csv_rows_of(section@) matches Some(rows) && !rows_shaped(rows, 8) ==> r matches Err(
            CleanError::RowShape(_),
        ),
{
    match read_records(section) {
        Ok(rows) => clean_mmio_rows(&rows, groupname),
        Err(msg) => Err(CleanError::Parse(msg)),
    }
}

/// The whole cleaned model of the three sections, in the fixed order
/// interrupts, memory-mapped registers, programmable registers.
pub open spec fn spec_clean_sections(s0: Seq<u8>, s1: Seq<u8>, s2: Seq<u8>) -> Option<
    Seq<PeripheralV>,
> {
    match (spec_clean_interrupts(s0), spec_clean_mmio(s1, "mmio"@), spec_clean_mmio(
        s2,
        "pmmio"@,
    )) {
        (Some(irq), Some(mmio), Some(pmmio)) => Some(irq + mmio + pmmio),
        _ => None,
    }
}

/// Cleans the three sections (interrupts, mmio, pmmio) and concatenates the
/// resulting peripherals in that fixed order, whatever order the rows
/// within each section had. Any section failure aborts the whole run.
pub fn clean_datasheet_sections(sections: &Vec<Vec<u8>>) -> (r: Result<Peripherals, CleanError>)
    requires
        sections@.len() >= 3,
    ensures
        r is Ok <==> spec_clean_sections(sections@[0]@, sections@[1]@, sections@[2]@) is Some,
        r matches Ok(ps) ==> Some(ps.deep_view().peripheral) == spec_clean_sections(
            sections@[0]@,
            sections@[1]@,
            sections@[2]@,
        ),
        r matches Ok(ps) ==> ps.deep_view().peripheral.len() == 3
            && ps.deep_view().peripheral[0].groupname == "irq"@
            && ps.deep_view().peripheral[1].groupname == "mmio"@
            && ps.deep_view().peripheral[2].groupname == "pmmio"@,
{
    let interrupts = match clean_interrupts(&sections[0]) {
        Ok(v) => v,
        Err(e) => return Err(e),
    };
    let mmio = match clean_mmio(&sections[1], String::from_str("mmio")) {
        Ok(v) => v,
        Err(e) => return Err(e),
    };
    let prog_io = match clean_mmio(&sections[2], String::from_str("pmmio")) {
        Ok(v) => v,
        Err(e) => return Err(e),
    };
    let peripherals = Peripherals::new(interrupts);
    let r = peripherals.add(mmio).add(prog_io);
    proof {
        assert(r.deep_view().peripheral =~= spec_clean_sections(
            sections@[0]@,
            sections@[1]@,
            sections@[2]@,
        )->Some_0);
    }
    Ok(r)
}

} // verus!
