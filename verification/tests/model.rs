//! The device model: peripheral collection order and the fixed device
//! metadata wrapping.

use svdgen::svd::{
    build_device, v850_meta, AddrBlock, CpuDef, DeviceMeta, Peripheral, Peripherals, Registers,
};

fn peripheral(name: &str) -> Peripheral {
    Peripheral {
        name: name.to_string(),
        version: "1.0".to_string(),
        description: String::new(),
        groupname: name.to_string(),
        baseaddress: "0x0".to_string(),
        addressblock: AddrBlock {
            offset: "0x0".to_string(),
            size: "0".to_string(),
            usage: "mmio".to_string(),
        },
        registers: Registers { registers: Vec::new() },
    }
}

#[test]
fn peripheral_collection_keeps_section_order() {
    let ps = Peripherals::new(vec![peripheral("irq")])
        .add(vec![peripheral("mmio")])
        .add(vec![peripheral("pmmio")]);
    let names: Vec<&str> = ps.peripheral.iter().map(|p| p.name.as_str()).collect();
    assert_eq!(names, ["irq", "mmio", "pmmio"]);
}

#[test]
fn v850_metadata_values() {
    let m = v850_meta();
    assert_eq!(m.vendor, "Renesas");
    assert_eq!(m.vendor_id, "Renesas");
    assert_eq!(m.name, "V850");
    assert_eq!(m.series, "E1/E2/CA2");
    assert_eq!(m.version, "1.2");
    assert_eq!(m.description, "NEC/Renesas V850 automotive grade ICs");
    assert_eq!(m.cpu.name, "V850");
    assert_eq!(m.cpu.revision, "r1");
    assert_eq!(m.cpu.endian, "LE");
    assert!(!m.cpu.mpupresent);
    assert!(!m.cpu.fpupresent);
    assert_eq!(m.cpu.nvicpriobits, 32);
    assert!(!m.cpu.vendorsystickconfig);
    assert_eq!(m.addressunitbits, 8);
    assert_eq!(m.width, 32);
    assert_eq!(m.size, 6);
    assert_eq!(m.access, "read-write");
    assert_eq!(m.resetvalue, 0);
    assert_eq!(m.resetmask, "0xFFFFFFFF");
}

#[test]
fn device_wraps_metadata_and_peripherals() {
    let meta = DeviceMeta {
        vendor: "v".to_string(),
        vendor_id: "vid".to_string(),
        name: "n".to_string(),
        series: "s".to_string(),
        version: "1".to_string(),
        description: "d".to_string(),
        cpu: CpuDef {
            name: "c".to_string(),
            revision: "r".to_string(),
            endian: "BE".to_string(),
            mpupresent: true,
            fpupresent: true,
            nvicpriobits: 4,
            vendorsystickconfig: true,
        },
        addressunitbits: 8,
        width: 16,
        size: 1,
        access: "read-only".to_string(),
        resetvalue: 7,
        resetmask: "0xF".to_string(),
    };
    let groups = Peripherals::new(vec![peripheral("irq"), peripheral("mmio")]);
    let d = build_device(meta, vec![groups]);
    assert_eq!(d.vendor, "v");
    assert_eq!(d.vendor_id, "vid");
    assert_eq!(d.name, "n");
    assert_eq!(d.series, "s");
    assert_eq!(d.version, "1");
    assert_eq!(d.description, "d");
    assert_eq!(d.cpu.endian, "BE");
    assert_eq!(d.cpu.nvicpriobits, 4);
    assert_eq!(d.addressunitbits, 8);
    assert_eq!(d.width, 16);
    assert_eq!(d.size, 1);
    assert_eq!(d.access, "read-only");
    assert_eq!(d.resetvalue, 7);
    assert_eq!(d.resetmask, "0xF");
    assert_eq!(d.peripherals.len(), 1);
    assert_eq!(d.peripherals[0].peripheral.len(), 2);
    assert_eq!(d.peripherals[0].peripheral[1].name, "mmio");
}
