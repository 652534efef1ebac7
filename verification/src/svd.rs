//! The peripheral/register model that mirrors the CMSIS-SVD element
//! hierarchy: `device` → `peripherals` → `peripheral` → `registers` →
//! `register` → `fields` → `field`, with `cpu` and `addressBlock` as
//! sub-elements. Each type carries a ghost view so that contracts can speak
//! of the whole tree as a mathematical value.

use vstd::prelude::*;

verus! {

/// A named bit group inside a register. Present for schema completeness;
/// register cleaning always leaves the collection empty.
#[derive(Debug, Clone)]
pub struct Field {
    pub name: String,
    pub description: String,
    pub bitrange: String,
    pub access: String,
}

pub ghost struct FieldV {
    pub name: Seq<char>,
    pub description: Seq<char>,
    pub bitrange: Seq<char>,
    pub access: Seq<char>,
}

impl DeepView for Field {
    type V = FieldV;

    open spec fn deep_view(&self) -> FieldV {
        FieldV {
            name: self.name@,
            description: self.description@,
            bitrange: self.bitrange@,
            access: self.access@,
        }
    }
}

/// One register: its absolute address offset is kept as a hex string, the
/// reset value as a signed integer.
#[derive(Debug, Clone)]
pub struct Register {
    pub name: String,
    pub description: String,
    pub addressoffset: String,
    pub size: u8,
    pub access: String,
    pub resetvalue: i64,
    pub resetmask: String,
    pub fields: Vec<Field>,
}

pub ghost struct RegisterV {
    pub name: Seq<char>,
    pub description: Seq<char>,
    pub addressoffset: Seq<char>,
    pub size: u8,
    pub access: Seq<char>,
    pub resetvalue: i64,
    pub resetmask: Seq<char>,
    pub fields: Seq<FieldV>,
}

impl DeepView for Register {
    type V = RegisterV;

    open spec fn deep_view(&self) -> RegisterV {
        RegisterV {
            name: self.name@,
            description: self.description@,
            addressoffset: self.addressoffset@,
            size: self.size,
            access: self.access@,
            resetvalue: self.resetvalue,
            resetmask: self.resetmask@,
            fields: self.fields.deep_view(),
        }
    }
}

/// The contiguous address span one peripheral covers, with its usage tag.
#[derive(Debug, Clone)]
pub struct AddrBlock {
    pub offset: String,
    pub size: String,
    pub usage: String,
}

pub ghost struct AddrBlockV {
    pub offset: Seq<char>,
    pub size: Seq<char>,
    pub usage: Seq<char>,
}

impl DeepView for AddrBlock {
    type V = AddrBlockV;

    open spec fn deep_view(&self) -> AddrBlockV {
        AddrBlockV { offset: self.offset@, size: self.size@, usage: self.usage@ }
    }
}

/// The ordered registers of one peripheral; the order mirrors the datasheet
/// rows and is significant.
#[derive(Debug, Clone)]
pub struct Registers {
    pub registers: Vec<Register>,
}

pub ghost struct RegistersV {
    pub registers: Seq<RegisterV>,
}

impl DeepView for Registers {
    type V = RegistersV;

    open spec fn deep_view(&self) -> RegistersV {
        RegistersV { registers: self.registers.deep_view() }
    }
}

/// A named group of registers sharing a base address and one address block.
#[derive(Debug, Clone)]
pub struct Peripheral {
    pub name: String,
    pub version: String,
    pub description: String,
    pub groupname: String,
    pub baseaddress: String,
    pub addressblock: AddrBlock,
    pub registers: Registers,
}

pub ghost struct PeripheralV {
    pub name: Seq<char>,
    pub version: Seq<char>,
    pub description: Seq<char>,
    pub groupname: Seq<char>,
    pub baseaddress: Seq<char>,
    pub addressblock: AddrBlockV,
    pub registers: RegistersV,
}

impl DeepView for Peripheral {
    type V = PeripheralV;

    open spec fn deep_view(&self) -> PeripheralV {
        PeripheralV {
            name: self.name@,
            version: self.version@,
            description: self.description@,
            groupname: self.groupname@,
            baseaddress: self.baseaddress@,
            addressblock: self.addressblock.deep_view(),
            registers: self.registers.deep_view(),
        }
    }
}

/// The ordered peripherals of the device.
#[derive(Debug, Clone)]
pub struct Peripherals {
    pub peripheral: Vec<Peripheral>,
}

pub ghost struct PeripheralsV {
    pub peripheral: Seq<PeripheralV>,
}

impl DeepView for Peripherals {
    type V = PeripheralsV;

    open spec fn deep_view(&self) -> PeripheralsV {
        PeripheralsV { peripheral: self.peripheral.deep_view() }
    }
}

impl Peripherals {
    /// Starts the collection from the first cleaned section.
    pub fn new(peripheral: Vec<Peripheral>) -> (r: Peripherals)
        ensures
            r.peripheral == peripheral,
    {
        Peripherals { peripheral }
    }

    /// Appends a further cleaned section, preserving order: peripherals keep
    /// the sequence in which the sections were handed in.
    pub fn add(self, more: Vec<Peripheral>) -> (r: Peripherals)
        ensures
            r.peripheral@ == self.peripheral@ + more@,
            r.deep_view().peripheral == self.deep_view().peripheral + more.deep_view(),
    {
        let mut v = self.peripheral;
        let mut m = more;
        proof {
            assert(v.deep_view() == self.deep_view().peripheral);
            assert(m.deep_view() == more.deep_view());
        }
        v.append(&mut m);
        proof {
            assert(v.deep_view() =~= self.deep_view().peripheral + more.deep_view());
        }
        Peripherals { peripheral: v }
    }
}

/// The CPU descriptor carried verbatim into the device header.
#[derive(Debug, Clone)]
pub struct CpuDef {
    pub name: String,
    pub revision: String,
    pub endian: String,
    pub mpupresent: bool,
    pub fpupresent: bool,
    pub nvicpriobits: u8,
    pub vendorsystickconfig: bool,
}

pub ghost struct CpuDefV {
    pub name: Seq<char>,
    pub revision: Seq<char>,
    pub endian: Seq<char>,
    pub mpupresent: bool,
    pub fpupresent: bool,
    pub nvicpriobits: u8,
    pub vendorsystickconfig: bool,
}

impl DeepView for CpuDef {
    type V = CpuDefV;

    open spec fn deep_view(&self) -> CpuDefV {
        CpuDefV {
            name: self.name@,
            revision: self.revision@,
            endian: self.endian@,
            mpupresent: self.mpupresent,
            fpupresent: self.fpupresent,
            nvicpriobits: self.nvicpriobits,
            vendorsystickconfig: self.vendorsystickconfig,
        }
    }
}

/// The root of the model: vendor metadata, CPU descriptor, bus defaults and
/// the peripherals.
#[derive(Debug, Clone)]
pub struct Device {
    pub vendor: String,
    pub vendor_id: String,
    pub name: String,
    pub series: String,
    pub version: String,
    pub description: String,
    pub cpu: CpuDef,
    pub addressunitbits: u8,
    pub width: u8,
    pub size: u8,
    pub access: String,
    pub resetvalue: i64,
    pub resetmask: String,
    pub peripherals: Vec<Peripherals>,
}

pub ghost struct DeviceV {
    pub vendor: Seq<char>,
    pub vendor_id: Seq<char>,
    pub name: Seq<char>,
    pub series: Seq<char>,
    pub version: Seq<char>,
    pub description: Seq<char>,
    pub cpu: CpuDefV,
    pub addressunitbits: u8,
    pub width: u8,
    pub size: u8,
    pub access: Seq<char>,
    pub resetvalue: i64,
    pub resetmask: Seq<char>,
    pub peripherals: Seq<PeripheralsV>,
}

impl DeepView for Device {
    type V = DeviceV;

    open spec fn deep_view(&self) -> DeviceV {
        DeviceV {
            vendor: self.vendor@,
            vendor_id: self.vendor_id@,
            name: self.name@,
            series: self.series@,
            version: self.version@,
            description: self.description@,
            cpu: self.cpu.deep_view(),
            addressunitbits: self.addressunitbits,
            width: self.width,
            size: self.size,
            access: self.access@,
            resetvalue: self.resetvalue,
            resetmask: self.resetmask@,
            peripherals: self.peripherals.deep_view(),
        }
    }
}

/// The fixed device-level metadata: everything in the device header besides
/// the peripherals themselves. Handed to [`build_device`] as an explicit
/// value so that callers and tests can supply synthetic metadata.
#[derive(Debug, Clone)]
pub struct DeviceMeta {
    pub vendor: String,
    pub vendor_id: String,
    pub name: String,
    pub series: String,
    pub version: String,
    pub description: String,
    pub cpu: CpuDef,
    pub addressunitbits: u8,
    pub width: u8,
    pub size: u8,
    pub access: String,
    pub resetvalue: i64,
    pub resetmask: String,
}

pub ghost struct DeviceMetaV {
    pub vendor: Seq<char>,
    pub vendor_id: Seq<char>,
    pub name: Seq<char>,
    pub series: Seq<char>,
    pub version: Seq<char>,
    pub description: Seq<char>,
    pub cpu: CpuDefV,
    pub addressunitbits: u8,
    pub width: u8,
    pub size: u8,
    pub access: Seq<char>,
    pub resetvalue: i64,
    pub resetmask: Seq<char>,
}

impl DeepView for DeviceMeta {
    type V = DeviceMetaV;

    open spec fn deep_view(&self) -> DeviceMetaV {
        DeviceMetaV {
            vendor: self.vendor@,
            vendor_id: self.vendor_id@,
            name: self.name@,
            series: self.series@,
            version: self.version@,
            description: self.description@,
            cpu: self.cpu.deep_view(),
            addressunitbits: self.addressunitbits,
            width: self.width,
            size: self.size,
            access: self.access@,
            resetvalue: self.resetvalue,
            resetmask: self.resetmask@,
        }
    }
}

/// The V850 metadata that the converter targets.
pub open spec fn spec_v850_meta() -> DeviceMetaV {
    DeviceMetaV {
        vendor: "Renesas"@,
        vendor_id: "Renesas"@,
        name: "V850"@,
        series: "E1/E2/CA2"@,
        version: "1.2"@,
        description: "NEC/Renesas V850 automotive grade ICs"@,
        cpu: CpuDefV {
            name: "V850"@,
            revision: "r1"@,
            endian: "LE"@,
            mpupresent: false,
            fpupresent: false,
            nvicpriobits: 32,
            vendorsystickconfig: false,
        },
        addressunitbits: 8,
        width: 32,
        size: 0x6,
        access: "read-write"@,
        resetvalue: 0x0,
        resetmask: "0xFFFFFFFF"@,
    }
}

/// The device tree assembled from metadata and cleaned peripherals.
pub open spec fn spec_device(meta: DeviceMetaV, peripherals: Seq<PeripheralsV>) -> DeviceV {
    DeviceV {
        vendor: meta.vendor,
        vendor_id: meta.vendor_id,
        name: meta.name,
        series: meta.series,
        version: meta.version,
        description: meta.description,
        cpu: meta.cpu,
        addressunitbits: meta.addressunitbits,
        width: meta.width,
        size: meta.size,
        access: meta.access,
        resetvalue: meta.resetvalue,
        resetmask: meta.resetmask,
        peripherals: peripherals,
    }
}

/// Builds the fixed metadata for the V850 family, per [`spec_v850_meta`].
pub fn v850_meta() -> (m: DeviceMeta)
    ensures
        m.deep_view() == spec_v850_meta(),
{
    DeviceMeta {
        vendor: String::from_str("Renesas"),
        vendor_id: String::from_str("Renesas"),
        name: String::from_str("V850"),
        series: String::from_str("E1/E2/CA2"),
        version: String::from_str("1.2"),
        description: String::from_str("NEC/Renesas V850 automotive grade ICs"),
        cpu: CpuDef {
            name: String::from_str("V850"),
            revision: String::from_str("r1"),
            endian: String::from_str("LE"),
            mpupresent: false,
            fpupresent: false,
            nvicpriobits: 32,
            vendorsystickconfig: false,
        },
        addressunitbits: 8,
        width: 32,
        size: 0x6,
        access: String::from_str("read-write"),
        resetvalue: 0x0,
        resetmask: String::from_str("0xFFFFFFFF"),
    }
}

/// Wraps the cleaned peripherals and the device metadata into the one
/// device value, per [`spec_device`]. The model is built once and never
/// mutated afterwards.
pub fn build_device(meta: DeviceMeta, peripherals: Vec<Peripherals>) -> (d: Device)
    ensures
        d.deep_view() == spec_device(meta.deep_view(), peripherals.deep_view()),
{
    Device {
        vendor: meta.vendor,
        vendor_id: meta.vendor_id,
        name: meta.name,
        series: meta.series,
        version: meta.version,
        description: meta.description,
        cpu: meta.cpu,
        addressunitbits: meta.addressunitbits,
        width: meta.width,
        size: meta.size,
        access: meta.access,
        resetvalue: meta.resetvalue,
        resetmask: meta.resetmask,
        peripherals: peripherals,
    }
}

} // verus!
