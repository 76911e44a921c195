//! The special-function registers of the target core, with their fixed
//! addresses in the 0x00 to 0x3F space.

use vstd::prelude::*;

verus! {

/// A special-function register.
#[derive(Debug, Clone, Copy, PartialEq, Eq, Structural)]
pub enum Sfr {
    ProgramCounter,
    Status,
    IndirPort1,
    IndirPort2,
    IndirAddr1,
    IndirAddr2,
    TimerCount,
    TimerCtrl,
    TimerInit,
    BitCycle,
    PortDir,
    PortIO,
    BitConfig,
    SysConf,
    CtrlRead,
    CtrlWrite,
    DataExch,
    Data0,
    Data1,
    Data2,
    Data3,
    Data4,
    Data5,
    Data6,
    Data7,
    Data8,
    Data9,
    Data10,
    Data11,
    Data12,
    Data13,
    Data14,
    Data15,
    Data16,
    Data17,
    Data18,
    Data19,
    Data20,
    Data21,
    Data22,
    Data23,
    Data24,
    Data25,
    Data26,
    Data27,
    Data28,
    Data29,
    Data30,
    Data31,
}

/// The fixed address of a special-function register.
pub open spec fn spec_sfr_addr(s: Sfr) -> u8 {
    match s {
            Sfr::ProgramCounter => 0x02,
            Sfr::Status => 0x03,
            Sfr::IndirPort1 => 0x00,
            Sfr::IndirPort2 => 0x01,
            Sfr::IndirAddr1 => 0x04,
            Sfr::IndirAddr2 => 0x09,
            Sfr::TimerCount => 0x05,
            Sfr::TimerCtrl => 0x06,
            Sfr::TimerInit => 0x07,
            Sfr::BitCycle => 0x08,
            Sfr::PortDir => 0x0A,
            Sfr::PortIO => 0x0B,
            Sfr::BitConfig => 0x0C,
            Sfr::SysConf => 0x1C,
            Sfr::CtrlRead => 0x1D,
            Sfr::CtrlWrite => 0x1E,
            Sfr::DataExch => 0x1F,
            Sfr::Data0 => 0x20,
            Sfr::Data1 => 0x21,
            Sfr::Data2 => 0x22,
            Sfr::Data3 => 0x23,
            Sfr::Data4 => 0x24,
            Sfr::Data5 => 0x25,
            Sfr::Data6 => 0x26,
            Sfr::Data7 => 0x27,
            Sfr::Data8 => 0x28,
            Sfr::Data9 => 0x29,
            Sfr::Data10 => 0x2A,
            Sfr::Data11 => 0x2B,
            Sfr::Data12 => 0x2C,
            Sfr::Data13 => 0x2D,
            Sfr::Data14 => 0x2E,
            Sfr::Data15 => 0x2F,
            Sfr::Data16 => 0x30,
            Sfr::Data17 => 0x31,
            Sfr::Data18 => 0x32,
            Sfr::Data19 => 0x33,
            Sfr::Data20 => 0x34,
            Sfr::Data21 => 0x35,
            Sfr::Data22 => 0x36,
            Sfr::Data23 => 0x37,
            Sfr::Data24 => 0x38,
            Sfr::Data25 => 0x39,
            Sfr::Data26 => 0x3A,
            Sfr::Data27 => 0x3B,
            Sfr::Data28 => 0x3C,
            Sfr::Data29 => 0x3D,
            Sfr::Data30 => 0x3E,
            Sfr::Data31 => 0x3F,
    }
}

/// The register at an address, if any.
pub open spec fn spec_sfr_from_addr(v: u8) -> Option<Sfr> {
    if false {
        None
    } else if v == 0x00 {
        Some(Sfr::IndirPort1)
    } else if v == 0x01 {
        Some(Sfr::IndirPort2)
    } else if v == 0x02 {
        Some(Sfr::ProgramCounter)
    } else if v == 0x03 {
        Some(Sfr::Status)
    } else if v == 0x04 {
        Some(Sfr::IndirAddr1)
    } else if v == 0x05 {
        Some(Sfr::TimerCount)
    } else if v == 0x06 {
        Some(Sfr::TimerCtrl)
    } else if v == 0x07 {
        Some(Sfr::TimerInit)
    } else if v == 0x08 {
        Some(Sfr::BitCycle)
    } else if v == 0x09 {
        Some(Sfr::IndirAddr2)
    } else if v == 0x0A {
        Some(Sfr::PortDir)
    } else if v == 0x0B {
        Some(Sfr::PortIO)
    } else if v == 0x0C {
        Some(Sfr::BitConfig)
    } else if v == 0x1C {
        Some(Sfr::SysConf)
    } else if v == 0x1D {
        Some(Sfr::CtrlRead)
    } else if v == 0x1E {
        Some(Sfr::CtrlWrite)
    } else if v == 0x1F {
        Some(Sfr::DataExch)
    } else if v == 0x20 {
        Some(Sfr::Data0)
    } else if v == 0x21 {
        Some(Sfr::Data1)
    } else if v == 0x22 {
        Some(Sfr::Data2)
    } else if v == 0x23 {
        Some(Sfr::Data3)
    } else if v == 0x24 {
        Some(Sfr::Data4)
    } else if v == 0x25 {
        Some(Sfr::Data5)
    } else if v == 0x26 {
        Some(Sfr::Data6)
    } else if v == 0x27 {
        Some(Sfr::Data7)
    } else if v == 0x28 {
        Some(Sfr::Data8)
    } else if v == 0x29 {
        Some(Sfr::Data9)
    } else if v == 0x2A {
        Some(Sfr::Data10)
    } else if v == 0x2B {
        Some(Sfr::Data11)
    } else if v == 0x2C {
        Some(Sfr::Data12)
    } else if v == 0x2D {
        Some(Sfr::Data13)
    } else if v == 0x2E {
        Some(Sfr::Data14)
    } else if v == 0x2F {
        Some(Sfr::Data15)
    } else if v == 0x30 {
        Some(Sfr::Data16)
    } else if v == 0x31 {
        Some(Sfr::Data17)
    } else if v == 0x32 {
        Some(Sfr::Data18)
    } else if v == 0x33 {
        Some(Sfr::Data19)
    } else if v == 0x34 {
        Some(Sfr::Data20)
    } else if v == 0x35 {
        Some(Sfr::Data21)
    } else if v == 0x36 {
        Some(Sfr::Data22)
    } else if v == 0x37 {
        Some(Sfr::Data23)
    } else if v == 0x38 {
        Some(Sfr::Data24)
    } else if v == 0x39 {
        Some(Sfr::Data25)
    } else if v == 0x3A {
        Some(Sfr::Data26)
    } else if v == 0x3B {
        Some(Sfr::Data27)
    } else if v == 0x3C {
        Some(Sfr::Data28)
    } else if v == 0x3D {
        Some(Sfr::Data29)
    } else if v == 0x3E {
        Some(Sfr::Data30)
    } else if v == 0x3F {
        Some(Sfr::Data31)
    } else {
        None
    }
}

impl Sfr {
    /// The fixed address of this register.
    pub fn addr(&self) -> (r: u8)
        ensures
            r == spec_sfr_addr(*self),
    {
        match *self {
            Sfr::ProgramCounter => 0x02,
            Sfr::Status => 0x03,
            Sfr::IndirPort1 => 0x00,
            Sfr::IndirPort2 => 0x01,
            Sfr::IndirAddr1 => 0x04,
            Sfr::IndirAddr2 => 0x09,
            Sfr::TimerCount => 0x05,
            Sfr::TimerCtrl => 0x06,
            Sfr::TimerInit => 0x07,
            Sfr::BitCycle => 0x08,
            Sfr::PortDir => 0x0A,
            Sfr::PortIO => 0x0B,
            Sfr::BitConfig => 0x0C,
            Sfr::SysConf => 0x1C,
            Sfr::CtrlRead => 0x1D,
            Sfr::CtrlWrite => 0x1E,
            Sfr::DataExch => 0x1F,
            Sfr::Data0 => 0x20,
            Sfr::Data1 => 0x21,
            Sfr::Data2 => 0x22,
            Sfr::Data3 => 0x23,
            Sfr::Data4 => 0x24,
            Sfr::Data5 => 0x25,
            Sfr::Data6 => 0x26,
            Sfr::Data7 => 0x27,
            Sfr::Data8 => 0x28,
            Sfr::Data9 => 0x29,
            Sfr::Data10 => 0x2A,
            Sfr::Data11 => 0x2B,
            Sfr::Data12 => 0x2C,
            Sfr::Data13 => 0x2D,
            Sfr::Data14 => 0x2E,
            Sfr::Data15 => 0x2F,
            Sfr::Data16 => 0x30,
            Sfr::Data17 => 0x31,
            Sfr::Data18 => 0x32,
            Sfr::Data19 => 0x33,
            Sfr::Data20 => 0x34,
            Sfr::Data21 => 0x35,
            Sfr::Data22 => 0x36,
            Sfr::Data23 => 0x37,
            Sfr::Data24 => 0x38,
            Sfr::Data25 => 0x39,
            Sfr::Data26 => 0x3A,
            Sfr::Data27 => 0x3B,
            Sfr::Data28 => 0x3C,
            Sfr::Data29 => 0x3D,
            Sfr::Data30 => 0x3E,
            Sfr::Data31 => 0x3F,
        }
    }

    /// The register at an address; fails between the defined addresses.
    pub fn from_addr(v: u8) -> (r: Option<Sfr>)
        ensures
            r == spec_sfr_from_addr(v),
    {
        match v {
        0x00 => Some(Sfr::IndirPort1),
        0x01 => Some(Sfr::IndirPort2),
        0x02 => Some(Sfr::ProgramCounter),
        0x03 => Some(Sfr::Status),
        0x04 => Some(Sfr::IndirAddr1),
        0x05 => Some(Sfr::TimerCount),
        0x06 => Some(Sfr::TimerCtrl),
        0x07 => Some(Sfr::TimerInit),
        0x08 => Some(Sfr::BitCycle),
        0x09 => Some(Sfr::IndirAddr2),
        0x0A => Some(Sfr::PortDir),
        0x0B => Some(Sfr::PortIO),
        0x0C => Some(Sfr::BitConfig),
        0x1C => Some(Sfr::SysConf),
        0x1D => Some(Sfr::CtrlRead),
        0x1E => Some(Sfr::CtrlWrite),
        0x1F => Some(Sfr::DataExch),
        0x20 => Some(Sfr::Data0),
        0x21 => Some(Sfr::Data1),
        0x22 => Some(Sfr::Data2),
        0x23 => Some(Sfr::Data3),
        0x24 => Some(Sfr::Data4),
        0x25 => Some(Sfr::Data5),
        0x26 => Some(Sfr::Data6),
        0x27 => Some(Sfr::Data7),
        0x28 => Some(Sfr::Data8),
        0x29 => Some(Sfr::Data9),
        0x2A => Some(Sfr::Data10),
        0x2B => Some(Sfr::Data11),
        0x2C => Some(Sfr::Data12),
        0x2D => Some(Sfr::Data13),
        0x2E => Some(Sfr::Data14),
        0x2F => Some(Sfr::Data15),
        0x30 => Some(Sfr::Data16),
        0x31 => Some(Sfr::Data17),
        0x32 => Some(Sfr::Data18),
        0x33 => Some(Sfr::Data19),
        0x34 => Some(Sfr::Data20),
        0x35 => Some(Sfr::Data21),
        0x36 => Some(Sfr::Data22),
        0x37 => Some(Sfr::Data23),
        0x38 => Some(Sfr::Data24),
        0x39 => Some(Sfr::Data25),
        0x3A => Some(Sfr::Data26),
        0x3B => Some(Sfr::Data27),
        0x3C => Some(Sfr::Data28),
        0x3D => Some(Sfr::Data29),
        0x3E => Some(Sfr::Data30),
        0x3F => Some(Sfr::Data31),
            _ => None,
        }
    }
}

/// Law: the address of a register leads back to that register.
pub proof fn lemma_sfr_addr_round_trip(s: Sfr)
    ensures
        spec_sfr_from_addr(spec_sfr_addr(s)) == Some(s),
{
}

} // verus!
