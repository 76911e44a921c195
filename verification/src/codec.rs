//! Instruction word codec: the target instruction set, its bit-width
//! constrained operand types, the exact 16-bit encoding of every variant,
//! and the total decoder that inverts it.
//!
//! Encoding packs each instruction family into a disjoint region of the
//! 16-bit opcode space by adding a fixed base pattern to the operand fields;
//! the decoder tests the regions in priority order and falls back to an
//! opaque raw word, so it is total over all 65536 values.

use vstd::prelude::*;

verus! {

/// A 2-bit unsigned field.
#[derive(Debug, Clone, Copy, PartialEq, Eq, Structural)]
pub struct U2(pub u8);

/// A 3-bit unsigned field.
#[derive(Debug, Clone, Copy, PartialEq, Eq, Structural)]
pub struct U3(pub u8);

/// A 7-bit unsigned field.
#[derive(Debug, Clone, Copy, PartialEq, Eq, Structural)]
pub struct U7(pub u8);

/// A 10-bit unsigned field.
#[derive(Debug, Clone, Copy, PartialEq, Eq, Structural)]
pub struct U10(pub u16);

/// A 12-bit unsigned field.
#[derive(Debug, Clone, Copy, PartialEq, Eq, Structural)]
pub struct U12(pub u16);

/// A register or SFR reference: a byte-wide index into the addressable space.
#[derive(Debug, Clone, Copy, PartialEq, Eq, Structural)]
pub struct Reg(pub u8);

/// Destination selector of two-operand instructions: the accumulator `A`
/// or the addressed register `F`.
#[derive(Debug, Clone, Copy, PartialEq, Eq, Structural)]
pub enum Dest {
    A,
    F,
}

/// Wait-condition selector of the wait-bit instruction.
#[derive(Debug, Clone, Copy, PartialEq, Eq, Structural)]
pub struct WaitBit(pub U3);

/// Bit-input source selector.
#[derive(Debug, Clone, Copy, PartialEq, Eq, Structural)]
pub struct BitIn(pub U2);

/// Bit-output sink selector.
#[derive(Debug, Clone, Copy, PartialEq, Eq, Structural)]
pub struct BitOut(pub U2);

/// Bit-input-to-carry source selector.
#[derive(Debug, Clone, Copy, PartialEq, Eq, Structural)]
pub struct BitInC(pub U2);

impl U2 {
    pub open spec fn wf(self) -> bool {
        self.0 < 4
    }

    /// Narrow a signed integer; fails when the value does not fit in 2 bits.
    pub fn try_from_i32(v: i32) -> (r: Option<U2>)
        ensures
            match r {
                Some(u) => u.wf() && u.0 == v,
                None => !(0 <= v < 4),
            },
    {
        if 0 <= v && v < 4 {
            Some(U2(v as u8))
        } else {
            None
        }
    }
}

impl U3 {
    pub open spec fn wf(self) -> bool {
        self.0 < 8
    }

    /// Narrow a signed integer; fails when the value does not fit in 3 bits.
    pub fn try_from_i32(v: i32) -> (r: Option<U3>)
        ensures
            match r {
                Some(u) => u.wf() && u.0 == v,
                None => !(0 <= v < 8),
            },
    {
        if 0 <= v && v < 8 {
            Some(U3(v as u8))
        } else {
            None
        }
    }
}

impl U7 {
    pub open spec fn wf(self) -> bool {
        self.0 < 128
    }

    /// Narrow a signed integer; fails when the value does not fit in 7 bits.
    pub fn try_from_i32(v: i32) -> (r: Option<U7>)
        ensures
            match r {
                Some(u) => u.wf() && u.0 == v,
                None => !(0 <= v < 128),
            },
    {
        if 0 <= v && v < 128 {
            Some(U7(v as u8))
        } else {
            None
        }
    }
}

impl U10 {
    pub open spec fn wf(self) -> bool {
        self.0 < 1024
    }

    /// Narrow a signed integer; fails when the value does not fit in 10 bits.
    pub fn try_from_i32(v: i32) -> (r: Option<U10>)
        ensures
            match r {
                Some(u) => u.wf() && u.0 == v,
                None => !(0 <= v < 1024),
            },
    {
        if 0 <= v && v < 1024 {
            Some(U10(v as u16))
        } else {
            None
        }
    }
}

impl U12 {
    pub open spec fn wf(self) -> bool {
        self.0 < 4096
    }

    /// Narrow a signed integer; fails when the value does not fit in 12 bits.
    pub fn try_from_i32(v: i32) -> (r: Option<U12>)
        ensures
            match r {
                Some(u) => u.wf() && u.0 == v,
                None => !(0 <= v < 4096),
            },
    {
        if 0 <= v && v < 4096 {
            Some(U12(v as u16))
        } else {
            None
        }
    }
}

impl Reg {
    /// Narrow a signed integer; fails when the value does not fit in a byte.
    pub fn try_from_i32(v: i32) -> (r: Option<Reg>)
        ensures
            match r {
                Some(u) => u.0 == v,
                None => !(0 <= v < 256),
            },
    {
        if 0 <= v && v < 256 {
            Some(Reg(v as u8))
        } else {
            None
        }
    }
}

/// Narrow a signed integer to a byte immediate; fails when out of range.
pub fn u8_try_from_i32(v: i32) -> (r: Option<u8>)
    ensures
        match r {
            Some(u) => u == v,
            None => !(0 <= v < 256),
        },
{
    if 0 <= v && v < 256 {
        Some(v as u8)
    } else {
        None
    }
}

/// Narrow a signed integer to a raw word; fails when out of range.
pub fn u16_try_from_i32(v: i32) -> (r: Option<u16>)
    ensures
        match r {
            Some(u) => u == v,
            None => !(0 <= v < 65536),
        },
{
    if 0 <= v && v < 65536 {
        Some(v as u16)
    } else {
        None
    }
}

/// The bit value of a destination selector inside an encoded word.
pub open spec fn dest_bit(d: Dest) -> int {
    match d {
        Dest::A => 0,
        Dest::F => 1,
    }
}

/// The decoded / target instruction representation: one variant per opcode,
/// each carrying exactly the operand values its bit layout needs.
#[derive(Debug, Clone, Copy, PartialEq, Eq)]
pub enum Inst {
    Nop,
    ClearWatchDog,
    Sleep(U2),
    WaitB(WaitBit),
    ReadCode(U2),
    BitToC(BitInC),
    PushA,
    PopA,
    PushIndirAddr2,
    PopIndirAddr2,
    Return,
    ReturnOk,
    ReturnInt,
    ClearA,
    Clear(Reg),
    MoveA(Reg),
    Move(Reg, Dest),
    Inc(Reg, Dest),
    Dec(Reg, Dest),
    IncAndSkipIfZero(Reg, Dest),
    DecAndSkipIfZero(Reg, Dest),
    SwapHalfBytes(Reg, Dest),
    And(Reg, Dest),
    Or(Reg, Dest),
    Xor(Reg, Dest),
    Add(Reg, Dest),
    Sub(Reg, Dest),
    RotateLeftWithCarry(Reg, Dest),
    RotateRightWithCarry(Reg, Dest),
    ReturnImm(u8),
    ReturnErrImm(u8),
    MoveImmToIndirAddr1(u8),
    MoveImmToIndirAddr2(u8),
    MoveImmToPortDir(u8),
    MoveImmToPortIo(u8),
    MoveImmToP1(U7),
    MoveImmToP2(U7),
    MoveImm(u8),
    AndImm(u8),
    OrImm(u8),
    XorImm(u8),
    AddImm(u8),
    SubImm(u8),
    CompareImmNegate(u8),
    CompareImm(u8),
    BitClear(Reg, U3),
    BitSet(Reg, U3),
    BitTestSkipIfClear(Reg, U3),
    BitTestSkipIfSet(Reg, U3),
    BitOut1(BitOut, U3),
    BitOut2(BitOut, U3),
    BitIn1(BitIn, U3),
    BitIn2(BitIn, U3),
    Jump(U12),
    Call(U12),
    JumpIfNotZero(U10),
    JumpIfZero(U10),
    JumpIfNotCarry(U10),
    JumpIfCarry(U10),
    JumpIfEqual(U7, u8),
    Unknown(u16),
}

impl Inst {
    /// Well-formedness: every operand field fits its declared bit width.
    pub open spec fn wf(self) -> bool {
        match self {
            Inst::Sleep(s) => s.wf(),
            Inst::WaitB(w) => w.0.wf(),
            Inst::ReadCode(s) => s.wf(),
            Inst::BitToC(c) => c.0.wf(),
            Inst::Move(_, _) => true,
            Inst::BitClear(_, b) => b.wf(),
            Inst::BitSet(_, b) => b.wf(),
            Inst::BitTestSkipIfClear(_, b) => b.wf(),
            Inst::BitTestSkipIfSet(_, b) => b.wf(),
            Inst::BitOut1(s, b) => s.0.wf() && b.wf(),
            Inst::BitOut2(s, b) => s.0.wf() && b.wf(),
            Inst::BitIn1(s, b) => s.0.wf() && b.wf(),
            Inst::BitIn2(s, b) => s.0.wf() && b.wf(),
            Inst::MoveImmToP1(k) => k.wf(),
            Inst::MoveImmToP2(k) => k.wf(),
            Inst::Jump(t) => t.wf(),
            Inst::Call(t) => t.wf(),
            Inst::JumpIfNotZero(t) => t.wf(),
            Inst::JumpIfZero(t) => t.wf(),
            Inst::JumpIfNotCarry(t) => t.wf(),
            Inst::JumpIfCarry(t) => t.wf(),
            Inst::JumpIfEqual(v, _) => v.wf(),
            _ => true,
        }
    }

    /// The exact 16-bit encoding of a well-formed instruction: a fixed base
    /// pattern per variant plus the packed operand fields.
    pub open spec fn word_of(self) -> int {
        match self {
            Inst::Nop => 0x0000,
            Inst::ClearWatchDog => 0x0001,
            Inst::PushA => 0x0002,
            Inst::PopA => 0x0003,
            Inst::PushIndirAddr2 => 0x0004,
            Inst::PopIndirAddr2 => 0x0005,
            Inst::Return => 0x0008,
            Inst::ReturnOk => 0x0009,
            Inst::ReturnInt => 0x000A,
            Inst::Sleep(s) => 0x0010 + s.0,
            Inst::ReadCode(s) => 0x0014 + s.0,
            Inst::BitToC(c) => 0x0018 + c.0.0,
            Inst::WaitB(w) => 0x0020 + w.0.0,
            Inst::MoveA(f) => 0x0100 + f.0,
            Inst::ClearA => 0x0200,
            Inst::Clear(f) => 0x0300 + f.0,
            Inst::Move(f, d) => 0x0400 + dest_bit(d) * 0x100 + f.0,
            Inst::Inc(f, d) => 0x0600 + dest_bit(d) * 0x100 + f.0,
            Inst::Dec(f, d) => 0x0800 + dest_bit(d) * 0x100 + f.0,
            Inst::IncAndSkipIfZero(f, d) => 0x0A00 + dest_bit(d) * 0x100 + f.0,
            Inst::DecAndSkipIfZero(f, d) => 0x0C00 + dest_bit(d) * 0x100 + f.0,
            Inst::SwapHalfBytes(f, d) => 0x0E00 + dest_bit(d) * 0x100 + f.0,
            Inst::And(f, d) => 0x1000 + dest_bit(d) * 0x100 + f.0,
            Inst::Or(f, d) => 0x1200 + dest_bit(d) * 0x100 + f.0,
            Inst::Xor(f, d) => 0x1400 + dest_bit(d) * 0x100 + f.0,
            Inst::Add(f, d) => 0x1600 + dest_bit(d) * 0x100 + f.0,
            Inst::Sub(f, d) => 0x1800 + dest_bit(d) * 0x100 + f.0,
            Inst::RotateLeftWithCarry(f, d) => 0x1A00 + dest_bit(d) * 0x100 + f.0,
            Inst::RotateRightWithCarry(f, d) => 0x1C00 + dest_bit(d) * 0x100 + f.0,
            Inst::BitOut1(s, b) => 0x1E00 + s.0.0 * 8 + b.0,
            Inst::BitOut2(s, b) => 0x1E20 + s.0.0 * 8 + b.0,
            Inst::BitIn1(s, b) => 0x1E40 + s.0.0 * 8 + b.0,
            Inst::BitIn2(s, b) => 0x1E60 + s.0.0 * 8 + b.0,
            Inst::BitClear(f, b) => 0x2000 + b.0 * 0x100 + f.0,
            Inst::BitSet(f, b) => 0x2800 + b.0 * 0x100 + f.0,
            Inst::BitTestSkipIfClear(f, b) => 0x3000 + b.0 * 0x100 + f.0,
            Inst::BitTestSkipIfSet(f, b) => 0x3800 + b.0 * 0x100 + f.0,
            Inst::MoveImm(k) => 0x4000 + k,
            Inst::AndImm(k) => 0x4100 + k,
            Inst::OrImm(k) => 0x4200 + k,
            Inst::XorImm(k) => 0x4300 + k,
            Inst::AddImm(k) => 0x4400 + k,
            Inst::SubImm(k) => 0x4500 + k,
            Inst::CompareImm(k) => 0x4600 + k,
            Inst::CompareImmNegate(k) => 0x4700 + k,
            Inst::ReturnImm(k) => 0x4800 + k,
            Inst::ReturnErrImm(k) => 0x4900 + k,
            Inst::MoveImmToIndirAddr1(k) => 0x4A00 + k,
            Inst::MoveImmToIndirAddr2(k) => 0x4B00 + k,
            Inst::MoveImmToPortDir(k) => 0x4C00 + k,
            Inst::MoveImmToPortIo(k) => 0x4D00 + k,
            Inst::MoveImmToP1(k) => 0x4E00 + k.0,
            Inst::MoveImmToP2(k) => 0x4E80 + k.0,
            Inst::JumpIfNotZero(t) => 0x5000 + t.0,
            Inst::JumpIfZero(t) => 0x5400 + t.0,
            Inst::JumpIfNotCarry(t) => 0x5800 + t.0,
            Inst::JumpIfCarry(t) => 0x5C00 + t.0,
            Inst::Jump(t) => 0x6000 + t.0,
            Inst::Call(t) => 0x7000 + t.0,
            Inst::JumpIfEqual(v, t) => 0x8000 + v.0 * 0x100 + t,
            Inst::Unknown(w) => w as int,
        }
    }

    /// Encode a well-formed instruction into its 16-bit word.
    #[verifier::rlimit(100)]
    #[verifier::spinoff_prover]
    pub fn to_word(&self) -> (r: u16)
        requires
            self.wf(),
        ensures
            r == self.word_of(),
    {
        match *self {
            Inst::Nop => return 0x0000,
            Inst::ClearWatchDog => return 0x0001,
            Inst::PushA => return 0x0002,
            Inst::PopA => return 0x0003,
            Inst::PushIndirAddr2 => return 0x0004,
            Inst::PopIndirAddr2 => return 0x0005,
            Inst::Return => return 0x0008,
            Inst::ReturnOk => return 0x0009,
            Inst::ReturnInt => return 0x000A,
            Inst::Sleep(s) => return pack_small(0x0010, s),
            Inst::ReadCode(s) => return pack_small(0x0014, s),
            Inst::BitToC(c) => return pack_small(0x0018, c.0),
            Inst::WaitB(w) => return pack_wait(w),
            Inst::MoveA(f) => return pack_imm(0x0100, f.0),
            Inst::ClearA => return 0x0200,
            Inst::Clear(f) => return pack_imm(0x0300, f.0),
            Inst::Move(f, d) => return pack_two_op(0x0400, f, d),
            Inst::Inc(f, d) => return pack_two_op(0x0600, f, d),
            Inst::Dec(f, d) => return pack_two_op(0x0800, f, d),
            Inst::IncAndSkipIfZero(f, d) => return pack_two_op(0x0A00, f, d),
            Inst::DecAndSkipIfZero(f, d) => return pack_two_op(0x0C00, f, d),
            Inst::SwapHalfBytes(f, d) => return pack_two_op(0x0E00, f, d),
            Inst::And(f, d) => return pack_two_op(0x1000, f, d),
            Inst::Or(f, d) => return pack_two_op(0x1200, f, d),
            Inst::Xor(f, d) => return pack_two_op(0x1400, f, d),
            Inst::Add(f, d) => return pack_two_op(0x1600, f, d),
            Inst::Sub(f, d) => return pack_two_op(0x1800, f, d),
            Inst::RotateLeftWithCarry(f, d) => return pack_two_op(0x1A00, f, d),
            Inst::RotateRightWithCarry(f, d) => return pack_two_op(0x1C00, f, d),
            Inst::BitOut1(s, b) => return pack_bit_io(0x1E00, s.0, b),
            Inst::BitOut2(s, b) => return pack_bit_io(0x1E20, s.0, b),
            Inst::BitIn1(s, b) => return pack_bit_io(0x1E40, s.0, b),
            Inst::BitIn2(s, b) => return pack_bit_io(0x1E60, s.0, b),
            Inst::BitClear(f, b) => return pack_bit_op(0x2000, f, b),
            Inst::BitSet(f, b) => return pack_bit_op(0x2800, f, b),
            Inst::BitTestSkipIfClear(f, b) => return pack_bit_op(0x3000, f, b),
            Inst::BitTestSkipIfSet(f, b) => return pack_bit_op(0x3800, f, b),
            Inst::MoveImm(k) => return pack_imm(0x4000, k),
            Inst::AndImm(k) => return pack_imm(0x4100, k),
            Inst::OrImm(k) => return pack_imm(0x4200, k),
            Inst::XorImm(k) => return pack_imm(0x4300, k),
            Inst::AddImm(k) => return pack_imm(0x4400, k),
            Inst::SubImm(k) => return pack_imm(0x4500, k),
            Inst::CompareImm(k) => return pack_imm(0x4600, k),
            Inst::CompareImmNegate(k) => return pack_imm(0x4700, k),
            Inst::ReturnImm(k) => return pack_imm(0x4800, k),
            Inst::ReturnErrImm(k) => return pack_imm(0x4900, k),
            Inst::MoveImmToIndirAddr1(k) => return pack_imm(0x4A00, k),
            Inst::MoveImmToIndirAddr2(k) => return pack_imm(0x4B00, k),
            Inst::MoveImmToPortDir(k) => return pack_imm(0x4C00, k),
            Inst::MoveImmToPortIo(k) => return pack_imm(0x4D00, k),
            Inst::MoveImmToP1(k) => return pack_imm(0x4E00, k.0),
            Inst::MoveImmToP2(k) => return pack_imm(0x4E80, k.0),
            Inst::JumpIfNotZero(t) => return pack_target(0x5000, t.0),
            Inst::JumpIfZero(t) => return pack_target(0x5400, t.0),
            Inst::JumpIfNotCarry(t) => return pack_target(0x5800, t.0),
            Inst::JumpIfCarry(t) => return pack_target(0x5C00, t.0),
            Inst::Jump(t) => return pack_target(0x6000, t.0),
            Inst::Call(t) => return pack_target(0x7000, t.0),
            Inst::JumpIfEqual(v, t) => return pack_cmp_jump(v, t),
            Inst::Unknown(w) => return w,
        }
    }
}

/// Pack a small 2-bit field next to a fixed base pattern.
fn pack_small(base: u16, s: U2) -> (r: u16)
    requires
        base <= 0x0018,
        s.wf(),
    ensures
        r == base + s.0,
{
    base + s.0 as u16
}

/// Pack the wait-condition field of the wait-bit instruction.
fn pack_wait(w: WaitBit) -> (r: u16)
    requires
        w.0.wf(),
    ensures
        r == 0x0020 + w.0.0,
{
    0x0020 + w.0.0 as u16
}

/// Pack a byte field into the low byte above a fixed base pattern.
fn pack_imm(base: u16, k: u8) -> (r: u16)
    requires
        base <= 0x4E80,
    ensures
        r == base + k,
{
    base + k as u16
}

/// Pack a register and a destination bit into the low nine bits.
fn pack_two_op(base: u16, f: Reg, d: Dest) -> (r: u16)
    requires
        base <= 0x1C00,
    ensures
        r == base + dest_bit(d) * 0x100 + f.0,
{
    base + d.bit() * 0x100 + f.0 as u16
}

/// Pack a bit index and a register into the low eleven bits.
fn pack_bit_op(base: u16, f: Reg, b: U3) -> (r: u16)
    requires
        base <= 0x3800,
        b.wf(),
    ensures
        r == base + b.0 * 0x100 + f.0,
{
    base + b.0 as u16 * 0x100 + f.0 as u16
}

/// Pack a bit-I/O selector and a bit index into the low five bits.
fn pack_bit_io(base: u16, s: U2, b: U3) -> (r: u16)
    requires
        base <= 0x1E60,
        s.wf(),
        b.wf(),
    ensures
        r == base + s.0 * 8 + b.0,
{
    base + s.0 as u16 * 8 + b.0 as u16
}

/// Pack a jump target into the low bits above a fixed base pattern.
fn pack_target(base: u16, t: u16) -> (r: u16)
    requires
        base <= 0x7000,
        t < 0x1000,
    ensures
        r == base + t,
{
    base + t
}

/// Pack the compare value and target of the equality-compare-and-jump word.
fn pack_cmp_jump(v: U7, t: u8) -> (r: u16)
    requires
        v.wf(),
    ensures
        r == 0x8000 + v.0 * 0x100 + t,
{
    0x8000 + v.0 as u16 * 0x100 + t as u16
}

/// The decoding of a 16-bit word: the regions of the opcode space are
/// tested in priority order, from the equality-compare-and-jump family that
/// owns the highest bit, through the fixed-pattern, two-operand, immediate,
/// bit-indexed and jump families; a word matching no family decodes to the
/// opaque raw form, so decoding is total.
pub open spec fn spec_decode(w: u16) -> Inst {
    let x = w as int;
    if x >= 0x8000 {
        Inst::JumpIfEqual(U7((x / 0x100 - 0x80) as u8), (x % 0x100) as u8)
    } else if x < 0x0100 {
        if x == 0x0000 {
            Inst::Nop
        } else if x == 0x0001 {
            Inst::ClearWatchDog
        } else if x == 0x0002 {
            Inst::PushA
        } else if x == 0x0003 {
            Inst::PopA
        } else if x == 0x0004 {
            Inst::PushIndirAddr2
        } else if x == 0x0005 {
            Inst::PopIndirAddr2
        } else if x == 0x0008 {
            Inst::Return
        } else if x == 0x0009 {
            Inst::ReturnOk
        } else if x == 0x000A {
            Inst::ReturnInt
        } else if 0x0010 <= x && x < 0x0014 {
            Inst::Sleep(U2((x - 0x0010) as u8))
        } else if 0x0014 <= x && x < 0x0018 {
            Inst::ReadCode(U2((x - 0x0014) as u8))
        } else if 0x0018 <= x && x < 0x001C {
            Inst::BitToC(BitInC(U2((x - 0x0018) as u8)))
        } else if 0x0020 <= x && x < 0x0028 {
            Inst::WaitB(WaitBit(U3((x - 0x0020) as u8)))
        } else {
            Inst::Unknown(w)
        }
    } else if x < 0x0200 {
        Inst::MoveA(Reg((x - 0x0100) as u8))
    } else if x == 0x0200 {
        Inst::ClearA
    } else if x < 0x0300 {
        Inst::Unknown(w)
    } else if x < 0x0400 {
        Inst::Clear(Reg((x - 0x0300) as u8))
    } else if x < 0x1E00 {
        let d = if (x / 0x100) % 2 == 1 {
            Dest::F
        } else {
            Dest::A
        };
        let f = Reg((x % 0x100) as u8);
        if x < 0x0600 {
            Inst::Move(f, d)
        } else if x < 0x0800 {
            Inst::Inc(f, d)
        } else if x < 0x0A00 {
            Inst::Dec(f, d)
        } else if x < 0x0C00 {
            Inst::IncAndSkipIfZero(f, d)
        } else if x < 0x0E00 {
            Inst::DecAndSkipIfZero(f, d)
        } else if x < 0x1000 {
            Inst::SwapHalfBytes(f, d)
        } else if x < 0x1200 {
            Inst::And(f, d)
        } else if x < 0x1400 {
            Inst::Or(f, d)
        } else if x < 0x1600 {
            Inst::Xor(f, d)
        } else if x < 0x1800 {
            Inst::Add(f, d)
        } else if x < 0x1A00 {
            Inst::Sub(f, d)
        } else if x < 0x1C00 {
            Inst::RotateLeftWithCarry(f, d)
        } else {
            Inst::RotateRightWithCarry(f, d)
        }
    } else if x < 0x1E80 {
        let s = U2((((x - 0x1E00) % 0x20) / 8) as u8);
        let b = U3(((x - 0x1E00) % 8) as u8);
        if x < 0x1E20 {
            Inst::BitOut1(BitOut(s), b)
        } else if x < 0x1E40 {
            Inst::BitOut2(BitOut(s), b)
        } else if x < 0x1E60 {
            Inst::BitIn1(BitIn(s), b)
        } else {
            Inst::BitIn2(BitIn(s), b)
        }
    } else if x < 0x2000 {
        Inst::Unknown(w)
    } else if x < 0x4000 {
        let b = U3(((x / 0x100) % 8) as u8);
        let f = Reg((x % 0x100) as u8);
        if x < 0x2800 {
            Inst::BitClear(f, b)
        } else if x < 0x3000 {
            Inst::BitSet(f, b)
        } else if x < 0x3800 {
            Inst::BitTestSkipIfClear(f, b)
        } else {
            Inst::BitTestSkipIfSet(f, b)
        }
    } else if x < 0x4E00 {
        let k = (x % 0x100) as u8;
        if x < 0x4100 {
            Inst::MoveImm(k)
        } else if x < 0x4200 {
            Inst::AndImm(k)
        } else if x < 0x4300 {
            Inst::OrImm(k)
        } else if x < 0x4400 {
            Inst::XorImm(k)
        } else if x < 0x4500 {
            Inst::AddImm(k)
        } else if x < 0x4600 {
            Inst::SubImm(k)
        } else if x < 0x4700 {
            Inst::CompareImm(k)
        } else if x < 0x4800 {
            Inst::CompareImmNegate(k)
        } else if x < 0x4900 {
            Inst::ReturnImm(k)
        } else if x < 0x4A00 {
            Inst::ReturnErrImm(k)
        } else if x < 0x4B00 {
            Inst::MoveImmToIndirAddr1(k)
        } else if x < 0x4C00 {
            Inst::MoveImmToIndirAddr2(k)
        } else if x < 0x4D00 {
            Inst::MoveImmToPortDir(k)
        } else {
            Inst::MoveImmToPortIo(k)
        }
    } else if x < 0x4E80 {
        Inst::MoveImmToP1(U7((x - 0x4E00) as u8))
    } else if x < 0x4F00 {
        Inst::MoveImmToP2(U7((x - 0x4E80) as u8))
    } else if x < 0x5000 {
        Inst::Unknown(w)
    } else if x < 0x6000 {
        let t = U10((x % 0x400) as u16);
        if x < 0x5400 {
            Inst::JumpIfNotZero(t)
        } else if x < 0x5800 {
            Inst::JumpIfZero(t)
        } else if x < 0x5C00 {
            Inst::JumpIfNotCarry(t)
        } else {
            Inst::JumpIfCarry(t)
        }
    } else if x < 0x7000 {
        Inst::Jump(U12((x - 0x6000) as u16))
    } else {
        Inst::Call(U12((x - 0x7000) as u16))
    }
}

impl Inst {
    /// Decode a 16-bit word. Total: every bit pattern decodes, unknown
    /// patterns to the opaque raw form.
    #[verifier::rlimit(60)]
    pub fn from_word(w: u16) -> (r: Inst)
        ensures
            r == spec_decode(w),
    {
        if w >= 0x8000 {
            return Inst::JumpIfEqual(U7((w / 0x100 - 0x80) as u8), (w % 0x100) as u8);
        }
        if w < 0x0100 {
            if w == 0x0000 {
                return Inst::Nop;
            }
            if w == 0x0001 {
                return Inst::ClearWatchDog;
            }
            if w == 0x0002 {
                return Inst::PushA;
            }
            if w == 0x0003 {
                return Inst::PopA;
            }
            if w == 0x0004 {
                return Inst::PushIndirAddr2;
            }
            if w == 0x0005 {
                return Inst::PopIndirAddr2;
            }
            if w == 0x0008 {
                return Inst::Return;
            }
            if w == 0x0009 {
                return Inst::ReturnOk;
            }
            if w == 0x000A {
                return Inst::ReturnInt;
            }
            if 0x0010 <= w && w < 0x0014 {
                return Inst::Sleep(U2((w - 0x0010) as u8));
            }
            if 0x0014 <= w && w < 0x0018 {
                return Inst::ReadCode(U2((w - 0x0014) as u8));
            }
            if 0x0018 <= w && w < 0x001C {
                return Inst::BitToC(BitInC(U2((w - 0x0018) as u8)));
            }
            if 0x0020 <= w && w < 0x0028 {
                return Inst::WaitB(WaitBit(U3((w - 0x0020) as u8)));
            }
            return Inst::Unknown(w);
        }
        if w < 0x0200 {
            return Inst::MoveA(Reg((w - 0x0100) as u8));
        }
        if w == 0x0200 {
            return Inst::ClearA;
        }
        if w < 0x0300 {
            return Inst::Unknown(w);
        }
        if w < 0x0400 {
            return Inst::Clear(Reg((w - 0x0300) as u8));
        }
        if w < 0x1E00 {
            let d = if (w / 0x100) % 2 == 1 {
                Dest::F
            } else {
                Dest::A
            };
            let f = Reg((w % 0x100) as u8);
            if w < 0x0600 {
                return Inst::Move(f, d);
            }
            if w < 0x0800 {
                return Inst::Inc(f, d);
            }
            if w < 0x0A00 {
                return Inst::Dec(f, d);
            }
            if w < 0x0C00 {
                return Inst::IncAndSkipIfZero(f, d);
            }
            if w < 0x0E00 {
                return Inst::DecAndSkipIfZero(f, d);
            }
            if w < 0x1000 {
                return Inst::SwapHalfBytes(f, d);
            }
            if w < 0x1200 {
                return Inst::And(f, d);
            }
            if w < 0x1400 {
                return Inst::Or(f, d);
            }
            if w < 0x1600 {
                return Inst::Xor(f, d);
            }
            if w < 0x1800 {
                return Inst::Add(f, d);
            }
            if w < 0x1A00 {
                return Inst::Sub(f, d);
            }
            if w < 0x1C00 {
                return Inst::RotateLeftWithCarry(f, d);
            }
            return Inst::RotateRightWithCarry(f, d);
        }
        if w < 0x1E80 {
            let s = U2((((w - 0x1E00) % 0x20) / 8) as u8);
            let b = U3(((w - 0x1E00) % 8) as u8);
            if w < 0x1E20 {
                return Inst::BitOut1(BitOut(s), b);
            }
            if w < 0x1E40 {
                return Inst::BitOut2(BitOut(s), b);
            }
            if w < 0x1E60 {
                return Inst::BitIn1(BitIn(s), b);
            }
            return Inst::BitIn2(BitIn(s), b);
        }
        if w < 0x2000 {
            return Inst::Unknown(w);
        }
        if w < 0x4000 {
            let b = U3(((w / 0x100) % 8) as u8);
            let f = Reg((w % 0x100) as u8);
            if w < 0x2800 {
                return Inst::BitClear(f, b);
            }
            if w < 0x3000 {
                return Inst::BitSet(f, b);
            }
            if w < 0x3800 {
                return Inst::BitTestSkipIfClear(f, b);
            }
            return Inst::BitTestSkipIfSet(f, b);
        }
        if w < 0x4E00 {
            let k = (w % 0x100) as u8;
            if w < 0x4100 {
                return Inst::MoveImm(k);
            }
            if w < 0x4200 {
                return Inst::AndImm(k);
            }
            if w < 0x4300 {
                return Inst::OrImm(k);
            }
            if w < 0x4400 {
                return Inst::XorImm(k);
            }
            if w < 0x4500 {
                return Inst::AddImm(k);
            }
            if w < 0x4600 {
                return Inst::SubImm(k);
            }
            if w < 0x4700 {
                return Inst::CompareImm(k);
            }
            if w < 0x4800 {
                return Inst::CompareImmNegate(k);
            }
            if w < 0x4900 {
                return Inst::ReturnImm(k);
            }
            if w < 0x4A00 {
                return Inst::ReturnErrImm(k);
            }
            if w < 0x4B00 {
                return Inst::MoveImmToIndirAddr1(k);
            }
            if w < 0x4C00 {
                return Inst::MoveImmToIndirAddr2(k);
            }
            if w < 0x4D00 {
                return Inst::MoveImmToPortDir(k);
            }
            return Inst::MoveImmToPortIo(k);
        }
        if w < 0x4E80 {
            return Inst::MoveImmToP1(U7((w - 0x4E00) as u8));
        }
        if w < 0x4F00 {
            return Inst::MoveImmToP2(U7((w - 0x4E80) as u8));
        }
        if w < 0x5000 {
            return Inst::Unknown(w);
        }
        if w < 0x6000 {
            let t = U10(w % 0x400);
            if w < 0x5400 {
                return Inst::JumpIfNotZero(t);
            }
            if w < 0x5800 {
                return Inst::JumpIfZero(t);
            }
            if w < 0x5C00 {
                return Inst::JumpIfNotCarry(t);
            }
            return Inst::JumpIfCarry(t);
        }
        if w < 0x7000 {
            return Inst::Jump(U12(w - 0x6000));
        }
        Inst::Call(U12(w - 0x7000))
    }
}

impl Dest {
    /// The encoded bit of this selector.
    pub fn bit(&self) -> (r: u16)
        ensures
            r == dest_bit(*self),
            r <= 1,
    {
        match *self {
            Dest::A => 0,
            Dest::F => 1,
        }
    }
}



/// Law: decoding is total and always yields a well-formed instruction, for
/// every one of the 65536 possible words.
pub proof fn lemma_decode_total_wf(w: u16)
    ensures
        spec_decode(w).wf(),
{
}

proof fn ri_low(w: u16)
    requires
        w < 0x0400,
    ensures
        spec_decode(w).word_of() == w,
{
}

proof fn ri_two_op(w: u16)
    requires
        0x0400 <= w < 0x1E00,
    ensures
        spec_decode(w).word_of() == w,
{
}

proof fn ri_bit_io(w: u16)
    requires
        0x1E00 <= w < 0x2000,
    ensures
        spec_decode(w).word_of() == w,
{
}

proof fn ri_bit_op(w: u16)
    requires
        0x2000 <= w < 0x4000,
    ensures
        spec_decode(w).word_of() == w,
{
}

proof fn ri_imm(w: u16)
    requires
        0x4000 <= w < 0x5000,
    ensures
        spec_decode(w).word_of() == w,
{
}

proof fn ri_jump(w: u16)
    requires
        0x5000 <= w < 0x8000,
    ensures
        spec_decode(w).word_of() == w,
{
}

proof fn ri_cmp_jump(w: u16)
    requires
        0x8000 <= w,
    ensures
        spec_decode(w).word_of() == w,
{
}

/// Law: decoding is a right inverse of encoding. Every word re-encodes to
/// the identical word; in particular a word that decodes to the opaque raw
/// form re-encodes to itself.
pub proof fn lemma_decode_right_inverse(w: u16)
    ensures
        spec_decode(w).word_of() == w,
{
    if w < 0x0400 {
        ri_low(w);
    } else if w < 0x1E00 {
        ri_two_op(w);
    } else if w < 0x2000 {
        ri_bit_io(w);
    } else if w < 0x4000 {
        ri_bit_op(w);
    } else if w < 0x5000 {
        ri_imm(w);
    } else if w < 0x8000 {
        ri_jump(w);
    } else {
        ri_cmp_jump(w);
    }
}

proof fn rt_fixed(i: Inst)
    requires
        i.wf(),
        i.word_of() < 0x0400,
        (!(i is Unknown)),
    ensures
        spec_decode(i.word_of() as u16) == i,
{
}

proof fn split_two_op(base: int, db: int, f0: int)
    requires
        base % 0x200 == 0,
        0x0400 <= base <= 0x1C00,
        0 <= db <= 1,
        0 <= f0 < 0x100,
    ensures
        (base + db * 0x100 + f0) / 0x100 % 2 == db,
        (base + db * 0x100 + f0) % 0x100 == f0,
        base <= base + db * 0x100 + f0 < base + 0x200,
{
    if db == 0 {
        assert((base + f0) / 0x100 % 2 == 0);
        assert((base + f0) % 0x100 == f0);
    } else {
        assert((base + 0x100 + f0) / 0x100 % 2 == 1);
        assert((base + 0x100 + f0) % 0x100 == f0);
    }
}

proof fn rt_two_op_low(i: Inst)
    requires
        i.wf(),
        0x0400 <= i.word_of() < 0x1000,
        (!(i is Unknown)),
    ensures
        spec_decode(i.word_of() as u16) == i,
{
    match i {
        Inst::Move(f, d) => split_two_op(0x0400, dest_bit(d), f.0 as int),
        Inst::Inc(f, d) => split_two_op(0x0600, dest_bit(d), f.0 as int),
        Inst::Dec(f, d) => split_two_op(0x0800, dest_bit(d), f.0 as int),
        Inst::IncAndSkipIfZero(f, d) => split_two_op(0x0A00, dest_bit(d), f.0 as int),
        Inst::DecAndSkipIfZero(f, d) => split_two_op(0x0C00, dest_bit(d), f.0 as int),
        Inst::SwapHalfBytes(f, d) => split_two_op(0x0E00, dest_bit(d), f.0 as int),
        _ => (),
    }
}

#[verifier::rlimit(50)]
proof fn rt_two_op_high(i: Inst)
    requires
        i.wf(),
        0x1000 <= i.word_of() < 0x1E00,
        (!(i is Unknown)),
    ensures
        spec_decode(i.word_of() as u16) == i,
{
    match i {
        Inst::And(f, d) => split_two_op(0x1000, dest_bit(d), f.0 as int),
        Inst::Or(f, d) => split_two_op(0x1200, dest_bit(d), f.0 as int),
        Inst::Xor(f, d) => split_two_op(0x1400, dest_bit(d), f.0 as int),
        Inst::Add(f, d) => split_two_op(0x1600, dest_bit(d), f.0 as int),
        Inst::Sub(f, d) => split_two_op(0x1800, dest_bit(d), f.0 as int),
        Inst::RotateLeftWithCarry(f, d) => split_two_op(0x1A00, dest_bit(d), f.0 as int),
        Inst::RotateRightWithCarry(f, d) => split_two_op(0x1C00, dest_bit(d), f.0 as int),
        _ => (),
    }
}

proof fn rt_two_op(i: Inst)
    requires
        i.wf(),
        0x0400 <= i.word_of() < 0x1E00,
        (!(i is Unknown)),
    ensures
        spec_decode(i.word_of() as u16) == i,
{
    if i.word_of() < 0x1000 {
        rt_two_op_low(i);
    } else {
        rt_two_op_high(i);
    }
}

proof fn split_bit_io(base: int, s0: int, b0: int)
    requires
        base % 0x20 == 0,
        0x1E00 <= base <= 0x1E60,
        0 <= s0 < 4,
        0 <= b0 < 8,
    ensures
        (base + s0 * 8 + b0 - 0x1E00) % 0x20 / 8 == s0,
        (base + s0 * 8 + b0 - 0x1E00) % 8 == b0,
        base <= base + s0 * 8 + b0 < base + 0x20,
{
}

proof fn rt_bit_io(i: Inst)
    requires
        i.wf(),
        0x1E00 <= i.word_of() < 0x2000,
        (!(i is Unknown)),
    ensures
        spec_decode(i.word_of() as u16) == i,
{
    match i {
        Inst::BitOut1(s, b) => split_bit_io(0x1E00, s.0.0 as int, b.0 as int),
        Inst::BitOut2(s, b) => split_bit_io(0x1E20, s.0.0 as int, b.0 as int),
        Inst::BitIn1(s, b) => split_bit_io(0x1E40, s.0.0 as int, b.0 as int),
        Inst::BitIn2(s, b) => split_bit_io(0x1E60, s.0.0 as int, b.0 as int),
        _ => (),
    }
}

proof fn rt_bit_op(i: Inst)
    requires
        i.wf(),
        0x2000 <= i.word_of() < 0x4000,
        (!(i is Unknown)),
    ensures
        spec_decode(i.word_of() as u16) == i,
{
}

proof fn rt_imm(i: Inst)
    requires
        i.wf(),
        0x4000 <= i.word_of() < 0x5000,
        (!(i is Unknown)),
    ensures
        spec_decode(i.word_of() as u16) == i,
{
}

proof fn rt_jump(i: Inst)
    requires
        i.wf(),
        0x5000 <= i.word_of(),
        (!(i is Unknown)),
    ensures
        spec_decode(i.word_of() as u16) == i,
{
}

/// Law: round trip. Every well-formed instruction other than the opaque raw
/// form decodes from its own encoding back to itself.
pub proof fn lemma_round_trip(i: Inst)
    requires
        i.wf(),
        (!(i is Unknown)),
    ensures
        spec_decode(i.word_of() as u16) == i,
{
    if i.word_of() < 0x0400 {
        rt_fixed(i);
    } else if i.word_of() < 0x1E00 {
        rt_two_op(i);
    } else if i.word_of() < 0x2000 {
        rt_bit_io(i);
    } else if i.word_of() < 0x4000 {
        rt_bit_op(i);
    } else if i.word_of() < 0x5000 {
        rt_imm(i);
    } else {
        rt_jump(i);
    }
}

/// Every instruction in the sequence is well-formed.
pub open spec fn all_wf(s: Seq<Inst>) -> bool {
    forall|k: int| 0 <= k < s.len() ==> (#[trigger] s[k]).wf()
}

/// The text of one decimal digit.
pub open spec fn dec_digit_str(d: int) -> Seq<char> {
    if d == 0 {
        "0"@
    } else if d == 1 {
        "1"@
    } else if d == 2 {
        "2"@
    } else if d == 3 {
        "3"@
    } else if d == 4 {
        "4"@
    } else if d == 5 {
        "5"@
    } else if d == 6 {
        "6"@
    } else if d == 7 {
        "7"@
    } else if d == 8 {
        "8"@
    } else {
        "9"@
    }
}

/// The decimal text of a value.
pub open spec fn spec_dec(v: int) -> Seq<char>
    decreases v,
{
    if v < 10 {
        dec_digit_str(v)
    } else {
        spec_dec(v / 10) + dec_digit_str(v % 10)
    }
}

fn dec_digit(d: u16) -> (r: &'static str)
    requires
        d < 10,
    ensures
        r@ == dec_digit_str(d as int),
{
    match d {
        0 => "0",
        1 => "1",
        2 => "2",
        3 => "3",
        4 => "4",
        5 => "5",
        6 => "6",
        7 => "7",
        8 => "8",
        _ => "9",
    }
}

fn push_dec(out: &mut String, v: u16)
    ensures
        final(out)@ == old(out)@ + spec_dec(v as int),
    decreases v,
{
    let ghost pre = out@;
    if v >= 10 {
        push_dec(out, v / 10);
    }
    out.append(dec_digit(v % 10));
    proof {
        if v >= 10 {
            assert((pre + spec_dec(v as int / 10)) + dec_digit_str(v as int % 10) =~= pre + (
            spec_dec(v as int / 10) + dec_digit_str(v as int % 10)));
        }
    }
}

/// The text of a destination selector.
pub open spec fn dest_str(d: Dest) -> Seq<char> {
    match d {
        Dest::A => "A"@,
        Dest::F => "F"@,
    }
}

fn render_one(m: &str, v: u16) -> (r: String)
    ensures
        r@ == m@ + spec_dec(v as int),
{
    let mut s = String::from_str(m);
    push_dec(&mut s, v);
    s
}

fn render_two(m: &str, a: u16, b: u16) -> (r: String)
    ensures
        r@ == (m@ + spec_dec(a as int)) + ", "@ + spec_dec(b as int),
{
    let mut s = String::from_str(m);
    push_dec(&mut s, a);
    s.append(", ");
    push_dec(&mut s, b);
    s
}

fn render_reg_dest(m: &str, f: Reg, d: Dest) -> (r: String)
    ensures
        r@ == (m@ + spec_dec(f.0 as int)) + ", "@ + dest_str(d),
{
    let mut s = String::from_str(m);
    push_dec(&mut s, f.0 as u16);
    s.append(", ");
    match d {
        Dest::A => s.append("A"),
        Dest::F => s.append("F"),
    }
    s
}

impl Inst {
    /// The mnemonic line of this instruction: the canonical spelling, then
    /// its operand values in decimal (a destination as `A`/`F`), separated
    /// by a comma. Deterministic per opcode.
    pub open spec fn spec_render(self) -> Seq<char> {
        match self {
            Inst::Nop => "NOP"@,
            Inst::ClearWatchDog => "CLRWDT"@,
            Inst::PushA => "PUSHAS"@,
            Inst::PopA => "POPAS"@,
            Inst::PushIndirAddr2 => "PUSHA2"@,
            Inst::PopIndirAddr2 => "POPA2"@,
            Inst::Return => "RET"@,
            Inst::ReturnOk => "RETZ"@,
            Inst::ReturnInt => "RETIE"@,
            Inst::ClearA => "CLRA"@,
            Inst::Sleep(s) => "SLEEPX "@ + spec_dec(s.0 as int),
            Inst::ReadCode(s) => "RCODE "@ + spec_dec(s.0 as int),
            Inst::BitToC(c) => "BCTC "@ + spec_dec(c.0.0 as int),
            Inst::WaitB(w) => "WAITB "@ + spec_dec(w.0.0 as int),
            Inst::Clear(f) => "CLR "@ + spec_dec(f.0 as int),
            Inst::MoveA(f) => "MOVA "@ + spec_dec(f.0 as int),
            Inst::ReturnImm(k) => "RETL "@ + spec_dec(k as int),
            Inst::ReturnErrImm(k) => "RETLN "@ + spec_dec(k as int),
            Inst::MoveImmToIndirAddr1(k) => "MOVIP "@ + spec_dec(k as int),
            Inst::MoveImmToIndirAddr2(k) => "MOVIA "@ + spec_dec(k as int),
            Inst::MoveImmToPortDir(k) => "MOVA1F "@ + spec_dec(k as int),
            Inst::MoveImmToPortIo(k) => "MOVA2F "@ + spec_dec(k as int),
            Inst::MoveImmToP1(k) => "MOVA1P "@ + spec_dec(k.0 as int),
            Inst::MoveImmToP2(k) => "MOVA2P "@ + spec_dec(k.0 as int),
            Inst::MoveImm(k) => "MOVL "@ + spec_dec(k as int),
            Inst::AndImm(k) => "ANDL "@ + spec_dec(k as int),
            Inst::OrImm(k) => "IORL "@ + spec_dec(k as int),
            Inst::XorImm(k) => "XORL "@ + spec_dec(k as int),
            Inst::AddImm(k) => "ADDL "@ + spec_dec(k as int),
            Inst::SubImm(k) => "SUBL "@ + spec_dec(k as int),
            Inst::CompareImmNegate(k) => "CMPLN "@ + spec_dec(k as int),
            Inst::CompareImm(k) => "CMPL "@ + spec_dec(k as int),
            Inst::Jump(t) => "JMP "@ + spec_dec(t.0 as int),
            Inst::Call(t) => "CALL "@ + spec_dec(t.0 as int),
            Inst::JumpIfNotZero(t) => "JNZ "@ + spec_dec(t.0 as int),
            Inst::JumpIfZero(t) => "JZ "@ + spec_dec(t.0 as int),
            Inst::JumpIfNotCarry(t) => "JNC "@ + spec_dec(t.0 as int),
            Inst::JumpIfCarry(t) => "JC "@ + spec_dec(t.0 as int),
            Inst::Unknown(w) => "DW "@ + spec_dec(w as int),
            Inst::Move(f, d) => ("MOV "@ + spec_dec(f.0 as int)) + ", "@ + dest_str(d),
            Inst::Inc(f, d) => ("INC "@ + spec_dec(f.0 as int)) + ", "@ + dest_str(d),
            Inst::Dec(f, d) => ("DEC "@ + spec_dec(f.0 as int)) + ", "@ + dest_str(d),
            Inst::IncAndSkipIfZero(f, d) => ("INCSZ "@ + spec_dec(f.0 as int)) + ", "@ + dest_str(d),
            Inst::DecAndSkipIfZero(f, d) => ("DECSZ "@ + spec_dec(f.0 as int)) + ", "@ + dest_str(d),
            Inst::SwapHalfBytes(f, d) => ("SWAP "@ + spec_dec(f.0 as int)) + ", "@ + dest_str(d),
            Inst::And(f, d) => ("AND "@ + spec_dec(f.0 as int)) + ", "@ + dest_str(d),
            Inst::Or(f, d) => ("IOR "@ + spec_dec(f.0 as int)) + ", "@ + dest_str(d),
            Inst::Xor(f, d) => ("XOR "@ + spec_dec(f.0 as int)) + ", "@ + dest_str(d),
            Inst::Add(f, d) => ("ADD "@ + spec_dec(f.0 as int)) + ", "@ + dest_str(d),
            Inst::Sub(f, d) => ("SUB "@ + spec_dec(f.0 as int)) + ", "@ + dest_str(d),
            Inst::RotateLeftWithCarry(f, d) => ("RCL "@ + spec_dec(f.0 as int)) + ", "@ + dest_str(d),
            Inst::RotateRightWithCarry(f, d) => ("RCR "@ + spec_dec(f.0 as int)) + ", "@ + dest_str(d),
            Inst::BitClear(f, b) => ("BC "@ + spec_dec(f.0 as int)) + ", "@ + spec_dec(b.0 as int),
            Inst::BitSet(f, b) => ("BS "@ + spec_dec(f.0 as int)) + ", "@ + spec_dec(b.0 as int),
            Inst::BitTestSkipIfClear(f, b) => ("BTSC "@ + spec_dec(f.0 as int)) + ", "@ + spec_dec(b.0 as int),
            Inst::BitTestSkipIfSet(f, b) => ("BTSS "@ + spec_dec(f.0 as int)) + ", "@ + spec_dec(b.0 as int),
            Inst::BitOut1(s, b) => ("BP1F "@ + spec_dec(s.0.0 as int)) + ", "@ + spec_dec(b.0 as int),
            Inst::BitOut2(s, b) => ("BP2F "@ + spec_dec(s.0.0 as int)) + ", "@ + spec_dec(b.0 as int),
            Inst::BitIn1(s, b) => ("BG1F "@ + spec_dec(s.0.0 as int)) + ", "@ + spec_dec(b.0 as int),
            Inst::BitIn2(s, b) => ("BG2F "@ + spec_dec(s.0.0 as int)) + ", "@ + spec_dec(b.0 as int),
            Inst::JumpIfEqual(v, t) => ("CMPZ "@ + spec_dec(v.0 as int)) + ", "@ + spec_dec(t as int),
        }
    }

    /// Render this instruction as a mnemonic line.
    pub fn render(&self) -> (r: String)
        ensures
            r@ == self.spec_render(),
    {
        match *self {
            Inst::Nop => return String::from_str("NOP"),
            Inst::ClearWatchDog => return String::from_str("CLRWDT"),
            Inst::PushA => return String::from_str("PUSHAS"),
            Inst::PopA => return String::from_str("POPAS"),
            Inst::PushIndirAddr2 => return String::from_str("PUSHA2"),
            Inst::PopIndirAddr2 => return String::from_str("POPA2"),
            Inst::Return => return String::from_str("RET"),
            Inst::ReturnOk => return String::from_str("RETZ"),
            Inst::ReturnInt => return String::from_str("RETIE"),
            Inst::ClearA => return String::from_str("CLRA"),
            Inst::Sleep(s) => return render_one("SLEEPX ", s.0 as u16),
            Inst::ReadCode(s) => return render_one("RCODE ", s.0 as u16),
            Inst::BitToC(c) => return render_one("BCTC ", c.0.0 as u16),
            Inst::WaitB(w) => return render_one("WAITB ", w.0.0 as u16),
            Inst::Clear(f) => return render_one("CLR ", f.0 as u16),
            Inst::MoveA(f) => return render_one("MOVA ", f.0 as u16),
            Inst::ReturnImm(k) => return render_one("RETL ", k as u16),
            Inst::ReturnErrImm(k) => return render_one("RETLN ", k as u16),
            Inst::MoveImmToIndirAddr1(k) => return render_one("MOVIP ", k as u16),
            Inst::MoveImmToIndirAddr2(k) => return render_one("MOVIA ", k as u16),
            Inst::MoveImmToPortDir(k) => return render_one("MOVA1F ", k as u16),
            Inst::MoveImmToPortIo(k) => return render_one("MOVA2F ", k as u16),
            Inst::MoveImmToP1(k) => return render_one("MOVA1P ", k.0 as u16),
            Inst::MoveImmToP2(k) => return render_one("MOVA2P ", k.0 as u16),
            Inst::MoveImm(k) => return render_one("MOVL ", k as u16),
            Inst::AndImm(k) => return render_one("ANDL ", k as u16),
            Inst::OrImm(k) => return render_one("IORL ", k as u16),
            Inst::XorImm(k) => return render_one("XORL ", k as u16),
            Inst::AddImm(k) => return render_one("ADDL ", k as u16),
            Inst::SubImm(k) => return render_one("SUBL ", k as u16),
            Inst::CompareImmNegate(k) => return render_one("CMPLN ", k as u16),
            Inst::CompareImm(k) => return render_one("CMPL ", k as u16),
            Inst::Jump(t) => return render_one("JMP ", t.0 as u16),
            Inst::Call(t) => return render_one("CALL ", t.0 as u16),
            Inst::JumpIfNotZero(t) => return render_one("JNZ ", t.0 as u16),
            Inst::JumpIfZero(t) => return render_one("JZ ", t.0 as u16),
            Inst::JumpIfNotCarry(t) => return render_one("JNC ", t.0 as u16),
            Inst::JumpIfCarry(t) => return render_one("JC ", t.0 as u16),
            Inst::Unknown(w) => return render_one("DW ", w as u16),
            Inst::Move(f, d) => return render_reg_dest("MOV ", f, d),
            Inst::Inc(f, d) => return render_reg_dest("INC ", f, d),
            Inst::Dec(f, d) => return render_reg_dest("DEC ", f, d),
            Inst::IncAndSkipIfZero(f, d) => return render_reg_dest("INCSZ ", f, d),
            Inst::DecAndSkipIfZero(f, d) => return render_reg_dest("DECSZ ", f, d),
            Inst::SwapHalfBytes(f, d) => return render_reg_dest("SWAP ", f, d),
            Inst::And(f, d) => return render_reg_dest("AND ", f, d),
            Inst::Or(f, d) => return render_reg_dest("IOR ", f, d),
            Inst::Xor(f, d) => return render_reg_dest("XOR ", f, d),
            Inst::Add(f, d) => return render_reg_dest("ADD ", f, d),
            Inst::Sub(f, d) => return render_reg_dest("SUB ", f, d),
            Inst::RotateLeftWithCarry(f, d) => return render_reg_dest("RCL ", f, d),
            Inst::RotateRightWithCarry(f, d) => return render_reg_dest("RCR ", f, d),
            Inst::BitClear(f, b) => return render_two("BC ", f.0 as u16, b.0 as u16),
            Inst::BitSet(f, b) => return render_two("BS ", f.0 as u16, b.0 as u16),
            Inst::BitTestSkipIfClear(f, b) => return render_two("BTSC ", f.0 as u16, b.0 as u16),
            Inst::BitTestSkipIfSet(f, b) => return render_two("BTSS ", f.0 as u16, b.0 as u16),
            Inst::BitOut1(s, b) => return render_two("BP1F ", s.0.0 as u16, b.0 as u16),
            Inst::BitOut2(s, b) => return render_two("BP2F ", s.0.0 as u16, b.0 as u16),
            Inst::BitIn1(s, b) => return render_two("BG1F ", s.0.0 as u16, b.0 as u16),
            Inst::BitIn2(s, b) => return render_two("BG2F ", s.0.0 as u16, b.0 as u16),
            Inst::JumpIfEqual(v, t) => return render_two("CMPZ ", v.0 as u16, t as u16),
        }
    }
}

/// Disassemble a word stream: the mnemonic line of each word in turn.
pub fn disassemble(words: &Vec<u16>) -> (r: Vec<String>)
    ensures
        r@.len() == words@.len(),
        forall|k: int|
            0 <= k < words@.len() ==> r@[k]@ == spec_decode(words@[k]).spec_render(),
{
    let mut out: Vec<String> = Vec::new();
    let mut k: usize = 0;
    while k < words.len()
        invariant
            k <= words@.len(),
            out@.len() == k,
            forall|j: int| 0 <= j < k ==> out@[j]@ == spec_decode(words@[j]).spec_render(),
        decreases words@.len() - k,
    {
        out.push(Inst::from_word(words[k]).render());
        k = k + 1;
    }
    out
}

} // verus!
