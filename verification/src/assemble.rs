//! Assembler driver: include expansion, symbol resolution, operand
//! evaluation and instruction emission.

use vstd::prelude::*;

use crate::ast::{stmts_view, Expr, ExprV, Mnemonic, Operand, OperandV, Stmt, StmtV};
use crate::codec::{all_wf, u16_try_from_i32, u8_try_from_i32, BitIn, BitInC, BitOut, Dest, Inst, Reg, WaitBit, U10, U12, U2, U3, U7};
use crate::parse::{ParseError, ParseErrorV};
use crate::symbol::{
    default_symbols, no_add_origin, no_include, prog_resolvable, resolve_symbol, spec_resolve,
    stmt_origin_ok, wrap_add, SymTab,
};

verus! {

/// Failure of an assembly run.
#[derive(Debug, Clone, PartialEq, Eq)]
pub enum AssembleError {
    /// An opcode field that no instruction accepts.
    InvalidOpCode,
    /// A mnemonic was given an operand shape it does not accept, or an
    /// operand value does not fit the instruction field.
    InvalidOperand,
    /// An `ORG` target address is not aligned to 2 bytes.
    OriginNotAligned,
    /// A referenced name never resolved; carries the name.
    SymbolResolveError(String),
    /// The source failed to parse.
    ParseError(ParseError),
    /// An included path was not among the supplied sources; carries the path.
    IncludeError(String),
}

/// Mathematical view of an `AssembleError`.
pub enum AssembleErrorV {
    InvalidOpCode,
    InvalidOperand,
    OriginNotAligned,
    SymbolResolveError(Seq<char>),
    ParseError(ParseErrorV),
    IncludeError(Seq<char>),
}

impl View for AssembleError {
    type V = AssembleErrorV;

    open spec fn view(&self) -> AssembleErrorV {
        match self {
            AssembleError::InvalidOpCode => AssembleErrorV::InvalidOpCode,
            AssembleError::InvalidOperand => AssembleErrorV::InvalidOperand,
            AssembleError::OriginNotAligned => AssembleErrorV::OriginNotAligned,
            AssembleError::SymbolResolveError(s) => AssembleErrorV::SymbolResolveError(s@),
            AssembleError::ParseError(e) => AssembleErrorV::ParseError(e@),
            AssembleError::IncludeError(s) => AssembleErrorV::IncludeError(s@),
        }
    }
}

impl AssembleError {
    /// A short description of the failure.
    pub fn message(&self) -> (r: &'static str)
        ensures
            r@ == match self@ {
                AssembleErrorV::InvalidOpCode => "invalid op code"@,
                AssembleErrorV::InvalidOperand => "invalid operand"@,
                AssembleErrorV::OriginNotAligned => "origin statement not aligned to 2 bytes"@,
                AssembleErrorV::SymbolResolveError(_) => "cannot resolve symbol"@,
                AssembleErrorV::ParseError(_) => "parse error"@,
                AssembleErrorV::IncludeError(_) => "included source not supplied"@,
            },
    {
        match self {
            AssembleError::InvalidOpCode => "invalid op code",
            AssembleError::InvalidOperand => "invalid operand",
            AssembleError::OriginNotAligned => "origin statement not aligned to 2 bytes",
            AssembleError::SymbolResolveError(_) => "cannot resolve symbol",
            AssembleError::ParseError(_) => "parse error",
            AssembleError::IncludeError(_) => "included source not supplied",
        }
    }
}


/// Evaluate an expression against a resolved symbol table.
pub open spec fn spec_eval(e: ExprV, sym: Map<Seq<char>, i32>) -> Result<i32, AssembleErrorV> {
    match e {
        ExprV::Num(v) => Ok(v),
        ExprV::Label(s) => if sym.contains_key(s) {
            Ok(sym[s])
        } else {
            Err(AssembleErrorV::SymbolResolveError(s))
        },
        ExprV::Add(s, b) => if sym.contains_key(s) {
            Ok(wrap_add(sym[s], b))
        } else {
            Err(AssembleErrorV::SymbolResolveError(s))
        },
    }
}

/// Evaluate an expression: a literal is itself; a reference or
/// reference-plus-offset takes its value from the symbol table.
pub fn eval(e: &Expr, sym: &SymTab) -> (r: Result<i32, AssembleError>)
    ensures
        match r {
            Ok(v) => spec_eval(e@, sym@) == Ok::<i32, AssembleErrorV>(v),
            Err(er) => spec_eval(e@, sym@) == Err::<i32, AssembleErrorV>(er@),
        },
{
    match e {
        Expr::Num(v) => Ok(*v),
        Expr::Label(id) => match sym.get(&id.0) {
            Some(v) => Ok(v),
            None => Err(AssembleError::SymbolResolveError(id.0.clone())),
        },
        Expr::Add(id, b) => match sym.get(&id.0) {
            Some(a) => Ok(a.wrapping_add(*b)),
            None => Err(AssembleError::SymbolResolveError(id.0.clone())),
        },
    }
}

/// The single expression of a one-operand form.
pub open spec fn sop1(op: OperandV) -> Result<ExprV, AssembleErrorV> {
    match op {
        OperandV::Op1(e) => Ok(e),
        _ => Err(AssembleErrorV::InvalidOperand),
    }
}

/// The first expression of a one- or two-operand form.
pub open spec fn sop2_0(op: OperandV) -> Result<ExprV, AssembleErrorV> {
    match op {
        OperandV::Op1(e) => Ok(e),
        OperandV::Op2(e, _) => Ok(e),
        _ => Err(AssembleErrorV::InvalidOperand),
    }
}

/// The second expression of a two-operand form; `None` when the form had
/// only one operand, so that a default may apply.
pub open spec fn sop2_1(op: OperandV) -> Result<Option<ExprV>, AssembleErrorV> {
    match op {
        OperandV::Op1(_) => Ok(None),
        OperandV::Op2(_, e) => Ok(Some(e)),
        _ => Err(AssembleErrorV::InvalidOperand),
    }
}

/// Accept only the zero-operand form.
pub fn op0(op: &Operand) -> (r: Result<(), AssembleError>)
    ensures
        match r {
            Ok(_) => op@ is Op0,
            Err(e) => !(op@ is Op0) && e@ == AssembleErrorV::InvalidOperand,
        },
{
    match op {
        Operand::Op0 => Ok(()),
        _ => Err(AssembleError::InvalidOperand),
    }
}

/// The single expression of a one-operand form.
pub fn op1(op: &Operand) -> (r: Result<Expr, AssembleError>)
    ensures
        match r {
            Ok(e) => sop1(op@) == Ok::<ExprV, AssembleErrorV>(e@),
            Err(er) => sop1(op@) == Err::<ExprV, AssembleErrorV>(er@),
        },
{
    match op {
        Operand::Op1(e) => Ok(e.duplicate()),
        _ => Err(AssembleError::InvalidOperand),
    }
}

/// The first expression of a one- or two-operand form.
pub fn op2_0(op: &Operand) -> (r: Result<Expr, AssembleError>)
    ensures
        match r {
            Ok(e) => sop2_0(op@) == Ok::<ExprV, AssembleErrorV>(e@),
            Err(er) => sop2_0(op@) == Err::<ExprV, AssembleErrorV>(er@),
        },
{
    match op {
        Operand::Op1(e) => Ok(e.duplicate()),
        Operand::Op2(e, _) => Ok(e.duplicate()),
        _ => Err(AssembleError::InvalidOperand),
    }
}

/// The second expression of a two-operand form, or `None` when omitted.
pub fn op2_1(op: &Operand) -> (r: Result<Option<Expr>, AssembleError>)
    ensures
        match r {
            Ok(oe) => match oe {
                Some(e) => sop2_1(op@) == Ok::<Option<ExprV>, AssembleErrorV>(Some(e@)),
                None => sop2_1(op@) == Ok::<Option<ExprV>, AssembleErrorV>(None),
            },
            Err(er) => sop2_1(op@) == Err::<Option<ExprV>, AssembleErrorV>(er@),
        },
{
    match op {
        Operand::Op1(_) => Ok(None),
        Operand::Op2(_, e) => Ok(Some(e.duplicate())),
        _ => Err(AssembleError::InvalidOperand),
    }
}

/// Evaluate and narrow to a `U2` field.
pub open spec fn seval_u2(e: ExprV, sym: Map<Seq<char>, i32>) -> Result<U2, AssembleErrorV> {
    match spec_eval(e, sym) {
        Ok(v) => if 0 <= v < 4 {
            Ok(U2(v as u8))
        } else {
            Err(AssembleErrorV::InvalidOperand)
        },
        Err(er) => Err(er),
    }
}

/// Evaluate and narrow to a `U3` field.
pub open spec fn seval_u3(e: ExprV, sym: Map<Seq<char>, i32>) -> Result<U3, AssembleErrorV> {
    match spec_eval(e, sym) {
        Ok(v) => if 0 <= v < 8 {
            Ok(U3(v as u8))
        } else {
            Err(AssembleErrorV::InvalidOperand)
        },
        Err(er) => Err(er),
    }
}

/// Evaluate and narrow to a `U7` field.
pub open spec fn seval_u7(e: ExprV, sym: Map<Seq<char>, i32>) -> Result<U7, AssembleErrorV> {
    match spec_eval(e, sym) {
        Ok(v) => if 0 <= v < 128 {
            Ok(U7(v as u8))
        } else {
            Err(AssembleErrorV::InvalidOperand)
        },
        Err(er) => Err(er),
    }
}

/// Evaluate and narrow to a `U10` field.
pub open spec fn seval_u10(e: ExprV, sym: Map<Seq<char>, i32>) -> Result<U10, AssembleErrorV> {
    match spec_eval(e, sym) {
        Ok(v) => if 0 <= v < 1024 {
            Ok(U10(v as u16))
        } else {
            Err(AssembleErrorV::InvalidOperand)
        },
        Err(er) => Err(er),
    }
}

/// Evaluate and narrow to a `U12` field.
pub open spec fn seval_u12(e: ExprV, sym: Map<Seq<char>, i32>) -> Result<U12, AssembleErrorV> {
    match spec_eval(e, sym) {
        Ok(v) => if 0 <= v < 4096 {
            Ok(U12(v as u16))
        } else {
            Err(AssembleErrorV::InvalidOperand)
        },
        Err(er) => Err(er),
    }
}

/// Evaluate and narrow to a `Reg` field.
pub open spec fn seval_reg(e: ExprV, sym: Map<Seq<char>, i32>) -> Result<Reg, AssembleErrorV> {
    match spec_eval(e, sym) {
        Ok(v) => if 0 <= v < 256 {
            Ok(Reg(v as u8))
        } else {
            Err(AssembleErrorV::InvalidOperand)
        },
        Err(er) => Err(er),
    }
}

/// Evaluate and narrow to a byte immediate.
pub open spec fn seval_u8(e: ExprV, sym: Map<Seq<char>, i32>) -> Result<u8, AssembleErrorV> {
    match spec_eval(e, sym) {
        Ok(v) => if 0 <= v < 256 {
            Ok(v as u8)
        } else {
            Err(AssembleErrorV::InvalidOperand)
        },
        Err(er) => Err(er),
    }
}

/// Evaluate and narrow to a raw 16-bit word.
pub open spec fn seval_u16(e: ExprV, sym: Map<Seq<char>, i32>) -> Result<u16, AssembleErrorV> {
    match spec_eval(e, sym) {
        Ok(v) => if 0 <= v < 65536 {
            Ok(v as u16)
        } else {
            Err(AssembleErrorV::InvalidOperand)
        },
        Err(er) => Err(er),
    }
}

/// A bare identifier `a`, in either case.
pub open spec fn name_is_a(s: Seq<char>) -> bool {
    s.len() == 1 && (s[0] == 'a' || s[0] == 'A')
}

/// A bare identifier `f`, in either case.
pub open spec fn name_is_f(s: Seq<char>) -> bool {
    s.len() == 1 && (s[0] == 'f' || s[0] == 'F')
}

/// A destination selector from an evaluated value: 0 is `A`, 1 is `F`.
pub open spec fn dest_from_val(r: Result<i32, AssembleErrorV>) -> Result<Dest, AssembleErrorV> {
    match r {
        Ok(v) => if v == 0 {
            Ok(Dest::A)
        } else if v == 1 {
            Ok(Dest::F)
        } else {
            Err(AssembleErrorV::InvalidOperand)
        },
        Err(_) => Err(AssembleErrorV::InvalidOperand),
    }
}

/// A destination selector: the bare identifiers `a`/`f` (either case) are
/// taken directly; anything else evaluates to 0 for `A` or 1 for `F`.
pub open spec fn seval_dest(e: ExprV, sym: Map<Seq<char>, i32>) -> Result<Dest, AssembleErrorV> {
    match e {
        ExprV::Label(s) => if name_is_a(s) {
            Ok(Dest::A)
        } else if name_is_f(s) {
            Ok(Dest::F)
        } else {
            dest_from_val(spec_eval(e, sym))
        },
        _ => dest_from_val(spec_eval(e, sym)),
    }
}


/// Whether a bare identifier selects a destination, and which.
fn dest_of_name(name: &String) -> (r: Option<Dest>)
    ensures
        match r {
            Some(Dest::A) => name_is_a(name@),
            Some(Dest::F) => !name_is_a(name@) && name_is_f(name@),
            None => !name_is_a(name@) && !name_is_f(name@),
        },
{
    if name.as_str().unicode_len() == 1 {
        let c = name.as_str().get_char(0);
        if c == 'a' || c == 'A' {
            Some(Dest::A)
        } else if c == 'f' || c == 'F' {
            Some(Dest::F)
        } else {
            None
        }
    } else {
        None
    }
}

/// Evaluate a destination operand.
fn eval_dest(e: &Expr, sym: &SymTab) -> (r: Result<Dest, AssembleError>)
    ensures
        match r {
            Ok(d) => seval_dest(e@, sym@) == Ok::<Dest, AssembleErrorV>(d),
            Err(er) => seval_dest(e@, sym@) == Err::<Dest, AssembleErrorV>(er@),
        },
{
    match e {
        Expr::Label(id) => {
            match dest_of_name(&id.0) {
                Some(d) => Ok(d),
                None => match eval(e, sym) {
                    Ok(0) => Ok(Dest::A),
                    Ok(1) => Ok(Dest::F),
                    _ => Err(AssembleError::InvalidOperand),
                },
            }
        },
        _ => match eval(e, sym) {
            Ok(0) => Ok(Dest::A),
            Ok(1) => Ok(Dest::F),
            _ => Err(AssembleError::InvalidOperand),
        },
    }
}

/// The one-operand form, evaluated and narrowed.
pub open spec fn s1_u2(op: OperandV, sym: Map<Seq<char>, i32>) -> Result<U2, AssembleErrorV> {
    match sop1(op) {
        Ok(e) => seval_u2(e, sym),
        Err(er) => Err(er),
    }
}

/// The one-operand form, evaluated and narrowed.
pub open spec fn s1_u3(op: OperandV, sym: Map<Seq<char>, i32>) -> Result<U3, AssembleErrorV> {
    match sop1(op) {
        Ok(e) => seval_u3(e, sym),
        Err(er) => Err(er),
    }
}

/// The one-operand form, evaluated and narrowed.
pub open spec fn s1_u7(op: OperandV, sym: Map<Seq<char>, i32>) -> Result<U7, AssembleErrorV> {
    match sop1(op) {
        Ok(e) => seval_u7(e, sym),
        Err(er) => Err(er),
    }
}

/// The one-operand form, evaluated and narrowed.
pub open spec fn s1_u8(op: OperandV, sym: Map<Seq<char>, i32>) -> Result<u8, AssembleErrorV> {
    match sop1(op) {
        Ok(e) => seval_u8(e, sym),
        Err(er) => Err(er),
    }
}

/// The one-operand form, evaluated and narrowed.
pub open spec fn s1_u10(op: OperandV, sym: Map<Seq<char>, i32>) -> Result<U10, AssembleErrorV> {
    match sop1(op) {
        Ok(e) => seval_u10(e, sym),
        Err(er) => Err(er),
    }
}

/// The one-operand form, evaluated and narrowed.
pub open spec fn s1_u12(op: OperandV, sym: Map<Seq<char>, i32>) -> Result<U12, AssembleErrorV> {
    match sop1(op) {
        Ok(e) => seval_u12(e, sym),
        Err(er) => Err(er),
    }
}

/// The one-operand form, evaluated and narrowed.
pub open spec fn s1_u16(op: OperandV, sym: Map<Seq<char>, i32>) -> Result<u16, AssembleErrorV> {
    match sop1(op) {
        Ok(e) => seval_u16(e, sym),
        Err(er) => Err(er),
    }
}

/// The one-operand form, evaluated and narrowed.
pub open spec fn s1_reg(op: OperandV, sym: Map<Seq<char>, i32>) -> Result<Reg, AssembleErrorV> {
    match sop1(op) {
        Ok(e) => seval_reg(e, sym),
        Err(er) => Err(er),
    }
}

/// The first operand, evaluated and narrowed.
pub open spec fn s20_reg(op: OperandV, sym: Map<Seq<char>, i32>) -> Result<Reg, AssembleErrorV> {
    match sop2_0(op) {
        Ok(e) => seval_reg(e, sym),
        Err(er) => Err(er),
    }
}

/// The first operand, evaluated and narrowed.
pub open spec fn s20_u2(op: OperandV, sym: Map<Seq<char>, i32>) -> Result<U2, AssembleErrorV> {
    match sop2_0(op) {
        Ok(e) => seval_u2(e, sym),
        Err(er) => Err(er),
    }
}

/// The first operand, evaluated and narrowed.
pub open spec fn s20_u7(op: OperandV, sym: Map<Seq<char>, i32>) -> Result<U7, AssembleErrorV> {
    match sop2_0(op) {
        Ok(e) => seval_u7(e, sym),
        Err(er) => Err(er),
    }
}

/// The second operand as a destination selector; omitted defaults to `F`.
pub open spec fn s21_dest(op: OperandV, sym: Map<Seq<char>, i32>) -> Result<Dest, AssembleErrorV> {
    match sop2_1(op) {
        Ok(oe) => match oe {
            Some(e) => seval_dest(e, sym),
            None => Ok(Dest::F),
        },
        Err(er) => Err(er),
    }
}

/// The second operand as a bit index; it may not be omitted.
pub open spec fn s21_u3(op: OperandV, sym: Map<Seq<char>, i32>) -> Result<U3, AssembleErrorV> {
    match sop2_1(op) {
        Ok(oe) => match oe {
            Some(e) => seval_u3(e, sym),
            None => Err(AssembleErrorV::InvalidOperand),
        },
        Err(er) => Err(er),
    }
}

/// The second operand as a byte-wide branch target; it may not be omitted.
pub open spec fn s21_u8(op: OperandV, sym: Map<Seq<char>, i32>) -> Result<u8, AssembleErrorV> {
    match sop2_1(op) {
        Ok(oe) => match oe {
            Some(e) => seval_u8(e, sym),
            None => Err(AssembleErrorV::InvalidOperand),
        },
        Err(er) => Err(er),
    }
}

fn o1_u2(op: &Operand, sym: &SymTab) -> (r: Result<U2, AssembleError>)
    ensures
        match r {
            Ok(v) => v.wf() && s1_u2(op@, sym@) == Ok::<U2, AssembleErrorV>(v),
            Err(er) => s1_u2(op@, sym@) == Err::<U2, AssembleErrorV>(er@),
        },
{
    match op1(op) {
        Ok(e) => match eval(&e, sym) {
            Ok(v) => match U2::try_from_i32(v) {
                Some(u) => Ok(u),
                None => Err(AssembleError::InvalidOperand),
            },
            Err(er) => Err(er),
        },
        Err(er) => Err(er),
    }
}

fn o1_u3(op: &Operand, sym: &SymTab) -> (r: Result<U3, AssembleError>)
    ensures
        match r {
            Ok(v) => v.wf() && s1_u3(op@, sym@) == Ok::<U3, AssembleErrorV>(v),
            Err(er) => s1_u3(op@, sym@) == Err::<U3, AssembleErrorV>(er@),
        },
{
    match op1(op) {
        Ok(e) => match eval(&e, sym) {
            Ok(v) => match U3::try_from_i32(v) {
                Some(u) => Ok(u),
                None => Err(AssembleError::InvalidOperand),
            },
            Err(er) => Err(er),
        },
        Err(er) => Err(er),
    }
}

fn o1_u7(op: &Operand, sym: &SymTab) -> (r: Result<U7, AssembleError>)
    ensures
        match r {
            Ok(v) => v.wf() && s1_u7(op@, sym@) == Ok::<U7, AssembleErrorV>(v),
            Err(er) => s1_u7(op@, sym@) == Err::<U7, AssembleErrorV>(er@),
        },
{
    match op1(op) {
        Ok(e) => match eval(&e, sym) {
            Ok(v) => match U7::try_from_i32(v) {
                Some(u) => Ok(u),
                None => Err(AssembleError::InvalidOperand),
            },
            Err(er) => Err(er),
        },
        Err(er) => Err(er),
    }
}

fn o1_u8(op: &Operand, sym: &SymTab) -> (r: Result<u8, AssembleError>)
    ensures
        match r {
            Ok(v) => s1_u8(op@, sym@) == Ok::<u8, AssembleErrorV>(v),
            Err(er) => s1_u8(op@, sym@) == Err::<u8, AssembleErrorV>(er@),
        },
{
    match op1(op) {
        Ok(e) => match eval(&e, sym) {
            Ok(v) => match u8_try_from_i32(v) {
                Some(u) => Ok(u),
                None => Err(AssembleError::InvalidOperand),
            },
            Err(er) => Err(er),
        },
        Err(er) => Err(er),
    }
}

fn o1_u10(op: &Operand, sym: &SymTab) -> (r: Result<U10, AssembleError>)
    ensures
        match r {
            Ok(v) => v.wf() && s1_u10(op@, sym@) == Ok::<U10, AssembleErrorV>(v),
            Err(er) => s1_u10(op@, sym@) == Err::<U10, AssembleErrorV>(er@),
        },
{
    match op1(op) {
        Ok(e) => match eval(&e, sym) {
            Ok(v) => match U10::try_from_i32(v) {
                Some(u) => Ok(u),
                None => Err(AssembleError::InvalidOperand),
            },
            Err(er) => Err(er),
        },
        Err(er) => Err(er),
    }
}

fn o1_u12(op: &Operand, sym: &SymTab) -> (r: Result<U12, AssembleError>)
    ensures
        match r {
            Ok(v) => v.wf() && s1_u12(op@, sym@) == Ok::<U12, AssembleErrorV>(v),
            Err(er) => s1_u12(op@, sym@) == Err::<U12, AssembleErrorV>(er@),
        },
{
    match op1(op) {
        Ok(e) => match eval(&e, sym) {
            Ok(v) => match U12::try_from_i32(v) {
                Some(u) => Ok(u),
                None => Err(AssembleError::InvalidOperand),
            },
            Err(er) => Err(er),
        },
        Err(er) => Err(er),
    }
}

fn o1_u16(op: &Operand, sym: &SymTab) -> (r: Result<u16, AssembleError>)
    ensures
        match r {
            Ok(v) => s1_u16(op@, sym@) == Ok::<u16, AssembleErrorV>(v),
            Err(er) => s1_u16(op@, sym@) == Err::<u16, AssembleErrorV>(er@),
        },
{
    match op1(op) {
        Ok(e) => match eval(&e, sym) {
            Ok(v) => match u16_try_from_i32(v) {
                Some(u) => Ok(u),
                None => Err(AssembleError::InvalidOperand),
            },
            Err(er) => Err(er),
        },
        Err(er) => Err(er),
    }
}

fn o1_reg(op: &Operand, sym: &SymTab) -> (r: Result<Reg, AssembleError>)
    ensures
        match r {
            Ok(v) => s1_reg(op@, sym@) == Ok::<Reg, AssembleErrorV>(v),
            Err(er) => s1_reg(op@, sym@) == Err::<Reg, AssembleErrorV>(er@),
        },
{
    match op1(op) {
        Ok(e) => match eval(&e, sym) {
            Ok(v) => match Reg::try_from_i32(v) {
                Some(u) => Ok(u),
                None => Err(AssembleError::InvalidOperand),
            },
            Err(er) => Err(er),
        },
        Err(er) => Err(er),
    }
}

fn o20_reg(op: &Operand, sym: &SymTab) -> (r: Result<Reg, AssembleError>)
    ensures
        match r {
            Ok(v) => s20_reg(op@, sym@) == Ok::<Reg, AssembleErrorV>(v),
            Err(er) => s20_reg(op@, sym@) == Err::<Reg, AssembleErrorV>(er@),
        },
{
    match op2_0(op) {
        Ok(e) => match eval(&e, sym) {
            Ok(v) => match Reg::try_from_i32(v) {
                Some(u) => Ok(u),
                None => Err(AssembleError::InvalidOperand),
            },
            Err(er) => Err(er),
        },
        Err(er) => Err(er),
    }
}

fn o20_u2(op: &Operand, sym: &SymTab) -> (r: Result<U2, AssembleError>)
    ensures
        match r {
            Ok(v) => v.wf() && s20_u2(op@, sym@) == Ok::<U2, AssembleErrorV>(v),
            Err(er) => s20_u2(op@, sym@) == Err::<U2, AssembleErrorV>(er@),
        },
{
    match op2_0(op) {
        Ok(e) => match eval(&e, sym) {
            Ok(v) => match U2::try_from_i32(v) {
                Some(u) => Ok(u),
                None => Err(AssembleError::InvalidOperand),
            },
            Err(er) => Err(er),
        },
        Err(er) => Err(er),
    }
}

fn o20_u7(op: &Operand, sym: &SymTab) -> (r: Result<U7, AssembleError>)
    ensures
        match r {
            Ok(v) => v.wf() && s20_u7(op@, sym@) == Ok::<U7, AssembleErrorV>(v),
            Err(er) => s20_u7(op@, sym@) == Err::<U7, AssembleErrorV>(er@),
        },
{
    match op2_0(op) {
        Ok(e) => match eval(&e, sym) {
            Ok(v) => match U7::try_from_i32(v) {
                Some(u) => Ok(u),
                None => Err(AssembleError::InvalidOperand),
            },
            Err(er) => Err(er),
        },
        Err(er) => Err(er),
    }
}

fn o21_dest(op: &Operand, sym: &SymTab) -> (r: Result<Dest, AssembleError>)
    ensures
        match r {
            Ok(v) => s21_dest(op@, sym@) == Ok::<Dest, AssembleErrorV>(v),
            Err(er) => s21_dest(op@, sym@) == Err::<Dest, AssembleErrorV>(er@),
        },
{
    match op2_1(op) {
        Ok(oe) => match oe {
            Some(e) => eval_dest(&e, sym),
            None => Ok(Dest::F),
        },
        Err(er) => Err(er),
    }
}

fn o21_u3(op: &Operand, sym: &SymTab) -> (r: Result<U3, AssembleError>)
    ensures
        match r {
            Ok(v) => v.wf() && s21_u3(op@, sym@) == Ok::<U3, AssembleErrorV>(v),
            Err(er) => s21_u3(op@, sym@) == Err::<U3, AssembleErrorV>(er@),
        },
{
    match op2_1(op) {
        Ok(oe) => match oe {
            Some(e) => match eval(&e, sym) {
                Ok(v) => match U3::try_from_i32(v) {
                    Some(u) => Ok(u),
                    None => Err(AssembleError::InvalidOperand),
                },
                Err(er) => Err(er),
            },
            None => Err(AssembleError::InvalidOperand),
        },
        Err(er) => Err(er),
    }
}

fn o21_u8(op: &Operand, sym: &SymTab) -> (r: Result<u8, AssembleError>)
    ensures
        match r {
            Ok(v) => s21_u8(op@, sym@) == Ok::<u8, AssembleErrorV>(v),
            Err(er) => s21_u8(op@, sym@) == Err::<u8, AssembleErrorV>(er@),
        },
{
    match op2_1(op) {
        Ok(oe) => match oe {
            Some(e) => match eval(&e, sym) {
                Ok(v) => match u8_try_from_i32(v) {
                    Some(u) => Ok(u),
                    None => Err(AssembleError::InvalidOperand),
                },
                Err(er) => Err(er),
            },
            None => Err(AssembleError::InvalidOperand),
        },
        Err(er) => Err(er),
    }
}


/// The zero-operand form of a fixed instruction.
pub open spec fn s0(op: OperandV, i: Inst) -> Result<Inst, AssembleErrorV> {
    if op is Op0 {
        Ok(i)
    } else {
        Err(AssembleErrorV::InvalidOperand)
    }
}

fn e0(op: &Operand, i: Inst) -> (r: Result<Inst, AssembleError>)
    ensures
        match r {
            Ok(v) => s0(op@, i) == Ok::<Inst, AssembleErrorV>(v),
            Err(er) => s0(op@, i) == Err::<Inst, AssembleErrorV>(er@),
        },
{
    match op0(op) {
        Ok(_) => Ok(i),
        Err(er) => Err(er),
    }
}

/// The instruction denoted by a mnemonic and its operands: the fixed
/// mnemonic-to-instruction table, with synonym spellings mapping to one
/// variant, operand arity checked against what the mnemonic expects, and
/// each operand narrowed to its field width.
pub open spec fn spec_inst_for(m: Mnemonic, op: OperandV, sym: Map<Seq<char>, i32>) -> Result<
    Inst,
    AssembleErrorV,
> {
    match m {
        Mnemonic::NOP => s0(op, Inst::Nop),
        Mnemonic::CLRWDT => s0(op, Inst::ClearWatchDog),
        Mnemonic::WDT => s0(op, Inst::ClearWatchDog),
        Mnemonic::SLEEP => s0(op, Inst::Sleep(U2(0))),
        Mnemonic::HALT => s0(op, Inst::Sleep(U2(0))),
        Mnemonic::RDCODE => s0(op, Inst::ReadCode(U2(0))),
        Mnemonic::PUSHAS => s0(op, Inst::PushA),
        Mnemonic::PUSH => s0(op, Inst::PushA),
        Mnemonic::POPAS => s0(op, Inst::PopA),
        Mnemonic::POP => s0(op, Inst::PopA),
        Mnemonic::PUSHA2 => s0(op, Inst::PushIndirAddr2),
        Mnemonic::POPA2 => s0(op, Inst::PopIndirAddr2),
        Mnemonic::RET => s0(op, Inst::Return),
        Mnemonic::RETURN => s0(op, Inst::Return),
        Mnemonic::RETZ => s0(op, Inst::ReturnOk),
        Mnemonic::RETOK => s0(op, Inst::ReturnOk),
        Mnemonic::RETIE => s0(op, Inst::ReturnInt),
        Mnemonic::RETI => s0(op, Inst::ReturnInt),
        Mnemonic::CLRA => s0(op, Inst::ClearA),
        Mnemonic::WAITRD => Ok(Inst::WaitB(WaitBit(U3(0)))),
        Mnemonic::WAITWR => Ok(Inst::WaitB(WaitBit(U3(4)))),
        Mnemonic::WAITSPI => Ok(Inst::WaitB(WaitBit(U3(4)))),
        Mnemonic::WRCODE => Ok(Inst::BitToC(BitInC(U2(0)))),
        Mnemonic::SLEEPX => match s1_u2(op, sym) { Ok(x) => Ok(Inst::Sleep(x)), Err(er) => Err(er) },
        Mnemonic::RCODE => match s1_u2(op, sym) { Ok(x) => Ok(Inst::ReadCode(x)), Err(er) => Err(er) },
        Mnemonic::EXEC => match s1_u2(op, sym) { Ok(x) => Ok(Inst::BitToC(BitInC(x))), Err(er) => Err(er) },
        Mnemonic::BCTC => match s1_u2(op, sym) { Ok(x) => Ok(Inst::BitToC(BitInC(x))), Err(er) => Err(er) },
        Mnemonic::BCTCF => match s1_u2(op, sym) { Ok(x) => Ok(Inst::BitToC(BitInC(x))), Err(er) => Err(er) },
        Mnemonic::WAITB => match s1_u3(op, sym) { Ok(x) => Ok(Inst::WaitB(WaitBit(x))), Err(er) => Err(er) },
        Mnemonic::CLR => match s1_reg(op, sym) { Ok(x) => Ok(Inst::Clear(x)), Err(er) => Err(er) },
        Mnemonic::CLRF => match s1_reg(op, sym) { Ok(x) => Ok(Inst::Clear(x)), Err(er) => Err(er) },
        Mnemonic::MOVA => match s1_reg(op, sym) { Ok(x) => Ok(Inst::MoveA(x)), Err(er) => Err(er) },
        Mnemonic::MOVAF => match s1_reg(op, sym) { Ok(x) => Ok(Inst::MoveA(x)), Err(er) => Err(er) },
        Mnemonic::RETL => match s1_u8(op, sym) { Ok(x) => Ok(Inst::ReturnImm(x)), Err(er) => Err(er) },
        Mnemonic::DB => match s1_u8(op, sym) { Ok(x) => Ok(Inst::ReturnImm(x)), Err(er) => Err(er) },
        Mnemonic::RETLN => match s1_u8(op, sym) { Ok(x) => Ok(Inst::ReturnErrImm(x)), Err(er) => Err(er) },
        Mnemonic::RETER => match s1_u8(op, sym) { Ok(x) => Ok(Inst::ReturnErrImm(x)), Err(er) => Err(er) },
        Mnemonic::MOVIP => match s1_u8(op, sym) { Ok(x) => Ok(Inst::MoveImmToIndirAddr1(x)), Err(er) => Err(er) },
        Mnemonic::MOVIA => match s1_u8(op, sym) { Ok(x) => Ok(Inst::MoveImmToIndirAddr2(x)), Err(er) => Err(er) },
        Mnemonic::MOVA1F => match s1_u8(op, sym) { Ok(x) => Ok(Inst::MoveImmToPortDir(x)), Err(er) => Err(er) },
        Mnemonic::MOVA2F => match s1_u8(op, sym) { Ok(x) => Ok(Inst::MoveImmToPortIo(x)), Err(er) => Err(er) },
        Mnemonic::MOVA2P => match s1_u7(op, sym) { Ok(x) => Ok(Inst::MoveImmToP2(x)), Err(er) => Err(er) },
        Mnemonic::MOVA1P => match s1_u7(op, sym) { Ok(x) => Ok(Inst::MoveImmToP1(x)), Err(er) => Err(er) },
        Mnemonic::MOVL => match s1_u8(op, sym) { Ok(x) => Ok(Inst::MoveImm(x)), Err(er) => Err(er) },
        Mnemonic::ANDL => match s1_u8(op, sym) { Ok(x) => Ok(Inst::AndImm(x)), Err(er) => Err(er) },
        Mnemonic::IORL => match s1_u8(op, sym) { Ok(x) => Ok(Inst::OrImm(x)), Err(er) => Err(er) },
        Mnemonic::XORL => match s1_u8(op, sym) { Ok(x) => Ok(Inst::XorImm(x)), Err(er) => Err(er) },
        Mnemonic::ADDL => match s1_u8(op, sym) { Ok(x) => Ok(Inst::AddImm(x)), Err(er) => Err(er) },
        Mnemonic::SUBL => match s1_u8(op, sym) { Ok(x) => Ok(Inst::SubImm(x)), Err(er) => Err(er) },
        Mnemonic::CMPLN => match s1_u8(op, sym) { Ok(x) => Ok(Inst::CompareImmNegate(x)), Err(er) => Err(er) },
        Mnemonic::CMPL => match s1_u8(op, sym) { Ok(x) => Ok(Inst::CompareImm(x)), Err(er) => Err(er) },
        Mnemonic::JMP => match s1_u12(op, sym) { Ok(x) => Ok(Inst::Jump(x)), Err(er) => Err(er) },
        Mnemonic::GOTO => match s1_u12(op, sym) { Ok(x) => Ok(Inst::Jump(x)), Err(er) => Err(er) },
        Mnemonic::CALL => match s1_u12(op, sym) { Ok(x) => Ok(Inst::Call(x)), Err(er) => Err(er) },
        Mnemonic::JNZ => match s1_u10(op, sym) { Ok(x) => Ok(Inst::JumpIfNotZero(x)), Err(er) => Err(er) },
        Mnemonic::JZ => match s1_u10(op, sym) { Ok(x) => Ok(Inst::JumpIfZero(x)), Err(er) => Err(er) },
        Mnemonic::JNC => match s1_u10(op, sym) { Ok(x) => Ok(Inst::JumpIfNotCarry(x)), Err(er) => Err(er) },
        Mnemonic::JC => match s1_u10(op, sym) { Ok(x) => Ok(Inst::JumpIfCarry(x)), Err(er) => Err(er) },
        Mnemonic::DW => match s1_u16(op, sym) { Ok(x) => Ok(Inst::Unknown(x)), Err(er) => Err(er) },
        Mnemonic::MOV => match s20_reg(op, sym) { Ok(f) => match s21_dest(op, sym) { Ok(d) => Ok(Inst::Move(f, d)), Err(er) => Err(er) }, Err(er) => Err(er) },
        Mnemonic::MOVF => match s20_reg(op, sym) { Ok(f) => match s21_dest(op, sym) { Ok(d) => Ok(Inst::Move(f, d)), Err(er) => Err(er) }, Err(er) => Err(er) },
        Mnemonic::INC => match s20_reg(op, sym) { Ok(f) => match s21_dest(op, sym) { Ok(d) => Ok(Inst::Inc(f, d)), Err(er) => Err(er) }, Err(er) => Err(er) },
        Mnemonic::INCF => match s20_reg(op, sym) { Ok(f) => match s21_dest(op, sym) { Ok(d) => Ok(Inst::Inc(f, d)), Err(er) => Err(er) }, Err(er) => Err(er) },
        Mnemonic::DEC => match s20_reg(op, sym) { Ok(f) => match s21_dest(op, sym) { Ok(d) => Ok(Inst::Dec(f, d)), Err(er) => Err(er) }, Err(er) => Err(er) },
        Mnemonic::DECF => match s20_reg(op, sym) { Ok(f) => match s21_dest(op, sym) { Ok(d) => Ok(Inst::Dec(f, d)), Err(er) => Err(er) }, Err(er) => Err(er) },
        Mnemonic::INCSZ => match s20_reg(op, sym) { Ok(f) => match s21_dest(op, sym) { Ok(d) => Ok(Inst::IncAndSkipIfZero(f, d)), Err(er) => Err(er) }, Err(er) => Err(er) },
        Mnemonic::INCFSZ => match s20_reg(op, sym) { Ok(f) => match s21_dest(op, sym) { Ok(d) => Ok(Inst::IncAndSkipIfZero(f, d)), Err(er) => Err(er) }, Err(er) => Err(er) },
        Mnemonic::DECSZ => match s20_reg(op, sym) { Ok(f) => match s21_dest(op, sym) { Ok(d) => Ok(Inst::DecAndSkipIfZero(f, d)), Err(er) => Err(er) }, Err(er) => Err(er) },
        Mnemonic::DECFSZ => match s20_reg(op, sym) { Ok(f) => match s21_dest(op, sym) { Ok(d) => Ok(Inst::DecAndSkipIfZero(f, d)), Err(er) => Err(er) }, Err(er) => Err(er) },
        Mnemonic::SWAP => match s20_reg(op, sym) { Ok(f) => match s21_dest(op, sym) { Ok(d) => Ok(Inst::SwapHalfBytes(f, d)), Err(er) => Err(er) }, Err(er) => Err(er) },
        Mnemonic::SWAPF => match s20_reg(op, sym) { Ok(f) => match s21_dest(op, sym) { Ok(d) => Ok(Inst::SwapHalfBytes(f, d)), Err(er) => Err(er) }, Err(er) => Err(er) },
        Mnemonic::AND => match s20_reg(op, sym) { Ok(f) => match s21_dest(op, sym) { Ok(d) => Ok(Inst::And(f, d)), Err(er) => Err(er) }, Err(er) => Err(er) },
        Mnemonic::ANDF => match s20_reg(op, sym) { Ok(f) => match s21_dest(op, sym) { Ok(d) => Ok(Inst::And(f, d)), Err(er) => Err(er) }, Err(er) => Err(er) },
        Mnemonic::IOR => match s20_reg(op, sym) { Ok(f) => match s21_dest(op, sym) { Ok(d) => Ok(Inst::Or(f, d)), Err(er) => Err(er) }, Err(er) => Err(er) },
        Mnemonic::IORF => match s20_reg(op, sym) { Ok(f) => match s21_dest(op, sym) { Ok(d) => Ok(Inst::Or(f, d)), Err(er) => Err(er) }, Err(er) => Err(er) },
        Mnemonic::XOR => match s20_reg(op, sym) { Ok(f) => match s21_dest(op, sym) { Ok(d) => Ok(Inst::Xor(f, d)), Err(er) => Err(er) }, Err(er) => Err(er) },
        Mnemonic::XORF => match s20_reg(op, sym) { Ok(f) => match s21_dest(op, sym) { Ok(d) => Ok(Inst::Xor(f, d)), Err(er) => Err(er) }, Err(er) => Err(er) },
        Mnemonic::ADD => match s20_reg(op, sym) { Ok(f) => match s21_dest(op, sym) { Ok(d) => Ok(Inst::Add(f, d)), Err(er) => Err(er) }, Err(er) => Err(er) },
        Mnemonic::ADDF => match s20_reg(op, sym) { Ok(f) => match s21_dest(op, sym) { Ok(d) => Ok(Inst::Add(f, d)), Err(er) => Err(er) }, Err(er) => Err(er) },
        Mnemonic::SUB => match s20_reg(op, sym) { Ok(f) => match s21_dest(op, sym) { Ok(d) => Ok(Inst::Sub(f, d)), Err(er) => Err(er) }, Err(er) => Err(er) },
        Mnemonic::SUBF => match s20_reg(op, sym) { Ok(f) => match s21_dest(op, sym) { Ok(d) => Ok(Inst::Sub(f, d)), Err(er) => Err(er) }, Err(er) => Err(er) },
        Mnemonic::RCL => match s20_reg(op, sym) { Ok(f) => match s21_dest(op, sym) { Ok(d) => Ok(Inst::RotateLeftWithCarry(f, d)), Err(er) => Err(er) }, Err(er) => Err(er) },
        Mnemonic::RCLF => match s20_reg(op, sym) { Ok(f) => match s21_dest(op, sym) { Ok(d) => Ok(Inst::RotateLeftWithCarry(f, d)), Err(er) => Err(er) }, Err(er) => Err(er) },
        Mnemonic::RLF => match s20_reg(op, sym) { Ok(f) => match s21_dest(op, sym) { Ok(d) => Ok(Inst::RotateLeftWithCarry(f, d)), Err(er) => Err(er) }, Err(er) => Err(er) },
        Mnemonic::RCR => match s20_reg(op, sym) { Ok(f) => match s21_dest(op, sym) { Ok(d) => Ok(Inst::RotateRightWithCarry(f, d)), Err(er) => Err(er) }, Err(er) => Err(er) },
        Mnemonic::RCRF => match s20_reg(op, sym) { Ok(f) => match s21_dest(op, sym) { Ok(d) => Ok(Inst::RotateRightWithCarry(f, d)), Err(er) => Err(er) }, Err(er) => Err(er) },
        Mnemonic::RRF => match s20_reg(op, sym) { Ok(f) => match s21_dest(op, sym) { Ok(d) => Ok(Inst::RotateRightWithCarry(f, d)), Err(er) => Err(er) }, Err(er) => Err(er) },
        Mnemonic::BC => match s20_reg(op, sym) { Ok(f) => match s21_u3(op, sym) { Ok(b) => Ok(Inst::BitClear(f, b)), Err(er) => Err(er) }, Err(er) => Err(er) },
        Mnemonic::BCF => match s20_reg(op, sym) { Ok(f) => match s21_u3(op, sym) { Ok(b) => Ok(Inst::BitClear(f, b)), Err(er) => Err(er) }, Err(er) => Err(er) },
        Mnemonic::BS => match s20_reg(op, sym) { Ok(f) => match s21_u3(op, sym) { Ok(b) => Ok(Inst::BitSet(f, b)), Err(er) => Err(er) }, Err(er) => Err(er) },
        Mnemonic::BSF => match s20_reg(op, sym) { Ok(f) => match s21_u3(op, sym) { Ok(b) => Ok(Inst::BitSet(f, b)), Err(er) => Err(er) }, Err(er) => Err(er) },
        Mnemonic::BTSC => match s20_reg(op, sym) { Ok(f) => match s21_u3(op, sym) { Ok(b) => Ok(Inst::BitTestSkipIfClear(f, b)), Err(er) => Err(er) }, Err(er) => Err(er) },
        Mnemonic::BTFSC => match s20_reg(op, sym) { Ok(f) => match s21_u3(op, sym) { Ok(b) => Ok(Inst::BitTestSkipIfClear(f, b)), Err(er) => Err(er) }, Err(er) => Err(er) },
        Mnemonic::BTSS => match s20_reg(op, sym) { Ok(f) => match s21_u3(op, sym) { Ok(b) => Ok(Inst::BitTestSkipIfSet(f, b)), Err(er) => Err(er) }, Err(er) => Err(er) },
        Mnemonic::BTFSS => match s20_reg(op, sym) { Ok(f) => match s21_u3(op, sym) { Ok(b) => Ok(Inst::BitTestSkipIfSet(f, b)), Err(er) => Err(er) }, Err(er) => Err(er) },
        Mnemonic::BP1F => match s20_u2(op, sym) { Ok(s) => match s21_u3(op, sym) { Ok(b) => Ok(Inst::BitOut1(BitOut(s), b)), Err(er) => Err(er) }, Err(er) => Err(er) },
        Mnemonic::BP2F => match s20_u2(op, sym) { Ok(s) => match s21_u3(op, sym) { Ok(b) => Ok(Inst::BitOut2(BitOut(s), b)), Err(er) => Err(er) }, Err(er) => Err(er) },
        Mnemonic::BG1F => match s20_u2(op, sym) { Ok(s) => match s21_u3(op, sym) { Ok(b) => Ok(Inst::BitIn1(BitIn(s), b)), Err(er) => Err(er) }, Err(er) => Err(er) },
        Mnemonic::BG2F => match s20_u2(op, sym) { Ok(s) => match s21_u3(op, sym) { Ok(b) => Ok(Inst::BitIn2(BitIn(s), b)), Err(er) => Err(er) }, Err(er) => Err(er) },
        Mnemonic::CMPZ => match s20_u7(op, sym) { Ok(v) => match s21_u8(op, sym) { Ok(t) => Ok(Inst::JumpIfEqual(v, t)), Err(er) => Err(er) }, Err(er) => Err(er) },
    }
}

/// Build the instruction for one mnemonic and operand list.
pub fn inst_for(m: Mnemonic, opnd: &Operand, sym: &SymTab) -> (r: Result<Inst, AssembleError>)
    ensures
        match r {
            Ok(v) => v.wf() && spec_inst_for(m, opnd@, sym@) == Ok::<Inst, AssembleErrorV>(v),
            Err(er) => spec_inst_for(m, opnd@, sym@) == Err::<Inst, AssembleErrorV>(er@),
        },
{
    match m {
            Mnemonic::NOP => return e0(opnd, Inst::Nop),
            Mnemonic::CLRWDT => return e0(opnd, Inst::ClearWatchDog),
            Mnemonic::WDT => return e0(opnd, Inst::ClearWatchDog),
            Mnemonic::SLEEP => return e0(opnd, Inst::Sleep(U2(0))),
            Mnemonic::HALT => return e0(opnd, Inst::Sleep(U2(0))),
            Mnemonic::RDCODE => return e0(opnd, Inst::ReadCode(U2(0))),
            Mnemonic::PUSHAS => return e0(opnd, Inst::PushA),
            Mnemonic::PUSH => return e0(opnd, Inst::PushA),
            Mnemonic::POPAS => return e0(opnd, Inst::PopA),
            Mnemonic::POP => return e0(opnd, Inst::PopA),
            Mnemonic::PUSHA2 => return e0(opnd, Inst::PushIndirAddr2),
            Mnemonic::POPA2 => return e0(opnd, Inst::PopIndirAddr2),
            Mnemonic::RET => return e0(opnd, Inst::Return),
            Mnemonic::RETURN => return e0(opnd, Inst::Return),
            Mnemonic::RETZ => return e0(opnd, Inst::ReturnOk),
            Mnemonic::RETOK => return e0(opnd, Inst::ReturnOk),
            Mnemonic::RETIE => return e0(opnd, Inst::ReturnInt),
            Mnemonic::RETI => return e0(opnd, Inst::ReturnInt),
            Mnemonic::CLRA => return e0(opnd, Inst::ClearA),
            Mnemonic::WAITRD => return Ok(Inst::WaitB(WaitBit(U3(0)))),
            Mnemonic::WAITWR => return Ok(Inst::WaitB(WaitBit(U3(4)))),
            Mnemonic::WAITSPI => return Ok(Inst::WaitB(WaitBit(U3(4)))),
            Mnemonic::WRCODE => return Ok(Inst::BitToC(BitInC(U2(0)))),
            Mnemonic::SLEEPX => return match o1_u2(opnd, sym) { Ok(x) => Ok(Inst::Sleep(x)), Err(er) => Err(er) },
            Mnemonic::RCODE => return match o1_u2(opnd, sym) { Ok(x) => Ok(Inst::ReadCode(x)), Err(er) => Err(er) },
            Mnemonic::EXEC => return match o1_u2(opnd, sym) { Ok(x) => Ok(Inst::BitToC(BitInC(x))), Err(er) => Err(er) },
            Mnemonic::BCTC => return match o1_u2(opnd, sym) { Ok(x) => Ok(Inst::BitToC(BitInC(x))), Err(er) => Err(er) },
            Mnemonic::BCTCF => return match o1_u2(opnd, sym) { Ok(x) => Ok(Inst::BitToC(BitInC(x))), Err(er) => Err(er) },
            Mnemonic::WAITB => return match o1_u3(opnd, sym) { Ok(x) => Ok(Inst::WaitB(WaitBit(x))), Err(er) => Err(er) },
            Mnemonic::CLR => return match o1_reg(opnd, sym) { Ok(x) => Ok(Inst::Clear(x)), Err(er) => Err(er) },
            Mnemonic::CLRF => return match o1_reg(opnd, sym) { Ok(x) => Ok(Inst::Clear(x)), Err(er) => Err(er) },
            Mnemonic::MOVA => return match o1_reg(opnd, sym) { Ok(x) => Ok(Inst::MoveA(x)), Err(er) => Err(er) },
            Mnemonic::MOVAF => return match o1_reg(opnd, sym) { Ok(x) => Ok(Inst::MoveA(x)), Err(er) => Err(er) },
            Mnemonic::RETL => return match o1_u8(opnd, sym) { Ok(x) => Ok(Inst::ReturnImm(x)), Err(er) => Err(er) },
            Mnemonic::DB => return match o1_u8(opnd, sym) { Ok(x) => Ok(Inst::ReturnImm(x)), Err(er) => Err(er) },
            Mnemonic::RETLN => return match o1_u8(opnd, sym) { Ok(x) => Ok(Inst::ReturnErrImm(x)), Err(er) => Err(er) },
            Mnemonic::RETER => return match o1_u8(opnd, sym) { Ok(x) => Ok(Inst::ReturnErrImm(x)), Err(er) => Err(er) },
            Mnemonic::MOVIP => return match o1_u8(opnd, sym) { Ok(x) => Ok(Inst::MoveImmToIndirAddr1(x)), Err(er) => Err(er) },
            Mnemonic::MOVIA => return match o1_u8(opnd, sym) { Ok(x) => Ok(Inst::MoveImmToIndirAddr2(x)), Err(er) => Err(er) },
            Mnemonic::MOVA1F => return match o1_u8(opnd, sym) { Ok(x) => Ok(Inst::MoveImmToPortDir(x)), Err(er) => Err(er) },
            Mnemonic::MOVA2F => return match o1_u8(opnd, sym) { Ok(x) => Ok(Inst::MoveImmToPortIo(x)), Err(er) => Err(er) },
            Mnemonic::MOVA2P => return match o1_u7(opnd, sym) { Ok(x) => Ok(Inst::MoveImmToP2(x)), Err(er) => Err(er) },
            Mnemonic::MOVA1P => return match o1_u7(opnd, sym) { Ok(x) => Ok(Inst::MoveImmToP1(x)), Err(er) => Err(er) },
            Mnemonic::MOVL => return match o1_u8(opnd, sym) { Ok(x) => Ok(Inst::MoveImm(x)), Err(er) => Err(er) },
            Mnemonic::ANDL => return match o1_u8(opnd, sym) { Ok(x) => Ok(Inst::AndImm(x)), Err(er) => Err(er) },
            Mnemonic::IORL => return match o1_u8(opnd, sym) { Ok(x) => Ok(Inst::OrImm(x)), Err(er) => Err(er) },
            Mnemonic::XORL => return match o1_u8(opnd, sym) { Ok(x) => Ok(Inst::XorImm(x)), Err(er) => Err(er) },
            Mnemonic::ADDL => return match o1_u8(opnd, sym) { Ok(x) => Ok(Inst::AddImm(x)), Err(er) => Err(er) },
            Mnemonic::SUBL => return match o1_u8(opnd, sym) { Ok(x) => Ok(Inst::SubImm(x)), Err(er) => Err(er) },
            Mnemonic::CMPLN => return match o1_u8(opnd, sym) { Ok(x) => Ok(Inst::CompareImmNegate(x)), Err(er) => Err(er) },
            Mnemonic::CMPL => return match o1_u8(opnd, sym) { Ok(x) => Ok(Inst::CompareImm(x)), Err(er) => Err(er) },
            Mnemonic::JMP => return match o1_u12(opnd, sym) { Ok(x) => Ok(Inst::Jump(x)), Err(er) => Err(er) },
            Mnemonic::GOTO => return match o1_u12(opnd, sym) { Ok(x) => Ok(Inst::Jump(x)), Err(er) => Err(er) },
            Mnemonic::CALL => return match o1_u12(opnd, sym) { Ok(x) => Ok(Inst::Call(x)), Err(er) => Err(er) },
            Mnemonic::JNZ => return match o1_u10(opnd, sym) { Ok(x) => Ok(Inst::JumpIfNotZero(x)), Err(er) => Err(er) },
            Mnemonic::JZ => return match o1_u10(opnd, sym) { Ok(x) => Ok(Inst::JumpIfZero(x)), Err(er) => Err(er) },
            Mnemonic::JNC => return match o1_u10(opnd, sym) { Ok(x) => Ok(Inst::JumpIfNotCarry(x)), Err(er) => Err(er) },
            Mnemonic::JC => return match o1_u10(opnd, sym) { Ok(x) => Ok(Inst::JumpIfCarry(x)), Err(er) => Err(er) },
            Mnemonic::DW => return match o1_u16(opnd, sym) { Ok(x) => Ok(Inst::Unknown(x)), Err(er) => Err(er) },
            Mnemonic::MOV => return match o20_reg(opnd, sym) { Ok(f) => match o21_dest(opnd, sym) { Ok(d) => Ok(Inst::Move(f, d)), Err(er) => Err(er) }, Err(er) => Err(er) },
            Mnemonic::MOVF => return match o20_reg(opnd, sym) { Ok(f) => match o21_dest(opnd, sym) { Ok(d) => Ok(Inst::Move(f, d)), Err(er) => Err(er) }, Err(er) => Err(er) },
            Mnemonic::INC => return match o20_reg(opnd, sym) { Ok(f) => match o21_dest(opnd, sym) { Ok(d) => Ok(Inst::Inc(f, d)), Err(er) => Err(er) }, Err(er) => Err(er) },
            Mnemonic::INCF => return match o20_reg(opnd, sym) { Ok(f) => match o21_dest(opnd, sym) { Ok(d) => Ok(Inst::Inc(f, d)), Err(er) => Err(er) }, Err(er) => Err(er) },
            Mnemonic::DEC => return match o20_reg(opnd, sym) { Ok(f) => match o21_dest(opnd, sym) { Ok(d) => Ok(Inst::Dec(f, d)), Err(er) => Err(er) }, Err(er) => Err(er) },
            Mnemonic::DECF => return match o20_reg(opnd, sym) { Ok(f) => match o21_dest(opnd, sym) { Ok(d) => Ok(Inst::Dec(f, d)), Err(er) => Err(er) }, Err(er) => Err(er) },
            Mnemonic::INCSZ => return match o20_reg(opnd, sym) { Ok(f) => match o21_dest(opnd, sym) { Ok(d) => Ok(Inst::IncAndSkipIfZero(f, d)), Err(er) => Err(er) }, Err(er) => Err(er) },
            Mnemonic::INCFSZ => return match o20_reg(opnd, sym) { Ok(f) => match o21_dest(opnd, sym) { Ok(d) => Ok(Inst::IncAndSkipIfZero(f, d)), Err(er) => Err(er) }, Err(er) => Err(er) },
            Mnemonic::DECSZ => return match o20_reg(opnd, sym) { Ok(f) => match o21_dest(opnd, sym) { Ok(d) => Ok(Inst::DecAndSkipIfZero(f, d)), Err(er) => Err(er) }, Err(er) => Err(er) },
            Mnemonic::DECFSZ => return match o20_reg(opnd, sym) { Ok(f) => match o21_dest(opnd, sym) { Ok(d) => Ok(Inst::DecAndSkipIfZero(f, d)), Err(er) => Err(er) }, Err(er) => Err(er) },
            Mnemonic::SWAP => return match o20_reg(opnd, sym) { Ok(f) => match o21_dest(opnd, sym) { Ok(d) => Ok(Inst::SwapHalfBytes(f, d)), Err(er) => Err(er) }, Err(er) => Err(er) },
            Mnemonic::SWAPF => return match o20_reg(opnd, sym) { Ok(f) => match o21_dest(opnd, sym) { Ok(d) => Ok(Inst::SwapHalfBytes(f, d)), Err(er) => Err(er) }, Err(er) => Err(er) },
            Mnemonic::AND => return match o20_reg(opnd, sym) { Ok(f) => match o21_dest(opnd, sym) { Ok(d) => Ok(Inst::And(f, d)), Err(er) => Err(er) }, Err(er) => Err(er) },
            Mnemonic::ANDF => return match o20_reg(opnd, sym) { Ok(f) => match o21_dest(opnd, sym) { Ok(d) => Ok(Inst::And(f, d)), Err(er) => Err(er) }, Err(er) => Err(er) },
            Mnemonic::IOR => return match o20_reg(opnd, sym) { Ok(f) => match o21_dest(opnd, sym) { Ok(d) => Ok(Inst::Or(f, d)), Err(er) => Err(er) }, Err(er) => Err(er) },
            Mnemonic::IORF => return match o20_reg(opnd, sym) { Ok(f) => match o21_dest(opnd, sym) { Ok(d) => Ok(Inst::Or(f, d)), Err(er) => Err(er) }, Err(er) => Err(er) },
            Mnemonic::XOR => return match o20_reg(opnd, sym) { Ok(f) => match o21_dest(opnd, sym) { Ok(d) => Ok(Inst::Xor(f, d)), Err(er) => Err(er) }, Err(er) => Err(er) },
            Mnemonic::XORF => return match o20_reg(opnd, sym) { Ok(f) => match o21_dest(opnd, sym) { Ok(d) => Ok(Inst::Xor(f, d)), Err(er) => Err(er) }, Err(er) => Err(er) },
            Mnemonic::ADD => return match o20_reg(opnd, sym) { Ok(f) => match o21_dest(opnd, sym) { Ok(d) => Ok(Inst::Add(f, d)), Err(er) => Err(er) }, Err(er) => Err(er) },
            Mnemonic::ADDF => return match o20_reg(opnd, sym) { Ok(f) => match o21_dest(opnd, sym) { Ok(d) => Ok(Inst::Add(f, d)), Err(er) => Err(er) }, Err(er) => Err(er) },
            Mnemonic::SUB => return match o20_reg(opnd, sym) { Ok(f) => match o21_dest(opnd, sym) { Ok(d) => Ok(Inst::Sub(f, d)), Err(er) => Err(er) }, Err(er) => Err(er) },
            Mnemonic::SUBF => return match o20_reg(opnd, sym) { Ok(f) => match o21_dest(opnd, sym) { Ok(d) => Ok(Inst::Sub(f, d)), Err(er) => Err(er) }, Err(er) => Err(er) },
            Mnemonic::RCL => return match o20_reg(opnd, sym) { Ok(f) => match o21_dest(opnd, sym) { Ok(d) => Ok(Inst::RotateLeftWithCarry(f, d)), Err(er) => Err(er) }, Err(er) => Err(er) },
            Mnemonic::RCLF => return match o20_reg(opnd, sym) { Ok(f) => match o21_dest(opnd, sym) { Ok(d) => Ok(Inst::RotateLeftWithCarry(f, d)), Err(er) => Err(er) }, Err(er) => Err(er) },
            Mnemonic::RLF => return match o20_reg(opnd, sym) { Ok(f) => match o21_dest(opnd, sym) { Ok(d) => Ok(Inst::RotateLeftWithCarry(f, d)), Err(er) => Err(er) }, Err(er) => Err(er) },
            Mnemonic::RCR => return match o20_reg(opnd, sym) { Ok(f) => match o21_dest(opnd, sym) { Ok(d) => Ok(Inst::RotateRightWithCarry(f, d)), Err(er) => Err(er) }, Err(er) => Err(er) },
            Mnemonic::RCRF => return match o20_reg(opnd, sym) { Ok(f) => match o21_dest(opnd, sym) { Ok(d) => Ok(Inst::RotateRightWithCarry(f, d)), Err(er) => Err(er) }, Err(er) => Err(er) },
            Mnemonic::RRF => return match o20_reg(opnd, sym) { Ok(f) => match o21_dest(opnd, sym) { Ok(d) => Ok(Inst::RotateRightWithCarry(f, d)), Err(er) => Err(er) }, Err(er) => Err(er) },
            Mnemonic::BC => return match o20_reg(opnd, sym) { Ok(f) => match o21_u3(opnd, sym) { Ok(b) => Ok(Inst::BitClear(f, b)), Err(er) => Err(er) }, Err(er) => Err(er) },
            Mnemonic::BCF => return match o20_reg(opnd, sym) { Ok(f) => match o21_u3(opnd, sym) { Ok(b) => Ok(Inst::BitClear(f, b)), Err(er) => Err(er) }, Err(er) => Err(er) },
            Mnemonic::BS => return match o20_reg(opnd, sym) { Ok(f) => match o21_u3(opnd, sym) { Ok(b) => Ok(Inst::BitSet(f, b)), Err(er) => Err(er) }, Err(er) => Err(er) },
            Mnemonic::BSF => return match o20_reg(opnd, sym) { Ok(f) => match o21_u3(opnd, sym) { Ok(b) => Ok(Inst::BitSet(f, b)), Err(er) => Err(er) }, Err(er) => Err(er) },
            Mnemonic::BTSC => return match o20_reg(opnd, sym) { Ok(f) => match o21_u3(opnd, sym) { Ok(b) => Ok(Inst::BitTestSkipIfClear(f, b)), Err(er) => Err(er) }, Err(er) => Err(er) },
            Mnemonic::BTFSC => return match o20_reg(opnd, sym) { Ok(f) => match o21_u3(opnd, sym) { Ok(b) => Ok(Inst::BitTestSkipIfClear(f, b)), Err(er) => Err(er) }, Err(er) => Err(er) },
            Mnemonic::BTSS => return match o20_reg(opnd, sym) { Ok(f) => match o21_u3(opnd, sym) { Ok(b) => Ok(Inst::BitTestSkipIfSet(f, b)), Err(er) => Err(er) }, Err(er) => Err(er) },
            Mnemonic::BTFSS => return match o20_reg(opnd, sym) { Ok(f) => match o21_u3(opnd, sym) { Ok(b) => Ok(Inst::BitTestSkipIfSet(f, b)), Err(er) => Err(er) }, Err(er) => Err(er) },
            Mnemonic::BP1F => return match o20_u2(opnd, sym) { Ok(s) => match o21_u3(opnd, sym) { Ok(b) => Ok(Inst::BitOut1(BitOut(s), b)), Err(er) => Err(er) }, Err(er) => Err(er) },
            Mnemonic::BP2F => return match o20_u2(opnd, sym) { Ok(s) => match o21_u3(opnd, sym) { Ok(b) => Ok(Inst::BitOut2(BitOut(s), b)), Err(er) => Err(er) }, Err(er) => Err(er) },
            Mnemonic::BG1F => return match o20_u2(opnd, sym) { Ok(s) => match o21_u3(opnd, sym) { Ok(b) => Ok(Inst::BitIn1(BitIn(s), b)), Err(er) => Err(er) }, Err(er) => Err(er) },
            Mnemonic::BG2F => return match o20_u2(opnd, sym) { Ok(s) => match o21_u3(opnd, sym) { Ok(b) => Ok(Inst::BitIn2(BitIn(s), b)), Err(er) => Err(er) }, Err(er) => Err(er) },
            Mnemonic::CMPZ => return match o20_u7(opnd, sym) { Ok(v) => match o21_u8(opnd, sym) { Ok(t) => Ok(Inst::JumpIfEqual(v, t)), Err(er) => Err(er) }, Err(er) => Err(er) },
    }
}


/// Instruction emission from a statement position onward, carrying the
/// running byte address and the words emitted so far. `Origin` evaluates its
/// expression: an odd byte address is an alignment error; a forward or equal
/// move pads with no-op words up to the target word index; a backward move
/// only resets the address and never truncates. Every instruction statement
/// advances the address by one word.
pub open spec fn emit_from(
    prog: Seq<StmtV>,
    sym: Map<Seq<char>, i32>,
    addr: int,
    acc: Seq<Inst>,
) -> Result<Seq<Inst>, AssembleErrorV>
    decreases prog.len(),
{
    if prog.len() == 0 {
        Ok(acc)
    } else {
        let rest = prog.drop_first();
        match prog[0] {
            StmtV::Define(_, _) => emit_from(rest, sym, addr, acc),
            StmtV::Include(_) => emit_from(rest, sym, addr, acc),
            StmtV::Origin(e) => match spec_eval(e, sym) {
                Ok(na) => if (na as int) % 2 != 0 {
                    Err(AssembleErrorV::OriginNotAligned)
                } else {
                    emit_from(rest, sym, na as int, pad_words(acc, na, addr))
                },
                Err(er) => Err(er),
            },
            StmtV::Inst(_, m, opv) => match spec_inst_for(m, opv, sym) {
                Ok(i) => emit_from(rest, sym, addr + 2, acc.push(i)),
                Err(er) => Err(er),
            },
        }
    }
}

/// The words after an `Origin` to byte address `na`: on a forward or equal
/// move, no-op padding up to word index `na / 2`; on a backward move, the
/// words unchanged.
pub open spec fn pad_words(acc: Seq<Inst>, na: i32, addr: int) -> Seq<Inst> {
    if na >= addr && na >= 0 && (na as int) / 2 > acc.len() {
        acc + Seq::new(((na as int) / 2 - acc.len()) as nat, |k: int| Inst::Nop)
    } else {
        acc
    }
}

/// Emission over a whole statement sequence, from address zero.
pub open spec fn spec_emit(prog: Seq<StmtV>, sym: Map<Seq<char>, i32>) -> Result<
    Seq<Inst>,
    AssembleErrorV,
> {
    emit_from(prog, sym, 0, Seq::empty())
}

/// Walk the statements in order and emit one word per instruction, handling
/// `Origin` as padding or back-patch control.
fn emit_inst(prog: &Vec<Stmt>, sym: &SymTab) -> (r: Result<Vec<Inst>, AssembleError>)
    ensures
        match r {
            Ok(v) => all_wf(v@) && spec_emit(stmts_view(prog@), sym@) == Ok::<
                Seq<Inst>,
                AssembleErrorV,
            >(v@),
            Err(e) => spec_emit(stmts_view(prog@), sym@) == Err::<Seq<Inst>, AssembleErrorV>(e@),
        },
{
    let ghost pv = stmts_view(prog@);
    let mut insts: Vec<Inst> = Vec::new();
    let mut addr: i128 = 0;
    let mut idx: usize = 0;
    proof {
        assert(pv.skip(0) =~= pv);
        assert(insts@ =~= Seq::<Inst>::empty());
    }
    while idx < prog.len()
        invariant
            idx <= prog@.len(),
            pv == stmts_view(prog@),
            pv.len() == prog@.len(),
            -0x8000_0000 <= addr <= 0x8000_0000 + 2 * (idx as int),
            all_wf(insts@),
            emit_from(pv, sym@, 0, Seq::empty()) == emit_from(
                pv.skip(idx as int),
                sym@,
                addr as int,
                insts@,
            ),
        decreases prog@.len() - idx,
    {
        proof {
            assert(pv[idx as int] == prog@[idx as int]@);
            assert(pv.skip(idx as int)[0] == pv[idx as int]);
            assert(pv.skip(idx as int).drop_first() =~= pv.skip(idx + 1));
        }
        match &prog[idx] {
            Stmt::Define(_, _) => {},
            Stmt::Include(_) => {},
            Stmt::Origin(e) => {
                match eval(e, sym) {
                    Err(er) => {
                        return Err(er);
                    },
                    Ok(na) => {
                        if na % 2 != 0 {
                            proof {
                                assert((na as int) % 2 != 0);
                            }
                            return Err(AssembleError::OriginNotAligned);
                        }
                        proof {
                            assert((na as int) % 2 == 0);
                        }
                        let ghost pre = insts@;
                        if na >= 0 && na as i128 >= addr {
                            let target: usize = (na / 2) as usize;
                            while insts.len() < target
                                invariant
                                    all_wf(insts@),
                                    pre.len() <= insts@.len(),
                                    insts@.len() <= pre.len() || insts@.len() <= target as int,
                                    insts@ =~= pre + Seq::new(
                                        (insts@.len() - pre.len()) as nat,
                                        |k: int| Inst::Nop,
                                    ),
                                decreases target as int - insts@.len(),
                            {
                                insts.push(Inst::Nop);
                            }
                            proof {
                                assert(insts@ =~= pad_words(pre, na, addr as int));
                            }
                        } else {
                            proof {
                                assert(insts@ =~= pad_words(pre, na, addr as int));
                            }
                        }
                        addr = na as i128;
                    },
                }
            },
            Stmt::Inst(_, m, opnd) => {
                match inst_for(*m, opnd, sym) {
                    Err(er) => {
                        return Err(er);
                    },
                    Ok(i) => {
                        insts.push(i);
                        addr = addr + 2;
                    },
                }
            },
        }
        idx = idx + 1;
    }
    proof {
        assert(pv.skip(pv.len() as int).len() == 0);
    }
    Ok(insts)
}

/// What a full assembly run yields: symbol resolution over the (already
/// include-expanded) statements, then emission against the resolved table.
pub open spec fn spec_assemble_with_symbols(sym: Map<Seq<char>, i32>, prog: Seq<StmtV>) -> Result<
    Seq<Inst>,
    AssembleErrorV,
> {
    match spec_resolve(sym, prog) {
        Ok(m) => spec_emit(prog, m),
        Err(e) => Err(e),
    }
}

/// Assemble an include-expanded statement sequence with a custom symbol
/// table instead of the built-in defaults.
pub fn assemble_with_symbols(sym: &SymTab, prog: &Vec<Stmt>) -> (r: Result<
    Vec<Inst>,
    AssembleError,
>)
    requires
        prog_resolvable(stmts_view(prog@)),
    ensures
        match r {
            Ok(v) => all_wf(v@) && spec_assemble_with_symbols(sym@, stmts_view(prog@)) == Ok::<
                Seq<Inst>,
                AssembleErrorV,
            >(v@),
            Err(e) => spec_assemble_with_symbols(sym@, stmts_view(prog@)) == Err::<
                Seq<Inst>,
                AssembleErrorV,
            >(e@),
        },
{
    match resolve_symbol(sym.clone_table(), prog) {
        Ok(resolved) => emit_inst(prog, &resolved),
        Err(e) => Err(e),
    }
}

/// Assemble an include-expanded statement sequence against the built-in
/// symbol table.
pub fn assemble(prog: &Vec<Stmt>) -> (r: Result<Vec<Inst>, AssembleError>)
    requires
        prog_resolvable(stmts_view(prog@)),
    ensures
        match r {
            Ok(v) => all_wf(v@) && spec_assemble_with_symbols(default_symbols(), stmts_view(prog@))
                == Ok::<Seq<Inst>, AssembleErrorV>(v@),
            Err(e) => spec_assemble_with_symbols(default_symbols(), stmts_view(prog@)) == Err::<
                Seq<Inst>,
                AssembleErrorV,
            >(e@),
        },
{
    let table = SymTab::default();
    assemble_with_symbols(&table, prog)
}


/// Law: alignment. An `Origin` whose expression evaluates to an odd byte
/// address always fails with the alignment error, for every odd value
/// including negative ones, whatever statements follow and whatever was
/// already emitted.
pub proof fn lemma_origin_alignment(
    prog: Seq<StmtV>,
    sym: Map<Seq<char>, i32>,
    addr: int,
    acc: Seq<Inst>,
    e: ExprV,
    na: i32,
)
    requires
        prog.len() > 0,
        prog[0] == StmtV::Origin(e),
        spec_eval(e, sym) == Ok::<i32, AssembleErrorV>(na),
        (na as int) % 2 != 0,
    ensures
        emit_from(prog, sym, addr, acc) == Err::<Seq<Inst>, AssembleErrorV>(
            AssembleErrorV::OriginNotAligned,
        ),
{
}

/// Law: padding. An `Origin` to byte address `na` at or ahead of the words
/// emitted so far pads to exactly `na / 2` words: every word already emitted
/// is unchanged, and every added word is the no-op word.
pub proof fn lemma_origin_padding(acc: Seq<Inst>, na: i32, addr: int)
    requires
        na >= addr,
        na >= 0,
        (na as int) / 2 >= acc.len(),
    ensures
        pad_words(acc, na, addr).len() == (na as int) / 2,
        forall|k: int| 0 <= k < acc.len() ==> pad_words(acc, na, addr)[k] == acc[k],
        forall|k: int|
            acc.len() <= k < (na as int) / 2 ==> pad_words(acc, na, addr)[k] == Inst::Nop,
{
}


/// One source file handed to include expansion: a path and its contents.
#[derive(Debug, Clone, PartialEq, Eq)]
pub struct SrcFile {
    pub path: String,
    pub text: String,
}

/// Mathematical view of a source file.
pub struct SrcFileV {
    pub path: Seq<char>,
    pub text: Seq<char>,
}

impl View for SrcFile {
    type V = SrcFileV;

    open spec fn view(&self) -> SrcFileV {
        SrcFileV { path: self.path@, text: self.text@ }
    }
}

/// The source files available to include expansion, by path.
#[derive(Debug, Clone, PartialEq, Eq)]
pub struct Sources {
    pub files: Vec<SrcFile>,
}

/// The views of a list of source files.
pub open spec fn sources_view(s: Seq<SrcFile>) -> Seq<SrcFileV> {
    s.map_values(|f: SrcFile| f@)
}

impl View for Sources {
    type V = Seq<SrcFileV>;

    open spec fn view(&self) -> Seq<SrcFileV> {
        sources_view(self.files@)
    }
}

impl Sources {
    /// No source files.
    pub fn new() -> (r: Sources)
        ensures
            r@ == Seq::<SrcFileV>::empty(),
    {
        let r = Sources { files: Vec::new() };
        proof {
            assert(r@ =~= Seq::<SrcFileV>::empty());
        }
        r
    }

    /// Add a source file.
    pub fn add(&mut self, path: String, text: String)
        ensures
            final(self)@ == old(self)@.push(SrcFileV { path: path@, text: text@ }),
    {
        let ghost p = path@;
        let ghost t = text@;
        self.files.push(SrcFile { path, text });
        proof {
            assert(self@ =~= old(self)@.push(SrcFileV { path: p, text: t }));
        }
    }
}

/// The contents of the first source file with the given path, if any.
pub open spec fn lookup_src(fs: Seq<SrcFileV>, p: Seq<char>) -> Option<Seq<char>>
    decreases fs.len(),
{
    if fs.len() == 0 {
        None
    } else if fs[0].path == p {
        Some(fs[0].text)
    } else {
        lookup_src(fs.drop_first(), p)
    }
}

fn lookup_source(files: &Sources, p: &String) -> (r: Option<String>)
    ensures
        match r {
            Some(t) => lookup_src(files@, p@) == Some(t@),
            None => lookup_src(files@, p@) is None,
        },
{
    let ghost fsv = files@;
    let mut i: usize = 0;
    proof {
        assert(fsv.skip(0) =~= fsv);
    }
    while i < files.files.len()
        invariant
            i <= files.files@.len(),
            fsv == files@,
            fsv.len() == files.files@.len(),
            lookup_src(fsv, p@) == lookup_src(fsv.skip(i as int), p@),
        decreases files.files@.len() - i,
    {
        proof {
            assert(fsv.skip(i as int)[0] == fsv[i as int]);
            assert(fsv[i as int] == files.files@[i as int]@);
            assert(fsv.skip(i as int).drop_first() =~= fsv.skip(i + 1));
        }
        if files.files[i].path == *p {
            return Some(files.files[i].text.clone());
        }
        i = i + 1;
    }
    proof {
        assert(fsv.skip(fsv.len() as int).len() == 0);
    }
    None
}

/// Include expansion: each `INCLUDE` statement is replaced, depth-first and
/// in order, by the parsed and recursively expanded statements of its path's
/// contents; a missing path, a parse failure, or exhaustion of the nesting
/// budget (a cyclic include graph) is an error.
pub open spec fn spec_expand(prog: Seq<StmtV>, fs: Seq<SrcFileV>, fuel: nat) -> Result<
    Seq<StmtV>,
    AssembleErrorV,
>
    decreases fuel, prog.len(),
{
    if prog.len() == 0 {
        Ok(Seq::empty())
    } else {
        match prog[0] {
            StmtV::Include(p) => if fuel == 0 {
                Err(AssembleErrorV::IncludeError(p))
            } else {
                match lookup_src(fs, p) {
                    None => Err(AssembleErrorV::IncludeError(p)),
                    Some(text) => match crate::parse::spec_parse(text) {
                        Err(pe) => Err(AssembleErrorV::ParseError(pe)),
                        Ok(stmts) => match spec_expand(stmts, fs, (fuel - 1) as nat) {
                            Err(e) => Err(e),
                            Ok(ex1) => match spec_expand(prog.drop_first(), fs, fuel) {
                                Err(e) => Err(e),
                                Ok(ex2) => Ok(ex1 + ex2),
                            },
                        },
                    },
                }
            },
            _ => match spec_expand(prog.drop_first(), fs, fuel) {
                Err(e) => Err(e),
                Ok(ex) => Ok(seq![prog[0]] + ex),
            },
        }
    }
}

/// Include expansion with the full nesting budget: any chain of distinct
/// nested files fits within it, so only a cyclic include graph runs out.
pub open spec fn spec_expand_all(prog: Seq<StmtV>, fs: Seq<SrcFileV>) -> Result<
    Seq<StmtV>,
    AssembleErrorV,
> {
    spec_expand(prog, fs, (fs.len() + 1) as nat)
}

fn expand_rec(prog: &Vec<Stmt>, files: &Sources, fuel: usize) -> (r: Result<
    Vec<Stmt>,
    AssembleError,
>)
    ensures
        match r {
            Ok(v) => spec_expand(stmts_view(prog@), files@, fuel as nat) == Ok::<
                Seq<StmtV>,
                AssembleErrorV,
            >(stmts_view(v@)),
            Err(e) => spec_expand(stmts_view(prog@), files@, fuel as nat) == Err::<
                Seq<StmtV>,
                AssembleErrorV,
            >(e@),
        },
    decreases fuel, prog@.len(),
{
    let ghost pv = stmts_view(prog@);
    let ghost fsv = files@;
    let mut out: Vec<Stmt> = Vec::new();
    let mut idx: usize = 0;
    proof {
        assert(pv.skip(0) =~= pv);
        assert(stmts_view(out@) =~= Seq::<StmtV>::empty());
        match spec_expand(pv, fsv, fuel as nat) {
            Ok(t) => {
                assert(stmts_view(out@) + t =~= t);
            },
            Err(_) => {},
        }
    }
    while idx < prog.len()
        invariant
            idx <= prog@.len(),
            pv == stmts_view(prog@),
            pv.len() == prog@.len(),
            fsv == files@,
            match spec_expand(pv.skip(idx as int), fsv, fuel as nat) {
                Ok(t) => spec_expand(pv, fsv, fuel as nat) == Ok::<Seq<StmtV>, AssembleErrorV>(
                    stmts_view(out@) + t,
                ),
                Err(e) => spec_expand(pv, fsv, fuel as nat) == Err::<Seq<StmtV>, AssembleErrorV>(
                    e,
                ),
            },
        decreases prog@.len() - idx,
    {
        proof {
            assert(pv[idx as int] == prog@[idx as int]@);
            assert(pv.skip(idx as int)[0] == pv[idx as int]);
            assert(pv.skip(idx as int).drop_first() =~= pv.skip(idx + 1));
        }
        let ghost pre = stmts_view(out@);
        match &prog[idx] {
            Stmt::Include(p) => {
                if fuel == 0 {
                    return Err(AssembleError::IncludeError(p.clone()));
                }
                match lookup_source(files, p) {
                    None => {
                        return Err(AssembleError::IncludeError(p.clone()));
                    },
                    Some(text) => {
                        match crate::parse::parse(text.as_str()) {
                            Err(pe) => {
                                return Err(AssembleError::ParseError(pe));
                            },
                            Ok(stmts) => {
                                match expand_rec(&stmts, files, fuel - 1) {
                                    Err(e) => {
                                        return Err(e);
                                    },
                                    Ok(mut inner) => {
                                        let ghost innerv = stmts_view(inner@);
                                        out.append(&mut inner);
                                        proof {
                                            assert(stmts_view(out@) =~= pre + innerv);
                                            match spec_expand(pv.skip(idx + 1), fsv, fuel as nat) {
                                                Ok(t) => {
                                                    assert((pre + innerv) + t =~= pre + (innerv
                                                        + t));
                                                },
                                                Err(_) => {},
                                            }
                                        }
                                    },
                                }
                            },
                        }
                    },
                }
            },
            _ => {
                let st = prog[idx].duplicate();
                proof {
                    assert(st@ == pv[idx as int]);
                }
                out.push(st);
                proof {
                    assert(stmts_view(out@) =~= pre + seq![pv[idx as int]]);
                    match spec_expand(pv.skip(idx + 1), fsv, fuel as nat) {
                        Ok(t) => {
                            assert((pre + seq![pv[idx as int]]) + t =~= pre + (seq![
                                pv[idx as int],
                            ] + t));
                        },
                        Err(_) => {},
                    }
                }
            },
        }
        idx = idx + 1;
    }
    proof {
        assert(pv.skip(pv.len() as int).len() == 0);
        assert(stmts_view(out@) + Seq::<StmtV>::empty() =~= stmts_view(out@));
    }
    Ok(out)
}

/// Replace every `INCLUDE` statement, depth-first and in order, by the
/// parsed and expanded statements of its path's contents, taken from the
/// supplied sources.
pub fn expand_include(prog: &Vec<Stmt>, files: &Sources) -> (r: Result<Vec<Stmt>, AssembleError>)
    requires
        files@.len() < usize::MAX,
    ensures
        match r {
            Ok(v) => spec_expand_all(stmts_view(prog@), files@) == Ok::<
                Seq<StmtV>,
                AssembleErrorV,
            >(stmts_view(v@)),
            Err(e) => spec_expand_all(stmts_view(prog@), files@) == Err::<
                Seq<StmtV>,
                AssembleErrorV,
            >(e@),
        },
{
    expand_rec(prog, files, files.files.len() + 1)
}


/// Expansion output is include-free, and keeps origins free of the internal
/// sum form when the input was.
pub proof fn lemma_expand_clean(prog: Seq<StmtV>, fs: Seq<SrcFileV>, fuel: nat)
    requires
        no_add_origin(prog),
    ensures
        match spec_expand(prog, fs, fuel) {
            Ok(t) => no_include(t) && no_add_origin(t),
            Err(_) => true,
        },
    decreases fuel, prog.len(),
{
    if prog.len() > 0 {
        let rest = prog.drop_first();
        assert(no_add_origin(rest)) by {
            assert(forall|i: int| 0 <= i < rest.len() ==> rest[i] == prog[i + 1]);
        }
        match prog[0] {
            StmtV::Include(p) => {
                if fuel > 0 {
                    match lookup_src(fs, p) {
                        Some(text) => {
                            match crate::parse::spec_parse(text) {
                                Ok(stmts) => {
                                    crate::parse::lemma_parse_origin_ok(text);
                                    lemma_expand_clean(stmts, fs, (fuel - 1) as nat);
                                    lemma_expand_clean(rest, fs, fuel);
                                    match spec_expand(stmts, fs, (fuel - 1) as nat) {
                                        Ok(ex1) => {
                                            match spec_expand(rest, fs, fuel) {
                                                Ok(ex2) => {
                                                    let t = ex1 + ex2;
                                                    assert forall|i: int|
                                                        0 <= i < t.len() implies !(#[trigger] t[i]
                                                        is Include) && stmt_origin_ok(t[i]) by {
                                                        if i < ex1.len() {
                                                            assert(t[i] == ex1[i]);
                                                        } else {
                                                            assert(t[i] == ex2[i - ex1.len()]);
                                                        }
                                                    }
                                                },
                                                Err(_) => {},
                                            }
                                        },
                                        Err(_) => {},
                                    }
                                },
                                Err(_) => {},
                            }
                        },
                        None => {},
                    }
                }
            },
            _ => {
                lemma_expand_clean(rest, fs, fuel);
                match spec_expand(rest, fs, fuel) {
                    Ok(ex) => {
                        let t = seq![prog[0]] + ex;
                        assert forall|i: int|
                            0 <= i < t.len() implies !(#[trigger] t[i] is Include)
                            && stmt_origin_ok(t[i]) by {
                            if i == 0 {
                                assert(t[i] == prog[0]);
                            } else {
                                assert(t[i] == ex[i - 1]);
                            }
                        }
                    },
                    Err(_) => {},
                }
            },
        }
    }
}

} // verus!
