//! Data model of the assembler: identifiers, expressions, mnemonics,
//! operands and statements, together with their mathematical views.

use vstd::prelude::*;

verus! {

/// An opaque symbol name. Case-sensitive, immutable once parsed.
#[derive(Debug, Clone, PartialEq, Eq)]
pub struct Ident(pub String);

impl View for Ident {
    type V = Seq<char>;

    open spec fn view(&self) -> Seq<char> {
        self.0@
    }
}

impl Ident {
    /// Build an identifier from a string slice.
    pub fn from_str(s: &str) -> (r: Ident)
        ensures
            r@ == s@,
    {
        Ident(String::from_str(s))
    }
}

/// An operand expression: a symbol reference, a literal number, or a
/// symbol plus a constant offset. The `Add` form is produced only by the
/// symbol resolver, never by the parser.
#[derive(Debug, Clone, PartialEq, Eq)]
pub enum Expr {
    Label(Ident),
    Num(i32),
    Add(Ident, i32),
}

/// Mathematical view of an `Expr`.
pub enum ExprV {
    Label(Seq<char>),
    Num(i32),
    Add(Seq<char>, i32),
}

impl View for Expr {
    type V = ExprV;

    open spec fn view(&self) -> ExprV {
        match self {
            Expr::Label(id) => ExprV::Label(id@),
            Expr::Num(v) => ExprV::Num(*v),
            Expr::Add(id, off) => ExprV::Add(id@, *off),
        }
    }
}

/// Operand list of an instruction statement: zero, one or two expressions.
#[derive(Debug, Clone, PartialEq, Eq)]
pub enum Operand {
    Op0,
    Op1(Expr),
    Op2(Expr, Expr),
}

/// Mathematical view of an `Operand`.
pub enum OperandV {
    Op0,
    Op1(ExprV),
    Op2(ExprV, ExprV),
}

impl View for Operand {
    type V = OperandV;

    open spec fn view(&self) -> OperandV {
        match self {
            Operand::Op0 => OperandV::Op0,
            Operand::Op1(e) => OperandV::Op1(e@),
            Operand::Op2(a, b) => OperandV::Op2(a@, b@),
        }
    }
}

/// Every accepted mnemonic spelling, several of which are synonyms for one
/// instruction (for example `RET`/`RETURN`, `MOV`/`MOVF`).
#[derive(Debug, Clone, Copy, PartialEq, Eq, Structural)]
pub enum Mnemonic {
    NOP,
    CLRWDT,
    WDT,
    SLEEP,
    HALT,
    SLEEPX,
    WAITB,
    WAITRD,
    WAITWR,
    WAITSPI,
    RDCODE,
    RCODE,
    WRCODE,
    EXEC,
    PUSHAS,
    PUSH,
    POPAS,
    POP,
    PUSHA2,
    POPA2,
    RET,
    RETURN,
    RETZ,
    RETOK,
    RETIE,
    RETI,
    CLRA,
    CLR,
    CLRF,
    MOVA,
    MOVAF,
    MOV,
    MOVF,
    INC,
    INCF,
    DEC,
    DECF,
    INCSZ,
    INCFSZ,
    DECSZ,
    DECFSZ,
    SWAP,
    SWAPF,
    AND,
    ANDF,
    IOR,
    IORF,
    XOR,
    XORF,
    ADD,
    ADDF,
    SUB,
    SUBF,
    RCL,
    RCLF,
    RLF,
    RCR,
    RCRF,
    RRF,
    RETL,
    DB,
    RETLN,
    RETER,
    MOVIP,
    MOVIA,
    MOVA1F,
    MOVA2F,
    MOVA2P,
    MOVA1P,
    MOVL,
    ANDL,
    IORL,
    XORL,
    ADDL,
    SUBL,
    CMPLN,
    CMPL,
    BC,
    BCF,
    BS,
    BSF,
    BTSC,
    BTFSC,
    BTSS,
    BTFSS,
    BCTC,
    BCTCF,
    BP1F,
    BP2F,
    BG1F,
    BG2F,
    JMP,
    GOTO,
    CALL,
    JNZ,
    JZ,
    JNC,
    JC,
    CMPZ,
    DW,
}

/// A raw assembly statement with unresolved symbols; it may still turn out
/// to be invalid at emission time.
#[derive(Debug, Clone, PartialEq, Eq)]
pub enum Stmt {
    /// `name EQU expr`: an alias or constant definition.
    Define(Ident, Expr),
    /// `ORG expr`: set the current address.
    Origin(Expr),
    /// `INCLUDE path`: splice another source file at this point.
    Include(String),
    /// Optional label, mnemonic and operand list.
    Inst(Option<Ident>, Mnemonic, Operand),
}

/// Mathematical view of a `Stmt`.
pub enum StmtV {
    Define(Seq<char>, ExprV),
    Origin(ExprV),
    Include(Seq<char>),
    Inst(Option<Seq<char>>, Mnemonic, OperandV),
}

impl View for Stmt {
    type V = StmtV;

    open spec fn view(&self) -> StmtV {
        match self {
            Stmt::Define(id, e) => StmtV::Define(id@, e@),
            Stmt::Origin(e) => StmtV::Origin(e@),
            Stmt::Include(p) => StmtV::Include(p@),
            Stmt::Inst(lbl, m, op) => StmtV::Inst(
                match lbl {
                    Some(id) => Some(id@),
                    None => None,
                },
                *m,
                op@,
            ),
        }
    }
}


impl Expr {
    /// An equal expression with freshly owned storage.
    pub fn duplicate(&self) -> (r: Expr)
        ensures
            r@ == self@,
    {
        match self {
            Expr::Label(id) => Expr::Label(Ident(id.0.clone())),
            Expr::Num(v) => Expr::Num(*v),
            Expr::Add(id, k) => Expr::Add(Ident(id.0.clone()), *k),
        }
    }
}


impl Operand {
    /// An equal operand list with freshly owned storage.
    pub fn duplicate(&self) -> (r: Operand)
        ensures
            r@ == self@,
    {
        match self {
            Operand::Op0 => Operand::Op0,
            Operand::Op1(e) => Operand::Op1(e.duplicate()),
            Operand::Op2(a, b) => Operand::Op2(a.duplicate(), b.duplicate()),
        }
    }
}

impl Stmt {
    /// An equal statement with freshly owned storage.
    pub fn duplicate(&self) -> (r: Stmt)
        ensures
            r@ == self@,
    {
        match self {
            Stmt::Define(id, e) => Stmt::Define(Ident(id.0.clone()), e.duplicate()),
            Stmt::Origin(e) => Stmt::Origin(e.duplicate()),
            Stmt::Include(p) => Stmt::Include(p.clone()),
            Stmt::Inst(lbl, m, op) => Stmt::Inst(
                match lbl {
                    Some(id) => Some(Ident(id.0.clone())),
                    None => None,
                },
                *m,
                op.duplicate(),
            ),
        }
    }
}

/// The views of a statement sequence.
pub open spec fn stmts_view(s: Seq<Stmt>) -> Seq<StmtV> {
    s.map_values(|st: Stmt| st@)
}

} // verus!
