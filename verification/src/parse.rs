//! Parser for assembly source text: one statement per line.

use vstd::prelude::*;

use crate::ast::{stmts_view, Expr, ExprV, Ident, Mnemonic, Operand, OperandV, Stmt, StmtV};

verus! {

/// Failure of the parser.
#[derive(Debug, Clone, PartialEq, Eq)]
pub enum ParseError {
    /// The `END` pseudo-instruction was reached; parsing stops there.
    End,
    /// An opcode field that no instruction accepts.
    InvalidOpCode,
    /// A line matching no recognized statement form; carries the line.
    Failure(String),
}

/// Mathematical view of a `ParseError`.
pub enum ParseErrorV {
    End,
    InvalidOpCode,
    Failure(Seq<char>),
}

impl View for ParseError {
    type V = ParseErrorV;

    open spec fn view(&self) -> ParseErrorV {
        match self {
            ParseError::End => ParseErrorV::End,
            ParseError::InvalidOpCode => ParseErrorV::InvalidOpCode,
            ParseError::Failure(s) => ParseErrorV::Failure(s@),
        }
    }
}

impl ParseError {
    /// A short description of the failure.
    pub fn message(&self) -> (r: &'static str)
        ensures
            r@ == match self@ {
                ParseErrorV::End => "END pseudoinstruction reached"@,
                ParseErrorV::InvalidOpCode => "invalid op code"@,
                ParseErrorV::Failure(_) => "failed to parse"@,
            },
    {
        match self {
            ParseError::End => "END pseudoinstruction reached",
            ParseError::InvalidOpCode => "invalid op code",
            ParseError::Failure(_) => "failed to parse",
        }
    }
}


/// An identifier may start with an ASCII letter or one of `_ $ # @`.
pub open spec fn is_ident_start(c: char) -> bool {
    (97 <= c as int <= 122) || (65 <= c as int <= 90) || c == '_' || c == '$' || c == '#'
        || c == '@'
}

/// After the first character, an identifier continues with ASCII
/// alphanumerics or `_ $ # @`.
pub open spec fn is_ident_char(c: char) -> bool {
    is_ident_start(c) || is_dec_digit(c)
}

/// White space, as the line prefixes accept it.
pub open spec fn is_space(c: char) -> bool {
    c == ' ' || c == '\t' || c == '\r' || c == '\n'
}

/// Field separators inside an instruction: blanks, colon and comma are
/// interchangeable.
pub open spec fn is_sep(c: char) -> bool {
    c == ' ' || c == '\t' || c == ':' || c == ','
}

pub open spec fn is_bin_digit(c: char) -> bool {
    c == '0' || c == '1'
}

pub open spec fn is_dec_digit(c: char) -> bool {
    48 <= c as int <= 57
}

pub open spec fn is_oct_digit(c: char) -> bool {
    48 <= c as int <= 55
}

pub open spec fn is_hex_digit(c: char) -> bool {
    is_dec_digit(c) || (97 <= c as int <= 102) || (65 <= c as int <= 70)
}

/// The numeric value of a digit character.
pub open spec fn digit_val(c: char) -> int {
    if is_dec_digit(c) {
        c as int - 48
    } else if 97 <= c as int <= 102 {
        c as int - 87
    } else if 65 <= c as int <= 70 {
        c as int - 55
    } else {
        0
    }
}

/// The end of a run of identifier characters starting at `i`.
pub open spec fn ident_end(s: Seq<char>, i: int) -> int
    decreases s.len() - i,
{
    if 0 <= i < s.len() && is_ident_char(s[i]) {
        ident_end(s, i + 1)
    } else {
        i
    }
}

/// The end of a run of white space starting at `i`.
pub open spec fn ws_end(s: Seq<char>, i: int) -> int
    decreases s.len() - i,
{
    if 0 <= i < s.len() && is_space(s[i]) {
        ws_end(s, i + 1)
    } else {
        i
    }
}

/// The end of a run of separator characters starting at `i`.
pub open spec fn sep_end(s: Seq<char>, i: int) -> int
    decreases s.len() - i,
{
    if 0 <= i < s.len() && is_sep(s[i]) {
        sep_end(s, i + 1)
    } else {
        i
    }
}

/// The end of a run of binary digits starting at `i`.
pub open spec fn bin_end(s: Seq<char>, i: int) -> int
    decreases s.len() - i,
{
    if 0 <= i < s.len() && is_bin_digit(s[i]) {
        bin_end(s, i + 1)
    } else {
        i
    }
}

/// The end of a run of decimal digits starting at `i`.
pub open spec fn dec_end(s: Seq<char>, i: int) -> int
    decreases s.len() - i,
{
    if 0 <= i < s.len() && is_dec_digit(s[i]) {
        dec_end(s, i + 1)
    } else {
        i
    }
}

/// The end of a run of octal digits starting at `i`.
pub open spec fn oct_end(s: Seq<char>, i: int) -> int
    decreases s.len() - i,
{
    if 0 <= i < s.len() && is_oct_digit(s[i]) {
        oct_end(s, i + 1)
    } else {
        i
    }
}

/// The end of a run of hexadecimal digits starting at `i`.
pub open spec fn hex_end(s: Seq<char>, i: int) -> int
    decreases s.len() - i,
{
    if 0 <= i < s.len() && is_hex_digit(s[i]) {
        hex_end(s, i + 1)
    } else {
        i
    }
}

/// One or more separator characters; fails on none.
pub open spec fn p_sep(s: Seq<char>, i: int) -> Option<int> {
    if 0 <= i < s.len() && is_sep(s[i]) {
        Some(sep_end(s, i + 1))
    } else {
        None
    }
}

/// An identifier token: its characters and the position after it.
pub open spec fn p_ident(s: Seq<char>, i: int) -> Option<(Seq<char>, int)> {
    if 0 <= i < s.len() && is_ident_start(s[i]) {
        let j = ident_end(s, i + 1);
        Some((s.subrange(i, j), j))
    } else {
        None
    }
}

/// The value of the digits in `s[i .. j)`, underscores skipped, in the
/// given radix.
pub open spec fn digits_val(s: Seq<char>, i: int, j: int, radix: int, acc: int) -> int
    decreases j - i,
{
    if i < j && 0 <= i < s.len() {
        if s[i] == '_' {
            digits_val(s, i + 1, j, radix, acc)
        } else {
            digits_val(s, i + 1, j, radix, acc * radix + digit_val(s[i]))
        }
    } else {
        acc
    }
}

/// The end of a group of binary digit runs separated by single underscores.
pub open spec fn bin_groups_end(s: Seq<char>, i: int) -> int
    decreases s.len() - i
        via bin_groups_end_dec
{
    if 0 <= i <= s.len() {
        let j = bin_end(s, i);
        if j + 1 < s.len() && s[j] == '_' && is_bin_digit(s[j + 1]) {
            bin_groups_end(s, j + 1)
        } else {
            j
        }
    } else {
        i
    }
}

/// A run of characters never ends before it starts.
pub proof fn lemma_bin_end_ge(s: Seq<char>, i: int)
    ensures
        bin_end(s, i) >= i,
        bin_end(s, i) <= s.len() || bin_end(s, i) == i,
    decreases s.len() - i,
{
    if 0 <= i < s.len() && is_bin_digit(s[i]) {
        lemma_bin_end_ge(s, i + 1);
    }
}

#[via_fn]
proof fn bin_groups_end_dec(s: Seq<char>, i: int) {
    if 0 <= i <= s.len() {
        lemma_bin_end_ge(s, i);
    }
}


/// The numeric value of an escape character in a character literal.
pub open spec fn esc_val(c: char) -> int {
    if c == 'n' {
        10
    } else if c == 'r' {
        13
    } else if c == 't' {
        9
    } else if c == '0' {
        0
    } else {
        c as int
    }
}

/// A binary literal: `0b`/`0B` prefix or `b'…'`/`B'…'` delimiters, digits
/// possibly grouped by single underscores; fails when the value does not
/// fit a signed 32-bit integer.
pub open spec fn p_binary(s: Seq<char>, i: int) -> Option<(i32, int)> {
    if 0 <= i && i + 2 < s.len() && s[i] == '0' && (s[i + 1] == 'b' || s[i + 1] == 'B')
        && is_bin_digit(s[i + 2]) {
        let e = bin_groups_end(s, i + 2);
        let v = digits_val(s, i + 2, e, 2, 0);
        if v <= 0x7fff_ffff {
            Some((v as i32, e))
        } else {
            None
        }
    } else if 0 <= i && i + 2 < s.len() && (s[i] == 'b' || s[i] == 'B') && s[i + 1] == '\''
        && is_bin_digit(s[i + 2]) {
        let e = bin_groups_end(s, i + 2);
        let v = digits_val(s, i + 2, e, 2, 0);
        if e < s.len() && s[e] == '\'' && v <= 0x7fff_ffff {
            Some((v as i32, e + 1))
        } else {
            None
        }
    } else {
        None
    }
}

/// A radix-marked decimal literal: `0d`/`0D` prefix or `d'…'`/`D'…'`.
pub open spec fn p_decimal(s: Seq<char>, i: int) -> Option<(i32, int)> {
    if 0 <= i && i + 2 < s.len() && s[i] == '0' && (s[i + 1] == 'd' || s[i + 1] == 'D')
        && is_dec_digit(s[i + 2]) {
        let e = dec_end(s, i + 2);
        let v = digits_val(s, i + 2, e, 10, 0);
        if v <= 0x7fff_ffff {
            Some((v as i32, e))
        } else {
            None
        }
    } else if 0 <= i && i + 2 < s.len() && (s[i] == 'd' || s[i] == 'D') && s[i + 1] == '\''
        && is_dec_digit(s[i + 2]) {
        let e = dec_end(s, i + 2);
        let v = digits_val(s, i + 2, e, 10, 0);
        if e < s.len() && s[e] == '\'' && v <= 0x7fff_ffff {
            Some((v as i32, e + 1))
        } else {
            None
        }
    } else {
        None
    }
}

/// An octal literal: `0o` prefix.
pub open spec fn p_octal(s: Seq<char>, i: int) -> Option<(i32, int)> {
    if 0 <= i && i + 2 < s.len() && s[i] == '0' && s[i + 1] == 'o' && is_oct_digit(s[i + 2]) {
        let e = oct_end(s, i + 2);
        let v = digits_val(s, i + 2, e, 8, 0);
        if v <= 0x7fff_ffff {
            Some((v as i32, e))
        } else {
            None
        }
    } else {
        None
    }
}

/// A hexadecimal literal: `0x`/`0X` prefix or `h'…'`/`H'…'`.
pub open spec fn p_hex(s: Seq<char>, i: int) -> Option<(i32, int)> {
    if 0 <= i && i + 2 < s.len() && s[i] == '0' && (s[i + 1] == 'x' || s[i + 1] == 'X')
        && is_hex_digit(s[i + 2]) {
        let e = hex_end(s, i + 2);
        let v = digits_val(s, i + 2, e, 16, 0);
        if v <= 0x7fff_ffff {
            Some((v as i32, e))
        } else {
            None
        }
    } else if 0 <= i && i + 2 < s.len() && (s[i] == 'h' || s[i] == 'H') && s[i + 1] == '\''
        && is_hex_digit(s[i + 2]) {
        let e = hex_end(s, i + 2);
        let v = digits_val(s, i + 2, e, 16, 0);
        if e < s.len() && s[e] == '\'' && v <= 0x7fff_ffff {
            Some((v as i32, e + 1))
        } else {
            None
        }
    } else {
        None
    }
}

/// A single-quoted character literal with the escapes
/// `\' \" \n \r \t \\ \0`.
pub open spec fn p_char_lit(s: Seq<char>, i: int) -> Option<(i32, int)> {
    if 0 <= i && i + 1 < s.len() && s[i] == '\'' {
        if s[i + 1] == '\\' {
            if i + 3 < s.len() && (s[i + 2] == '\'' || s[i + 2] == '"' || s[i + 2] == 'n' || s[i
                + 2] == 'r' || s[i + 2] == 't' || s[i + 2] == '\\' || s[i + 2] == '0') && s[i + 3]
                == '\'' {
                Some((esc_val(s[i + 2]) as i32, i + 4))
            } else {
                None
            }
        } else if s[i + 1] != '\'' {
            if i + 2 < s.len() && s[i + 2] == '\'' {
                Some((s[i + 1] as i32, i + 3))
            } else {
                None
            }
        } else {
            None
        }
    } else {
        None
    }
}

/// A bare decimal integer with an optional sign; fails on overflow of a
/// signed 32-bit integer.
pub open spec fn p_int(s: Seq<char>, i: int) -> Option<(i32, int)> {
    if 0 <= i < s.len() && s[i] == '-' {
        let e = dec_end(s, i + 1);
        let v = digits_val(s, i + 1, e, 10, 0);
        if e > i + 1 && v <= 0x8000_0000 {
            Some(((0 - v) as i32, e))
        } else {
            None
        }
    } else if 0 <= i < s.len() && s[i] == '+' {
        let e = dec_end(s, i + 1);
        let v = digits_val(s, i + 1, e, 10, 0);
        if e > i + 1 && v <= 0x7fff_ffff {
            Some((v as i32, e))
        } else {
            None
        }
    } else if 0 <= i < s.len() && is_dec_digit(s[i]) {
        let e = dec_end(s, i);
        let v = digits_val(s, i, e, 10, 0);
        if v <= 0x7fff_ffff {
            Some((v as i32, e))
        } else {
            None
        }
    } else {
        None
    }
}

/// An operand expression: the numeric literal forms in priority order, then
/// an identifier as a symbol reference.
pub open spec fn p_expr(s: Seq<char>, i: int) -> Option<(ExprV, int)> {
    match p_binary(s, i) {
        Some((v, j)) => Some((ExprV::Num(v), j)),
        None => match p_decimal(s, i) {
            Some((v, j)) => Some((ExprV::Num(v), j)),
            None => match p_octal(s, i) {
                Some((v, j)) => Some((ExprV::Num(v), j)),
                None => match p_hex(s, i) {
                    Some((v, j)) => Some((ExprV::Num(v), j)),
                    None => match p_char_lit(s, i) {
                        Some((v, j)) => Some((ExprV::Num(v), j)),
                        None => match p_int(s, i) {
                            Some((v, j)) => Some((ExprV::Num(v), j)),
                            None => match p_ident(s, i) {
                                Some((w, j)) => Some((ExprV::Label(w), j)),
                                None => None,
                            },
                        },
                    },
                },
            },
        },
    }
}

/// The mnemonic named by an identifier, by exact case-sensitive match.
pub open spec fn mnemonic_of(w: Seq<char>) -> Option<Mnemonic> {
    if false {
        None
    } else if w == "NOP"@ {
        Some(Mnemonic::NOP)
    } else if w == "CLRWDT"@ {
        Some(Mnemonic::CLRWDT)
    } else if w == "WDT"@ {
        Some(Mnemonic::WDT)
    } else if w == "SLEEP"@ {
        Some(Mnemonic::SLEEP)
    } else if w == "HALT"@ {
        Some(Mnemonic::HALT)
    } else if w == "SLEEPX"@ {
        Some(Mnemonic::SLEEPX)
    } else if w == "WAITB"@ {
        Some(Mnemonic::WAITB)
    } else if w == "WAITRD"@ {
        Some(Mnemonic::WAITRD)
    } else if w == "WAITWR"@ {
        Some(Mnemonic::WAITWR)
    } else if w == "WAITSPI"@ {
        Some(Mnemonic::WAITSPI)
    } else if w == "RDCODE"@ {
        Some(Mnemonic::RDCODE)
    } else if w == "RCODE"@ {
        Some(Mnemonic::RCODE)
    } else if w == "WRCODE"@ {
        Some(Mnemonic::WRCODE)
    } else if w == "EXEC"@ {
        Some(Mnemonic::EXEC)
    } else if w == "PUSHAS"@ {
        Some(Mnemonic::PUSHAS)
    } else if w == "PUSH"@ {
        Some(Mnemonic::PUSH)
    } else if w == "POPAS"@ {
        Some(Mnemonic::POPAS)
    } else if w == "POP"@ {
        Some(Mnemonic::POP)
    } else if w == "PUSHA2"@ {
        Some(Mnemonic::PUSHA2)
    } else if w == "POPA2"@ {
        Some(Mnemonic::POPA2)
    } else if w == "RET"@ {
        Some(Mnemonic::RET)
    } else if w == "RETURN"@ {
        Some(Mnemonic::RETURN)
    } else if w == "RETZ"@ {
        Some(Mnemonic::RETZ)
    } else if w == "RETOK"@ {
        Some(Mnemonic::RETOK)
    } else if w == "RETIE"@ {
        Some(Mnemonic::RETIE)
    } else if w == "RETI"@ {
        Some(Mnemonic::RETI)
    } else if w == "CLRA"@ {
        Some(Mnemonic::CLRA)
    } else if w == "CLR"@ {
        Some(Mnemonic::CLR)
    } else if w == "CLRF"@ {
        Some(Mnemonic::CLRF)
    } else if w == "MOVA"@ {
        Some(Mnemonic::MOVA)
    } else if w == "MOVAF"@ {
        Some(Mnemonic::MOVAF)
    } else if w == "MOV"@ {
        Some(Mnemonic::MOV)
    } else if w == "MOVF"@ {
        Some(Mnemonic::MOVF)
    } else if w == "INC"@ {
        Some(Mnemonic::INC)
    } else if w == "INCF"@ {
        Some(Mnemonic::INCF)
    } else if w == "DEC"@ {
        Some(Mnemonic::DEC)
    } else if w == "DECF"@ {
        Some(Mnemonic::DECF)
    } else if w == "INCSZ"@ {
        Some(Mnemonic::INCSZ)
    } else if w == "INCFSZ"@ {
        Some(Mnemonic::INCFSZ)
    } else if w == "DECSZ"@ {
        Some(Mnemonic::DECSZ)
    } else if w == "DECFSZ"@ {
        Some(Mnemonic::DECFSZ)
    } else if w == "SWAP"@ {
        Some(Mnemonic::SWAP)
    } else if w == "SWAPF"@ {
        Some(Mnemonic::SWAPF)
    } else if w == "AND"@ {
        Some(Mnemonic::AND)
    } else if w == "ANDF"@ {
        Some(Mnemonic::ANDF)
    } else if w == "IOR"@ {
        Some(Mnemonic::IOR)
    } else if w == "IORF"@ {
        Some(Mnemonic::IORF)
    } else if w == "XOR"@ {
        Some(Mnemonic::XOR)
    } else if w == "XORF"@ {
        Some(Mnemonic::XORF)
    } else if w == "ADD"@ {
        Some(Mnemonic::ADD)
    } else if w == "ADDF"@ {
        Some(Mnemonic::ADDF)
    } else if w == "SUB"@ {
        Some(Mnemonic::SUB)
    } else if w == "SUBF"@ {
        Some(Mnemonic::SUBF)
    } else if w == "RCL"@ {
        Some(Mnemonic::RCL)
    } else if w == "RCLF"@ {
        Some(Mnemonic::RCLF)
    } else if w == "RLF"@ {
        Some(Mnemonic::RLF)
    } else if w == "RCR"@ {
        Some(Mnemonic::RCR)
    } else if w == "RCRF"@ {
        Some(Mnemonic::RCRF)
    } else if w == "RRF"@ {
        Some(Mnemonic::RRF)
    } else if w == "RETL"@ {
        Some(Mnemonic::RETL)
    } else if w == "DB"@ {
        Some(Mnemonic::DB)
    } else if w == "RETLN"@ {
        Some(Mnemonic::RETLN)
    } else if w == "RETER"@ {
        Some(Mnemonic::RETER)
    } else if w == "MOVIP"@ {
        Some(Mnemonic::MOVIP)
    } else if w == "MOVIA"@ {
        Some(Mnemonic::MOVIA)
    } else if w == "MOVA1F"@ {
        Some(Mnemonic::MOVA1F)
    } else if w == "MOVA2F"@ {
        Some(Mnemonic::MOVA2F)
    } else if w == "MOVA2P"@ {
        Some(Mnemonic::MOVA2P)
    } else if w == "MOVA1P"@ {
        Some(Mnemonic::MOVA1P)
    } else if w == "MOVL"@ {
        Some(Mnemonic::MOVL)
    } else if w == "ANDL"@ {
        Some(Mnemonic::ANDL)
    } else if w == "IORL"@ {
        Some(Mnemonic::IORL)
    } else if w == "XORL"@ {
        Some(Mnemonic::XORL)
    } else if w == "ADDL"@ {
        Some(Mnemonic::ADDL)
    } else if w == "SUBL"@ {
        Some(Mnemonic::SUBL)
    } else if w == "CMPLN"@ {
        Some(Mnemonic::CMPLN)
    } else if w == "CMPL"@ {
        Some(Mnemonic::CMPL)
    } else if w == "BC"@ {
        Some(Mnemonic::BC)
    } else if w == "BCF"@ {
        Some(Mnemonic::BCF)
    } else if w == "BS"@ {
        Some(Mnemonic::BS)
    } else if w == "BSF"@ {
        Some(Mnemonic::BSF)
    } else if w == "BTSC"@ {
        Some(Mnemonic::BTSC)
    } else if w == "BTFSC"@ {
        Some(Mnemonic::BTFSC)
    } else if w == "BTSS"@ {
        Some(Mnemonic::BTSS)
    } else if w == "BTFSS"@ {
        Some(Mnemonic::BTFSS)
    } else if w == "BCTC"@ {
        Some(Mnemonic::BCTC)
    } else if w == "BCTCF"@ {
        Some(Mnemonic::BCTCF)
    } else if w == "BP1F"@ {
        Some(Mnemonic::BP1F)
    } else if w == "BP2F"@ {
        Some(Mnemonic::BP2F)
    } else if w == "BG1F"@ {
        Some(Mnemonic::BG1F)
    } else if w == "BG2F"@ {
        Some(Mnemonic::BG2F)
    } else if w == "JMP"@ {
        Some(Mnemonic::JMP)
    } else if w == "GOTO"@ {
        Some(Mnemonic::GOTO)
    } else if w == "CALL"@ {
        Some(Mnemonic::CALL)
    } else if w == "JNZ"@ {
        Some(Mnemonic::JNZ)
    } else if w == "JZ"@ {
        Some(Mnemonic::JZ)
    } else if w == "JNC"@ {
        Some(Mnemonic::JNC)
    } else if w == "JC"@ {
        Some(Mnemonic::JC)
    } else if w == "CMPZ"@ {
        Some(Mnemonic::CMPZ)
    } else if w == "DW"@ {
        Some(Mnemonic::DW)
    } else {
        None
    }
}


/// An `EQU` definition line: identifier, `EQU`, expression.
pub open spec fn p_equ(s: Seq<char>, i: int) -> Option<((Seq<char>, ExprV), int)> {
    match p_ident(s, i) {
        Some((id, j)) => match p_sep(s, j) {
            Some(k) => if k + 2 < s.len() && s[k] == 'E' && s[k + 1] == 'Q' && s[k + 2] == 'U' {
                match p_sep(s, k + 3) {
                    Some(m) => match p_expr(s, m) {
                        Some((e, n)) => Some(((id, e), n)),
                        None => None,
                    },
                    None => None,
                }
            } else {
                None
            },
            None => None,
        },
        None => None,
    }
}

/// An `ORG` directive: optional white space, `ORG`, separator, expression.
pub open spec fn p_org(s: Seq<char>, i: int) -> Option<(ExprV, int)> {
    let j = ws_end(s, i);
    if j + 2 < s.len() && s[j] == 'O' && s[j + 1] == 'R' && s[j + 2] == 'G' {
        match p_sep(s, j + 3) {
            Some(k) => p_expr(s, k),
            None => None,
        }
    } else {
        None
    }
}

/// The end of an include path token: it runs until a blank, tab or `;`.
pub open spec fn path_end(s: Seq<char>, i: int) -> int
    decreases s.len() - i,
{
    if 0 <= i < s.len() && !(s[i] == ' ' || s[i] == '\t' || s[i] == ';') {
        path_end(s, i + 1)
    } else {
        i
    }
}

/// An `INCLUDE` directive: optional white space, `INCLUDE`, separator, then
/// a path token (possibly empty) running to a blank or comment.
pub open spec fn p_include(s: Seq<char>, i: int) -> Option<(Seq<char>, int)> {
    let j = ws_end(s, i);
    if j + 6 < s.len() && s[j] == 'I' && s[j + 1] == 'N' && s[j + 2] == 'C' && s[j + 3] == 'L'
        && s[j + 4] == 'U' && s[j + 5] == 'D' && s[j + 6] == 'E' {
        match p_sep(s, j + 7) {
            Some(k) => {
                let e = path_end(s, k);
                Some((s.subrange(k, e), e))
            },
            None => None,
        }
    } else {
        None
    }
}

/// A mnemonic: an identifier matching one of the fixed spellings.
pub open spec fn p_mnemonic(s: Seq<char>, i: int) -> Option<(Mnemonic, int)> {
    match p_ident(s, i) {
        Some((w, j)) => match mnemonic_of(w) {
            Some(m) => Some((m, j)),
            None => None,
        },
        None => None,
    }
}

/// An operand list: two separated expressions, else one, else none.
pub open spec fn p_operand(s: Seq<char>, i: int) -> (OperandV, int) {
    let two = match p_sep(s, i) {
        Some(j) => match p_expr(s, j) {
            Some((e0, k)) => match p_sep(s, k) {
                Some(l) => match p_expr(s, l) {
                    Some((e1, m)) => Some((OperandV::Op2(e0, e1), m)),
                    None => None,
                },
                None => None,
            },
            None => None,
        },
        None => None,
    };
    match two {
        Some(r) => r,
        None => {
            let one = match p_sep(s, i) {
                Some(j) => match p_expr(s, j) {
                    Some((e0, k)) => Some((OperandV::Op1(e0), k)),
                    None => None,
                },
                None => None,
            };
            match one {
                Some(r) => r,
                None => (OperandV::Op0, i),
            }
        },
    }
}

/// An instruction line: an optional label, a separator, a mnemonic and its
/// operand list.
pub open spec fn p_inst(s: Seq<char>, i: int) -> Option<
    ((Option<Seq<char>>, Mnemonic, OperandV), int),
> {
    let (lbl, j) = match p_ident(s, i) {
        Some((w, j)) => (Some(w), j),
        None => (None, i),
    };
    match p_sep(s, j) {
        Some(k) => match p_mnemonic(s, k) {
            Some((m, l)) => {
                let (opnd, n) = p_operand(s, l);
                Some(((lbl, m, opnd), n))
            },
            None => None,
        },
        None => None,
    }
}

/// Whether the line suffix from `i` is only an optional separator run and an
/// optional `;` comment extending to the end of the line.
pub open spec fn suffix_ok(s: Seq<char>, i: int) -> bool {
    let j = match p_sep(s, i) {
        Some(j) => j,
        None => i,
    };
    j == s.len() || (0 <= j < s.len() && s[j] == ';')
}

/// Whether the line is the `END` pseudo-directive: white space, `END`,
/// white space, then at most a `;` comment.
pub open spec fn is_end_line(s: Seq<char>) -> bool {
    let a = ws_end(s, 0);
    if a + 2 < s.len() && s[a] == 'E' && s[a + 1] == 'N' && s[a + 2] == 'D' {
        let b = ws_end(s, a + 3);
        b == s.len() || (b < s.len() && s[b] == ';')
    } else {
        false
    }
}

/// One line of assembly: the `END` check, then the statement forms in
/// priority order, each followed by an optional separator and comment; a
/// line matching nothing but having no statement form is a failure carrying
/// the line.
pub open spec fn p_line(s: Seq<char>) -> Result<Option<StmtV>, ParseErrorV> {
    if is_end_line(s) {
        Err(ParseErrorV::End)
    } else {
        match p_equ(s, 0) {
            Some(((id, e), n)) => if suffix_ok(s, n) {
                Ok(Some(StmtV::Define(id, e)))
            } else {
                Err(ParseErrorV::Failure(s))
            },
            None => match p_org(s, 0) {
                Some((e, n)) => if suffix_ok(s, n) {
                    Ok(Some(StmtV::Origin(e)))
                } else {
                    Err(ParseErrorV::Failure(s))
                },
                None => match p_include(s, 0) {
                    Some((p, n)) => if suffix_ok(s, n) {
                        Ok(Some(StmtV::Include(p)))
                    } else {
                        Err(ParseErrorV::Failure(s))
                    },
                    None => match p_inst(s, 0) {
                        Some(((lbl, m, opnd), n)) => if suffix_ok(s, n) {
                            Ok(Some(StmtV::Inst(lbl, m, opnd)))
                        } else {
                            Err(ParseErrorV::Failure(s))
                        },
                        None => if suffix_ok(s, 0) {
                            Ok(None)
                        } else {
                            Err(ParseErrorV::Failure(s))
                        },
                    },
                },
            },
        }
    }
}

/// The position of the first line feed at or after `i`.
pub open spec fn find_nl(s: Seq<char>, i: int) -> int
    decreases s.len() - i,
{
    if 0 <= i < s.len() {
        if s[i] == '\n' {
            i
        } else {
            find_nl(s, i + 1)
        }
    } else {
        i
    }
}

/// The lines of the source from position `pos` on: split at each line
/// feed, dropping one carriage return directly before it; the final line
/// ending is optional.
pub open spec fn lines_from(s: Seq<char>, pos: int) -> Seq<Seq<char>>
    decreases s.len() - pos
        via lines_from_dec
{
    if !(0 <= pos < s.len()) {
        Seq::empty()
    } else {
        let nl = find_nl(s, pos);
        if nl == s.len() {
            seq![s.subrange(pos, nl)]
        } else {
            let head = if nl > pos && s[nl - 1] == '\r' {
                s.subrange(pos, nl - 1)
            } else {
                s.subrange(pos, nl)
            };
            seq![head] + lines_from(s, nl + 1)
        }
    }
}

/// The source split into lines.
pub open spec fn lines_of(s: Seq<char>) -> Seq<Seq<char>> {
    lines_from(s, 0)
}

/// A line-feed search never stops before it starts nor past the end.
pub proof fn lemma_find_nl(s: Seq<char>, i: int)
    requires
        0 <= i <= s.len(),
    ensures
        i <= find_nl(s, i) <= s.len(),
        forall|k: int| i <= k < find_nl(s, i) ==> s[k] != '\n',
        find_nl(s, i) < s.len() ==> s[find_nl(s, i)] == '\n',
    decreases s.len() - i,
{
    if i < s.len() && s[i] != '\n' {
        lemma_find_nl(s, i + 1);
    }
}

#[via_fn]
proof fn lines_from_dec(s: Seq<char>, pos: int) {
    if 0 <= pos < s.len() {
        lemma_find_nl(s, pos);
    }
}

/// The statements of a sequence of lines: empty and comment-only lines
/// yield nothing, the `END` line stops parsing, and any failure aborts.
pub open spec fn parse_lines(ls: Seq<Seq<char>>) -> Result<Seq<StmtV>, ParseErrorV>
    decreases ls.len(),
{
    if ls.len() == 0 {
        Ok(Seq::empty())
    } else {
        match p_line(ls[0]) {
            Err(ParseErrorV::End) => Ok(Seq::empty()),
            Err(e) => Err(e),
            Ok(st) => match parse_lines(ls.drop_first()) {
                Ok(tail) => match st {
                    Some(st0) => Ok(seq![st0] + tail),
                    None => Ok(tail),
                },
                Err(e) => Err(e),
            },
        }
    }
}

/// What parsing a whole program yields.
pub open spec fn spec_parse(s: Seq<char>) -> Result<Seq<StmtV>, ParseErrorV> {
    parse_lines(lines_of(s))
}

fn c_ident_start(c: char) -> (r: bool)
    ensures
        r == is_ident_start(c),
{
    let u = c as u32;
    (97 <= u && u <= 122) || (65 <= u && u <= 90) || c == '_' || c == '$' || c == '#' || c == '@'
}

fn c_dec_digit(c: char) -> (r: bool)
    ensures
        r == is_dec_digit(c),
{
    let u = c as u32;
    48 <= u && u <= 57
}

fn c_ident_char(c: char) -> (r: bool)
    ensures
        r == is_ident_char(c),
{
    c_ident_start(c) || c_dec_digit(c)
}

fn c_space(c: char) -> (r: bool)
    ensures
        r == is_space(c),
{
    c == ' ' || c == '\t' || c == '\r' || c == '\n'
}

fn c_sep(c: char) -> (r: bool)
    ensures
        r == is_sep(c),
{
    c == ' ' || c == '\t' || c == ':' || c == ','
}

fn c_bin_digit(c: char) -> (r: bool)
    ensures
        r == is_bin_digit(c),
{
    c == '0' || c == '1'
}

fn c_oct_digit(c: char) -> (r: bool)
    ensures
        r == is_oct_digit(c),
{
    let u = c as u32;
    48 <= u && u <= 55
}

fn c_hex_digit(c: char) -> (r: bool)
    ensures
        r == is_hex_digit(c),
{
    c_dec_digit(c) || { let u = c as u32; (97 <= u && u <= 102) || (65 <= u && u <= 70) }
}

fn scan_ident_end(s: &str, i: usize, len: usize) -> (r: usize)
    requires
        len == s@.len(),
        i <= len,
    ensures
        r == ident_end(s@, i as int),
        i <= r <= len,
{
    let mut j = i;
    while j < len && c_ident_char(s.get_char(j))
        invariant
            i <= j <= len,
            len == s@.len(),
            ident_end(s@, i as int) == ident_end(s@, j as int),
        decreases len - j,
    {
        j = j + 1;
    }
    j
}

fn scan_ws_end(s: &str, i: usize, len: usize) -> (r: usize)
    requires
        len == s@.len(),
        i <= len,
    ensures
        r == ws_end(s@, i as int),
        i <= r <= len,
{
    let mut j = i;
    while j < len && c_space(s.get_char(j))
        invariant
            i <= j <= len,
            len == s@.len(),
            ws_end(s@, i as int) == ws_end(s@, j as int),
        decreases len - j,
    {
        j = j + 1;
    }
    j
}

fn scan_sep_end(s: &str, i: usize, len: usize) -> (r: usize)
    requires
        len == s@.len(),
        i <= len,
    ensures
        r == sep_end(s@, i as int),
        i <= r <= len,
{
    let mut j = i;
    while j < len && c_sep(s.get_char(j))
        invariant
            i <= j <= len,
            len == s@.len(),
            sep_end(s@, i as int) == sep_end(s@, j as int),
        decreases len - j,
    {
        j = j + 1;
    }
    j
}

fn scan_bin_end(s: &str, i: usize, len: usize) -> (r: usize)
    requires
        len == s@.len(),
        i <= len,
    ensures
        r == bin_end(s@, i as int),
        i <= r <= len,
{
    let mut j = i;
    while j < len && c_bin_digit(s.get_char(j))
        invariant
            i <= j <= len,
            len == s@.len(),
            bin_end(s@, i as int) == bin_end(s@, j as int),
        decreases len - j,
    {
        j = j + 1;
    }
    j
}

fn scan_dec_end(s: &str, i: usize, len: usize) -> (r: usize)
    requires
        len == s@.len(),
        i <= len,
    ensures
        r == dec_end(s@, i as int),
        i <= r <= len,
{
    let mut j = i;
    while j < len && c_dec_digit(s.get_char(j))
        invariant
            i <= j <= len,
            len == s@.len(),
            dec_end(s@, i as int) == dec_end(s@, j as int),
        decreases len - j,
    {
        j = j + 1;
    }
    j
}

fn scan_oct_end(s: &str, i: usize, len: usize) -> (r: usize)
    requires
        len == s@.len(),
        i <= len,
    ensures
        r == oct_end(s@, i as int),
        i <= r <= len,
{
    let mut j = i;
    while j < len && c_oct_digit(s.get_char(j))
        invariant
            i <= j <= len,
            len == s@.len(),
            oct_end(s@, i as int) == oct_end(s@, j as int),
        decreases len - j,
    {
        j = j + 1;
    }
    j
}

fn scan_hex_end(s: &str, i: usize, len: usize) -> (r: usize)
    requires
        len == s@.len(),
        i <= len,
    ensures
        r == hex_end(s@, i as int),
        i <= r <= len,
{
    let mut j = i;
    while j < len && c_hex_digit(s.get_char(j))
        invariant
            i <= j <= len,
            len == s@.len(),
            hex_end(s@, i as int) == hex_end(s@, j as int),
        decreases len - j,
    {
        j = j + 1;
    }
    j
}

fn digit_value(c: char) -> (r: u8)
    ensures
        r == digit_val(c),
        r <= 15,
{
    let u = c as u32;
    if 48 <= u && u <= 57 {
        (u - 48) as u8
    } else if 97 <= u && u <= 102 {
        (u - 87) as u8
    } else if 65 <= u && u <= 70 {
        (u - 55) as u8
    } else {
        0
    }
}

proof fn lemma_digits_val_ge(s: Seq<char>, i: int, j: int, radix: int, acc: int)
    requires
        radix >= 2,
        acc >= 0,
    ensures
        digits_val(s, i, j, radix, acc) >= acc,
    decreases j - i,
{
    if i < j && 0 <= i < s.len() {
        if s[i] == '_' {
            lemma_digits_val_ge(s, i + 1, j, radix, acc);
        } else {
            assert(digit_val(s[i]) >= 0);
            assert(acc * radix >= acc) by (nonlinear_arith)
                requires
                    radix >= 2,
                    acc >= 0,
            ;
            lemma_digits_val_ge(s, i + 1, j, radix, acc * radix + digit_val(s[i]));
        }
    }
}

/// The value of a digit run, bounded: `None` means the value exceeds the
/// limit, as an overflowing literal fails to parse.
fn digits_value_limited(s: &str, i: usize, j: usize, radix: u64, limit: u64) -> (r: Option<u64>)
    requires
        j <= s@.len(),
        i <= j,
        2 <= radix <= 16,
        limit <= 0x8000_0000,
    ensures
        match r {
            Some(v) => v == digits_val(s@, i as int, j as int, radix as int, 0) && v <= limit,
            None => digits_val(s@, i as int, j as int, radix as int, 0) > limit,
        },
{
    let mut acc: u64 = 0;
    let mut k = i;
    while k < j
        invariant
            i <= k <= j,
            j <= s@.len(),
            2 <= radix <= 16,
            limit <= 0x8000_0000,
            acc <= limit,
            digits_val(s@, i as int, j as int, radix as int, 0) == digits_val(
                s@,
                k as int,
                j as int,
                radix as int,
                acc as int,
            ),
        decreases j - k,
    {
        let c = s.get_char(k);
        if c == '_' {
        } else {
            let d = digit_value(c);
            proof {
                assert(acc * radix <= 0x8_0000_0000) by (nonlinear_arith)
                    requires
                        acc <= 0x8000_0000 && radix <= 16,
                ;
            }
            let acc2 = acc * radix + d as u64;
            if acc2 > limit {
                proof {
                    lemma_digits_val_ge(
                        s@,
                        k as int + 1,
                        j as int,
                        radix as int,
                        acc2 as int,
                    );
                }
                return None;
            }
            acc = acc2;
        }
        k = k + 1;
    }
    Some(acc)
}


fn scan_bin_groups(s: &str, i: usize, len: usize) -> (r: usize)
    requires
        len == s@.len(),
        i <= len,
    ensures
        r == bin_groups_end(s@, i as int),
        i <= r <= len,
{
    let mut k = i;
    loop
        invariant
            i <= k <= len,
            len == s@.len(),
            bin_groups_end(s@, i as int) == bin_groups_end(s@, k as int),
        decreases len - k,
    {
        let j = scan_bin_end(s, k, len);
        if j < len && j + 1 < len && s.get_char(j) == '_' && c_bin_digit(s.get_char(j + 1)) {
            k = j + 1;
        } else {
            return j;
        }
    }
}

/// A separator: one or more blanks, tabs, colons or commas.
pub fn separator(s: &str, i: usize) -> (r: Option<usize>)
    requires
        i <= s@.len(),
    ensures
        match r {
            Some(j) => p_sep(s@, i as int) == Some(j as int) && i < j <= s@.len(),
            None => p_sep(s@, i as int) is None,
        },
{
    let len = s.unicode_len();
    if i < len && c_sep(s.get_char(i)) {
        Some(scan_sep_end(s, i + 1, len))
    } else {
        None
    }
}

/// An identifier token.
pub fn ident(s: &str, i: usize) -> (r: Option<(Ident, usize)>)
    requires
        i <= s@.len(),
    ensures
        match r {
            Some((id, j)) => p_ident(s@, i as int) == Some((id@, j as int)) && i < j <= s@.len(),
            None => p_ident(s@, i as int) is None,
        },
{
    let len = s.unicode_len();
    if i < len && c_ident_start(s.get_char(i)) {
        let j = scan_ident_end(s, i + 1, len);
        let sub = s.substring_char(i, j);
        Some((Ident(String::from_str(sub)), j))
    } else {
        None
    }
}

/// A binary literal.
pub fn binary(s: &str, i: usize) -> (r: Option<(i32, usize)>)
    requires
        i <= s@.len(),
    ensures
        match r {
            Some((v, j)) => p_binary(s@, i as int) == Some((v, j as int)) && i < j <= s@.len(),
            None => p_binary(s@, i as int) is None,
        },
{
    let len = s.unicode_len();
    if i < len && i + 1 < len && i + 2 < len && s.get_char(i) == '0' && (s.get_char(i + 1) == 'b'
        || s.get_char(i + 1) == 'B') && c_bin_digit(s.get_char(i + 2)) {
        let e = scan_bin_groups(s, i + 2, len);
        match digits_value_limited(s, i + 2, e, 2, 0x7fff_ffff) {
            Some(v) => Some((v as i32, e)),
            None => None,
        }
    } else if i < len && i + 1 < len && i + 2 < len && (s.get_char(i) == 'b' || s.get_char(i)
        == 'B') && s.get_char(i + 1) == '\'' && c_bin_digit(s.get_char(i + 2)) {
        let e = scan_bin_groups(s, i + 2, len);
        if e < len && s.get_char(e) == '\'' {
            match digits_value_limited(s, i + 2, e, 2, 0x7fff_ffff) {
                Some(v) => Some((v as i32, e + 1)),
                None => None,
            }
        } else {
            None
        }
    } else {
        None
    }
}

/// A radix-marked decimal literal.
pub fn decimal(s: &str, i: usize) -> (r: Option<(i32, usize)>)
    requires
        i <= s@.len(),
    ensures
        match r {
            Some((v, j)) => p_decimal(s@, i as int) == Some((v, j as int)) && i < j <= s@.len(),
            None => p_decimal(s@, i as int) is None,
        },
{
    let len = s.unicode_len();
    if i < len && i + 1 < len && i + 2 < len && s.get_char(i) == '0' && (s.get_char(i + 1) == 'd'
        || s.get_char(i + 1) == 'D') && c_dec_digit(s.get_char(i + 2)) {
        let e = scan_dec_end(s, i + 2, len);
        match digits_value_limited(s, i + 2, e, 10, 0x7fff_ffff) {
            Some(v) => Some((v as i32, e)),
            None => None,
        }
    } else if i < len && i + 1 < len && i + 2 < len && (s.get_char(i) == 'd' || s.get_char(i)
        == 'D') && s.get_char(i + 1) == '\'' && c_dec_digit(s.get_char(i + 2)) {
        let e = scan_dec_end(s, i + 2, len);
        if e < len && s.get_char(e) == '\'' {
            match digits_value_limited(s, i + 2, e, 10, 0x7fff_ffff) {
                Some(v) => Some((v as i32, e + 1)),
                None => None,
            }
        } else {
            None
        }
    } else {
        None
    }
}

/// An octal literal.
pub fn octal(s: &str, i: usize) -> (r: Option<(i32, usize)>)
    requires
        i <= s@.len(),
    ensures
        match r {
            Some((v, j)) => p_octal(s@, i as int) == Some((v, j as int)) && i < j <= s@.len(),
            None => p_octal(s@, i as int) is None,
        },
{
    let len = s.unicode_len();
    if i < len && i + 1 < len && i + 2 < len && s.get_char(i) == '0' && s.get_char(i + 1) == 'o'
        && c_oct_digit(s.get_char(i + 2)) {
        let e = scan_oct_end(s, i + 2, len);
        match digits_value_limited(s, i + 2, e, 8, 0x7fff_ffff) {
            Some(v) => Some((v as i32, e)),
            None => None,
        }
    } else {
        None
    }
}

/// A hexadecimal literal.
pub fn hexadecimal(s: &str, i: usize) -> (r: Option<(i32, usize)>)
    requires
        i <= s@.len(),
    ensures
        match r {
            Some((v, j)) => p_hex(s@, i as int) == Some((v, j as int)) && i < j <= s@.len(),
            None => p_hex(s@, i as int) is None,
        },
{
    let len = s.unicode_len();
    if i < len && i + 1 < len && i + 2 < len && s.get_char(i) == '0' && (s.get_char(i + 1) == 'x'
        || s.get_char(i + 1) == 'X') && c_hex_digit(s.get_char(i + 2)) {
        let e = scan_hex_end(s, i + 2, len);
        match digits_value_limited(s, i + 2, e, 16, 0x7fff_ffff) {
            Some(v) => Some((v as i32, e)),
            None => None,
        }
    } else if i < len && i + 1 < len && i + 2 < len && (s.get_char(i) == 'h' || s.get_char(i)
        == 'H') && s.get_char(i + 1) == '\'' && c_hex_digit(s.get_char(i + 2)) {
        let e = scan_hex_end(s, i + 2, len);
        if e < len && s.get_char(e) == '\'' {
            match digits_value_limited(s, i + 2, e, 16, 0x7fff_ffff) {
                Some(v) => Some((v as i32, e + 1)),
                None => None,
            }
        } else {
            None
        }
    } else {
        None
    }
}

/// A single-quoted character literal.
pub fn character(s: &str, i: usize) -> (r: Option<(i32, usize)>)
    requires
        i <= s@.len(),
    ensures
        match r {
            Some((v, j)) => p_char_lit(s@, i as int) == Some((v, j as int)) && i < j <= s@.len(),
            None => p_char_lit(s@, i as int) is None,
        },
{
    let len = s.unicode_len();
    if i < len && i + 1 < len && s.get_char(i) == '\'' {
        let c1 = s.get_char(i + 1);
        if c1 == '\\' {
            if i + 2 < len && i + 3 < len {
                let c2 = s.get_char(i + 2);
                if (c2 == '\'' || c2 == '"' || c2 == 'n' || c2 == 'r' || c2 == 't' || c2
                    == '\\' || c2 == '0') && s.get_char(i + 3) == '\'' {
                    let v: i32 = if c2 == 'n' {
                        10
                    } else if c2 == 'r' {
                        13
                    } else if c2 == 't' {
                        9
                    } else if c2 == '0' {
                        0
                    } else {
                        c2 as i32
                    };
                    Some((v, i + 4))
                } else {
                    None
                }
            } else {
                None
            }
        } else if c1 != '\'' {
            if i + 2 < len && s.get_char(i + 2) == '\'' {
                Some((c1 as i32, i + 3))
            } else {
                None
            }
        } else {
            None
        }
    } else {
        None
    }
}

/// A bare decimal integer with an optional sign.
pub fn int_lit(s: &str, i: usize) -> (r: Option<(i32, usize)>)
    requires
        i <= s@.len(),
    ensures
        match r {
            Some((v, j)) => p_int(s@, i as int) == Some((v, j as int)) && i <= j <= s@.len(),
            None => p_int(s@, i as int) is None,
        },
{
    let len = s.unicode_len();
    if i < len && s.get_char(i) == '-' {
        let e = scan_dec_end(s, i + 1, len);
        if e > i + 1 {
            match digits_value_limited(s, i + 1, e, 10, 0x8000_0000) {
                Some(v) => {
                    let neg: i64 = 0 - (v as i64);
                    Some((neg as i32, e))
                },
                None => None,
            }
        } else {
            None
        }
    } else if i < len && s.get_char(i) == '+' {
        let e = scan_dec_end(s, i + 1, len);
        if e > i + 1 {
            match digits_value_limited(s, i + 1, e, 10, 0x7fff_ffff) {
                Some(v) => Some((v as i32, e)),
                None => None,
            }
        } else {
            None
        }
    } else if i < len && c_dec_digit(s.get_char(i)) {
        let e = scan_dec_end(s, i, len);
        match digits_value_limited(s, i, e, 10, 0x7fff_ffff) {
            Some(v) => Some((v as i32, e)),
            None => None,
        }
    } else {
        None
    }
}

/// An operand expression.
pub fn expr(s: &str, i: usize) -> (r: Option<(Expr, usize)>)
    requires
        i <= s@.len(),
    ensures
        match r {
            Some((e, j)) => p_expr(s@, i as int) == Some((e@, j as int)) && i <= j <= s@.len(),
            None => p_expr(s@, i as int) is None,
        },
{
    match binary(s, i) {
        Some((v, j)) => {
            return Some((Expr::Num(v), j));
        },
        None => {},
    }
    match decimal(s, i) {
        Some((v, j)) => {
            return Some((Expr::Num(v), j));
        },
        None => {},
    }
    match octal(s, i) {
        Some((v, j)) => {
            return Some((Expr::Num(v), j));
        },
        None => {},
    }
    match hexadecimal(s, i) {
        Some((v, j)) => {
            return Some((Expr::Num(v), j));
        },
        None => {},
    }
    match character(s, i) {
        Some((v, j)) => {
            return Some((Expr::Num(v), j));
        },
        None => {},
    }
    match int_lit(s, i) {
        Some((v, j)) => {
            return Some((Expr::Num(v), j));
        },
        None => {},
    }
    match ident(s, i) {
        Some((id, j)) => Some((Expr::Label(id), j)),
        None => None,
    }
}


/// The mnemonic spelled by an identifier, if any.
#[verifier::rlimit(100)]
pub fn mnemonic_from_ident(w: &Ident) -> (r: Option<Mnemonic>)
    ensures
        r == mnemonic_of(w@),
{
    if w.0 == String::from_str("NOP") {
        return Some(Mnemonic::NOP);
    }
    if w.0 == String::from_str("CLRWDT") {
        return Some(Mnemonic::CLRWDT);
    }
    if w.0 == String::from_str("WDT") {
        return Some(Mnemonic::WDT);
    }
    if w.0 == String::from_str("SLEEP") {
        return Some(Mnemonic::SLEEP);
    }
    if w.0 == String::from_str("HALT") {
        return Some(Mnemonic::HALT);
    }
    if w.0 == String::from_str("SLEEPX") {
        return Some(Mnemonic::SLEEPX);
    }
    if w.0 == String::from_str("WAITB") {
        return Some(Mnemonic::WAITB);
    }
    if w.0 == String::from_str("WAITRD") {
        return Some(Mnemonic::WAITRD);
    }
    if w.0 == String::from_str("WAITWR") {
        return Some(Mnemonic::WAITWR);
    }
    if w.0 == String::from_str("WAITSPI") {
        return Some(Mnemonic::WAITSPI);
    }
    if w.0 == String::from_str("RDCODE") {
        return Some(Mnemonic::RDCODE);
    }
    if w.0 == String::from_str("RCODE") {
        return Some(Mnemonic::RCODE);
    }
    if w.0 == String::from_str("WRCODE") {
        return Some(Mnemonic::WRCODE);
    }
    if w.0 == String::from_str("EXEC") {
        return Some(Mnemonic::EXEC);
    }
    if w.0 == String::from_str("PUSHAS") {
        return Some(Mnemonic::PUSHAS);
    }
    if w.0 == String::from_str("PUSH") {
        return Some(Mnemonic::PUSH);
    }
    if w.0 == String::from_str("POPAS") {
        return Some(Mnemonic::POPAS);
    }
    if w.0 == String::from_str("POP") {
        return Some(Mnemonic::POP);
    }
    if w.0 == String::from_str("PUSHA2") {
        return Some(Mnemonic::PUSHA2);
    }
    if w.0 == String::from_str("POPA2") {
        return Some(Mnemonic::POPA2);
    }
    if w.0 == String::from_str("RET") {
        return Some(Mnemonic::RET);
    }
    if w.0 == String::from_str("RETURN") {
        return Some(Mnemonic::RETURN);
    }
    if w.0 == String::from_str("RETZ") {
        return Some(Mnemonic::RETZ);
    }
    if w.0 == String::from_str("RETOK") {
        return Some(Mnemonic::RETOK);
    }
    if w.0 == String::from_str("RETIE") {
        return Some(Mnemonic::RETIE);
    }
    if w.0 == String::from_str("RETI") {
        return Some(Mnemonic::RETI);
    }
    if w.0 == String::from_str("CLRA") {
        return Some(Mnemonic::CLRA);
    }
    if w.0 == String::from_str("CLR") {
        return Some(Mnemonic::CLR);
    }
    if w.0 == String::from_str("CLRF") {
        return Some(Mnemonic::CLRF);
    }
    if w.0 == String::from_str("MOVA") {
        return Some(Mnemonic::MOVA);
    }
    if w.0 == String::from_str("MOVAF") {
        return Some(Mnemonic::MOVAF);
    }
    if w.0 == String::from_str("MOV") {
        return Some(Mnemonic::MOV);
    }
    if w.0 == String::from_str("MOVF") {
        return Some(Mnemonic::MOVF);
    }
    if w.0 == String::from_str("INC") {
        return Some(Mnemonic::INC);
    }
    if w.0 == String::from_str("INCF") {
        return Some(Mnemonic::INCF);
    }
    if w.0 == String::from_str("DEC") {
        return Some(Mnemonic::DEC);
    }
    if w.0 == String::from_str("DECF") {
        return Some(Mnemonic::DECF);
    }
    if w.0 == String::from_str("INCSZ") {
        return Some(Mnemonic::INCSZ);
    }
    if w.0 == String::from_str("INCFSZ") {
        return Some(Mnemonic::INCFSZ);
    }
    if w.0 == String::from_str("DECSZ") {
        return Some(Mnemonic::DECSZ);
    }
    if w.0 == String::from_str("DECFSZ") {
        return Some(Mnemonic::DECFSZ);
    }
    if w.0 == String::from_str("SWAP") {
        return Some(Mnemonic::SWAP);
    }
    if w.0 == String::from_str("SWAPF") {
        return Some(Mnemonic::SWAPF);
    }
    if w.0 == String::from_str("AND") {
        return Some(Mnemonic::AND);
    }
    if w.0 == String::from_str("ANDF") {
        return Some(Mnemonic::ANDF);
    }
    if w.0 == String::from_str("IOR") {
        return Some(Mnemonic::IOR);
    }
    if w.0 == String::from_str("IORF") {
        return Some(Mnemonic::IORF);
    }
    if w.0 == String::from_str("XOR") {
        return Some(Mnemonic::XOR);
    }
    if w.0 == String::from_str("XORF") {
        return Some(Mnemonic::XORF);
    }
    if w.0 == String::from_str("ADD") {
        return Some(Mnemonic::ADD);
    }
    if w.0 == String::from_str("ADDF") {
        return Some(Mnemonic::ADDF);
    }
    if w.0 == String::from_str("SUB") {
        return Some(Mnemonic::SUB);
    }
    if w.0 == String::from_str("SUBF") {
        return Some(Mnemonic::SUBF);
    }
    if w.0 == String::from_str("RCL") {
        return Some(Mnemonic::RCL);
    }
    if w.0 == String::from_str("RCLF") {
        return Some(Mnemonic::RCLF);
    }
    if w.0 == String::from_str("RLF") {
        return Some(Mnemonic::RLF);
    }
    if w.0 == String::from_str("RCR") {
        return Some(Mnemonic::RCR);
    }
    if w.0 == String::from_str("RCRF") {
        return Some(Mnemonic::RCRF);
    }
    if w.0 == String::from_str("RRF") {
        return Some(Mnemonic::RRF);
    }
    if w.0 == String::from_str("RETL") {
        return Some(Mnemonic::RETL);
    }
    if w.0 == String::from_str("DB") {
        return Some(Mnemonic::DB);
    }
    if w.0 == String::from_str("RETLN") {
        return Some(Mnemonic::RETLN);
    }
    if w.0 == String::from_str("RETER") {
        return Some(Mnemonic::RETER);
    }
    if w.0 == String::from_str("MOVIP") {
        return Some(Mnemonic::MOVIP);
    }
    if w.0 == String::from_str("MOVIA") {
        return Some(Mnemonic::MOVIA);
    }
    if w.0 == String::from_str("MOVA1F") {
        return Some(Mnemonic::MOVA1F);
    }
    if w.0 == String::from_str("MOVA2F") {
        return Some(Mnemonic::MOVA2F);
    }
    if w.0 == String::from_str("MOVA2P") {
        return Some(Mnemonic::MOVA2P);
    }
    if w.0 == String::from_str("MOVA1P") {
        return Some(Mnemonic::MOVA1P);
    }
    if w.0 == String::from_str("MOVL") {
        return Some(Mnemonic::MOVL);
    }
    if w.0 == String::from_str("ANDL") {
        return Some(Mnemonic::ANDL);
    }
    if w.0 == String::from_str("IORL") {
        return Some(Mnemonic::IORL);
    }
    if w.0 == String::from_str("XORL") {
        return Some(Mnemonic::XORL);
    }
    if w.0 == String::from_str("ADDL") {
        return Some(Mnemonic::ADDL);
    }
    if w.0 == String::from_str("SUBL") {
        return Some(Mnemonic::SUBL);
    }
    if w.0 == String::from_str("CMPLN") {
        return Some(Mnemonic::CMPLN);
    }
    if w.0 == String::from_str("CMPL") {
        return Some(Mnemonic::CMPL);
    }
    if w.0 == String::from_str("BC") {
        return Some(Mnemonic::BC);
    }
    if w.0 == String::from_str("BCF") {
        return Some(Mnemonic::BCF);
    }
    if w.0 == String::from_str("BS") {
        return Some(Mnemonic::BS);
    }
    if w.0 == String::from_str("BSF") {
        return Some(Mnemonic::BSF);
    }
    if w.0 == String::from_str("BTSC") {
        return Some(Mnemonic::BTSC);
    }
    if w.0 == String::from_str("BTFSC") {
        return Some(Mnemonic::BTFSC);
    }
    if w.0 == String::from_str("BTSS") {
        return Some(Mnemonic::BTSS);
    }
    if w.0 == String::from_str("BTFSS") {
        return Some(Mnemonic::BTFSS);
    }
    if w.0 == String::from_str("BCTC") {
        return Some(Mnemonic::BCTC);
    }
    if w.0 == String::from_str("BCTCF") {
        return Some(Mnemonic::BCTCF);
    }
    if w.0 == String::from_str("BP1F") {
        return Some(Mnemonic::BP1F);
    }
    if w.0 == String::from_str("BP2F") {
        return Some(Mnemonic::BP2F);
    }
    if w.0 == String::from_str("BG1F") {
        return Some(Mnemonic::BG1F);
    }
    if w.0 == String::from_str("BG2F") {
        return Some(Mnemonic::BG2F);
    }
    if w.0 == String::from_str("JMP") {
        return Some(Mnemonic::JMP);
    }
    if w.0 == String::from_str("GOTO") {
        return Some(Mnemonic::GOTO);
    }
    if w.0 == String::from_str("CALL") {
        return Some(Mnemonic::CALL);
    }
    if w.0 == String::from_str("JNZ") {
        return Some(Mnemonic::JNZ);
    }
    if w.0 == String::from_str("JZ") {
        return Some(Mnemonic::JZ);
    }
    if w.0 == String::from_str("JNC") {
        return Some(Mnemonic::JNC);
    }
    if w.0 == String::from_str("JC") {
        return Some(Mnemonic::JC);
    }
    if w.0 == String::from_str("CMPZ") {
        return Some(Mnemonic::CMPZ);
    }
    if w.0 == String::from_str("DW") {
        return Some(Mnemonic::DW);
    }
    None
}

/// A mnemonic token.
pub fn mnemonic(s: &str, i: usize) -> (r: Option<(Mnemonic, usize)>)
    requires
        i <= s@.len(),
    ensures
        match r {
            Some((m, j)) => p_mnemonic(s@, i as int) == Some((m, j as int)) && i < j <= s@.len(),
            None => p_mnemonic(s@, i as int) is None,
        },
{
    match ident(s, i) {
        Some((w, j)) => match mnemonic_from_ident(&w) {
            Some(m) => Some((m, j)),
            None => None,
        },
        None => None,
    }
}

/// An `EQU` definition: identifier, `EQU`, expression.
pub fn equ(s: &str, i: usize) -> (r: Option<((Ident, Expr), usize)>)
    requires
        i <= s@.len(),
    ensures
        match r {
            Some(((id, e), n)) => p_equ(s@, i as int) == Some(((id@, e@), n as int)) && i < n
                <= s@.len(),
            None => p_equ(s@, i as int) is None,
        },
{
    let len = s.unicode_len();
    match ident(s, i) {
        Some((id, j)) => match separator(s, j) {
            Some(k) => {
                if k < len && k + 1 < len && k + 2 < len && s.get_char(k) == 'E' && s.get_char(
                    k + 1,
                ) == 'Q' && s.get_char(k + 2) == 'U' {
                    match separator(s, k + 3) {
                        Some(m) => match expr(s, m) {
                            Some((e, n)) => Some(((id, e), n)),
                            None => None,
                        },
                        None => None,
                    }
                } else {
                    None
                }
            },
            None => None,
        },
        None => None,
    }
}

/// An `ORG` directive.
pub fn org(s: &str, i: usize) -> (r: Option<(Expr, usize)>)
    requires
        i <= s@.len(),
    ensures
        match r {
            Some((e, n)) => p_org(s@, i as int) == Some((e@, n as int)) && i <= n <= s@.len(),
            None => p_org(s@, i as int) is None,
        },
{
    let len = s.unicode_len();
    let j = scan_ws_end(s, i, len);
    if j < len && j + 1 < len && j + 2 < len && s.get_char(j) == 'O' && s.get_char(j + 1) == 'R'
        && s.get_char(j + 2) == 'G' {
        match separator(s, j + 3) {
            Some(k) => expr(s, k),
            None => None,
        }
    } else {
        None
    }
}

fn scan_path_end(s: &str, i: usize, len: usize) -> (r: usize)
    requires
        len == s@.len(),
        i <= len,
    ensures
        r == path_end(s@, i as int),
        i <= r <= len,
{
    let mut j = i;
    while j < len && !(s.get_char(j) == ' ' || s.get_char(j) == '\t' || s.get_char(j) == ';')
        invariant
            i <= j <= len,
            len == s@.len(),
            path_end(s@, i as int) == path_end(s@, j as int),
        decreases len - j,
    {
        j = j + 1;
    }
    j
}

/// An `INCLUDE` directive; the path token runs to a blank or comment.
pub fn include_path(s: &str, i: usize) -> (r: Option<(String, usize)>)
    requires
        i <= s@.len(),
    ensures
        match r {
            Some((p, n)) => p_include(s@, i as int) == Some((p@, n as int)) && i <= n <= s@.len(),
            None => p_include(s@, i as int) is None,
        },
{
    let len = s.unicode_len();
    let j = scan_ws_end(s, i, len);
    if j < len && j + 1 < len && j + 2 < len && j + 3 < len && j + 4 < len && j + 5 < len && j + 6
        < len && s.get_char(j) == 'I' && s.get_char(j + 1) == 'N' && s.get_char(j + 2) == 'C'
        && s.get_char(j + 3) == 'L' && s.get_char(j + 4) == 'U' && s.get_char(j + 5) == 'D'
        && s.get_char(j + 6) == 'E' {
        match separator(s, j + 7) {
            Some(k) => {
                let e = scan_path_end(s, k, len);
                let sub = s.substring_char(k, e);
                Some((String::from_str(sub), e))
            },
            None => None,
        }
    } else {
        None
    }
}

/// An operand list: two expressions, one, or none.
pub fn operand(s: &str, i: usize) -> (r: (Operand, usize))
    requires
        i <= s@.len(),
    ensures
        p_operand(s@, i as int) == (r.0@, r.1 as int),
        i <= r.1 <= s@.len(),
{
    match separator(s, i) {
        Some(j) => match expr(s, j) {
            Some((e0, k)) => match separator(s, k) {
                Some(l) => match expr(s, l) {
                    Some((e1, m)) => (Operand::Op2(e0, e1), m),
                    None => (Operand::Op1(e0), k),
                },
                None => (Operand::Op1(e0), k),
            },
            None => (Operand::Op0, i),
        },
        None => (Operand::Op0, i),
    }
}

/// An instruction: optional label, separator, mnemonic, operand list.
pub fn inst(s: &str, i: usize) -> (r: Option<((Option<Ident>, Mnemonic, Operand), usize)>)
    requires
        i <= s@.len(),
    ensures
        match r {
            Some(((lbl, m, opnd), n)) => p_inst(s@, i as int) == Some(
                ((
                    match lbl {
                        Some(id) => Some(id@),
                        None => None,
                    },
                    m,
                    opnd@,
                ), n as int),
            ) && i <= n <= s@.len(),
            None => p_inst(s@, i as int) is None,
        },
{
    let (lbl, j) = match ident(s, i) {
        Some((w, j)) => (Some(w), j),
        None => (None, i),
    };
    match separator(s, j) {
        Some(k) => match mnemonic(s, k) {
            Some((m, l)) => {
                let (opnd, n) = operand(s, l);
                Some(((lbl, m, opnd), n))
            },
            None => None,
        },
        None => None,
    }
}

/// Whether only an optional separator run and an optional comment remain.
fn suffix_ok_at(s: &str, i: usize) -> (r: bool)
    requires
        i <= s@.len(),
    ensures
        r == suffix_ok(s@, i as int),
{
    let len = s.unicode_len();
    let j = match separator(s, i) {
        Some(j) => j,
        None => i,
    };
    j == len || s.get_char(j) == ';'
}

/// Whether the line is the `END` pseudo-directive.
fn end_line(s: &str) -> (r: bool)
    ensures
        r == is_end_line(s@),
{
    let len = s.unicode_len();
    let a = scan_ws_end(s, 0, len);
    if a < len && a + 1 < len && a + 2 < len && s.get_char(a) == 'E' && s.get_char(a + 1) == 'N'
        && s.get_char(a + 2) == 'D' {
        let b = scan_ws_end(s, a + 3, len);
        b == len || s.get_char(b) == ';'
    } else {
        false
    }
}

fn parse_line_unchecked(line: &str) -> (r: Result<Option<Stmt>, ParseError>)
    ensures
        match r {
            Ok(st) => match st {
                Some(st0) => p_line(line@) == Ok::<Option<StmtV>, ParseErrorV>(Some(st0@)),
                None => p_line(line@) == Ok::<Option<StmtV>, ParseErrorV>(None),
            },
            Err(e) => p_line(line@) == Err::<Option<StmtV>, ParseErrorV>(e@),
        },
{
    if end_line(line) {
        return Err(ParseError::End);
    }
    match equ(line, 0) {
        Some(((id, e), n)) => {
            if suffix_ok_at(line, n) {
                return Ok(Some(Stmt::Define(id, e)));
            } else {
                return Err(ParseError::Failure(String::from_str(line)));
            }
        },
        None => {},
    }
    match org(line, 0) {
        Some((e, n)) => {
            if suffix_ok_at(line, n) {
                return Ok(Some(Stmt::Origin(e)));
            } else {
                return Err(ParseError::Failure(String::from_str(line)));
            }
        },
        None => {},
    }
    match include_path(line, 0) {
        Some((p, n)) => {
            if suffix_ok_at(line, n) {
                return Ok(Some(Stmt::Include(p)));
            } else {
                return Err(ParseError::Failure(String::from_str(line)));
            }
        },
        None => {},
    }
    match inst(line, 0) {
        Some(((lbl, m, opnd), n)) => {
            if suffix_ok_at(line, n) {
                return Ok(Some(Stmt::Inst(lbl, m, opnd)));
            } else {
                return Err(ParseError::Failure(String::from_str(line)));
            }
        },
        None => {},
    }
    if suffix_ok_at(line, 0) {
        Ok(None)
    } else {
        Err(ParseError::Failure(String::from_str(line)))
    }
}

/// Parse a single line of assembly: at most one statement. The argument
/// must be one line: no line feed except at the very end.
pub fn parse_line(line: &str) -> (r: Result<Option<Stmt>, ParseError>)
    requires
        forall|k: int| 0 <= k < line@.len() - 1 ==> line@[k] != '\n',
    ensures
        match r {
            Ok(st) => match st {
                Some(st0) => p_line(line@) == Ok::<Option<StmtV>, ParseErrorV>(Some(st0@)),
                None => p_line(line@) == Ok::<Option<StmtV>, ParseErrorV>(None),
            },
            Err(e) => p_line(line@) == Err::<Option<StmtV>, ParseErrorV>(e@),
        },
{
    parse_line_unchecked(line)
}


/// Parse a whole assembly program: one statement per line, stopping without
/// error at an `END` line; everything after `END` is ignored.
pub fn parse(source: &str) -> (r: Result<Vec<Stmt>, ParseError>)
    ensures
        match r {
            Ok(v) => spec_parse(source@) == Ok::<Seq<StmtV>, ParseErrorV>(stmts_view(v@)),
            Err(e) => spec_parse(source@) == Err::<Seq<StmtV>, ParseErrorV>(e@),
        },
{
    let len = source.unicode_len();
    let mut out: Vec<Stmt> = Vec::new();
    let mut pos: usize = 0;
    proof {
        assert(stmts_view(out@) =~= Seq::<StmtV>::empty());
        match parse_lines(lines_from(source@, 0)) {
            Ok(t) => {
                assert(stmts_view(out@) + t =~= t);
            },
            Err(_) => {},
        }
    }
    while pos < len
        invariant
            pos <= len,
            len == source@.len(),
            match parse_lines(lines_from(source@, pos as int)) {
                Ok(t) => parse_lines(lines_from(source@, 0)) == Ok::<Seq<StmtV>, ParseErrorV>(
                    stmts_view(out@) + t,
                ),
                Err(e) => parse_lines(lines_from(source@, 0)) == Err::<Seq<StmtV>, ParseErrorV>(e),
            },
        decreases len - pos,
    {
        let mut nl = pos;
        while nl < len && source.get_char(nl) != '\n'
            invariant
                pos <= nl <= len,
                len == source@.len(),
                find_nl(source@, pos as int) == find_nl(source@, nl as int),
            decreases len - nl,
        {
            nl = nl + 1;
        }
        let head_end = if nl == len {
            nl
        } else if nl > pos && source.get_char(nl - 1) == '\r' {
            nl - 1
        } else {
            nl
        };
        let line = source.substring_char(pos, head_end);
        let ghost ls = lines_from(source@, pos as int);
        proof {
            if nl < len {
                assert(ls =~= seq![line@] + lines_from(source@, nl + 1));
                assert(ls.drop_first() =~= lines_from(source@, nl + 1));
            } else {
                assert(ls =~= seq![line@]);
                assert(ls.drop_first() =~= lines_from(source@, len as int));
            }
        }
        match parse_line_unchecked(line) {
            Err(e) => {
                match e {
                    ParseError::End => {
                        proof {
                            assert(stmts_view(out@) + Seq::<StmtV>::empty() =~= stmts_view(out@));
                        }
                        return Ok(out);
                    },
                    _ => {
                        return Err(e);
                    },
                }
            },
            Ok(st) => {
                let ghost pre = out@;
                match st {
                    Some(st0) => {
                        out.push(st0);
                        proof {
                            assert(stmts_view(out@) =~= stmts_view(pre) + seq![out@.last()@]);
                            match parse_lines(ls.drop_first()) {
                                Ok(t) => {
                                    assert((stmts_view(pre) + seq![out@.last()@]) + t
                                        =~= stmts_view(pre) + (seq![out@.last()@] + t));
                                },
                                Err(_) => {},
                            }
                        }
                    },
                    None => {},
                }
            },
        }
        if nl == len {
            pos = len;
        } else {
            pos = nl + 1;
        }
    }
    proof {
        assert(lines_from(source@, pos as int).len() == 0);
        assert(stmts_view(out@) + Seq::<StmtV>::empty() =~= stmts_view(out@));
    }
    Ok(out)
}


/// Whether a parsed expression, if any, avoids the internal sum form.
pub open spec fn expr_opt_no_add(r: Option<(ExprV, int)>) -> bool {
    match r {
        Some((e, _)) => !(e is Add),
        None => true,
    }
}

/// The parser never produces the internal sum form of an expression.
pub proof fn lemma_p_expr_no_add(s: Seq<char>)
    ensures
        forall|i: int| expr_opt_no_add(#[trigger] p_expr(s, i)),
{
    assert forall|i: int| expr_opt_no_add(#[trigger] p_expr(s, i)) by {
        assert(expr_opt_no_add(p_expr(s, i)));
    }
}

/// A parsed line never carries a sum origin expression.
pub proof fn lemma_p_line_origin_ok(l: Seq<char>)
    ensures
        match p_line(l) {
            Ok(st) => match st {
                Some(st0) => crate::symbol::stmt_origin_ok(st0),
                None => true,
            },
            Err(_) => true,
        },
{
    lemma_p_expr_no_add(l);
}

/// A parsed line sequence never carries a sum origin expression.
pub proof fn lemma_parse_lines_origin_ok(ls: Seq<Seq<char>>)
    ensures
        match parse_lines(ls) {
            Ok(t) => crate::symbol::no_add_origin(t),
            Err(_) => true,
        },
    decreases ls.len(),
{
    if ls.len() > 0 {
        lemma_p_line_origin_ok(ls[0]);
        lemma_parse_lines_origin_ok(ls.drop_first());
        match parse_lines(ls) {
            Ok(t) => {
                match p_line(ls[0]) {
                    Ok(st) => {
                        match parse_lines(ls.drop_first()) {
                            Ok(tail) => {
                                assert forall|i: int|
                                    0 <= i < t.len() implies crate::symbol::stmt_origin_ok(
                                    #[trigger] t[i],
                                ) by {
                                    match st {
                                        Some(st0) => {
                                            assert(t == seq![st0] + tail);
                                            if i > 0 {
                                                assert(t[i] == tail[i - 1]);
                                            }
                                        },
                                        None => {
                                            assert(t == tail);
                                        },
                                    }
                                }
                            },
                            Err(_) => {},
                        }
                    },
                    Err(_) => {},
                }
            },
            Err(_) => {},
        }
    }
}

/// What parsing a whole program never yields: a sum origin expression.
pub proof fn lemma_parse_origin_ok(s: Seq<char>)
    ensures
        match spec_parse(s) {
            Ok(t) => crate::symbol::no_add_origin(t),
            Err(_) => true,
        },
{
    lemma_parse_lines_origin_ok(lines_from(s, 0));
}

} // verus!
