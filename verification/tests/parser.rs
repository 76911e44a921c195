use pioc_asm::ast::{Expr, Ident, Mnemonic, Operand, Stmt};
use pioc_asm::ast::Expr::{Label, Num};
use pioc_asm::ast::Mnemonic::{ADDL, BC, BS, MOVA1F, MOVIA, NOP};
use pioc_asm::ast::Operand::{Op0, Op1, Op2};
use pioc_asm::ast::Stmt::{Define, Include, Inst, Origin};
use pioc_asm::parse::{
    binary, character, decimal, equ, expr, hexadecimal, ident, include_path, inst, int_lit,
    mnemonic, octal, operand, org, parse, parse_line, ParseError,
};

fn assert_parse<T: PartialEq + std::fmt::Debug>(r: Option<(T, usize)>, input: &str, expected: T) {
    let (v, n) = r.expect("parse failed");
    assert_eq!(n, input.chars().count());
    assert_eq!(v, expected);
}

fn id(s: &str) -> Ident {
    Ident::from_str(s)
}

fn expr_at(input: &str) -> Option<(Expr, usize)> {
    expr(input, 0)
}

#[test]
fn test_parse() {
    assert_eq!(parse("").unwrap(), vec![]);
    assert_eq!(parse("  ").unwrap(), vec![]);
    assert_eq!(parse("  \n  ").unwrap(), vec![]);
    assert_eq!(parse(" NOP\n NOP;").unwrap(), vec![Inst(None, NOP, Op0); 2]);
    assert_eq!(
        parse(" NOP;comment\n NOP;\n;comment\n;\n").unwrap(),
        vec![Inst(None, NOP, Op0); 2]
    );
}

#[test]
fn test_parse_line() {
    assert_eq!(parse_line("").unwrap(), None);
    assert_eq!(parse_line(";").unwrap(), None);
    assert_eq!(parse_line(" ; comment").unwrap(), None);
    assert_eq!(
        parse("a EQU 42 ; comment").unwrap(),
        vec![Define(id("a"), Num(42))]
    );
    assert_eq!(parse("ORG 42 ; comment").unwrap(), vec![Origin(Num(42))]);
    assert_eq!(
        parse("INCLUDE CH32X035.ASM ; comment").unwrap(),
        vec![Include("CH32X035.ASM".to_string())]
    );
    assert_eq!(parse(" NOP").unwrap(), vec![Inst(None, NOP, Op0)]);
    assert_eq!(parse(" NOP ; comment").unwrap(), vec![Inst(None, NOP, Op0)]);
    assert_eq!(
        parse(" ADDL 0x42").unwrap(),
        vec![Inst(None, ADDL, Op1(Num(0x42)))]
    );
}

#[test]
fn test_ident() {
    assert_parse(ident("abc123", 0), "abc123", id("abc123"));
    assert_parse(ident("_$#@", 0), "_$#@", id("_$#@"));
    assert!(ident("1", 0).is_none());
}

#[test]
fn test_expr() {
    assert_parse(expr_at("abc123"), "abc123", Label(id("abc123")));
    assert_parse(expr_at("42"), "42", Num(42));
    assert_parse(expr_at("+42"), "+42", Num(42));
    assert_parse(expr_at("-42"), "-42", Num(-42));
    assert_parse(expr_at("0d42"), "0d42", Num(42));
    assert_parse(expr_at("0D42"), "0D42", Num(42));
    assert_parse(expr_at("d'42'"), "d'42'", Num(42));
    assert_parse(expr_at("D'42'"), "D'42'", Num(42));
    assert_parse(expr_at("0b101010"), "0b101010", Num(42));
    assert_parse(expr_at("0B101010"), "0B101010", Num(42));
    assert_parse(expr_at("0b0101010"), "0b0101010", Num(42));
    assert_parse(expr_at("0b0010_1010"), "0b0010_1010", Num(42));
    assert_parse(expr_at("b'101010'"), "b'101010'", Num(42));
    assert_parse(expr_at("B'101010'"), "B'101010'", Num(42));
    assert_parse(expr_at("b'0101010'"), "b'0101010'", Num(42));
    assert_parse(expr_at("b'0010_1010'"), "b'0010_1010'", Num(42));
    assert_parse(expr_at("0o42"), "0o42", Num(0o42));
    assert_parse(expr_at("0x42"), "0x42", Num(0x42));
    assert_parse(expr_at("0X42"), "0X42", Num(0x42));
    assert_parse(expr_at("h'42'"), "h'42'", Num(0x42));
    assert_parse(expr_at("H'42'"), "H'42'", Num(0x42));
    assert_parse(expr_at("'a'"), "'a'", Num('a' as i32));
    assert_parse(expr_at(r"'\\'"), r"'\\'", Num('\\' as i32));
    assert!(ident(r"'\'", 0).is_none());
    assert_parse(expr_at(r"'\''"), r"'\''", Num('\'' as i32));
    assert_parse(expr_at(r"'\0'"), r"'\0'", Num(0x00));
    assert!(ident("0123", 0).is_none());
    assert!(ident("0c123", 0).is_none());
    assert!(ident("1a", 0).is_none());
    assert!(ident("1 + 1", 0).is_none());
}

#[test]
fn test_equ() {
    assert_parse(equ("abc EQU 42", 0), "abc EQU 42", (id("abc"), Num(42)));
    assert_parse(
        equ("abc EQU 0x42", 0),
        "abc EQU 0x42",
        (id("abc"), Num(0x42)),
    );
    assert_parse(
        equ("abc EQU L42", 0),
        "abc EQU L42",
        (id("abc"), Label(id("L42"))),
    );
    assert!(equ(" abc EQU 42", 0).is_none());
}

#[test]
fn test_org() {
    assert_parse(org("ORG 42", 0), "ORG 42", Num(42));
    assert_parse(org("ORG 0x42", 0), "ORG 0x42", Num(0x42));
    assert_parse(org("ORG L42", 0), "ORG L42", Label(id("L42")));
    assert_parse(org(" ORG L42", 0), " ORG L42", Label(id("L42")));
}

#[test]
fn test_include() {
    assert_parse(
        include_path("INCLUDE CH32X035.ASM", 0),
        "INCLUDE CH32X035.ASM",
        "CH32X035.ASM".to_string(),
    );
    assert_parse(
        include_path(" INCLUDE CH32X035.ASM", 0),
        " INCLUDE CH32X035.ASM",
        "CH32X035.ASM".to_string(),
    );
    assert_parse(
        include_path(r"INCLUDE C:\RISC8B\CH533INC.ASM", 0),
        r"INCLUDE C:\RISC8B\CH533INC.ASM",
        r"C:\RISC8B\CH533INC.ASM".to_string(),
    );
}

#[test]
fn test_mnemonic() {
    assert_parse(mnemonic("NOP", 0), "NOP", NOP);
    assert_parse(mnemonic("MOVIA", 0), "MOVIA", MOVIA);
    assert_parse(mnemonic("BC", 0), "BC", BC);
    assert_parse(mnemonic("MOVA1F", 0), "MOVA1F", MOVA1F);
    assert!(mnemonic("HCF", 0).is_none());
}

#[test]
fn test_operand() {
    assert_eq!(operand("", 0), (Op0, 0));
    assert_eq!(operand(" 0x42", 0), (Op1(Num(0x42)), 5));
    assert_eq!(operand(" 1, 2", 0), (Op2(Num(1), Num(2)), 5));
}

#[test]
fn test_inst() {
    assert_parse(inst(" NOP", 0), " NOP", (None, NOP, Op0));
    assert_parse(inst("NOP NOP", 0), "NOP NOP", (Some(id("NOP")), NOP, Op0));
    assert_parse(inst(" ADDL 0x42", 0), " ADDL 0x42", (None, ADDL, Op1(Num(0x42))));
    assert_parse(
        inst("L1 ADDL 0x42", 0),
        "L1 ADDL 0x42",
        (Some(id("L1")), ADDL, Op1(Num(0x42))),
    );
    assert_parse(
        inst("L1:ADDL 0x42", 0),
        "L1:ADDL 0x42",
        (Some(id("L1")), ADDL, Op1(Num(0x42))),
    );
    assert_parse(
        inst(" BS 0x9B, 3", 0),
        " BS 0x9B, 3",
        (None, BS, Op2(Num(0x9B), Num(3))),
    );
}

#[test]
fn parse_stops_at_end_directive() {
    assert_eq!(
        parse(" NOP\nEND\n garbage !!").unwrap(),
        vec![Inst(None, NOP, Op0)]
    );
    assert_eq!(parse("END ; done\n NOP").unwrap(), vec![]);
    assert!(matches!(parse_line("END"), Err(ParseError::End)));
}

#[test]
fn parse_rejects_malformed_lines() {
    assert!(matches!(parse("!!!"), Err(ParseError::Failure(_))));
    assert!(matches!(parse(" NOP extra!"), Err(ParseError::Failure(_))));
    assert!(matches!(parse_line("label_only"), Err(ParseError::Failure(_))));
}

#[test]
fn numeric_literal_overflow_fails() {
    // An overflowing hexadecimal cannot fall back to any other form.
    assert!(matches!(parse_line(" ADDL 0x100000000"), Err(ParseError::Failure(_))));
    // An overflowing bare integer fails the line too.
    assert!(matches!(parse_line(" ADDL 99999999999"), Err(ParseError::Failure(_))));
    // The largest and smallest values that still fit are accepted.
    assert_parse(int_lit("2147483647", 0), "2147483647", 2147483647);
    assert_parse(int_lit("-2147483648", 0), "-2147483648", -2147483648);
    assert!(int_lit("2147483648", 0).is_none());
}

#[test]
fn numeric_literal_forms() {
    assert_parse(binary("0b1_1", 0), "0b1_1", 3);
    assert!(binary("0b2", 0).is_none());
    assert_parse(octal("0o17", 0), "0o17", 15);
    assert_parse(decimal("0d09", 0), "0d09", 9);
    assert_parse(hexadecimal("0xfF", 0), "0xfF", 255);
    assert_parse(character("'\\n'", 0), "'\\n'", 10);
    assert!(character("''", 0).is_none());
    assert!(character("'ab'", 0).is_none());
}
