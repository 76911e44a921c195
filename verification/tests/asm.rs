use pioc_asm::assemble::{
    assemble, assemble_with_symbols, expand_include, AssembleError, Sources,
};
use pioc_asm::assemble_to_words;
use pioc_asm::ast::{Expr, Ident, Mnemonic, Operand, Stmt};
use pioc_asm::codec::{Dest, Inst, Reg, U3};
use pioc_asm::regs::Sfr;
use pioc_asm::symbol::{resolve_symbol, SymTab};

fn id(s: &str) -> Ident {
    Ident::from_str(s)
}

fn key(s: &str) -> String {
    s.to_string()
}

#[test]
fn test_resolve_symbol() {
    let resolved = resolve_symbol(
        SymTab::new(),
        &vec![
            Stmt::Define(id("var0"), Expr::Num(42)),
            Stmt::Define(id("var1"), Expr::Label(id("L1"))),
            Stmt::Inst(Some(id("L0")), Mnemonic::NOP, Operand::Op0),
            Stmt::Origin(Expr::Label(id("var0"))),
            Stmt::Inst(None, Mnemonic::NOP, Operand::Op0),
            Stmt::Inst(None, Mnemonic::NOP, Operand::Op0),
            Stmt::Inst(Some(id("L1")), Mnemonic::NOP, Operand::Op0),
        ],
    )
    .unwrap();
    assert_eq!(resolved.get(&key("var0")), Some(42));
    assert_eq!(resolved.get(&key("var1")), Some(46));
    assert_eq!(resolved.get(&key("L0")), Some(0));
    assert_eq!(resolved.get(&key("L1")), Some(46));
    assert_eq!(resolved.get(&key("other")), None);
}

#[test]
fn resolve_reports_lowest_sorting_name() {
    let r = resolve_symbol(
        SymTab::new(),
        &vec![
            Stmt::Define(id("zz"), Expr::Label(id("missing_z"))),
            Stmt::Define(id("aa"), Expr::Label(id("missing_a"))),
        ],
    );
    // Both entries stay unresolved; the lowest-sorting name is reported.
    assert_eq!(r, Err(AssembleError::SymbolResolveError("aa".to_string())));
}

#[test]
fn resolve_tolerates_reserved_selectors() {
    // `A` and `F` may stay unresolved: they are operand selectors.
    let r = resolve_symbol(
        SymTab::new(),
        &vec![
            Stmt::Define(id("A"), Expr::Label(id("A"))),
            Stmt::Define(id("f"), Expr::Label(id("f"))),
        ],
    );
    assert!(r.is_ok());
}

#[test]
fn assemble_nop_pair() {
    let insts = assemble(&vec![Stmt::Inst(None, Mnemonic::NOP, Operand::Op0), Stmt::Inst(None, Mnemonic::NOP, Operand::Op0)]).unwrap();
    let words: Vec<u16> = insts.iter().map(|i| i.to_word()).collect();
    assert_eq!(words, vec![0x0000, 0x0000]);
}

#[test]
fn assemble_to_words_nop_pair() {
    let words = assemble_to_words("\n            NOP\n            NOP\n        ".to_string())
        .unwrap();
    assert_eq!(words, vec![0, 0]);
}

#[test]
fn bit_set_round_trips() {
    // Scenario: `BS 0x9B, 3` packs the 3-bit index and the byte-wide
    // register field into the bit-set base pattern, and the resulting word
    // decodes back to the same instruction.
    let words = assemble_to_words(" BS 0x9B, 3".to_string()).unwrap();
    assert_eq!(words.len(), 1);
    let inst = Inst::from_word(words[0]);
    assert_eq!(inst, Inst::BitSet(Reg(0x9B), U3(3)));
    assert_eq!(inst.to_word(), words[0]);
}

#[test]
fn decode_is_total_and_re_encodes() {
    // Every 16-bit value decodes, and what it decodes to re-encodes to the
    // identical word.
    let mut w: u32 = 0;
    while w <= 0xFFFF {
        let inst = Inst::from_word(w as u16);
        assert_eq!(inst.to_word(), w as u16);
        w += 1;
    }
}

#[test]
fn encode_decode_round_trips() {
    let cases = vec![
        Inst::Nop,
        Inst::ClearWatchDog,
        Inst::Return,
        Inst::ClearA,
        Inst::Clear(Reg(0xFF)),
        Inst::MoveA(Reg(0x01)),
        Inst::Move(Reg(0x1F), Dest::A),
        Inst::Move(Reg(0x1F), Dest::F),
        Inst::Sub(Reg(0x00), Dest::F),
        Inst::RotateRightWithCarry(Reg(0x80), Dest::A),
        Inst::MoveImm(0xAB),
        Inst::AddImm(0x01),
        Inst::CompareImmNegate(0xFF),
        Inst::BitClear(Reg(0x9B), U3(7)),
        Inst::BitTestSkipIfSet(Reg(0x00), U3(0)),
        Inst::Jump(pioc_asm::codec::U12(0xFFF)),
        Inst::Call(pioc_asm::codec::U12(0x001)),
        Inst::JumpIfZero(pioc_asm::codec::U10(0x3FF)),
        Inst::JumpIfEqual(pioc_asm::codec::U7(0x7F), 0xFF),
    ];
    for inst in cases {
        assert_eq!(Inst::from_word(inst.to_word()), inst);
    }
}

#[test]
fn origin_pads_with_nops() {
    // ORG 8 is word index 4: pad to it, keeping what was emitted.
    let insts = assemble(&vec![
        Stmt::Inst(None, Mnemonic::MOVL, Operand::Op1(Expr::Num(7))),
        Stmt::Origin(Expr::Num(8)),
        Stmt::Inst(None, Mnemonic::NOP, Operand::Op0),
    ])
    .unwrap();
    let words: Vec<u16> = insts.iter().map(|i| i.to_word()).collect();
    assert_eq!(words, vec![0x4007, 0, 0, 0, 0]);
}

#[test]
fn origin_backward_does_not_truncate() {
    let insts = assemble(&vec![
        Stmt::Inst(None, Mnemonic::NOP, Operand::Op0),
        Stmt::Inst(None, Mnemonic::NOP, Operand::Op0),
        Stmt::Origin(Expr::Num(0)),
        Stmt::Inst(None, Mnemonic::NOP, Operand::Op0),
    ])
    .unwrap();
    assert_eq!(insts.len(), 3);
}

#[test]
fn origin_odd_address_fails() {
    assert_eq!(
        assemble(&vec![Stmt::Origin(Expr::Num(3))]),
        Err(AssembleError::OriginNotAligned)
    );
    assert_eq!(
        assemble(&vec![Stmt::Origin(Expr::Num(-3))]),
        Err(AssembleError::OriginNotAligned)
    );
    assert_eq!(
        assemble(&vec![Stmt::Origin(Expr::Num(1))]),
        Err(AssembleError::OriginNotAligned)
    );
    assert!(assemble(&vec![Stmt::Origin(Expr::Num(4))]).is_ok());
}

#[test]
fn operand_arity_is_checked_at_emission() {
    // NOP takes no operand.
    assert_eq!(
        assemble(&vec![Stmt::Inst(None, Mnemonic::NOP, Operand::Op1(Expr::Num(1)))]),
        Err(AssembleError::InvalidOperand)
    );
    // BS needs its bit index: a one-operand form has no default.
    assert_eq!(
        assemble(&vec![Stmt::Inst(None, Mnemonic::BS, Operand::Op1(Expr::Num(5)))]),
        Err(AssembleError::InvalidOperand)
    );
    // An out-of-range field is an operand error.
    assert_eq!(
        assemble(&vec![Stmt::Inst(None, Mnemonic::MOVL, Operand::Op1(Expr::Num(256)))]),
        Err(AssembleError::InvalidOperand)
    );
}

#[test]
fn unresolved_symbol_is_reported() {
    assert_eq!(
        assemble_to_words(" JMP missing".to_string()),
        Err(AssembleError::SymbolResolveError("missing".to_string()))
    );
}

#[test]
fn destination_selector_defaults_to_f() {
    // INC with one operand writes back to the register: destination F.
    assert_eq!(assemble_to_words(" INC 5".to_string()).unwrap(), vec![0x0705]);
    assert_eq!(assemble_to_words(" INC 5, A".to_string()).unwrap(), vec![0x0605]);
    assert_eq!(assemble_to_words(" INC 5, a".to_string()).unwrap(), vec![0x0605]);
    assert_eq!(assemble_to_words(" INC 5, F".to_string()).unwrap(), vec![0x0705]);
    assert_eq!(assemble_to_words(" INC 5, 0".to_string()).unwrap(), vec![0x0605]);
    assert_eq!(assemble_to_words(" INC 5, 1".to_string()).unwrap(), vec![0x0705]);
    assert_eq!(
        assemble_to_words(" INC 5, 2".to_string()),
        Err(AssembleError::InvalidOperand)
    );
}

#[test]
fn reinterpreted_mnemonics_share_encodings() {
    // WRCODE is taken as the bit-to-carry instruction with selector 0, and
    // EXEC as bit-to-carry with its operand.
    assert_eq!(assemble_to_words(" WRCODE".to_string()).unwrap(), vec![0x0018]);
    assert_eq!(assemble_to_words(" EXEC 1".to_string()).unwrap(), vec![0x0019]);
    // Synonym spellings map to one instruction.
    assert_eq!(
        assemble_to_words(" RET".to_string()).unwrap(),
        assemble_to_words(" RETURN".to_string()).unwrap()
    );
    assert_eq!(
        assemble_to_words(" MOV 3, 1".to_string()).unwrap(),
        assemble_to_words(" MOVF 3, F".to_string()).unwrap()
    );
}

#[test]
fn default_symbols_are_seeded() {
    // SFR_DATA_REG0 is 0x20 in the built-in table.
    assert_eq!(
        assemble_to_words(" MOVL SFR_DATA_REG0".to_string()).unwrap(),
        vec![0x4020]
    );
    // A custom empty table does not know the name.
    let prog = vec![Stmt::Inst(None, Mnemonic::MOVL, Operand::Op1(Expr::Label(id("SFR_DATA_REG0"))))];
    assert_eq!(
        assemble_with_symbols(&SymTab::new(), &prog),
        Err(AssembleError::SymbolResolveError("SFR_DATA_REG0".to_string()))
    );
}

#[test]
fn include_expansion_splices_sources() {
    let mut files = Sources::new();
    files.add("lib.asm".to_string(), " NOP\n NOP".to_string());
    let prog = vec![
        Stmt::Inst(None, Mnemonic::CLRA, Operand::Op0),
        Stmt::Include("lib.asm".to_string()),
        Stmt::Inst(None, Mnemonic::RET, Operand::Op0),
    ];
    let expanded = expand_include(&prog, &files).unwrap();
    assert_eq!(
        expanded,
        vec![
            Stmt::Inst(None, Mnemonic::CLRA, Operand::Op0),
            Stmt::Inst(None, Mnemonic::NOP, Operand::Op0),
            Stmt::Inst(None, Mnemonic::NOP, Operand::Op0),
            Stmt::Inst(None, Mnemonic::RET, Operand::Op0),
        ]
    );
}

#[test]
fn include_missing_source_fails() {
    assert_eq!(
        assemble_to_words("INCLUDE NOPE.ASM".to_string()),
        Err(AssembleError::IncludeError("NOPE.ASM".to_string()))
    );
    let files = Sources::new();
    let prog = vec![Stmt::Include("a.asm".to_string())];
    assert_eq!(
        expand_include(&prog, &files),
        Err(AssembleError::IncludeError("a.asm".to_string()))
    );
}

#[test]
fn include_cycle_is_reported() {
    let mut files = Sources::new();
    files.add("a.asm".to_string(), "INCLUDE b.asm".to_string());
    files.add("b.asm".to_string(), "INCLUDE a.asm".to_string());
    let prog = vec![Stmt::Include("a.asm".to_string())];
    assert!(matches!(
        expand_include(&prog, &files),
        Err(AssembleError::IncludeError(_))
    ));
}

#[test]
fn resolution_without_definitions_is_identity() {
    let mut base = SymTab::new();
    base.insert("x".to_string(), 7);
    let prog = vec![Stmt::Inst(None, Mnemonic::NOP, Operand::Op0), Stmt::Origin(Expr::Num(4)), Stmt::Inst(None, Mnemonic::NOP, Operand::Op0)];
    let resolved = resolve_symbol(base.clone_table(), &prog).unwrap();
    assert_eq!(resolved, base);
}

#[test]
fn character_operand_assembles() {
    assert_eq!(
        assemble_to_words(" MOVL 'a'".to_string()).unwrap(),
        vec![0x4061]
    );
}

#[test]
fn sfr_addresses_round_trip() {
    assert_eq!(Sfr::from_addr(0x02), Some(Sfr::ProgramCounter));
    assert_eq!(Sfr::from_addr(0x0D), None);
    let regs = vec![Sfr::Status, Sfr::PortIO, Sfr::Data31];
    for r in regs {
        assert_eq!(Sfr::from_addr(r.addr()), Some(r));
    }
}

#[test]
fn render_text_is_exact() {
    assert_eq!(Inst::BitSet(Reg(0x9B), U3(3)).render(), "BS 155, 3");
    assert_eq!(Inst::Move(Reg(31), Dest::A).render(), "MOV 31, A");
    assert_eq!(Inst::Move(Reg(31), Dest::F).render(), "MOV 31, F");
    assert_eq!(Inst::Nop.render(), "NOP");
    assert_eq!(Inst::MoveImm(0).render(), "MOVL 0");
    assert_eq!(Inst::Unknown(0x1FFF).render(), "DW 8191");
    let lines = pioc_asm::codec::disassemble(&vec![0x0000, 0x2B9B]);
    assert_eq!(lines, vec!["NOP".to_string(), "BS 155, 3".to_string()]);
}

#[test]
fn rendered_lines_reassemble() {
    // Round trip: decode of an assembled word renders to a line that
    // assembles back to the same word.
    let sources = vec![
        " NOP", " CLRWDT", " SLEEPX 2", " WAITB 5", " RCODE 1", " BCTC 3", " PUSHAS", " POPAS",
        " PUSHA2", " POPA2", " RET", " RETZ", " RETIE", " CLRA", " CLR 7", " MOVA 200",
        " MOV 31, A", " INC 5", " DEC 5, 1", " INCSZ 0, 0", " DECSZ 255", " SWAP 9, A",
        " AND 1", " IOR 2", " XOR 3", " ADD 4", " SUB 5", " RCL 6", " RCR 7", " RETL 16",
        " RETLN 255", " MOVIP 1", " MOVIA 2", " MOVA1F 3", " MOVA2F 4", " MOVA1P 127",
        " MOVA2P 0", " MOVL 10", " ANDL 11", " IORL 12", " XORL 13", " ADDL 14", " SUBL 15",
        " CMPLN 16", " CMPL 17", " BC 155, 3", " BS 0, 0", " BTSC 255, 7", " BTSS 1, 1",
        " BP1F 2, 3", " BP2F 0, 7", " BG1F 3, 0", " BG2F 1, 5", " JMP 4095", " CALL 1",
        " JNZ 1023", " JZ 0", " JNC 512", " JC 7", " CMPZ 127, 255", " DW 8191",
    ];
    for src in sources {
        let words = assemble_to_words(src.to_string()).unwrap();
        assert_eq!(words.len(), 1, "{}", src);
        let inst = Inst::from_word(words[0]);
        let rendered = format!(" {}", inst.render());
        let again = assemble_to_words(rendered.clone()).unwrap();
        assert_eq!(again, words, "{} -> {}", src, rendered);
    }
}
