//! Assembler and disassembler for a fixed-word 16-bit microcontroller
//! instruction set: an 8-bit RISC-style core with special-function-register
//! addressing, bit-level I/O instructions, and a small jump/call space.
//!
//! The crate parses assembly source into statements, resolves symbols by a
//! fixed-point pass anchored to `ORG` directives, emits 16-bit instruction
//! words through an exact bit-packing codec, and can invert single words back
//! into mnemonic form.

pub mod assemble;
pub mod ast;
pub mod codec;
pub mod parse;
pub mod regs;
pub mod symbol;

use vstd::prelude::*;

use crate::assemble::{
    assemble, expand_include, spec_assemble_with_symbols, spec_expand_all, AssembleError,
    AssembleErrorV, Sources,
};
use crate::ast::stmts_view;
use crate::codec::{all_wf, Inst};
use crate::parse::{lemma_parse_origin_ok, parse, spec_parse};
use crate::symbol::{default_symbols, lemma_resolvable_parts};

verus! {

/// The words of an instruction sequence.
pub open spec fn words_of(insts: Seq<Inst>) -> Seq<u16> {
    insts.map_values(|i: Inst| (i.word_of() as u16))
}

/// What parsing and assembling a whole program yields: the parsed
/// statements, expanded against no sources (so any include fails), resolved
/// against the built-in symbol table, emitted, and encoded word by word.
pub open spec fn spec_assemble_to_words(s: Seq<char>) -> Result<Seq<u16>, AssembleErrorV> {
    match spec_parse(s) {
        Err(pe) => Err(AssembleErrorV::ParseError(pe)),
        Ok(stmts) => match spec_expand_all(stmts, Seq::empty()) {
            Err(e) => Err(e),
            Ok(ex) => match spec_assemble_with_symbols(default_symbols(), ex) {
                Err(e) => Err(e),
                Ok(insts) => Ok(words_of(insts)),
            },
        },
    }
}

/// Parse and assemble an assembly program into its 16-bit instruction
/// words.
pub fn assemble_to_words(source: String) -> (r: Result<Vec<u16>, AssembleError>)
    ensures
        match r {
            Ok(v) => spec_assemble_to_words(source@) == Ok::<Seq<u16>, AssembleErrorV>(v@),
            Err(e) => spec_assemble_to_words(source@) == Err::<Seq<u16>, AssembleErrorV>(e@),
        },
{
    let stmts = match parse(source.as_str()) {
        Ok(v) => v,
        Err(pe) => {
            return Err(AssembleError::ParseError(pe));
        },
    };
    let files = Sources::new();
    let expanded = match expand_include(&stmts, &files) {
        Ok(v) => v,
        Err(e) => {
            return Err(e);
        },
    };
    proof {
        lemma_parse_origin_ok(source@);
        crate::assemble::lemma_expand_clean(stmts_view(stmts@), files@, (files@.len() + 1) as nat);
        lemma_resolvable_parts(stmts_view(expanded@));
    }
    let insts = match assemble(&expanded) {
        Ok(v) => v,
        Err(e) => {
            return Err(e);
        },
    };
    let mut words: Vec<u16> = Vec::new();
    let mut k: usize = 0;
    while k < insts.len()
        invariant
            k <= insts@.len(),
            all_wf(insts@),
            words@.len() == k,
            forall|j: int| 0 <= j < k ==> words@[j] == insts@[j].word_of(),
        decreases insts@.len() - k,
    {
        words.push(insts[k].to_word());
        k = k + 1;
    }
    proof {
        assert(words@ =~= words_of(insts@));
    }
    Ok(words)
}

} // verus!
