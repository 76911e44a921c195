//! Symbol table and the fixed-point symbol resolution pass.
//!
//! The resolver walks the statement sequence once, tracking the current
//! origin expression and a byte offset, and records every `EQU` definition
//! and instruction label as an unresolved entry. It then repeatedly scans
//! the unresolved entries in ascending name order; an entry resolves when it
//! is a literal or refers to a name already present in the table. The loop
//! stops at the pass that resolves nothing; leftover names are an error,
//! except the reserved operand selectors `a`/`f`.

use vstd::prelude::*;

use crate::assemble::{AssembleError, AssembleErrorV};
use crate::ast::{stmts_view, Expr, ExprV, Ident, Stmt, StmtV};

verus! {

/// One symbol-table entry.
#[derive(Debug, Clone, PartialEq, Eq)]
pub struct SymEntry {
    pub name: String,
    pub val: i32,
}

/// Mapping from symbol names to resolved 32-bit values. Entries are only
/// ever added (an added entry may shadow an earlier one of the same name).
#[derive(Debug, Clone, PartialEq, Eq)]
pub struct SymTab {
    pub entries: Vec<SymEntry>,
}

/// The mapping denoted by a list of entries: later entries win.
pub open spec fn map_of(entries: Seq<SymEntry>) -> Map<Seq<char>, i32>
    decreases entries.len(),
{
    if entries.len() == 0 {
        Map::empty()
    } else {
        let e = entries.last();
        map_of(entries.drop_last()).insert(e.name@, e.val)
    }
}

impl View for SymTab {
    type V = Map<Seq<char>, i32>;

    open spec fn view(&self) -> Map<Seq<char>, i32> {
        map_of(self.entries@)
    }
}

impl SymTab {
    /// An empty symbol table.
    pub fn new() -> (r: SymTab)
        ensures
            r@ == Map::<Seq<char>, i32>::empty(),
    {
        SymTab { entries: Vec::new() }
    }

    /// Add a symbol, shadowing any earlier entry of the same name.
    pub fn insert(&mut self, name: String, v: i32)
        ensures
            final(self)@ == old(self)@.insert(name@, v),
    {
        let ghost pre = self.entries@;
        let ghost n = name@;
        self.entries.push(SymEntry { name, val: v });
        proof {
            assert(self.entries@.drop_last() =~= pre);
        }
    }

    /// Look up a symbol.
    pub fn get(&self, name: &String) -> (r: Option<i32>)
        ensures
            match r {
                Some(v) => self@.contains_key(name@) && self@[name@] == v,
                None => !self@.contains_key(name@),
            },
    {
        let mut found: Option<i32> = None;
        let mut i: usize = 0;
        while i < self.entries.len()
            invariant
                i <= self.entries.len(),
                match found {
                    Some(v) => map_of(self.entries@.take(i as int)).contains_key(name@)
                        && map_of(self.entries@.take(i as int))[name@] == v,
                    None => !map_of(self.entries@.take(i as int)).contains_key(name@),
                },
            decreases self.entries.len() - i,
        {
            proof {
                assert(self.entries@.take(i + 1).drop_last() =~= self.entries@.take(i as int));
                assert(self.entries@.take(i + 1).last() == self.entries@[i as int]);
            }
            if self.entries[i].name == *name {
                found = Some(self.entries[i].val);
            }
            i = i + 1;
        }
        proof {
            assert(self.entries@.take(self.entries@.len() as int) =~= self.entries@);
        }
        found
    }
}

/// The built-in table of special-function-register and bit names.
pub open spec fn default_symbols() -> Map<Seq<char>, i32> {
    Map::<Seq<char>, i32>::empty()
        .insert("SFR_INDIR_PORT"@, 0x00)
        .insert("SFR_INDIR_PORT2"@, 0x01)
        .insert("SFR_PRG_COUNT"@, 0x02)
        .insert("SFR_STATUS_REG"@, 0x03)
        .insert("SFR_INDIR_ADDR"@, 0x04)
        .insert("SFR_TMR0_COUNT"@, 0x05)
        .insert("SFR_TIMER_CTRL"@, 0x06)
        .insert("SFR_TMR0_INIT"@, 0x07)
        .insert("SFR_BIT_CYCLE"@, 0x08)
        .insert("SFR_INDIR_ADDR2"@, 0x09)
        .insert("SFR_PORT_DIR"@, 0x0A)
        .insert("SFR_PORT_IO"@, 0x0B)
        .insert("SFR_BIT_CONFIG"@, 0x0C)
        .insert("SFR_SYS_CFG"@, 0x1C)
        .insert("SFR_CTRL_RD"@, 0x1D)
        .insert("SFR_CTRL_WR"@, 0x1E)
        .insert("SFR_DATA_EXCH"@, 0x1F)
        .insert("SFR_DATA_REG0"@, 0x20)
        .insert("SFR_DATA_REG1"@, 0x21)
        .insert("SFR_DATA_REG2"@, 0x22)
        .insert("SFR_DATA_REG3"@, 0x23)
        .insert("SFR_DATA_REG4"@, 0x24)
        .insert("SFR_DATA_REG5"@, 0x25)
        .insert("SFR_DATA_REG6"@, 0x26)
        .insert("SFR_DATA_REG7"@, 0x27)
        .insert("SFR_DATA_REG8"@, 0x28)
        .insert("SFR_DATA_REG9"@, 0x29)
        .insert("SFR_DATA_REG10"@, 0x2A)
        .insert("SFR_DATA_REG11"@, 0x2B)
        .insert("SFR_DATA_REG12"@, 0x2C)
        .insert("SFR_DATA_REG13"@, 0x2D)
        .insert("SFR_DATA_REG14"@, 0x2E)
        .insert("SFR_DATA_REG15"@, 0x2F)
        .insert("SFR_DATA_REG16"@, 0x30)
        .insert("SFR_DATA_REG17"@, 0x31)
        .insert("SFR_DATA_REG18"@, 0x32)
        .insert("SFR_DATA_REG19"@, 0x33)
        .insert("SFR_DATA_REG20"@, 0x34)
        .insert("SFR_DATA_REG21"@, 0x35)
        .insert("SFR_DATA_REG22"@, 0x36)
        .insert("SFR_DATA_REG23"@, 0x37)
        .insert("SFR_DATA_REG24"@, 0x38)
        .insert("SFR_DATA_REG25"@, 0x39)
        .insert("SFR_DATA_REG26"@, 0x3A)
        .insert("SFR_DATA_REG27"@, 0x3B)
        .insert("SFR_DATA_REG28"@, 0x3C)
        .insert("SFR_DATA_REG29"@, 0x3D)
        .insert("SFR_DATA_REG30"@, 0x3E)
        .insert("SFR_DATA_REG31"@, 0x3F)
        .insert("SB_EN_TOUT_RST"@, 5)
        .insert("SB_STACK_USED"@, 4)
        .insert("SB_GP_BIT_Y"@, 3)
        .insert("SB_FLAG_Z"@, 2)
        .insert("SB_GP_BIT_X"@, 1)
        .insert("SB_FLAG_C"@, 0)
        .insert("SB_EN_LEVEL1"@, 7)
        .insert("SB_EN_LEVEL0"@, 6)
        .insert("SB_TMR0_ENABLE"@, 5)
        .insert("SB_TMR0_OUT_EN"@, 4)
        .insert("SB_TMR0_MODE"@, 3)
        .insert("SB_TMR0_FREQ2"@, 2)
        .insert("SB_TMR0_FREQ1"@, 1)
        .insert("SB_TMR0_FREQ0"@, 0)
        .insert("SB_BIT_TX_O0"@, 7)
        .insert("SB_BIT_CYCLE_6"@, 6)
        .insert("SB_BIT_CYCLE_5"@, 5)
        .insert("SB_BIT_CYCLE_4"@, 4)
        .insert("SB_BIT_CYCLE_3"@, 3)
        .insert("SB_BIT_CYCLE_2"@, 2)
        .insert("SB_BIT_CYCLE_1"@, 1)
        .insert("SB_BIT_CYCLE_0"@, 0)
        .insert("SB_PORT_MOD3"@, 7)
        .insert("SB_PORT_MOD2"@, 6)
        .insert("SB_PORT_MOD1"@, 5)
        .insert("SB_PORT_MOD0"@, 4)
        .insert("SB_PORT_PU1"@, 3)
        .insert("SB_PORT_PU0"@, 2)
        .insert("SB_PORT_DIR1"@, 1)
        .insert("SB_PORT_DIR0"@, 0)
        .insert("SB_PORT_IN_XOR"@, 7)
        .insert("SB_BIT_RX_I0"@, 6)
        .insert("SB_PORT_IN1"@, 5)
        .insert("SB_PORT_IN0"@, 4)
        .insert("SB_PORT_XOR1"@, 3)
        .insert("SB_PORT_XOR0"@, 2)
        .insert("SB_PORT_OUT1"@, 1)
        .insert("SB_PORT_OUT0"@, 0)
        .insert("SB_BIT_TX_EN"@, 7)
        .insert("SB_BIT_CODE_MOD"@, 6)
        .insert("SB_PORT_IN_EDGE"@, 5)
        .insert("SB_BIT_CYC_TAIL"@, 4)
        .insert("SB_BIT_CYC_CNT6"@, 3)
        .insert("SB_BIT_CYC_CNT5"@, 2)
        .insert("SB_BIT_CYC_CNT4"@, 1)
        .insert("SB_BIT_CYC_CNT3"@, 0)
        .insert("SB_INT_REQ"@, 7)
        .insert("SB_DATA_SW_MR"@, 6)
        .insert("SB_DATA_MW_SR"@, 5)
        .insert("SB_MST_CFG_B4"@, 4)
        .insert("SB_MST_IO_EN1"@, 3)
        .insert("SB_MST_IO_EN0"@, 2)
        .insert("SB_MST_RESET"@, 1)
        .insert("SB_MST_CLK_GATE"@, 0)
        .insert("BI_C_XOR_IN0"@, 0)
        .insert("BIO_FLAG_C"@, 0)
        .insert("BI_BIT_RX_I0"@, 1)
        .insert("BI_PORT_IN0"@, 2)
        .insert("BI_PORT_IN1"@, 3)
        .insert("BO_BIT_TX_O0"@, 1)
        .insert("BO_PORT_OUT0"@, 2)
        .insert("BO_PORT_OUT1"@, 3)
        .insert("WB_DATA_SW_MR_0"@, 0)
        .insert("WB_BIT_CYC_TAIL_1"@, 1)
        .insert("WB_PORT_I0_FALL"@, 2)
        .insert("WB_PORT_I0_RISE"@, 3)
        .insert("WB_DATA_MW_SR_1"@, 4)
        .insert("WB_PORT_XOR1_1"@, 5)
        .insert("WB_PORT_XOR0_0"@, 6)
        .insert("WB_PORT_XOR0_1"@, 7)
}

#[verifier::rlimit(100)]
#[verifier::spinoff_prover]
fn push_defaults_0(t: &mut SymTab)
    ensures
        final(t)@ == old(t)@.insert("SFR_INDIR_PORT"@, 0x00).insert("SFR_INDIR_PORT2"@, 0x01).insert("SFR_PRG_COUNT"@, 0x02).insert("SFR_STATUS_REG"@, 0x03).insert("SFR_INDIR_ADDR"@, 0x04).insert("SFR_TMR0_COUNT"@, 0x05).insert("SFR_TIMER_CTRL"@, 0x06).insert("SFR_TMR0_INIT"@, 0x07).insert("SFR_BIT_CYCLE"@, 0x08).insert("SFR_INDIR_ADDR2"@, 0x09).insert("SFR_PORT_DIR"@, 0x0A).insert("SFR_PORT_IO"@, 0x0B).insert("SFR_BIT_CONFIG"@, 0x0C).insert("SFR_SYS_CFG"@, 0x1C).insert("SFR_CTRL_RD"@, 0x1D).insert("SFR_CTRL_WR"@, 0x1E).insert("SFR_DATA_EXCH"@, 0x1F).insert("SFR_DATA_REG0"@, 0x20).insert("SFR_DATA_REG1"@, 0x21).insert("SFR_DATA_REG2"@, 0x22).insert("SFR_DATA_REG3"@, 0x23).insert("SFR_DATA_REG4"@, 0x24).insert("SFR_DATA_REG5"@, 0x25).insert("SFR_DATA_REG6"@, 0x26).insert("SFR_DATA_REG7"@, 0x27).insert("SFR_DATA_REG8"@, 0x28).insert("SFR_DATA_REG9"@, 0x29).insert("SFR_DATA_REG10"@, 0x2A).insert("SFR_DATA_REG11"@, 0x2B).insert("SFR_DATA_REG12"@, 0x2C),
{
    t.insert(String::from_str("SFR_INDIR_PORT"), 0x00);
    t.insert(String::from_str("SFR_INDIR_PORT2"), 0x01);
    t.insert(String::from_str("SFR_PRG_COUNT"), 0x02);
    t.insert(String::from_str("SFR_STATUS_REG"), 0x03);
    t.insert(String::from_str("SFR_INDIR_ADDR"), 0x04);
    t.insert(String::from_str("SFR_TMR0_COUNT"), 0x05);
    t.insert(String::from_str("SFR_TIMER_CTRL"), 0x06);
    t.insert(String::from_str("SFR_TMR0_INIT"), 0x07);
    t.insert(String::from_str("SFR_BIT_CYCLE"), 0x08);
    t.insert(String::from_str("SFR_INDIR_ADDR2"), 0x09);
    t.insert(String::from_str("SFR_PORT_DIR"), 0x0A);
    t.insert(String::from_str("SFR_PORT_IO"), 0x0B);
    t.insert(String::from_str("SFR_BIT_CONFIG"), 0x0C);
    t.insert(String::from_str("SFR_SYS_CFG"), 0x1C);
    t.insert(String::from_str("SFR_CTRL_RD"), 0x1D);
    t.insert(String::from_str("SFR_CTRL_WR"), 0x1E);
    t.insert(String::from_str("SFR_DATA_EXCH"), 0x1F);
    t.insert(String::from_str("SFR_DATA_REG0"), 0x20);
    t.insert(String::from_str("SFR_DATA_REG1"), 0x21);
    t.insert(String::from_str("SFR_DATA_REG2"), 0x22);
    t.insert(String::from_str("SFR_DATA_REG3"), 0x23);
    t.insert(String::from_str("SFR_DATA_REG4"), 0x24);
    t.insert(String::from_str("SFR_DATA_REG5"), 0x25);
    t.insert(String::from_str("SFR_DATA_REG6"), 0x26);
    t.insert(String::from_str("SFR_DATA_REG7"), 0x27);
    t.insert(String::from_str("SFR_DATA_REG8"), 0x28);
    t.insert(String::from_str("SFR_DATA_REG9"), 0x29);
    t.insert(String::from_str("SFR_DATA_REG10"), 0x2A);
    t.insert(String::from_str("SFR_DATA_REG11"), 0x2B);
    t.insert(String::from_str("SFR_DATA_REG12"), 0x2C);
}

#[verifier::rlimit(100)]
#[verifier::spinoff_prover]
fn push_defaults_1(t: &mut SymTab)
    ensures
        final(t)@ == old(t)@.insert("SFR_DATA_REG13"@, 0x2D).insert("SFR_DATA_REG14"@, 0x2E).insert("SFR_DATA_REG15"@, 0x2F).insert("SFR_DATA_REG16"@, 0x30).insert("SFR_DATA_REG17"@, 0x31).insert("SFR_DATA_REG18"@, 0x32).insert("SFR_DATA_REG19"@, 0x33).insert("SFR_DATA_REG20"@, 0x34).insert("SFR_DATA_REG21"@, 0x35).insert("SFR_DATA_REG22"@, 0x36).insert("SFR_DATA_REG23"@, 0x37).insert("SFR_DATA_REG24"@, 0x38).insert("SFR_DATA_REG25"@, 0x39).insert("SFR_DATA_REG26"@, 0x3A).insert("SFR_DATA_REG27"@, 0x3B).insert("SFR_DATA_REG28"@, 0x3C).insert("SFR_DATA_REG29"@, 0x3D).insert("SFR_DATA_REG30"@, 0x3E).insert("SFR_DATA_REG31"@, 0x3F).insert("SB_EN_TOUT_RST"@, 5).insert("SB_STACK_USED"@, 4).insert("SB_GP_BIT_Y"@, 3).insert("SB_FLAG_Z"@, 2).insert("SB_GP_BIT_X"@, 1).insert("SB_FLAG_C"@, 0).insert("SB_EN_LEVEL1"@, 7).insert("SB_EN_LEVEL0"@, 6).insert("SB_TMR0_ENABLE"@, 5).insert("SB_TMR0_OUT_EN"@, 4).insert("SB_TMR0_MODE"@, 3),
{
    t.insert(String::from_str("SFR_DATA_REG13"), 0x2D);
    t.insert(String::from_str("SFR_DATA_REG14"), 0x2E);
    t.insert(String::from_str("SFR_DATA_REG15"), 0x2F);
    t.insert(String::from_str("SFR_DATA_REG16"), 0x30);
    t.insert(String::from_str("SFR_DATA_REG17"), 0x31);
    t.insert(String::from_str("SFR_DATA_REG18"), 0x32);
    t.insert(String::from_str("SFR_DATA_REG19"), 0x33);
    t.insert(String::from_str("SFR_DATA_REG20"), 0x34);
    t.insert(String::from_str("SFR_DATA_REG21"), 0x35);
    t.insert(String::from_str("SFR_DATA_REG22"), 0x36);
    t.insert(String::from_str("SFR_DATA_REG23"), 0x37);
    t.insert(String::from_str("SFR_DATA_REG24"), 0x38);
    t.insert(String::from_str("SFR_DATA_REG25"), 0x39);
    t.insert(String::from_str("SFR_DATA_REG26"), 0x3A);
    t.insert(String::from_str("SFR_DATA_REG27"), 0x3B);
    t.insert(String::from_str("SFR_DATA_REG28"), 0x3C);
    t.insert(String::from_str("SFR_DATA_REG29"), 0x3D);
    t.insert(String::from_str("SFR_DATA_REG30"), 0x3E);
    t.insert(String::from_str("SFR_DATA_REG31"), 0x3F);
    t.insert(String::from_str("SB_EN_TOUT_RST"), 5);
    t.insert(String::from_str("SB_STACK_USED"), 4);
    t.insert(String::from_str("SB_GP_BIT_Y"), 3);
    t.insert(String::from_str("SB_FLAG_Z"), 2);
    t.insert(String::from_str("SB_GP_BIT_X"), 1);
    t.insert(String::from_str("SB_FLAG_C"), 0);
    t.insert(String::from_str("SB_EN_LEVEL1"), 7);
    t.insert(String::from_str("SB_EN_LEVEL0"), 6);
    t.insert(String::from_str("SB_TMR0_ENABLE"), 5);
    t.insert(String::from_str("SB_TMR0_OUT_EN"), 4);
    t.insert(String::from_str("SB_TMR0_MODE"), 3);
}

#[verifier::rlimit(100)]
#[verifier::spinoff_prover]
fn push_defaults_2(t: &mut SymTab)
    ensures
        final(t)@ == old(t)@.insert("SB_TMR0_FREQ2"@, 2).insert("SB_TMR0_FREQ1"@, 1).insert("SB_TMR0_FREQ0"@, 0).insert("SB_BIT_TX_O0"@, 7).insert("SB_BIT_CYCLE_6"@, 6).insert("SB_BIT_CYCLE_5"@, 5).insert("SB_BIT_CYCLE_4"@, 4).insert("SB_BIT_CYCLE_3"@, 3).insert("SB_BIT_CYCLE_2"@, 2).insert("SB_BIT_CYCLE_1"@, 1).insert("SB_BIT_CYCLE_0"@, 0).insert("SB_PORT_MOD3"@, 7).insert("SB_PORT_MOD2"@, 6).insert("SB_PORT_MOD1"@, 5).insert("SB_PORT_MOD0"@, 4).insert("SB_PORT_PU1"@, 3).insert("SB_PORT_PU0"@, 2).insert("SB_PORT_DIR1"@, 1).insert("SB_PORT_DIR0"@, 0).insert("SB_PORT_IN_XOR"@, 7).insert("SB_BIT_RX_I0"@, 6).insert("SB_PORT_IN1"@, 5).insert("SB_PORT_IN0"@, 4).insert("SB_PORT_XOR1"@, 3).insert("SB_PORT_XOR0"@, 2).insert("SB_PORT_OUT1"@, 1).insert("SB_PORT_OUT0"@, 0).insert("SB_BIT_TX_EN"@, 7).insert("SB_BIT_CODE_MOD"@, 6).insert("SB_PORT_IN_EDGE"@, 5),
{
    t.insert(String::from_str("SB_TMR0_FREQ2"), 2);
    t.insert(String::from_str("SB_TMR0_FREQ1"), 1);
    t.insert(String::from_str("SB_TMR0_FREQ0"), 0);
    t.insert(String::from_str("SB_BIT_TX_O0"), 7);
    t.insert(String::from_str("SB_BIT_CYCLE_6"), 6);
    t.insert(String::from_str("SB_BIT_CYCLE_5"), 5);
    t.insert(String::from_str("SB_BIT_CYCLE_4"), 4);
    t.insert(String::from_str("SB_BIT_CYCLE_3"), 3);
    t.insert(String::from_str("SB_BIT_CYCLE_2"), 2);
    t.insert(String::from_str("SB_BIT_CYCLE_1"), 1);
    t.insert(String::from_str("SB_BIT_CYCLE_0"), 0);
    t.insert(String::from_str("SB_PORT_MOD3"), 7);
    t.insert(String::from_str("SB_PORT_MOD2"), 6);
    t.insert(String::from_str("SB_PORT_MOD1"), 5);
    t.insert(String::from_str("SB_PORT_MOD0"), 4);
    t.insert(String::from_str("SB_PORT_PU1"), 3);
    t.insert(String::from_str("SB_PORT_PU0"), 2);
    t.insert(String::from_str("SB_PORT_DIR1"), 1);
    t.insert(String::from_str("SB_PORT_DIR0"), 0);
    t.insert(String::from_str("SB_PORT_IN_XOR"), 7);
    t.insert(String::from_str("SB_BIT_RX_I0"), 6);
    t.insert(String::from_str("SB_PORT_IN1"), 5);
    t.insert(String::from_str("SB_PORT_IN0"), 4);
    t.insert(String::from_str("SB_PORT_XOR1"), 3);
    t.insert(String::from_str("SB_PORT_XOR0"), 2);
    t.insert(String::from_str("SB_PORT_OUT1"), 1);
    t.insert(String::from_str("SB_PORT_OUT0"), 0);
    t.insert(String::from_str("SB_BIT_TX_EN"), 7);
    t.insert(String::from_str("SB_BIT_CODE_MOD"), 6);
    t.insert(String::from_str("SB_PORT_IN_EDGE"), 5);
}

#[verifier::rlimit(100)]
#[verifier::spinoff_prover]
fn push_defaults_3(t: &mut SymTab)
    ensures
        final(t)@ == old(t)@.insert("SB_BIT_CYC_TAIL"@, 4).insert("SB_BIT_CYC_CNT6"@, 3).insert("SB_BIT_CYC_CNT5"@, 2).insert("SB_BIT_CYC_CNT4"@, 1).insert("SB_BIT_CYC_CNT3"@, 0).insert("SB_INT_REQ"@, 7).insert("SB_DATA_SW_MR"@, 6).insert("SB_DATA_MW_SR"@, 5).insert("SB_MST_CFG_B4"@, 4).insert("SB_MST_IO_EN1"@, 3).insert("SB_MST_IO_EN0"@, 2).insert("SB_MST_RESET"@, 1).insert("SB_MST_CLK_GATE"@, 0).insert("BI_C_XOR_IN0"@, 0).insert("BIO_FLAG_C"@, 0).insert("BI_BIT_RX_I0"@, 1).insert("BI_PORT_IN0"@, 2).insert("BI_PORT_IN1"@, 3).insert("BO_BIT_TX_O0"@, 1).insert("BO_PORT_OUT0"@, 2).insert("BO_PORT_OUT1"@, 3).insert("WB_DATA_SW_MR_0"@, 0).insert("WB_BIT_CYC_TAIL_1"@, 1).insert("WB_PORT_I0_FALL"@, 2).insert("WB_PORT_I0_RISE"@, 3).insert("WB_DATA_MW_SR_1"@, 4).insert("WB_PORT_XOR1_1"@, 5).insert("WB_PORT_XOR0_0"@, 6).insert("WB_PORT_XOR0_1"@, 7),
{
    t.insert(String::from_str("SB_BIT_CYC_TAIL"), 4);
    t.insert(String::from_str("SB_BIT_CYC_CNT6"), 3);
    t.insert(String::from_str("SB_BIT_CYC_CNT5"), 2);
    t.insert(String::from_str("SB_BIT_CYC_CNT4"), 1);
    t.insert(String::from_str("SB_BIT_CYC_CNT3"), 0);
    t.insert(String::from_str("SB_INT_REQ"), 7);
    t.insert(String::from_str("SB_DATA_SW_MR"), 6);
    t.insert(String::from_str("SB_DATA_MW_SR"), 5);
    t.insert(String::from_str("SB_MST_CFG_B4"), 4);
    t.insert(String::from_str("SB_MST_IO_EN1"), 3);
    t.insert(String::from_str("SB_MST_IO_EN0"), 2);
    t.insert(String::from_str("SB_MST_RESET"), 1);
    t.insert(String::from_str("SB_MST_CLK_GATE"), 0);
    t.insert(String::from_str("BI_C_XOR_IN0"), 0);
    t.insert(String::from_str("BIO_FLAG_C"), 0);
    t.insert(String::from_str("BI_BIT_RX_I0"), 1);
    t.insert(String::from_str("BI_PORT_IN0"), 2);
    t.insert(String::from_str("BI_PORT_IN1"), 3);
    t.insert(String::from_str("BO_BIT_TX_O0"), 1);
    t.insert(String::from_str("BO_PORT_OUT0"), 2);
    t.insert(String::from_str("BO_PORT_OUT1"), 3);
    t.insert(String::from_str("WB_DATA_SW_MR_0"), 0);
    t.insert(String::from_str("WB_BIT_CYC_TAIL_1"), 1);
    t.insert(String::from_str("WB_PORT_I0_FALL"), 2);
    t.insert(String::from_str("WB_PORT_I0_RISE"), 3);
    t.insert(String::from_str("WB_DATA_MW_SR_1"), 4);
    t.insert(String::from_str("WB_PORT_XOR1_1"), 5);
    t.insert(String::from_str("WB_PORT_XOR0_0"), 6);
    t.insert(String::from_str("WB_PORT_XOR0_1"), 7);
}

impl Default for SymTab {
    /// The symbol table pre-seeded with the built-in register and bit names.
    fn default() -> (r: SymTab)
        ensures
            r@ == default_symbols(),
    {
        let mut t = SymTab::new();
        push_defaults_0(&mut t);
        push_defaults_1(&mut t);
        push_defaults_2(&mut t);
        push_defaults_3(&mut t);
        proof {
            assert(t@ == default_symbols());
        }
        t
    }
}


/// One unresolved definition: a name and the expression it awaits.
#[derive(Debug, Clone, PartialEq, Eq)]
pub struct UnEntry {
    pub name: String,
    pub expr: Expr,
}

/// Mathematical view of an unresolved entry.
pub struct EntryV {
    pub name: Seq<char>,
    pub expr: ExprV,
}

impl View for UnEntry {
    type V = EntryV;

    open spec fn view(&self) -> EntryV {
        EntryV { name: self.name@, expr: self.expr@ }
    }
}

/// The views of a list of unresolved entries.
pub open spec fn entries_view(s: Seq<UnEntry>) -> Seq<EntryV> {
    s.map_values(|u: UnEntry| u@)
}

/// Lexicographic order on names, by character code.
pub open spec fn seq_lt(a: Seq<char>, b: Seq<char>) -> bool
    decreases a.len(), b.len(),
{
    if b.len() == 0 {
        false
    } else if a.len() == 0 {
        true
    } else if (a[0] as int) < (b[0] as int) {
        true
    } else if (a[0] as int) > (b[0] as int) {
        false
    } else {
        seq_lt(a.drop_first(), b.drop_first())
    }
}

/// Insert an unresolved entry in ascending name order, replacing any entry
/// of the same name.
pub open spec fn insert_entry(s: Seq<EntryV>, name: Seq<char>, e: ExprV) -> Seq<EntryV>
    decreases s.len(),
{
    if s.len() == 0 {
        seq![EntryV { name, expr: e }]
    } else if name == s[0].name {
        seq![EntryV { name, expr: e }] + s.drop_first()
    } else if seq_lt(name, s[0].name) {
        seq![EntryV { name, expr: e }] + s
    } else {
        seq![s[0]] + insert_entry(s.drop_first(), name, e)
    }
}

/// Signed 32-bit wrapping addition, as the resolver computes addresses.
pub open spec fn wrap_add(a: i32, b: i32) -> i32 {
    vstd::wrapping::i32_specs::wrapping_add(a, b)
}

/// The unresolved entries gathered by the single linear pass over the
/// statements: every definition, and for every labeled instruction the
/// current origin expression plus the byte offset since that origin.
pub open spec fn collect_entries(
    prog: Seq<StmtV>,
    origin: ExprV,
    offset: i32,
    acc: Seq<EntryV>,
) -> Seq<EntryV>
    decreases prog.len(),
{
    if prog.len() == 0 {
        acc
    } else {
        let rest = prog.drop_first();
        match prog[0] {
            StmtV::Define(n, e) => collect_entries(rest, origin, offset, insert_entry(acc, n, e)),
            StmtV::Origin(e) => collect_entries(rest, e, 0, acc),
            StmtV::Inst(lbl, _, _) => {
                let acc2 = match lbl {
                    Some(l) => {
                        let le = match origin {
                            ExprV::Label(id) => ExprV::Add(id, offset),
                            ExprV::Num(v) => ExprV::Num(wrap_add(v, offset)),
                            ExprV::Add(id, k) => ExprV::Add(id, wrap_add(k, offset)),
                        };
                        insert_entry(acc, l, le)
                    },
                    None => acc,
                };
                collect_entries(rest, origin, wrap_add(offset, 2), acc2)
            },
            StmtV::Include(_) => collect_entries(rest, origin, offset, acc),
        }
    }
}

/// One resolution step: a literal resolves outright; a reference resolves
/// when its name is already in the table.
pub open spec fn resolve1(sym: Map<Seq<char>, i32>, e: ExprV) -> Option<i32> {
    match e {
        ExprV::Num(v) => Some(v),
        ExprV::Label(s) => if sym.contains_key(s) {
            Some(sym[s])
        } else {
            None
        },
        ExprV::Add(s, b) => if sym.contains_key(s) {
            Some(wrap_add(sym[s], b))
        } else {
            None
        },
    }
}

/// A symbol table together with the entries still unresolved.
pub struct PassResult {
    pub sym: Map<Seq<char>, i32>,
    pub rem: Seq<EntryV>,
}

/// One pass over the unresolved entries in order: each entry that resolves
/// is added to the table at once, so later entries of the same pass see it.
pub open spec fn do_pass(sym: Map<Seq<char>, i32>, entries: Seq<EntryV>) -> PassResult
    decreases entries.len(),
{
    if entries.len() == 0 {
        PassResult { sym, rem: Seq::empty() }
    } else {
        let e0 = entries[0];
        match resolve1(sym, e0.expr) {
            Some(v) => do_pass(sym.insert(e0.name, v), entries.drop_first()),
            None => {
                let r = do_pass(sym, entries.drop_first());
                PassResult { sym: r.sym, rem: seq![e0] + r.rem }
            },
        }
    }
}

/// A pass never grows the unresolved entries, and a pass that resolves
/// nothing leaves the table unchanged.
pub proof fn lemma_do_pass_len(sym: Map<Seq<char>, i32>, entries: Seq<EntryV>)
    ensures
        do_pass(sym, entries).rem.len() <= entries.len(),
        do_pass(sym, entries).rem.len() == entries.len() ==> do_pass(sym, entries).sym == sym,
    decreases entries.len(),
{
    if entries.len() > 0 {
        let e0 = entries[0];
        match resolve1(sym, e0.expr) {
            Some(v) => {
                lemma_do_pass_len(sym.insert(e0.name, v), entries.drop_first());
            },
            None => {
                lemma_do_pass_len(sym, entries.drop_first());
            },
        }
    }
}

/// The fixed point of repeated passes: iterate until a pass resolves
/// nothing.
pub open spec fn fix_resolve(sym: Map<Seq<char>, i32>, entries: Seq<EntryV>) -> PassResult
    decreases entries.len()
        via fix_resolve_dec
{
    let r = do_pass(sym, entries);
    if r.rem.len() == entries.len() {
        PassResult { sym, rem: entries }
    } else {
        fix_resolve(r.sym, r.rem)
    }
}

#[via_fn]
proof fn fix_resolve_dec(sym: Map<Seq<char>, i32>, entries: Seq<EntryV>) {
    lemma_do_pass_len(sym, entries);
}

/// The reserved operand selectors `a`/`f` (case-insensitive), which are
/// consumed by operand decoding and never need to resolve as symbols.
pub open spec fn reserved_name(name: Seq<char>) -> bool {
    name.len() == 1 && (name[0] == 'a' || name[0] == 'A' || name[0] == 'f' || name[0] == 'F')
}

/// The lowest-sorting unresolved name that is not reserved, if any.
pub open spec fn first_bad(rem: Seq<EntryV>) -> Option<Seq<char>>
    decreases rem.len(),
{
    if rem.len() == 0 {
        None
    } else if !reserved_name(rem[0].name) {
        Some(rem[0].name)
    } else {
        first_bad(rem.drop_first())
    }
}

/// A statement sequence the resolver accepts: already include-expanded, and
/// origin expressions are a literal or a bare identifier, never a sum.
pub open spec fn prog_resolvable(s: Seq<StmtV>) -> bool {
    forall|i: int|
        0 <= i < s.len() ==> match #[trigger] s[i] {
            StmtV::Include(_) => false,
            StmtV::Origin(e) => !(e is Add),
            _ => true,
        }
}

/// What symbol resolution returns: the table with every entry resolved, or
/// the lowest-sorting name that never resolved.
pub open spec fn spec_resolve(sym: Map<Seq<char>, i32>, prog: Seq<StmtV>) -> Result<
    Map<Seq<char>, i32>,
    AssembleErrorV,
> {
    let entries = collect_entries(prog, ExprV::Num(0), 0, Seq::empty());
    let r = fix_resolve(sym, entries);
    match first_bad(r.rem) {
        Some(n) => Err(AssembleErrorV::SymbolResolveError(n)),
        None => Ok(r.sym),
    }
}


/// Lexicographic comparison of two names, by character code.
pub fn str_lt(a: &String, b: &String) -> (r: bool)
    ensures
        r == seq_lt(a@, b@),
{
    let alen = a.as_str().unicode_len();
    let blen = b.as_str().unicode_len();
    let mut i: usize = 0;
    proof {
        assert(a@.skip(0) =~= a@);
        assert(b@.skip(0) =~= b@);
    }
    loop
        invariant
            i <= alen,
            i <= blen,
            alen == a@.len(),
            blen == b@.len(),
            seq_lt(a@, b@) == seq_lt(a@.skip(i as int), b@.skip(i as int)),
        decreases alen - i,
    {
        if i >= blen {
            proof {
                assert(b@.skip(i as int).len() == 0);
            }
            return false;
        }
        if i >= alen {
            proof {
                assert(a@.skip(i as int).len() == 0);
                assert(b@.skip(i as int).len() > 0);
            }
            return true;
        }
        let ca = a.as_str().get_char(i);
        let cb = b.as_str().get_char(i);
        proof {
            assert(a@.skip(i as int)[0] == a@[i as int]);
            assert(b@.skip(i as int)[0] == b@[i as int]);
        }
        if (ca as u32) < (cb as u32) {
            return true;
        }
        if (ca as u32) > (cb as u32) {
            return false;
        }
        proof {
            assert(a@.skip(i as int).drop_first() =~= a@.skip(i + 1));
            assert(b@.skip(i as int).drop_first() =~= b@.skip(i + 1));
        }
        i = i + 1;
    }
}

/// Whether a name is one of the reserved operand selectors `a`/`f`.
pub fn is_reserved(name: &String) -> (r: bool)
    ensures
        r == reserved_name(name@),
{
    if name.as_str().unicode_len() == 1 {
        let c = name.as_str().get_char(0);
        c == 'a' || c == 'A' || c == 'f' || c == 'F'
    } else {
        false
    }
}

/// Record an unresolved entry, keeping the list in ascending name order and
/// replacing any entry of the same name.
fn insert_unresolved(v: &mut Vec<UnEntry>, name: String, e: Expr)
    ensures
        entries_view(final(v)@) == insert_entry(entries_view(old(v)@), name@, e@),
{
    let mut j: usize = 0;
    proof {
        assert(entries_view(v@).skip(0) =~= entries_view(v@));
        assert(entries_view(v@).take(0) + insert_entry(entries_view(v@), name@, e@)
            =~= insert_entry(entries_view(v@), name@, e@));
    }
    loop
        invariant
            j <= v@.len(),
            entries_view(v@) == entries_view(old(v)@),
            v@.len() == old(v)@.len(),
            insert_entry(entries_view(v@), name@, e@) == entries_view(v@).take(j as int)
                + insert_entry(entries_view(v@).skip(j as int), name@, e@),
        decreases v@.len() - j,
    {
        let ghost evs = entries_view(v@);
        proof {
            assert(evs.len() == v@.len());
        }
        if j == v.len() {
            proof {
                assert(evs.skip(j as int).len() == 0);
            }
            let ghost n = name@;
            let ghost ee = e@;
            v.push(UnEntry { name, expr: e });
            proof {
                assert(entries_view(v@) =~= evs + seq![
                    EntryV { name: n, expr: ee },
                ]);
                assert(entries_view(v@) =~= evs.take(j as int) + insert_entry(
                    evs.skip(j as int),
                    n,
                    ee,
                ));
            }
            return ;
        }
        proof {
            assert(evs.skip(j as int)[0] == evs[j as int]);
            assert(evs[j as int] == v@[j as int]@);
        }
        if v[j].name == name {
            let ghost n = name@;
            let ghost ee = e@;
            v.remove(j);
            v.insert(j, UnEntry { name, expr: e });
            proof {
                assert(entries_view(v@) =~= evs.take(j as int) + (seq![
                    EntryV { name: n, expr: ee },
                ] + evs.skip(j as int).drop_first()));
            }
            return ;
        }
        if str_lt(&name, &v[j].name) {
            let ghost n = name@;
            let ghost ee = e@;
            v.insert(j, UnEntry { name, expr: e });
            proof {
                assert(entries_view(v@) =~= evs.take(j as int) + (seq![
                    EntryV { name: n, expr: ee },
                ] + evs.skip(j as int)));
            }
            return ;
        }
        proof {
            assert(evs.skip(j as int).drop_first() =~= evs.skip(j + 1));
            assert(evs.take(j + 1) =~= evs.take(j as int) + seq![evs[j as int]]);
            assert(evs.take(j as int) + (seq![evs[j as int]] + insert_entry(
                evs.skip(j + 1),
                name@,
                e@,
            )) =~= evs.take(j + 1) + insert_entry(evs.skip(j + 1), name@, e@));
        }
        j = j + 1;
    }
}


/// Resolve every name referenced by the statement sequence, starting from
/// the given table, or fail naming the lowest-sorting unresolvable symbol.
/// The statements must already be include-expanded, and origin expressions
/// are a literal or a bare identifier.
pub fn resolve_symbol(sym: SymTab, prog: &Vec<Stmt>) -> (r: Result<SymTab, AssembleError>)
    requires
        prog_resolvable(stmts_view(prog@)),
    ensures
        match r {
            Ok(t) => spec_resolve(sym@, stmts_view(prog@)) == Ok::<
                Map<Seq<char>, i32>,
                AssembleErrorV,
            >(t@),
            Err(e) => spec_resolve(sym@, stmts_view(prog@)) == Err::<
                Map<Seq<char>, i32>,
                AssembleErrorV,
            >(e@),
        },
{
    let ghost pv = stmts_view(prog@);
    let ghost sym0 = sym@;
    let mut sym = sym;
    let mut unresolved: Vec<UnEntry> = Vec::new();
    let mut origin: Expr = Expr::Num(0);
    let mut offset: i32 = 0;
    let mut idx: usize = 0;
    proof {
        assert(pv.skip(0) =~= pv);
        assert(entries_view(unresolved@) =~= Seq::<EntryV>::empty());
    }
    while idx < prog.len()
        invariant
            idx <= prog@.len(),
            pv == stmts_view(prog@),
            pv.len() == prog@.len(),
            prog_resolvable(pv),
            sym@ == sym0,
            (!(origin@ is Add)),
            collect_entries(pv, ExprV::Num(0), 0, Seq::empty()) == collect_entries(
                pv.skip(idx as int),
                origin@,
                offset,
                entries_view(unresolved@),
            ),
        decreases prog@.len() - idx,
    {
        proof {
            assert(pv[idx as int] == prog@[idx as int]@);
            assert(pv.skip(idx as int)[0] == pv[idx as int]);
            assert(pv.skip(idx as int).drop_first() =~= pv.skip(idx + 1));
        }
        match &prog[idx] {
            Stmt::Define(id, e) => {
                insert_unresolved(&mut unresolved, id.0.clone(), e.duplicate());
            },
            Stmt::Origin(e) => {
                origin = e.duplicate();
                offset = 0;
            },
            Stmt::Inst(lbl, _, _) => {
                match lbl {
                    Some(l) => {
                        let le: Expr = match &origin {
                            Expr::Label(id) => Expr::Add(Ident(id.0.clone()), offset),
                            Expr::Num(v) => Expr::Num(v.wrapping_add(offset)),
                            Expr::Add(id, k) => Expr::Add(Ident(id.0.clone()), (*k).wrapping_add(offset)),
                        };
                        insert_unresolved(&mut unresolved, l.0.clone(), le);
                    },
                    None => {},
                }
                offset = offset.wrapping_add(2);
            },
            Stmt::Include(_) => {
                proof {
                    assert(false);
                }
            },
        }
        idx = idx + 1;
    }
    proof {
        assert(pv.skip(pv.len() as int).len() == 0);
    }
    let ghost entries0 = collect_entries(pv, ExprV::Num(0), 0, Seq::empty());
    proof {
        assert(entries0 == entries_view(unresolved@));
    }
    let mut progress = true;
    while progress
        invariant
            progress ==> fix_resolve(sym0, entries0) == fix_resolve(
                sym@,
                entries_view(unresolved@),
            ),
            (!progress) ==> fix_resolve(sym0, entries0) == (PassResult {
                sym: sym@,
                rem: entries_view(unresolved@),
            }),
        decreases entries_view(unresolved@).len() + (if progress {
            1int
        } else {
            0int
        }),
    {
        let ghost syms = sym@;
        let ghost uv = entries_view(unresolved@);
        let mut kept: Vec<UnEntry> = Vec::new();
        let mut j: usize = 0;
        proof {
            assert(uv.skip(0) =~= uv);
            assert(entries_view(kept@) =~= Seq::<EntryV>::empty());
            assert(entries_view(kept@) + do_pass(sym@, uv).rem =~= do_pass(sym@, uv).rem);
        }
        while j < unresolved.len()
            invariant
                j <= unresolved@.len(),
                uv == entries_view(unresolved@),
                uv.len() == unresolved@.len(),
                entries_view(kept@).len() <= j,
                do_pass(syms, uv).sym == do_pass(sym@, uv.skip(j as int)).sym,
                do_pass(syms, uv).rem == entries_view(kept@) + do_pass(
                    sym@,
                    uv.skip(j as int),
                ).rem,
            decreases unresolved@.len() - j,
        {
            proof {
                assert(uv.skip(j as int)[0] == uv[j as int]);
                assert(uv[j as int] == unresolved@[j as int]@);
                assert(uv.skip(j as int).drop_first() =~= uv.skip(j + 1));
            }
            let ghost kv = entries_view(kept@);
            match &unresolved[j].expr {
                Expr::Num(v) => {
                    sym.insert(unresolved[j].name.clone(), *v);
                },
                Expr::Label(id) => {
                    match sym.get(&id.0) {
                        Some(v) => {
                            sym.insert(unresolved[j].name.clone(), v);
                        },
                        None => {
                            kept.push(
                                UnEntry {
                                    name: unresolved[j].name.clone(),
                                    expr: unresolved[j].expr.duplicate(),
                                },
                            );
                            proof {
                                assert(entries_view(kept@) =~= kv + seq![uv[j as int]]);
                                assert((kv + seq![uv[j as int]]) + do_pass(
                                    sym@,
                                    uv.skip(j + 1),
                                ).rem =~= kv + (seq![uv[j as int]] + do_pass(
                                    sym@,
                                    uv.skip(j + 1),
                                ).rem));
                            }
                        },
                    }
                },
                Expr::Add(id, b) => {
                    match sym.get(&id.0) {
                        Some(a) => {
                            sym.insert(unresolved[j].name.clone(), a.wrapping_add(*b));
                        },
                        None => {
                            kept.push(
                                UnEntry {
                                    name: unresolved[j].name.clone(),
                                    expr: unresolved[j].expr.duplicate(),
                                },
                            );
                            proof {
                                assert(entries_view(kept@) =~= kv + seq![uv[j as int]]);
                                assert((kv + seq![uv[j as int]]) + do_pass(
                                    sym@,
                                    uv.skip(j + 1),
                                ).rem =~= kv + (seq![uv[j as int]] + do_pass(
                                    sym@,
                                    uv.skip(j + 1),
                                ).rem));
                            }
                        },
                    }
                },
            }
            j = j + 1;
        }
        proof {
            assert(uv.skip(uv.len() as int).len() == 0);
            assert(entries_view(kept@) + Seq::<EntryV>::empty() =~= entries_view(kept@));
            assert(do_pass(syms, uv).sym == sym@);
            assert(do_pass(syms, uv).rem == entries_view(kept@));
        }
        if kept.len() == unresolved.len() {
            proof {
                lemma_do_pass_len(syms, uv);
                assert(entries_view(kept@).len() == uv.len());
                assert(sym@ == syms);
            }
            progress = false;
        } else {
            proof {
                assert(entries_view(kept@).len() < uv.len());
            }
            unresolved = kept;
        }
    }
    let mut j: usize = 0;
    let ghost rem = entries_view(unresolved@);
    let mut bad: Option<String> = None;
    proof {
        assert(rem.skip(0) =~= rem);
    }
    while j < unresolved.len() && bad.is_none()
        invariant
            j <= unresolved@.len(),
            rem == entries_view(unresolved@),
            rem.len() == unresolved@.len(),
            match bad {
                None => first_bad(rem) == first_bad(rem.skip(j as int)),
                Some(n) => first_bad(rem) == Some(n@),
            },
        decreases unresolved@.len() - j,
    {
        proof {
            assert(rem.skip(j as int)[0] == rem[j as int]);
            assert(rem[j as int] == unresolved@[j as int]@);
            assert(rem.skip(j as int).drop_first() =~= rem.skip(j + 1));
        }
        if !is_reserved(&unresolved[j].name) {
            bad = Some(unresolved[j].name.clone());
        }
        j = j + 1;
    }
    proof {
        assert(rem.skip(rem.len() as int).len() == 0);
    }
    match bad {
        Some(n) => Err(AssembleError::SymbolResolveError(n)),
        None => Ok(sym),
    }
}


/// A statement sequence that leaves nothing unresolved: no definitions and
/// no labeled instructions.
pub open spec fn no_unresolved(s: Seq<StmtV>) -> bool {
    forall|i: int|
        0 <= i < s.len() ==> match #[trigger] s[i] {
            StmtV::Define(_, _) => false,
            StmtV::Inst(l, _, _) => l is None,
            _ => true,
        }
}

proof fn lemma_collect_nothing(prog: Seq<StmtV>, origin: ExprV, offset: i32, acc: Seq<EntryV>)
    requires
        no_unresolved(prog),
    ensures
        collect_entries(prog, origin, offset, acc) == acc,
    decreases prog.len(),
{
    if prog.len() > 0 {
        let rest = prog.drop_first();
        assert(no_unresolved(rest)) by {
            assert(forall|i: int| 0 <= i < rest.len() ==> rest[i] == prog[i + 1]);
        }
        match prog[0] {
            StmtV::Define(_, _) => {
                assert(false);
            },
            StmtV::Origin(e) => {
                lemma_collect_nothing(rest, e, 0, acc);
            },
            StmtV::Inst(l, _, _) => {
                lemma_collect_nothing(rest, origin, wrap_add(offset, 2), acc);
            },
            StmtV::Include(_) => {
                lemma_collect_nothing(rest, origin, offset, acc);
            },
        }
    }
}

/// Law: idempotence of resolution. On a statement sequence with nothing to
/// resolve (no definitions, no labeled instructions), the first pass
/// resolves nothing, so resolution is a no-op fixed point in one iteration:
/// the table comes back unchanged.
pub proof fn lemma_resolution_idempotent(sym: Map<Seq<char>, i32>, prog: Seq<StmtV>)
    requires
        no_unresolved(prog),
    ensures
        spec_resolve(sym, prog) == Ok::<Map<Seq<char>, i32>, AssembleErrorV>(sym),
{
    lemma_collect_nothing(prog, ExprV::Num(0), 0, Seq::empty());
    let entries = collect_entries(prog, ExprV::Num(0), 0, Seq::empty());
    assert(entries.len() == 0);
    assert(do_pass(sym, entries).rem.len() == 0);
    assert(fix_resolve(sym, entries) == PassResult { sym, rem: entries });
    assert(first_bad(entries) is None);
}


impl SymTab {
    /// An equal table with freshly owned storage.
    pub fn clone_table(&self) -> (r: SymTab)
        ensures
            r@ == self@,
    {
        let mut v: Vec<SymEntry> = Vec::new();
        let mut i: usize = 0;
        proof {
            assert(v@ =~= self.entries@.take(0));
        }
        while i < self.entries.len()
            invariant
                i <= self.entries@.len(),
                v@ == self.entries@.take(i as int),
            decreases self.entries@.len() - i,
        {
            v.push(SymEntry { name: self.entries[i].name.clone(), val: self.entries[i].val });
            proof {
                assert(v@ =~= self.entries@.take(i + 1));
            }
            i = i + 1;
        }
        proof {
            assert(self.entries@.take(self.entries@.len() as int) =~= self.entries@);
        }
        SymTab { entries: v }
    }
}


/// An origin expression is a literal or a bare identifier, never a sum.
pub open spec fn stmt_origin_ok(st: StmtV) -> bool {
    match st {
        StmtV::Origin(e) => !(e is Add),
        _ => true,
    }
}

/// No origin expression in the sequence is a sum.
pub open spec fn no_add_origin(t: Seq<StmtV>) -> bool {
    forall|i: int| 0 <= i < t.len() ==> stmt_origin_ok(#[trigger] t[i])
}

/// No include statement remains in the sequence.
pub open spec fn no_include(t: Seq<StmtV>) -> bool {
    forall|i: int| 0 <= i < t.len() ==> !(#[trigger] t[i] is Include)
}

/// A sequence with no include statements and no sum origins is one the
/// resolver accepts.
pub proof fn lemma_resolvable_parts(t: Seq<StmtV>)
    requires
        no_add_origin(t),
        no_include(t),
    ensures
        prog_resolvable(t),
{
}

} // verus!
