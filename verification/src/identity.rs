//! Entity kinds and the prefixes that start their identifiers.

use vstd::prelude::*;

verus! {

/// The kind of an engineering entity, written at the start of its identifier
/// (for example `REQ-...`).
#[derive(Debug, Clone, Copy, PartialEq, Eq, Structural)]
pub enum EntityPrefix {
    Req,
    Risk,
    Test,
    Rslt,
    Cmp,
    Asm,
    Feat,
    Mate,
    Tol,
    Quot,
    Sup,
    Proc,
    Ctrl,
    Work,
    Ncr,
    Capa,
    Act,
    Lot,
}

/// The identifier prefix of each entity kind.
pub open spec fn prefix_text(p: EntityPrefix) -> Seq<char> {
    match p {
        EntityPrefix::Req => "REQ"@,
        EntityPrefix::Risk => "RISK"@,
        EntityPrefix::Test => "TEST"@,
        EntityPrefix::Rslt => "RSLT"@,
        EntityPrefix::Cmp => "CMP"@,
        EntityPrefix::Asm => "ASM"@,
        EntityPrefix::Feat => "FEAT"@,
        EntityPrefix::Mate => "MATE"@,
        EntityPrefix::Tol => "TOL"@,
        EntityPrefix::Quot => "QUOT"@,
        EntityPrefix::Sup => "SUP"@,
        EntityPrefix::Proc => "PROC"@,
        EntityPrefix::Ctrl => "CTRL"@,
        EntityPrefix::Work => "WORK"@,
        EntityPrefix::Ncr => "NCR"@,
        EntityPrefix::Capa => "CAPA"@,
        EntityPrefix::Act => "ACT"@,
        EntityPrefix::Lot => "LOT"@,
    }
}

impl EntityPrefix {
    /// The identifier prefix of this entity kind.
    pub fn as_str(&self) -> (r: &'static str)
        ensures
            r@ == prefix_text(*self),
    {
        match self {
            EntityPrefix::Req => "REQ",
            EntityPrefix::Risk => "RISK",
            EntityPrefix::Test => "TEST",
            EntityPrefix::Rslt => "RSLT",
            EntityPrefix::Cmp => "CMP",
            EntityPrefix::Asm => "ASM",
            EntityPrefix::Feat => "FEAT",
            EntityPrefix::Mate => "MATE",
            EntityPrefix::Tol => "TOL",
            EntityPrefix::Quot => "QUOT",
            EntityPrefix::Sup => "SUP",
            EntityPrefix::Proc => "PROC",
            EntityPrefix::Ctrl => "CTRL",
            EntityPrefix::Work => "WORK",
            EntityPrefix::Ncr => "NCR",
            EntityPrefix::Capa => "CAPA",
            EntityPrefix::Act => "ACT",
            EntityPrefix::Lot => "LOT",
        }
    }
}

} // verus!
