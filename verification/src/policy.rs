//! The declarative policy scoping the generated binding surface.
//!
//! The automatic surface generator is driven by an ordered allow-list of
//! name patterns over the toolkit's public naming conventions, minus a
//! block-list of specific symbols. A blocked symbol is one whose behavior is
//! header-only (inline) and therefore has no linkable symbol, or whose type
//! the generator cannot derive; each one is reimplemented by hand elsewhere
//! in this crate. Block entries take precedence over allow patterns for the
//! same symbol.

use vstd::prelude::*;
use crate::text::str_starts_with;

verus! {

/// The namespace a symbol lives in.
#[derive(Clone, Copy, Debug, PartialEq, Eq, Structural)]
pub enum SymbolKind {
    Function,
    Type,
    Constant,
}

/// One allow pattern: a literal name, or, with `wildcard`, every name with
/// the given prefix.
#[derive(Clone, Debug)]
pub struct SymbolPattern {
    pub kind: SymbolKind,
    pub prefix: String,
    pub wildcard: bool,
}

/// One blocked symbol, named exactly.
#[derive(Clone, Debug)]
pub struct BlockedSymbol {
    pub kind: SymbolKind,
    pub name: String,
}

/// The surface policy: ordered allow patterns and the block-list that takes
/// precedence over them. Fixed at configuration-generation time, immutable
/// thereafter.
#[derive(Clone, Debug)]
pub struct SymbolPolicy {
    pub allow: Vec<SymbolPattern>,
    pub block: Vec<BlockedSymbol>,
}

/// Whether pattern `p` matches the symbol `name` of kind `kind`.
pub open spec fn pattern_matches_spec(p: SymbolPattern, kind: SymbolKind, name: Seq<char>) -> bool {
    p.kind == kind && if p.wildcard {
        p.prefix@.is_prefix_of(name)
    } else {
        p.prefix@ == name
    }
}

/// Whether some allow pattern of the policy matches the symbol.
pub open spec fn allowed_spec(policy: SymbolPolicy, kind: SymbolKind, name: Seq<char>) -> bool {
    exists|i: int|
        0 <= i < policy.allow@.len() && pattern_matches_spec(policy.allow@[i], kind, name)
}

/// Whether the block-list names the symbol.
pub open spec fn blocked_spec(policy: SymbolPolicy, kind: SymbolKind, name: Seq<char>) -> bool {
    exists|i: int|
        0 <= i < policy.block@.len() && policy.block@[i].kind == kind && policy.block@[i].name@
            == name
}

/// Whether the generated surface includes the symbol: matched by an allow
/// pattern and not named by the block-list.
pub open spec fn included_spec(policy: SymbolPolicy, kind: SymbolKind, name: Seq<char>) -> bool {
    allowed_spec(policy, kind, name) && !blocked_spec(policy, kind, name)
}

/// Block precedence law: a symbol the block-list names is never part of the
/// generated surface, whatever the allow patterns say.
pub proof fn lemma_block_takes_precedence(policy: SymbolPolicy, kind: SymbolKind, name: Seq<char>)
    ensures
        blocked_spec(policy, kind, name) ==> !included_spec(policy, kind, name),
{
}

/// Exec test of [`pattern_matches_spec`].
pub fn pattern_matches(p: &SymbolPattern, kind: SymbolKind, name: &String) -> (r: bool)
    ensures
        r == pattern_matches_spec(*p, kind, name@),
{
    if p.kind != kind {
        return false;
    }
    if p.wildcard {
        str_starts_with(name.as_str(), p.prefix.as_str())
    } else {
        p.prefix.eq(name)
    }
}

/// Decide whether the surface includes the symbol, exactly as
/// [`included_spec`] says.
pub fn surface_includes(policy: &SymbolPolicy, kind: SymbolKind, name: &String) -> (r: bool)
    ensures
        r == included_spec(*policy, kind, name@),
{
    let mut allowed = false;
    let n: usize = policy.allow.len();
    let mut i: usize = 0;
    while i < n
        invariant
            0 <= i <= n,
            n == policy.allow@.len(),
            allowed == exists|k: int|
                0 <= k < i && pattern_matches_spec(policy.allow@[k], kind, name@),
        decreases n - i,
    {
        if pattern_matches(&policy.allow[i], kind, name) {
            allowed = true;
        }
        i = i + 1;
    }
    if !allowed {
        return false;
    }
    let m: usize = policy.block.len();
    let mut j: usize = 0;
    while j < m
        invariant
            0 <= j <= m,
            m == policy.block@.len(),
            forall|k: int|
                0 <= k < j ==> !(policy.block@[k].kind == kind && policy.block@[k].name@
                    == name@),
        decreases m - j,
    {
        if policy.block[j].kind == kind && policy.block[j].name.eq(name) {
            return false;
        }
        j = j + 1;
    }
    true
}

/// The fixed surface policy of these bindings: allow every symbol of the
/// toolkit's two public naming conventions (and the thread-pool type with
/// its helpers), block each header-only function reimplemented by hand in
/// this crate, and block the one hand-defined opaque handle type.
pub fn mlir_binding_policy() -> (r: SymbolPolicy)
    ensures
        r.allow@.len() == 5,
        pattern_matches_spec(r.allow@[0], SymbolKind::Function, "mlir"@) && r.allow@[0].wildcard,
        r.allow@[0].prefix@ == "mlir"@,
        r.allow@[1].kind == SymbolKind::Type && r.allow@[1].prefix@ == "Mlir"@
            && r.allow@[1].wildcard,
        r.allow@[2].kind == SymbolKind::Constant && r.allow@[2].prefix@ == "MLIR"@
            && r.allow@[2].wildcard,
        r.allow@[3].kind == SymbolKind::Type && r.allow@[3].prefix@ == "MlirLlvmThreadPool"@
            && !r.allow@[3].wildcard,
        r.allow@[4].kind == SymbolKind::Function && r.allow@[4].prefix@ == "mlirLlvm"@
            && r.allow@[4].wildcard,
        r.block@.len() == 20,
        forall|i: int| 0 <= i < 19 ==> r.block@[i].kind == SymbolKind::Function,
        r.block@[0].name@ == "mlirStringRefCreate"@,
        r.block@[1].name@ == "mlirLogicalResultIsSuccess"@,
        r.block@[2].name@ == "mlirLogicalResultIsFailure"@,
        r.block@[3].name@ == "mlirLogicalResultSuccess"@,
        r.block@[4].name@ == "mlirLogicalResultFailure"@,
        r.block@[5].name@ == "mlirContextIsNull"@,
        r.block@[6].name@ == "mlirDialectIsNull"@,
        r.block@[7].name@ == "mlirDialectRegistryIsNull"@,
        r.block@[8].name@ == "mlirLocationIsNull"@,
        r.block@[9].name@ == "mlirModuleIsNull"@,
        r.block@[10].name@ == "mlirOperationIsNull"@,
        r.block@[11].name@ == "mlirRegionIsNull"@,
        r.block@[12].name@ == "mlirBlockIsNull"@,
        r.block@[13].name@ == "mlirValueIsNull"@,
        r.block@[14].name@ == "mlirTypeIsNull"@,
        r.block@[15].name@ == "mlirAttributeIsNull"@,
        r.block@[16].name@ == "mlirSymbolTableIsNull"@,
        r.block@[17].name@ == "mlirTypeIDIsNull"@,
        r.block@[18].name@ == "mlirAffineMapIsNull"@,
        r.block@[19].kind == SymbolKind::Type && r.block@[19].name@ == "MlirAffineMap"@,
{
    let mut allow: Vec<SymbolPattern> = Vec::new();
    allow.push(
        SymbolPattern { kind: SymbolKind::Function, prefix: "mlir".to_owned(), wildcard: true },
    );
    allow.push(
        SymbolPattern { kind: SymbolKind::Type, prefix: "Mlir".to_owned(), wildcard: true },
    );
    allow.push(
        SymbolPattern { kind: SymbolKind::Constant, prefix: "MLIR".to_owned(), wildcard: true },
    );
    allow.push(
        SymbolPattern {
            kind: SymbolKind::Type,
            prefix: "MlirLlvmThreadPool".to_owned(),
            wildcard: false,
        },
    );
    allow.push(
        SymbolPattern {
            kind: SymbolKind::Function,
            prefix: "mlirLlvm".to_owned(),
            wildcard: true,
        },
    );
    let mut block: Vec<BlockedSymbol> = Vec::new();
    block.push(
        BlockedSymbol { kind: SymbolKind::Function, name: "mlirStringRefCreate".to_owned() },
    );
    block.push(
        BlockedSymbol {
            kind: SymbolKind::Function,
            name: "mlirLogicalResultIsSuccess".to_owned(),
        },
    );
    block.push(
        BlockedSymbol {
            kind: SymbolKind::Function,
            name: "mlirLogicalResultIsFailure".to_owned(),
        },
    );
    block.push(
        BlockedSymbol { kind: SymbolKind::Function, name: "mlirLogicalResultSuccess".to_owned() },
    );
    block.push(
        BlockedSymbol { kind: SymbolKind::Function, name: "mlirLogicalResultFailure".to_owned() },
    );
    block.push(BlockedSymbol { kind: SymbolKind::Function, name: "mlirContextIsNull".to_owned() });
    block.push(BlockedSymbol { kind: SymbolKind::Function, name: "mlirDialectIsNull".to_owned() });
    block.push(
        BlockedSymbol {
            kind: SymbolKind::Function,
            name: "mlirDialectRegistryIsNull".to_owned(),
        },
    );
    block.push(
        BlockedSymbol { kind: SymbolKind::Function, name: "mlirLocationIsNull".to_owned() },
    );
    block.push(BlockedSymbol { kind: SymbolKind::Function, name: "mlirModuleIsNull".to_owned() });
    block.push(
        BlockedSymbol { kind: SymbolKind::Function, name: "mlirOperationIsNull".to_owned() },
    );
    block.push(BlockedSymbol { kind: SymbolKind::Function, name: "mlirRegionIsNull".to_owned() });
    block.push(BlockedSymbol { kind: SymbolKind::Function, name: "mlirBlockIsNull".to_owned() });
    block.push(BlockedSymbol { kind: SymbolKind::Function, name: "mlirValueIsNull".to_owned() });
    block.push(BlockedSymbol { kind: SymbolKind::Function, name: "mlirTypeIsNull".to_owned() });
    block.push(
        BlockedSymbol { kind: SymbolKind::Function, name: "mlirAttributeIsNull".to_owned() },
    );
    block.push(
        BlockedSymbol { kind: SymbolKind::Function, name: "mlirSymbolTableIsNull".to_owned() },
    );
    block.push(BlockedSymbol { kind: SymbolKind::Function, name: "mlirTypeIDIsNull".to_owned() });
    block.push(
        BlockedSymbol { kind: SymbolKind::Function, name: "mlirAffineMapIsNull".to_owned() },
    );
    block.push(BlockedSymbol { kind: SymbolKind::Type, name: "MlirAffineMap".to_owned() });
    SymbolPolicy { allow, block }
}

} // verus!
