//! Derivation of the ordered circuit parameters from the metadata of a
//! completed probabilistic proof.
//!
//! The downstream circuit template binds these parameters positionally, so
//! their order and count are part of the interface with that template: the
//! derivation always emits the same seventeen names in the same order, and
//! each position depends only on its own metadata fields.

use vstd::prelude::*;
use vstd::arithmetic::power2::pow2;
use vstd::arithmetic::power2::lemma_pow2_adds;
use vstd::arithmetic::power2::lemma_pow2_strictly_increases;
use vstd::arithmetic::power2::lemma2_to64;
use vstd::arithmetic::power2::lemma2_to64_rest;
use crate::draws::draws_spec;
use crate::draws::number_of_draws;

verus! {

/// Soundness level, in bits, demanded of the draw count embedded in the
/// generated circuit.
pub const DRAW_SECURITY_BITS: u32 = 128;

/// Verification metadata of a completed probabilistic proof: everything the
/// parameter derivation reads, as plain values.
pub struct ProofDescriptor {
    /// Two-adicity of the base field.
    pub addicity: u64,
    /// Constraint-evaluation blowup factor.
    pub ce_blowup_factor: u64,
    /// Offset of the low-degree evaluation domain.
    pub domain_offset: u64,
    /// Folding factor of the layered commitment reduction.
    pub folding_factor: u64,
    /// Per-layer tree depths of the folding/commitment phase.
    pub fri_tree_depths: Vec<u64>,
    /// Grinding (proof-of-work) factor.
    pub grinding_factor: u64,
    /// Low-degree-extension blowup factor.
    pub lde_blowup_factor: u64,
    /// Count of boundary assertions.
    pub num_assertions: u64,
    /// Count of algebraic-commitment layers.
    pub num_fri_layers: u64,
    /// Length of the public-coin seed array.
    pub pub_coin_seed_len: u64,
    /// Count of public inputs.
    pub num_public_inputs: u64,
    /// Number of query positions drawn from the evaluation domain.
    pub num_queries: u64,
    /// Count of transition constraints.
    pub num_transition_constraints: u64,
    /// Execution-trace length.
    pub trace_length: u64,
    /// Execution-trace width.
    pub trace_width: u64,
    /// Size of the low-degree evaluation domain; a power of two in practice,
    /// required here only to be non-zero.
    pub lde_domain_size: u64,
}

impl ProofDescriptor {
    /// Validated proof metadata: the queries fit in the domain (the draw
    /// target is reachable) and the domain is non-empty.
    pub open spec fn well_formed(self) -> bool {
        &&& self.num_queries <= self.lde_domain_size
        &&& 1 <= self.lde_domain_size
        &&& (self.num_queries as u128) < (usize::MAX as u128)
    }
}

/// A rendered parameter value: a scalar literal or an explicit list.
pub enum ParamValue {
    Scalar(u128),
    List(Vec<u64>),
}

/// One named parameter destined for the generated circuit source.
pub struct Param {
    pub name: &'static str,
    pub value: ParamValue,
}

/// The ordered parameter list; consumed positionally by the circuit
/// template, so order and count never vary.
pub struct ParameterSet {
    pub entries: Vec<Param>,
}

/// Binary logarithm, rounded down.
pub open spec fn log2_spec(n: nat) -> nat
    decreases n,
{
    if n < 2 {
        0
    } else {
        1 + log2_spec(n / 2)
    }
}

/// Binary logarithm of `n`, rounded down.
pub fn log2(n: u64) -> (r: u32)
    requires
        n >= 1,
    ensures
        r as nat == log2_spec(n as nat),
{
    let mut r: u32 = 0;
    let mut v: u64 = n;
    proof {
        lemma2_to64();
    }
    while v >= 2
        invariant
            1 <= v,
            log2_spec(n as nat) == r + log2_spec(v as nat),
            pow2(r as nat) * v <= n,
        decreases v,
    {
        proof {
            lemma2_to64();
            lemma2_to64_rest();
            lemma_pow2_adds(r as nat, 1);
            if r + 1 >= 64 {
                if r + 1 > 64 {
                    lemma_pow2_strictly_increases(64, (r + 1) as nat);
                }
                assert(pow2((r + 1) as nat) * (v as nat / 2) >= pow2((r + 1) as nat))
                    by (nonlinear_arith)
                    requires
                        v >= 2,
                        pow2((r + 1) as nat) >= 0,
                ;
                assert(pow2((r + 1) as nat) <= pow2(r as nat) * v) by (nonlinear_arith)
                    requires
                        v >= 2,
                        pow2((r + 1) as nat) == pow2(r as nat) * 2,
                        pow2(r as nat) >= 0,
                ;
                assert(false);
            }
            assert(pow2((r + 1) as nat) * (v as nat / 2) <= pow2(r as nat) * v)
                by (nonlinear_arith)
                requires
                    v >= 2,
                    pow2((r + 1) as nat) == pow2(r as nat) * 2,
                    pow2(r as nat) >= 0,
            ;
        }
        v = v / 2;
        r = r + 1;
    }
    r
}

/// What the derivation promises of its result: seventeen parameters, in
/// this order and with these names, each a direct image of the metadata.
pub open spec fn derives_to(d: ProofDescriptor, r: ParameterSet) -> bool {
    let e = r.entries@;
    &&& e.len() == 17
    &&& e[0].name@ == "addicity"@ && e[0].value == ParamValue::Scalar(d.addicity as u128)
    &&& e[1].name@ == "ce_blowup_factor"@ && e[1].value == ParamValue::Scalar(
        d.ce_blowup_factor as u128,
    )
    &&& e[2].name@ == "domain_offset"@ && e[2].value == ParamValue::Scalar(
        d.domain_offset as u128,
    )
    &&& e[3].name@ == "folding_factor"@ && e[3].value == ParamValue::Scalar(
        d.folding_factor as u128,
    )
    &&& e[4].name@ == "fri_tree_depth"@ && e[4].value is List && (e[4].value->List_0@ == (
    if d.fri_tree_depths@.len() == 0 {
        seq![0u64]
    } else {
        d.fri_tree_depths@
    }))
    &&& e[5].name@ == "grinding_factor"@ && e[5].value == ParamValue::Scalar(
        d.grinding_factor as u128,
    )
    &&& e[6].name@ == "lde_blowup_factor"@ && e[6].value == ParamValue::Scalar(
        d.lde_blowup_factor as u128,
    )
    &&& e[7].name@ == "num_assertions"@ && e[7].value == ParamValue::Scalar(
        d.num_assertions as u128,
    )
    &&& e[8].name@ == "num_draws"@ && e[8].value == ParamValue::Scalar(
        draws_spec(d.num_queries as nat, d.lde_domain_size as nat, DRAW_SECURITY_BITS as nat)
            as u128,
    )
    &&& e[9].name@ == "num_fri_layers"@ && e[9].value == ParamValue::Scalar(
        d.num_fri_layers as u128,
    )
    &&& e[10].name@ == "num_pub_coin_seed"@ && e[10].value == ParamValue::Scalar(
        d.pub_coin_seed_len as u128,
    )
    &&& e[11].name@ == "num_public_inputs"@ && e[11].value == ParamValue::Scalar(
        d.num_public_inputs as u128,
    )
    &&& e[12].name@ == "num_queries"@ && e[12].value == ParamValue::Scalar(
        d.num_queries as u128,
    )
    &&& e[13].name@ == "num_transition_constraints"@ && e[13].value == ParamValue::Scalar(
        d.num_transition_constraints as u128,
    )
    &&& e[14].name@ == "trace_length"@ && e[14].value == ParamValue::Scalar(
        d.trace_length as u128,
    )
    &&& e[15].name@ == "trace_width"@ && e[15].value == ParamValue::Scalar(
        d.trace_width as u128,
    )
    &&& e[16].name@ == "tree_depth"@ && e[16].value == ParamValue::Scalar(
        log2_spec(d.lde_domain_size as nat) as u128,
    )
}

/// Derive the ordered parameter list from validated proof metadata.
///
/// Total on well-formed metadata; the one computed scalar with real content
/// is the draw count, whose soundness target is [`DRAW_SECURITY_BITS`].
pub fn derive_parameters(d: &ProofDescriptor) -> (r: ParameterSet)
    requires
        d.well_formed(),
    ensures
        derives_to(*d, r),
{
    let mut depths: Vec<u64> = Vec::new();
    if d.fri_tree_depths.len() == 0 {
        depths.push(0);
        proof {
            assert(depths@ =~= seq![0u64]);
        }
    } else {
        let mut i: usize = 0;
        while i < d.fri_tree_depths.len()
            invariant
                i <= d.fri_tree_depths@.len(),
                depths@ == d.fri_tree_depths@.subrange(0, i as int),
            decreases d.fri_tree_depths@.len() - i,
        {
            depths.push(d.fri_tree_depths[i]);
            proof {
                assert(depths@ =~= d.fri_tree_depths@.subrange(0, i + 1));
            }
            i += 1;
        }
        proof {
            assert(depths@ =~= d.fri_tree_depths@);
        }
    }
    let num_draws = number_of_draws(
        d.num_queries as u128,
        d.lde_domain_size as u128,
        DRAW_SECURITY_BITS,
    );
    let tree_depth = log2(d.lde_domain_size);
    let mut entries: Vec<Param> = Vec::new();
    entries.push(Param { name: "addicity", value: ParamValue::Scalar(d.addicity as u128) });
    entries.push(
        Param { name: "ce_blowup_factor", value: ParamValue::Scalar(d.ce_blowup_factor as u128) },
    );
    entries.push(
        Param { name: "domain_offset", value: ParamValue::Scalar(d.domain_offset as u128) },
    );
    entries.push(
        Param { name: "folding_factor", value: ParamValue::Scalar(d.folding_factor as u128) },
    );
    entries.push(Param { name: "fri_tree_depth", value: ParamValue::List(depths) });
    entries.push(
        Param { name: "grinding_factor", value: ParamValue::Scalar(d.grinding_factor as u128) },
    );
    entries.push(
        Param {
            name: "lde_blowup_factor",
            value: ParamValue::Scalar(d.lde_blowup_factor as u128),
        },
    );
    entries.push(
        Param { name: "num_assertions", value: ParamValue::Scalar(d.num_assertions as u128) },
    );
    entries.push(Param { name: "num_draws", value: ParamValue::Scalar(num_draws) });
    entries.push(
        Param { name: "num_fri_layers", value: ParamValue::Scalar(d.num_fri_layers as u128) },
    );
    entries.push(
        Param { name: "num_pub_coin_seed", value: ParamValue::Scalar(d.pub_coin_seed_len as u128) },
    );
    entries.push(
        Param {
            name: "num_public_inputs",
            value: ParamValue::Scalar(d.num_public_inputs as u128),
        },
    );
    entries.push(Param { name: "num_queries", value: ParamValue::Scalar(d.num_queries as u128) });
    entries.push(
        Param {
            name: "num_transition_constraints",
            value: ParamValue::Scalar(d.num_transition_constraints as u128),
        },
    );
    entries.push(Param { name: "trace_length", value: ParamValue::Scalar(d.trace_length as u128) });
    entries.push(Param { name: "trace_width", value: ParamValue::Scalar(d.trace_width as u128) });
    entries.push(Param { name: "tree_depth", value: ParamValue::Scalar(tree_depth as u128) });
    ParameterSet { entries }
}

/// The positional contract with the circuit template: for any two metadata
/// inputs, the derived lists have the same length and the same names at
/// every position, and each position's value depends only on its own
/// metadata fields — changing one field can never move or disturb another
/// position.
pub proof fn lemma_derivation_positional(
    d1: ProofDescriptor,
    r1: ParameterSet,
    d2: ProofDescriptor,
    r2: ParameterSet,
)
    requires
        derives_to(d1, r1),
        derives_to(d2, r2),
    ensures
        r1.entries@.len() == r2.entries@.len(),
        forall|i: int|
            0 <= i < r1.entries@.len() ==> r1.entries@[i].name@ == r2.entries@[i].name@,
        d1.addicity == d2.addicity ==> r1.entries@[0].value == r2.entries@[0].value,
        d1.ce_blowup_factor == d2.ce_blowup_factor ==> r1.entries@[1].value
            == r2.entries@[1].value,
        d1.domain_offset == d2.domain_offset ==> r1.entries@[2].value == r2.entries@[2].value,
        d1.folding_factor == d2.folding_factor ==> r1.entries@[3].value == r2.entries@[3].value,
        d1.fri_tree_depths@ == d2.fri_tree_depths@ ==> r1.entries@[4].value->List_0@
            == r2.entries@[4].value->List_0@,
        d1.grinding_factor == d2.grinding_factor ==> r1.entries@[5].value == r2.entries@[5].value,
        d1.lde_blowup_factor == d2.lde_blowup_factor ==> r1.entries@[6].value
            == r2.entries@[6].value,
        d1.num_assertions == d2.num_assertions ==> r1.entries@[7].value == r2.entries@[7].value,
        d1.num_queries == d2.num_queries && d1.lde_domain_size == d2.lde_domain_size
            ==> r1.entries@[8].value == r2.entries@[8].value,
        d1.num_fri_layers == d2.num_fri_layers ==> r1.entries@[9].value == r2.entries@[9].value,
        d1.pub_coin_seed_len == d2.pub_coin_seed_len ==> r1.entries@[10].value
            == r2.entries@[10].value,
        d1.num_public_inputs == d2.num_public_inputs ==> r1.entries@[11].value
            == r2.entries@[11].value,
        d1.num_queries == d2.num_queries ==> r1.entries@[12].value == r2.entries@[12].value,
        d1.num_transition_constraints == d2.num_transition_constraints ==> r1.entries@[13].value
            == r2.entries@[13].value,
        d1.trace_length == d2.trace_length ==> r1.entries@[14].value == r2.entries@[14].value,
        d1.trace_width == d2.trace_width ==> r1.entries@[15].value == r2.entries@[15].value,
        d1.lde_domain_size == d2.lde_domain_size ==> r1.entries@[16].value
            == r2.entries@[16].value,
{
    assert forall|i: int| 0 <= i < r1.entries@.len() implies r1.entries@[i].name@
        == r2.entries@[i].name@ by {
        if i == 0 {
        }
    }
}

} // verus!
