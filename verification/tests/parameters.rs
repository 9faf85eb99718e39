//! Tests of parameter derivation and rendering.

use circom_prover::params::Param;
use circom_prover::params::ParamValue;
use circom_prover::params::ParameterSet;
use circom_prover::params::ProofDescriptor;
use circom_prover::params::derive_parameters;
use circom_prover::params::log2;
use circom_prover::render::circuit_import_paths;
use circom_prover::render::generate_circom_main;

fn sample_descriptor() -> ProofDescriptor {
    ProofDescriptor {
        addicity: 32,
        ce_blowup_factor: 2,
        domain_offset: 7,
        folding_factor: 8,
        fri_tree_depths: vec![4, 7],
        grinding_factor: 16,
        lde_blowup_factor: 8,
        num_assertions: 2,
        num_fri_layers: 1,
        pub_coin_seed_len: 12,
        num_public_inputs: 2,
        num_queries: 1,
        num_transition_constraints: 3,
        trace_length: 128,
        trace_width: 4,
        lde_domain_size: 2,
    }
}

const EXPECTED_NAMES: [&str; 17] = [
    "addicity",
    "ce_blowup_factor",
    "domain_offset",
    "folding_factor",
    "fri_tree_depth",
    "grinding_factor",
    "lde_blowup_factor",
    "num_assertions",
    "num_draws",
    "num_fri_layers",
    "num_pub_coin_seed",
    "num_public_inputs",
    "num_queries",
    "num_transition_constraints",
    "trace_length",
    "trace_width",
    "tree_depth",
];

fn scalar(p: &Param) -> u128 {
    match &p.value {
        ParamValue::Scalar(x) => *x,
        ParamValue::List(_) => panic!("expected a scalar at {}", p.name),
    }
}

#[test]
fn ordering_and_count_are_fixed() {
    let r = derive_parameters(&sample_descriptor());
    assert_eq!(r.entries.len(), 17);
    for (i, p) in r.entries.iter().enumerate() {
        assert_eq!(p.name, EXPECTED_NAMES[i], "name at position {}", i);
    }
}

#[test]
fn values_mirror_the_metadata() {
    let r = derive_parameters(&sample_descriptor());
    assert_eq!(scalar(&r.entries[0]), 32);
    assert_eq!(scalar(&r.entries[1]), 2);
    assert_eq!(scalar(&r.entries[2]), 7);
    assert_eq!(scalar(&r.entries[3]), 8);
    match &r.entries[4].value {
        ParamValue::List(l) => assert_eq!(l, &vec![4, 7]),
        ParamValue::Scalar(_) => panic!("fri_tree_depth must be a list"),
    }
    assert_eq!(scalar(&r.entries[5]), 16);
    assert_eq!(scalar(&r.entries[6]), 8);
    assert_eq!(scalar(&r.entries[7]), 2);
    // One required position out of a domain of two, at 128 bits.
    assert_eq!(scalar(&r.entries[8]), 2);
    assert_eq!(scalar(&r.entries[9]), 1);
    assert_eq!(scalar(&r.entries[10]), 12);
    assert_eq!(scalar(&r.entries[11]), 2);
    assert_eq!(scalar(&r.entries[12]), 1);
    assert_eq!(scalar(&r.entries[13]), 3);
    assert_eq!(scalar(&r.entries[14]), 128);
    assert_eq!(scalar(&r.entries[15]), 4);
    assert_eq!(scalar(&r.entries[16]), 1);
}

#[test]
fn empty_depths_render_as_single_zero() {
    let mut d = sample_descriptor();
    d.fri_tree_depths = vec![];
    let r = derive_parameters(&d);
    match &r.entries[4].value {
        ParamValue::List(l) => assert_eq!(l, &vec![0]),
        ParamValue::Scalar(_) => panic!("fri_tree_depth must be a list"),
    }
}

#[test]
fn changing_one_field_moves_nothing_else() {
    let d1 = sample_descriptor();
    let mut d2 = sample_descriptor();
    d2.trace_length = 4096;
    let r1 = derive_parameters(&d1);
    let r2 = derive_parameters(&d2);
    assert_eq!(r1.entries.len(), r2.entries.len());
    for i in 0..r1.entries.len() {
        assert_eq!(r1.entries[i].name, r2.entries[i].name);
        if i == 14 {
            assert_eq!(scalar(&r2.entries[i]), 4096);
        } else {
            match (&r1.entries[i].value, &r2.entries[i].value) {
                (ParamValue::Scalar(a), ParamValue::Scalar(b)) => assert_eq!(a, b),
                (ParamValue::List(a), ParamValue::List(b)) => assert_eq!(a, b),
                _ => panic!("value kind changed at {}", r1.entries[i].name),
            }
        }
    }
}

#[test]
fn log2_rounds_down() {
    assert_eq!(log2(1), 0);
    assert_eq!(log2(2), 1);
    assert_eq!(log2(3), 1);
    assert_eq!(log2(8), 3);
    assert_eq!(log2(9), 3);
    assert_eq!(log2(1 << 20), 20);
    assert_eq!(log2(u64::MAX), 63);
}

#[test]
fn main_declaration_renders_exactly() {
    let params = ParameterSet {
        entries: vec![
            Param { name: "alpha", value: ParamValue::Scalar(5) },
            Param { name: "beta", value: ParamValue::List(vec![1, 2]) },
            Param { name: "gamma", value: ParamValue::Scalar(0) },
        ],
    };
    let rendered = generate_circom_main(&params);
    let expected = "component main {public [ood_frame_constraint_evaluation, ood_trace_frame]} = Verify(\n    5, // alpha\n    [1, 2], // beta\n    0 // gamma\n);\n";
    assert_eq!(rendered, expected);
}

#[test]
fn large_scalars_render_in_full() {
    let params = ParameterSet {
        entries: vec![Param { name: "big", value: ParamValue::Scalar(u128::MAX) }],
    };
    let rendered = generate_circom_main(&params);
    let expected = format!(
        "component main {{public [ood_frame_constraint_evaluation, ood_trace_frame]}} = Verify(\n    {} // big\n);\n",
        "340282366920938463463374607431768211455"
    );
    assert_eq!(rendered, expected);
}

#[test]
fn derived_parameters_render_with_their_names() {
    let r = derive_parameters(&sample_descriptor());
    let rendered = generate_circom_main(&r);
    let expected = "component main {public [ood_frame_constraint_evaluation, ood_trace_frame]} = Verify(\n    32, // addicity\n    2, // ce_blowup_factor\n    7, // domain_offset\n    8, // folding_factor\n    [4, 7], // fri_tree_depth\n    16, // grinding_factor\n    8, // lde_blowup_factor\n    2, // num_assertions\n    2, // num_draws\n    1, // num_fri_layers\n    12, // num_pub_coin_seed\n    2, // num_public_inputs\n    1, // num_queries\n    3, // num_transition_constraints\n    128, // trace_length\n    4, // trace_width\n    1 // tree_depth\n);\n";
    assert_eq!(rendered, expected);
}

#[test]
fn import_paths_name_the_circuit() {
    let paths = circuit_import_paths("fibonacci");
    assert_eq!(paths.len(), 2);
    assert_eq!(paths[0], "../../../circuits/verify.circom");
    assert_eq!(paths[1], "../../../circuits/air/fibonacci.circom");
}
