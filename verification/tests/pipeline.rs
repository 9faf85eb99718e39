//! Tests of the staged pipeline plans and decision functions, driven over
//! a simulated filesystem.

use std::collections::BTreeSet;

use circom_prover::params::ProofDescriptor;
use circom_prover::pipeline::Artifact;
use circom_prover::pipeline::Executable;
use circom_prover::pipeline::PipelineError;
use circom_prover::pipeline::Stage;
use circom_prover::pipeline::Workdir;
use circom_prover::pipeline::artifact_path;
use circom_prover::pipeline::check_preconditions;
use circom_prover::pipeline::circom_prove;
use circom_prover::pipeline::circom_verify;
use circom_prover::pipeline::prove_stages;
use circom_prover::pipeline::stage_outcome;
use circom_prover::pipeline::workdir_path;

fn descriptor() -> ProofDescriptor {
    ProofDescriptor {
        addicity: 32,
        ce_blowup_factor: 2,
        domain_offset: 7,
        folding_factor: 8,
        fri_tree_depths: vec![4],
        grinding_factor: 16,
        lde_blowup_factor: 8,
        num_assertions: 2,
        num_fri_layers: 1,
        pub_coin_seed_len: 12,
        num_public_inputs: 2,
        num_queries: 2,
        num_transition_constraints: 3,
        trace_length: 128,
        trace_width: 4,
        lde_domain_size: 4,
    }
}

const NAME: &str = "demo";

fn path(a: Artifact) -> String {
    artifact_path(NAME, a)
}

/// Delete a path from the simulated filesystem, together with everything
/// beneath it (directory deletion).
fn delete(fs: &mut BTreeSet<String>, p: &str) {
    let prefix = format!("{}/", p);
    fs.retain(|f| f != p && !f.starts_with(&prefix));
}

/// Walk the proving stages over a simulated filesystem.  A stage whose
/// number is in `broken_commands` runs but produces nothing.  Returns the
/// commands actually spawned alongside the result.
fn run_prove(
    fs: &mut BTreeSet<String>,
    broken_commands: &[usize],
) -> (Vec<Stage>, Result<(), PipelineError>) {
    let plan = circom_prove(NAME, &descriptor());
    // The render step writes the two files the first stage compiles.
    assert!(!plan.circuit_main.is_empty());
    fs.insert(path(Artifact::RenderedInput));
    fs.insert(path(Artifact::CircuitSource));
    let mut spawned: Vec<Stage> = Vec::new();
    for (k, stage) in plan.stages.iter().enumerate() {
        let present: Vec<bool> =
            stage.preconditions.iter().map(|a| fs.contains(&path(*a))).collect();
        if let Err(e) = check_preconditions(stage, &present) {
            return (spawned, Err(e));
        }
        for c in stage.cleanup.iter() {
            delete(fs, &path(*c));
        }
        spawned.push(stage.stage);
        if !broken_commands.contains(&k) {
            // A successful tool writes every output of its stage; the
            // compiler also generates the native build directory.
            for p in stage.postconditions.iter() {
                fs.insert(path(*p));
            }
            if matches!(stage.stage, Stage::Compile) {
                fs.insert(path(Artifact::NativeBuildDir));
            }
        }
        let outputs: Vec<bool> =
            stage.postconditions.iter().map(|a| fs.contains(&path(*a))).collect();
        if let Err(e) = stage_outcome(stage, true, &outputs) {
            return (spawned, Err(e));
        }
    }
    (spawned, Ok(()))
}

#[test]
fn artifact_paths() {
    assert_eq!(path(Artifact::RenderedInput), "target/circom/demo/input.json");
    assert_eq!(path(Artifact::CircuitSource), "target/circom/demo/verifier.circom");
    assert_eq!(path(Artifact::CompiledCircuit), "target/circom/demo/verifier.r1cs");
    assert_eq!(path(Artifact::NativeBuildDir), "target/circom/demo/verifier_cpp");
    assert_eq!(path(Artifact::NativeExecutable), "target/circom/demo/verifier_cpp/verifier");
    assert_eq!(path(Artifact::Witness), "target/circom/demo/witness.wtns");
    assert_eq!(path(Artifact::SetupParameters), "final.ptau");
    assert_eq!(path(Artifact::ProvingKey), "target/circom/demo/verifier.zkey");
    assert_eq!(path(Artifact::VerificationKey), "target/circom/demo/verification_key.json");
    assert_eq!(path(Artifact::Proof), "target/circom/demo/proof.json");
    assert_eq!(path(Artifact::PublicInputs), "target/circom/demo/public.json");
}

#[test]
fn workdir_paths() {
    assert_eq!(workdir_path(NAME, Workdir::ProjectRoot), ".");
    assert_eq!(workdir_path(NAME, Workdir::CircuitDir), "target/circom/demo");
    assert_eq!(workdir_path(NAME, Workdir::NativeBuildDir), "target/circom/demo/verifier_cpp");
}

#[test]
fn verify_plan_checks_before_running() {
    let plan = circom_verify();
    assert_eq!(plan.stage, Stage::Verify);
    assert_eq!(
        plan.preconditions,
        vec![Artifact::VerificationKey, Artifact::PublicInputs, Artifact::Proof]
    );
    assert!(plan.cleanup.is_empty());
    assert_eq!(plan.command.executable, Executable::SnarkJs);
    assert_eq!(plan.command.workdir, Workdir::CircuitDir);
    assert_eq!(
        plan.command.args,
        vec!["g16v", "verification_key.json", "public.json", "proof.json"]
    );
    assert!(plan.postconditions.is_empty());
}

#[test]
fn missing_precondition_names_the_file() {
    let plan = circom_verify();
    // The proof file is absent; the other two are on disk.
    let present = vec![true, true, false];
    let r = check_preconditions(&plan, &present);
    assert_eq!(
        r,
        Err(PipelineError::MissingPrecondition {
            stage: Stage::Verify,
            artifact: Artifact::Proof,
        })
    );
    let r = check_preconditions(&plan, &vec![true, true, true]);
    assert_eq!(r, Ok(()));
}

#[test]
fn dirty_exit_fails_the_stage() {
    let plan = circom_verify();
    let r = stage_outcome(&plan, false, &vec![]);
    assert_eq!(r, Err(PipelineError::CommandFailed { stage: Stage::Verify }));
    let r = stage_outcome(&plan, true, &vec![]);
    assert_eq!(r, Ok(()));
}

#[test]
fn missing_output_names_the_file() {
    let stages = prove_stages();
    let compile = &stages[0];
    let r = stage_outcome(compile, true, &vec![false]);
    assert_eq!(
        r,
        Err(PipelineError::MissingOutput {
            stage: Stage::Compile,
            artifact: Artifact::CompiledCircuit,
        })
    );
}

#[test]
fn prove_stage_order_is_fixed() {
    let stages = prove_stages();
    let order: Vec<Stage> = stages.iter().map(|s| s.stage).collect();
    assert_eq!(
        order,
        vec![
            Stage::Compile,
            Stage::BuildNative,
            Stage::Witness,
            Stage::KeySetup,
            Stage::ExportVerificationKey,
            Stage::Prove,
        ]
    );
    assert_eq!(stages[3].preconditions, vec![Artifact::SetupParameters]);
    assert_eq!(stages[3].command.args[2], "../../../final.ptau");
}

#[test]
fn full_run_produces_the_three_artifacts() {
    let mut fs = BTreeSet::new();
    fs.insert(path(Artifact::SetupParameters));
    let (spawned, result) = run_prove(&mut fs, &[]);
    assert_eq!(result, Ok(()));
    assert_eq!(spawned.len(), 6);
    assert!(fs.contains(&path(Artifact::Proof)));
    assert!(fs.contains(&path(Artifact::PublicInputs)));
    assert!(fs.contains(&path(Artifact::VerificationKey)));
}

#[test]
fn absent_setup_file_fails_key_setup_and_spares_earlier_stages() {
    let mut fs = BTreeSet::new();
    let (spawned, result) = run_prove(&mut fs, &[]);
    assert_eq!(
        result,
        Err(PipelineError::MissingPrecondition {
            stage: Stage::KeySetup,
            artifact: Artifact::SetupParameters,
        })
    );
    // The failing stage spawned nothing; only the three earlier stages ran.
    assert_eq!(order_names(&spawned), vec![Stage::Compile, Stage::BuildNative, Stage::Witness]);
    // Earlier-stage artifacts are left on disk for inspection.
    assert!(fs.contains(&path(Artifact::CompiledCircuit)));
    assert!(fs.contains(&path(Artifact::NativeExecutable)));
    assert!(fs.contains(&path(Artifact::Witness)));
    // Nothing of the failed or later stages appeared.
    assert!(!fs.contains(&path(Artifact::ProvingKey)));
    assert!(!fs.contains(&path(Artifact::Proof)));
}

fn order_names(spawned: &[Stage]) -> Vec<Stage> {
    spawned.to_vec()
}

#[test]
fn stale_outputs_cannot_pass_for_fresh_ones() {
    let mut fs = BTreeSet::new();
    fs.insert(path(Artifact::SetupParameters));
    // Leftovers of an aborted earlier run.
    fs.insert(path(Artifact::Proof));
    fs.insert(path(Artifact::PublicInputs));
    fs.insert(path(Artifact::ProvingKey));
    // The final stage's tool runs but produces nothing.
    let (_, result) = run_prove(&mut fs, &[5]);
    assert_eq!(
        result,
        Err(PipelineError::MissingOutput {
            stage: Stage::Prove,
            artifact: Artifact::PublicInputs,
        })
    );
    // The stale files were deleted before the stage ran, so they cannot be
    // mistaken for fresh outputs.
    assert!(!fs.contains(&path(Artifact::Proof)));
    assert!(!fs.contains(&path(Artifact::PublicInputs)));
}

#[test]
fn errors_describe_the_file_and_the_reason() {
    let missing = PipelineError::MissingPrecondition {
        stage: Stage::KeySetup,
        artifact: Artifact::SetupParameters,
    };
    assert_eq!(
        missing.describe(NAME),
        "file not found: final.ptau (needed for circuit-specific key generation)"
    );
    let no_output = PipelineError::MissingOutput {
        stage: Stage::Compile,
        artifact: Artifact::CompiledCircuit,
    };
    assert_eq!(
        no_output.describe(NAME),
        "file not found: target/circom/demo/verifier.r1cs (the circom command must have failed)"
    );
    let dirty = PipelineError::CommandFailed { stage: Stage::Verify };
    assert_eq!(
        dirty.describe(NAME),
        "external process failure: proof verification did not exit cleanly"
    );
}

#[test]
fn every_stage_output_is_cleared_before_its_stage() {
    let stages = prove_stages();
    for (k, stage) in stages.iter().enumerate() {
        for post in stage.postconditions.iter() {
            let covered = stages[..=k].iter().any(|earlier| {
                earlier.cleanup.iter().any(|c| {
                    c == post
                        || (*c == Artifact::NativeBuildDir && *post == Artifact::NativeExecutable)
                })
            });
            assert!(covered, "output {:?} of stage {:?} has no covering cleanup", post, stage.stage);
        }
    }
}
