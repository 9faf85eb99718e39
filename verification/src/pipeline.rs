//! The staged tool pipeline that turns a rendered probabilistic proof into
//! a succinct circuit proof.
//!
//! Each stage names the files that must already exist, the stale outputs of
//! a prior run to delete before the stage runs, one external command, and
//! the outputs whose existence confirms success.  The plans here are pure
//! data with exact contracts; a thin unverified driver walks a plan,
//! performs the filesystem probes and process invocations, and feeds every
//! observation back into the decision functions of this module, which alone
//! decide whether the run continues and with which error it stops.

use vstd::prelude::*;
use vstd::string::StringExecFns;
use crate::params::ProofDescriptor;
use crate::params::ParameterSet;
use crate::params::derive_parameters;
use crate::params::derives_to;
use crate::render::generate_circom_main;
use crate::render::circuit_import_paths;
use crate::render::main_spec;

verus! {

/// The files and directories a pipeline run reads and produces, all within
/// the circuit's working directory except the externally supplied universal
/// setup parameter file.
#[derive(Clone, Copy, Debug, PartialEq, Eq, Structural)]
pub enum Artifact {
    /// `input.json`: the rendered proof handed to witness generation.
    RenderedInput,
    /// `verifier.circom`: the generated circuit source.
    CircuitSource,
    /// `verifier.r1cs`: the compiled constraint system.
    CompiledCircuit,
    /// `verifier_cpp`: the generated native build directory.
    NativeBuildDir,
    /// `verifier_cpp/verifier`: the built witness-generation executable.
    NativeExecutable,
    /// `witness.wtns`: the computed execution witness.
    Witness,
    /// `final.ptau`: the universal setup parameter file, supplied
    /// externally at the project root.
    SetupParameters,
    /// `verifier.zkey`: the circuit-specific proving key.
    ProvingKey,
    /// `verification_key.json`: the exported verification key.
    VerificationKey,
    /// `proof.json`: the final succinct proof.
    Proof,
    /// `public.json`: the public inputs and outputs of the final proof.
    PublicInputs,
}

/// The ordered stages of a pipeline run.
#[derive(Clone, Copy, Debug, PartialEq, Eq, Structural)]
pub enum Stage {
    Compile,
    BuildNative,
    Witness,
    KeySetup,
    ExportVerificationKey,
    Prove,
    Verify,
}

/// Which external tool a stage invokes.
#[derive(Clone, Copy, Debug, PartialEq, Eq, Structural)]
pub enum Executable {
    Circom,
    Make,
    SnarkJs,
    /// The witness generator built by the `BuildNative` stage, at the
    /// [`Artifact::NativeExecutable`] path.
    NativeBinary,
}

/// The working directory an invocation runs in.
#[derive(Clone, Copy, Debug, PartialEq, Eq, Structural)]
pub enum Workdir {
    ProjectRoot,
    CircuitDir,
    NativeBuildDir,
}

/// One external-process invocation.
pub struct Command {
    pub executable: Executable,
    pub args: Vec<&'static str>,
    pub workdir: Workdir,
}

/// One guarded stage: required inputs, stale outputs to delete, the
/// invocation, and the outputs that confirm success.
pub struct StagePlan {
    pub stage: Stage,
    pub preconditions: Vec<Artifact>,
    pub cleanup: Vec<Artifact>,
    pub command: Command,
    pub postconditions: Vec<Artifact>,
}

/// A typed, stage-specific failure; every failure aborts the run at once.
#[derive(Debug, PartialEq, Eq)]
pub enum PipelineError {
    /// A required input file was absent; the stage's command was never run.
    MissingPrecondition { stage: Stage, artifact: Artifact },
    /// The stage's external process could not be run or exited non-zero.
    CommandFailed { stage: Stage },
    /// The process exited cleanly but an expected output never appeared.
    MissingOutput { stage: Stage, artifact: Artifact },
    /// A filesystem operation of the driver failed, with a human-readable
    /// comment naming the operation attempted.
    Io { comment: String },
    /// The upstream probabilistic-proof library reported an error.
    ProverFailed,
    /// The optional self-check found the upstream proof invalid against its
    /// own public inputs.
    ProofRejected,
}

/// The reason a stage needs its input, or the tool whose silence explains a
/// missing output, phrased for error reports.
pub open spec fn stage_need_spec(stage: Stage) -> Seq<char> {
    match stage {
        Stage::Compile => "needed for circuit compilation"@,
        Stage::BuildNative => "needed for the witness-generator build"@,
        Stage::Witness => "needed for witness generation"@,
        Stage::KeySetup => "needed for circuit-specific key generation"@,
        Stage::ExportVerificationKey => "needed for verification key export"@,
        Stage::Prove => "needed for proof generation"@,
        Stage::Verify => "needed for verification"@,
    }
}

pub open spec fn stage_tool_spec(stage: Stage) -> Seq<char> {
    match stage {
        Stage::Compile => "the circom command"@,
        Stage::BuildNative => "the make command"@,
        Stage::Witness => "witness generation"@,
        Stage::KeySetup => "circuit-specific key generation"@,
        Stage::ExportVerificationKey => "verification key export"@,
        Stage::Prove => "proof generation"@,
        Stage::Verify => "proof verification"@,
    }
}

/// The human-readable account [`PipelineError::describe`] returns.
pub open spec fn describe_spec(e: PipelineError, name: Seq<char>) -> Seq<char> {
    match e {
        PipelineError::MissingPrecondition { stage, artifact } => "file not found: "@
            + artifact_path_spec(name, artifact) + " ("@ + stage_need_spec(stage) + ")"@,
        PipelineError::CommandFailed { stage } => "external process failure: "@ + stage_tool_spec(
            stage,
        ) + " did not exit cleanly"@,
        PipelineError::MissingOutput { stage, artifact } => "file not found: "@
            + artifact_path_spec(name, artifact) + " ("@ + stage_tool_spec(stage)
            + " must have failed)"@,
        PipelineError::Io { comment } => "io error: "@ + comment@,
        PipelineError::ProverFailed => "the upstream prover reported an error"@,
        PipelineError::ProofRejected => "the upstream proof is invalid against its own public inputs"@,
    }
}

/// Relative path of the circuit's working directory.
pub open spec fn circuit_dir_spec(name: Seq<char>) -> Seq<char> {
    "target/circom/"@ + name
}

/// File name of an artifact within the circuit's working directory; the
/// setup parameter file alone lives outside it, at the project root.
pub open spec fn artifact_file_spec(a: Artifact) -> Seq<char> {
    match a {
        Artifact::RenderedInput => "/input.json"@,
        Artifact::CircuitSource => "/verifier.circom"@,
        Artifact::CompiledCircuit => "/verifier.r1cs"@,
        Artifact::NativeBuildDir => "/verifier_cpp"@,
        Artifact::NativeExecutable => "/verifier_cpp/verifier"@,
        Artifact::Witness => "/witness.wtns"@,
        Artifact::SetupParameters => Seq::empty(),
        Artifact::ProvingKey => "/verifier.zkey"@,
        Artifact::VerificationKey => "/verification_key.json"@,
        Artifact::Proof => "/proof.json"@,
        Artifact::PublicInputs => "/public.json"@,
    }
}

/// Relative path of an artifact, for probing, deletion and reporting.
pub open spec fn artifact_path_spec(name: Seq<char>, a: Artifact) -> Seq<char> {
    if a == Artifact::SetupParameters {
        "final.ptau"@
    } else {
        circuit_dir_spec(name) + artifact_file_spec(a)
    }
}

/// Relative path of a stage's working directory.
pub open spec fn workdir_path_spec(name: Seq<char>, w: Workdir) -> Seq<char> {
    match w {
        Workdir::ProjectRoot => "."@,
        Workdir::CircuitDir => circuit_dir_spec(name),
        Workdir::NativeBuildDir => circuit_dir_spec(name) + "/verifier_cpp"@,
    }
}

/// Build the relative path of an artifact of the named circuit.
pub fn artifact_path(circuit_name: &str, a: Artifact) -> (r: String)
    ensures
        r@ == artifact_path_spec(circuit_name@, a),
{
    match a {
        Artifact::SetupParameters => String::from_str("final.ptau"),
        Artifact::RenderedInput => in_circuit_dir(circuit_name, "/input.json"),
        Artifact::CircuitSource => in_circuit_dir(circuit_name, "/verifier.circom"),
        Artifact::CompiledCircuit => in_circuit_dir(circuit_name, "/verifier.r1cs"),
        Artifact::NativeBuildDir => in_circuit_dir(circuit_name, "/verifier_cpp"),
        Artifact::NativeExecutable => in_circuit_dir(circuit_name, "/verifier_cpp/verifier"),
        Artifact::Witness => in_circuit_dir(circuit_name, "/witness.wtns"),
        Artifact::ProvingKey => in_circuit_dir(circuit_name, "/verifier.zkey"),
        Artifact::VerificationKey => in_circuit_dir(circuit_name, "/verification_key.json"),
        Artifact::Proof => in_circuit_dir(circuit_name, "/proof.json"),
        Artifact::PublicInputs => in_circuit_dir(circuit_name, "/public.json"),
    }
}

/// Join the circuit directory with a file suffix.
fn in_circuit_dir(circuit_name: &str, suffix: &str) -> (r: String)
    ensures
        r@ == circuit_dir_spec(circuit_name@) + suffix@,
{
    let mut out = String::new();
    out.append("target/circom/");
    out.append(circuit_name);
    out.append(suffix);
    out
}

fn stage_need(stage: Stage) -> (r: &'static str)
    ensures
        r@ == stage_need_spec(stage),
{
    match stage {
        Stage::Compile => "needed for circuit compilation",
        Stage::BuildNative => "needed for the witness-generator build",
        Stage::Witness => "needed for witness generation",
        Stage::KeySetup => "needed for circuit-specific key generation",
        Stage::ExportVerificationKey => "needed for verification key export",
        Stage::Prove => "needed for proof generation",
        Stage::Verify => "needed for verification",
    }
}

fn stage_tool(stage: Stage) -> (r: &'static str)
    ensures
        r@ == stage_tool_spec(stage),
{
    match stage {
        Stage::Compile => "the circom command",
        Stage::BuildNative => "the make command",
        Stage::Witness => "witness generation",
        Stage::KeySetup => "circuit-specific key generation",
        Stage::ExportVerificationKey => "verification key export",
        Stage::Prove => "proof generation",
        Stage::Verify => "proof verification",
    }
}

impl PipelineError {
    /// A human-readable account of the failure for reporting: it names the
    /// relative path of the file involved and the reason it mattered.
    pub fn describe(&self, circuit_name: &str) -> (r: String)
        ensures
            r@ == describe_spec(*self, circuit_name@),
    {
        match self {
            PipelineError::MissingPrecondition { stage, artifact } => {
                let mut out = String::from_str("file not found: ");
                out.append(artifact_path(circuit_name, *artifact).as_str());
                out.append(" (");
                out.append(stage_need(*stage));
                out.append(")");
                out
            },
            PipelineError::CommandFailed { stage } => {
                let mut out = String::from_str("external process failure: ");
                out.append(stage_tool(*stage));
                out.append(" did not exit cleanly");
                out
            },
            PipelineError::MissingOutput { stage, artifact } => {
                let mut out = String::from_str("file not found: ");
                out.append(artifact_path(circuit_name, *artifact).as_str());
                out.append(" (");
                out.append(stage_tool(*stage));
                out.append(" must have failed)");
                out
            },
            PipelineError::Io { comment } => {
                let mut out = String::from_str("io error: ");
                out.append(comment.as_str());
                out
            },
            PipelineError::ProverFailed => {
                String::from_str("the upstream prover reported an error")
            },
            PipelineError::ProofRejected => {
                String::from_str("the upstream proof is invalid against its own public inputs")
            },
        }
    }
}

/// Build the relative path of a stage's working directory.
pub fn workdir_path(circuit_name: &str, w: Workdir) -> (r: String)
    ensures
        r@ == workdir_path_spec(circuit_name@, w),
{
    match w {
        Workdir::ProjectRoot => String::from_str("."),
        Workdir::CircuitDir => {
            let mut out = String::new();
            out.append("target/circom/");
            out.append(circuit_name);
            out
        },
        Workdir::NativeBuildDir => {
            let mut out = String::new();
            out.append("target/circom/");
            out.append(circuit_name);
            out.append("/verifier_cpp");
            out
        },
    }
}

/// Whether deleting `c` removes any stale copy of `a`: the artifact itself,
/// or the build directory that contains the native executable.
pub open spec fn clears(c: Artifact, a: Artifact) -> bool {
    c == a || (c == Artifact::NativeBuildDir && a == Artifact::NativeExecutable)
}

/// The exact content of the six proving stages, in run order.
pub open spec fn prove_plan_wf(r: Seq<StagePlan>) -> bool {
    &&& r.len() == 6
    &&& r[0].stage == Stage::Compile
    &&& r[0].preconditions@ == Seq::<Artifact>::empty()
    &&& r[0].cleanup@ == seq![Artifact::CompiledCircuit, Artifact::NativeBuildDir]
    &&& r[0].command.executable == Executable::Circom
    &&& r[0].command.workdir == Workdir::CircuitDir
    &&& r[0].command.args@.len() == 3
    &&& r[0].command.args@[0]@ == "--r1cs"@
    &&& r[0].command.args@[1]@ == "--c"@
    &&& r[0].command.args@[2]@ == "verifier.circom"@
    &&& r[0].postconditions@ == seq![Artifact::CompiledCircuit]
    &&& r[1].stage == Stage::BuildNative
    &&& r[1].preconditions@ == Seq::<Artifact>::empty()
    &&& r[1].cleanup@ == Seq::<Artifact>::empty()
    &&& r[1].command.executable == Executable::Make
    &&& r[1].command.workdir == Workdir::NativeBuildDir
    &&& r[1].command.args@.len() == 0
    &&& r[1].postconditions@ == seq![Artifact::NativeExecutable]
    &&& r[2].stage == Stage::Witness
    &&& r[2].preconditions@ == Seq::<Artifact>::empty()
    &&& r[2].cleanup@ == seq![Artifact::Witness]
    &&& r[2].command.executable == Executable::NativeBinary
    &&& r[2].command.workdir == Workdir::CircuitDir
    &&& r[2].command.args@.len() == 2
    &&& r[2].command.args@[0]@ == "input.json"@
    &&& r[2].command.args@[1]@ == "witness.wtns"@
    &&& r[2].postconditions@ == seq![Artifact::Witness]
    &&& r[3].stage == Stage::KeySetup
    &&& r[3].preconditions@ == seq![Artifact::SetupParameters]
    &&& r[3].cleanup@ == seq![Artifact::ProvingKey]
    &&& r[3].command.executable == Executable::SnarkJs
    &&& r[3].command.workdir == Workdir::CircuitDir
    &&& r[3].command.args@.len() == 4
    &&& r[3].command.args@[0]@ == "g16s"@
    &&& r[3].command.args@[1]@ == "verifier.r1cs"@
    &&& r[3].command.args@[2]@ == "../../../final.ptau"@
    &&& r[3].command.args@[3]@ == "verifier.zkey"@
    &&& r[3].postconditions@ == seq![Artifact::ProvingKey]
    &&& r[4].stage == Stage::ExportVerificationKey
    &&& r[4].preconditions@ == Seq::<Artifact>::empty()
    &&& r[4].cleanup@ == seq![Artifact::VerificationKey]
    &&& r[4].command.executable == Executable::SnarkJs
    &&& r[4].command.workdir == Workdir::CircuitDir
    &&& r[4].command.args@.len() == 3
    &&& r[4].command.args@[0]@ == "zkev"@
    &&& r[4].command.args@[1]@ == "verifier.zkey"@
    &&& r[4].command.args@[2]@ == "verification_key.json"@
    &&& r[4].postconditions@ == seq![Artifact::VerificationKey]
    &&& r[5].stage == Stage::Prove
    &&& r[5].preconditions@ == Seq::<Artifact>::empty()
    &&& r[5].cleanup@ == seq![Artifact::Proof, Artifact::PublicInputs]
    &&& r[5].command.executable == Executable::SnarkJs
    &&& r[5].command.workdir == Workdir::CircuitDir
    &&& r[5].command.args@.len() == 5
    &&& r[5].command.args@[0]@ == "g16p"@
    &&& r[5].command.args@[1]@ == "verifier.zkey"@
    &&& r[5].command.args@[2]@ == "witness.wtns"@
    &&& r[5].command.args@[3]@ == "proof.json"@
    &&& r[5].command.args@[4]@ == "public.json"@
    &&& r[5].postconditions@ == seq![Artifact::PublicInputs, Artifact::Proof]
}

/// The six proving stages, in the fixed run order.
///
/// Besides the exact content of each stage, the plan guarantees that every
/// stage output is covered by a deletion at that stage or an earlier one,
/// so a leftover file from an aborted prior run can never be mistaken for a
/// fresh postcondition.
pub fn prove_stages() -> (r: Vec<StagePlan>)
    ensures
        prove_plan_wf(r@),
        forall|k: int, i: int|
            0 <= k < r@.len() && 0 <= i < r@[k].postconditions@.len() ==> exists|j: int, c: int|
                0 <= j <= k && 0 <= c < r@[j].cleanup@.len() && clears(
                    r@[j].cleanup@[c],
                    #[trigger] r@[k].postconditions@[i],
                ),
{
    let mut r: Vec<StagePlan> = Vec::new();
    let mut args0: Vec<&'static str> = Vec::new();
    args0.push("--r1cs");
    args0.push("--c");
    args0.push("verifier.circom");
    let mut cleanup0: Vec<Artifact> = Vec::new();
    cleanup0.push(Artifact::CompiledCircuit);
    cleanup0.push(Artifact::NativeBuildDir);
    let mut posts0: Vec<Artifact> = Vec::new();
    posts0.push(Artifact::CompiledCircuit);
    r.push(
        StagePlan {
            stage: Stage::Compile,
            preconditions: Vec::new(),
            cleanup: cleanup0,
            command: Command {
                executable: Executable::Circom,
                args: args0,
                workdir: Workdir::CircuitDir,
            },
            postconditions: posts0,
        },
    );
    let mut posts1: Vec<Artifact> = Vec::new();
    posts1.push(Artifact::NativeExecutable);
    r.push(
        StagePlan {
            stage: Stage::BuildNative,
            preconditions: Vec::new(),
            cleanup: Vec::new(),
            command: Command {
                executable: Executable::Make,
                args: Vec::new(),
                workdir: Workdir::NativeBuildDir,
            },
            postconditions: posts1,
        },
    );
    let mut args2: Vec<&'static str> = Vec::new();
    args2.push("input.json");
    args2.push("witness.wtns");
    let mut cleanup2: Vec<Artifact> = Vec::new();
    cleanup2.push(Artifact::Witness);
    let mut posts2: Vec<Artifact> = Vec::new();
    posts2.push(Artifact::Witness);
    r.push(
        StagePlan {
            stage: Stage::Witness,
            preconditions: Vec::new(),
            cleanup: cleanup2,
            command: Command {
                executable: Executable::NativeBinary,
                args: args2,
                workdir: Workdir::CircuitDir,
            },
            postconditions: posts2,
        },
    );
    let mut pres3: Vec<Artifact> = Vec::new();
    pres3.push(Artifact::SetupParameters);
    let mut args3: Vec<&'static str> = Vec::new();
    args3.push("g16s");
    args3.push("verifier.r1cs");
    args3.push("../../../final.ptau");
    args3.push("verifier.zkey");
    let mut cleanup3: Vec<Artifact> = Vec::new();
    cleanup3.push(Artifact::ProvingKey);
    let mut posts3: Vec<Artifact> = Vec::new();
    posts3.push(Artifact::ProvingKey);
    r.push(
        StagePlan {
            stage: Stage::KeySetup,
            preconditions: pres3,
            cleanup: cleanup3,
            command: Command {
                executable: Executable::SnarkJs,
                args: args3,
                workdir: Workdir::CircuitDir,
            },
            postconditions: posts3,
        },
    );
    let mut args4: Vec<&'static str> = Vec::new();
    args4.push("zkev");
    args4.push("verifier.zkey");
    args4.push("verification_key.json");
    let mut cleanup4: Vec<Artifact> = Vec::new();
    cleanup4.push(Artifact::VerificationKey);
    let mut posts4: Vec<Artifact> = Vec::new();
    posts4.push(Artifact::VerificationKey);
    r.push(
        StagePlan {
            stage: Stage::ExportVerificationKey,
            preconditions: Vec::new(),
            cleanup: cleanup4,
            command: Command {
                executable: Executable::SnarkJs,
                args: args4,
                workdir: Workdir::CircuitDir,
            },
            postconditions: posts4,
        },
    );
    let mut args5: Vec<&'static str> = Vec::new();
    args5.push("g16p");
    args5.push("verifier.zkey");
    args5.push("witness.wtns");
    args5.push("proof.json");
    args5.push("public.json");
    let mut cleanup5: Vec<Artifact> = Vec::new();
    cleanup5.push(Artifact::Proof);
    cleanup5.push(Artifact::PublicInputs);
    let mut posts5: Vec<Artifact> = Vec::new();
    posts5.push(Artifact::PublicInputs);
    posts5.push(Artifact::Proof);
    r.push(
        StagePlan {
            stage: Stage::Prove,
            preconditions: Vec::new(),
            cleanup: cleanup5,
            command: Command {
                executable: Executable::SnarkJs,
                args: args5,
                workdir: Workdir::CircuitDir,
            },
            postconditions: posts5,
        },
    );
    proof {
        assert(r@[0].cleanup@ =~= seq![Artifact::CompiledCircuit, Artifact::NativeBuildDir]);
        assert(r@[0].postconditions@ =~= seq![Artifact::CompiledCircuit]);
        assert(r@[0].preconditions@ =~= Seq::<Artifact>::empty());
        assert(r@[1].preconditions@ =~= Seq::<Artifact>::empty());
        assert(r@[1].cleanup@ =~= Seq::<Artifact>::empty());
        assert(r@[1].postconditions@ =~= seq![Artifact::NativeExecutable]);
        assert(r@[2].preconditions@ =~= Seq::<Artifact>::empty());
        assert(r@[2].cleanup@ =~= seq![Artifact::Witness]);
        assert(r@[2].postconditions@ =~= seq![Artifact::Witness]);
        assert(r@[3].preconditions@ =~= seq![Artifact::SetupParameters]);
        assert(r@[3].cleanup@ =~= seq![Artifact::ProvingKey]);
        assert(r@[3].postconditions@ =~= seq![Artifact::ProvingKey]);
        assert(r@[4].preconditions@ =~= Seq::<Artifact>::empty());
        assert(r@[4].cleanup@ =~= seq![Artifact::VerificationKey]);
        assert(r@[4].postconditions@ =~= seq![Artifact::VerificationKey]);
        assert(r@[5].preconditions@ =~= Seq::<Artifact>::empty());
        assert(r@[5].cleanup@ =~= seq![Artifact::Proof, Artifact::PublicInputs]);
        assert(r@[5].postconditions@ =~= seq![Artifact::PublicInputs, Artifact::Proof]);
        assert forall|k: int, i: int|
            0 <= k < r@.len() && 0 <= i < r@[k].postconditions@.len() implies exists|j: int, c: int|
            0 <= j <= k && 0 <= c < r@[j].cleanup@.len() && clears(
                r@[j].cleanup@[c],
                #[trigger] r@[k].postconditions@[i],
            ) by {
            if k == 0 {
                assert(clears(r@[0].cleanup@[0], r@[0].postconditions@[i]));
            } else if k == 1 {
                assert(clears(r@[0].cleanup@[1], r@[1].postconditions@[i]));
            } else if k == 2 {
                assert(clears(r@[2].cleanup@[0], r@[2].postconditions@[i]));
            } else if k == 3 {
                assert(clears(r@[3].cleanup@[0], r@[3].postconditions@[i]));
            } else if k == 4 {
                assert(clears(r@[4].cleanup@[0], r@[4].postconditions@[i]));
            } else {
                if i == 0 {
                    assert(clears(r@[5].cleanup@[1], r@[5].postconditions@[0]));
                } else {
                    assert(clears(r@[5].cleanup@[0], r@[5].postconditions@[1]));
                }
            }
        }
    }
    r
}

/// The single verification stage: it requires the three files the proving
/// run reported, runs the proof toolkit's verification subcommand in the
/// circuit directory, and trusts its exit status.
pub fn circom_verify() -> (r: StagePlan)
    ensures
        r.stage == Stage::Verify,
        r.preconditions@ == seq![
            Artifact::VerificationKey,
            Artifact::PublicInputs,
            Artifact::Proof,
        ],
        r.cleanup@ == Seq::<Artifact>::empty(),
        r.command.executable == Executable::SnarkJs,
        r.command.workdir == Workdir::CircuitDir,
        r.command.args@.len() == 4,
        r.command.args@[0]@ == "g16v"@,
        r.command.args@[1]@ == "verification_key.json"@,
        r.command.args@[2]@ == "public.json"@,
        r.command.args@[3]@ == "proof.json"@,
        r.postconditions@ == Seq::<Artifact>::empty(),
{
    let mut pres: Vec<Artifact> = Vec::new();
    pres.push(Artifact::VerificationKey);
    pres.push(Artifact::PublicInputs);
    pres.push(Artifact::Proof);
    let mut args: Vec<&'static str> = Vec::new();
    args.push("g16v");
    args.push("verification_key.json");
    args.push("public.json");
    args.push("proof.json");
    let r = StagePlan {
        stage: Stage::Verify,
        preconditions: pres,
        cleanup: Vec::new(),
        command: Command { executable: Executable::SnarkJs, args, workdir: Workdir::CircuitDir },
        postconditions: Vec::new(),
    };
    proof {
        assert(r.preconditions@ =~= seq![
            Artifact::VerificationKey,
            Artifact::PublicInputs,
            Artifact::Proof,
        ]);
        assert(r.cleanup@ =~= Seq::<Artifact>::empty());
        assert(r.postconditions@ =~= Seq::<Artifact>::empty());
    }
    r
}

/// Decide a stage's fate from the observed presence of its required input
/// files: the stage may run only if every required file is present, and a
/// missing file fails the stage — naming it — before any process is
/// spawned.
pub fn check_preconditions(plan: &StagePlan, present: &Vec<bool>) -> (r: Result<(), PipelineError>)
    requires
        present@.len() == plan.preconditions@.len(),
    ensures
        r is Ok <==> (forall|i: int| 0 <= i < present@.len() ==> present@[i]),
        r is Err ==> exists|i: int|
            0 <= i < present@.len() && !present@[i] && (forall|j: int| 0 <= j < i ==> present@[j])
                && r == Result::<(), PipelineError>::Err(
                (PipelineError::MissingPrecondition {
                    stage: plan.stage,
                    artifact: plan.preconditions@[i],
                }),
            ),
{
    let mut i: usize = 0;
    while i < present.len()
        invariant
            present@.len() == plan.preconditions@.len(),
            i <= present@.len(),
            forall|j: int| 0 <= j < i ==> present@[j],
        decreases present@.len() - i,
    {
        if !present[i] {
            return Err(
                PipelineError::MissingPrecondition {
                    stage: plan.stage,
                    artifact: plan.preconditions[i],
                },
            );
        }
        i += 1;
    }
    Ok(())
}

/// Decide a stage's outcome from the observed exit status and the presence
/// of its expected outputs: success needs a clean exit and every output on
/// disk; a dirty exit or a missing output fails the stage, naming the first
/// output that never appeared.
pub fn stage_outcome(plan: &StagePlan, command_ok: bool, outputs_present: &Vec<bool>) -> (r: Result<
    (),
    PipelineError,
>)
    requires
        outputs_present@.len() == plan.postconditions@.len(),
    ensures
        r is Ok <==> (command_ok && forall|i: int|
            0 <= i < outputs_present@.len() ==> outputs_present@[i]),
        !command_ok ==> r == Result::<(), PipelineError>::Err(
            (PipelineError::CommandFailed { stage: plan.stage }),
        ),
        command_ok && r is Err ==> exists|i: int|
            0 <= i < outputs_present@.len() && !outputs_present@[i] && (forall|j: int|
                0 <= j < i ==> outputs_present@[j]) && r == Result::<(), PipelineError>::Err(
                (PipelineError::MissingOutput {
                    stage: plan.stage,
                    artifact: plan.postconditions@[i],
                }),
            ),
{
    if !command_ok {
        return Err(PipelineError::CommandFailed { stage: plan.stage });
    }
    let mut i: usize = 0;
    while i < outputs_present.len()
        invariant
            command_ok,
            outputs_present@.len() == plan.postconditions@.len(),
            i <= outputs_present@.len(),
            forall|j: int| 0 <= j < i ==> outputs_present@[j],
        decreases outputs_present@.len() - i,
    {
        if !outputs_present[i] {
            return Err(
                PipelineError::MissingOutput {
                    stage: plan.stage,
                    artifact: plan.postconditions[i],
                },
            );
        }
        i += 1;
    }
    Ok(())
}

/// Everything a proving run needs before the external tools start: the
/// derived parameters, the rendered main-component declaration and the
/// import paths of the circuit source, and the six guarded stages.
pub struct ProvePlan {
    pub parameters: ParameterSet,
    pub circuit_main: String,
    pub import_paths: Vec<String>,
    pub stages: Vec<StagePlan>,
}

/// Prepare a full proving run for one circuit: derive the ordered
/// parameters from the proof metadata, render the circuit's main-component
/// declaration, and lay out the guarded stage sequence the driver walks.
pub fn circom_prove(circuit_name: &str, descriptor: &ProofDescriptor) -> (r: ProvePlan)
    requires
        descriptor.well_formed(),
    ensures
        derives_to(*descriptor, r.parameters),
        r.circuit_main@ == main_spec(r.parameters.entries@),
        r.import_paths@.len() == 2,
        r.import_paths@[0]@ == "../../../circuits/verify.circom"@,
        r.import_paths@[1]@ == "../../../circuits/air/"@ + circuit_name@ + ".circom"@,
        prove_plan_wf(r.stages@),
{
    let parameters = derive_parameters(descriptor);
    let circuit_main = generate_circom_main(&parameters);
    let import_paths = circuit_import_paths(circuit_name);
    let stages = prove_stages();
    ProvePlan { parameters, circuit_main, import_paths, stages }
}

} // verus!
