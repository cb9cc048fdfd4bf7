//! The subprocess proving pipeline, modelled as a state machine.
//!
//! Each request gets an isolated workspace (a copy of the circuit's
//! artifact directory), runs the external witness, proof and mandatory
//! self-check commands inside it, reads the outputs back, and removes the
//! workspace on every exit path.  The machine here makes every decision:
//! which path to check, which command to run with which arguments, what
//! each failure reports, and that no response is issued while a workspace
//! is still owned.  The driver outside performs one filesystem or process
//! action at a time and feeds the outcome back as an event.

use vstd::pervasive::unreached;
use vstd::prelude::*;
use vstd::string::StrSliceExecFns;
use vstd::string::StringExecFns;

use crate::config::VsockConfig;
use crate::hexfmt::{hex_encode_prefixed, hex_of};
use crate::session::{error_response, is_error_resp, VsockRequest, VsockResponse};
use crate::strutil::{concat2, concat3, dec_of, u64_to_dec};

verus! {

/// Where the pipeline stands: which outcome it waits for next.
#[derive(Debug, PartialEq, Eq, Structural, Clone, Copy)]
pub enum PipelineStage {
    CheckingCircuitDir,
    CheckingBytecode,
    CheckingVk,
    CheckingNargoToml,
    CreatingWorkspace,
    WritingProverToml,
    RunningWitnessGen,
    CreatingProofDir,
    MovingWitness,
    RunningProve,
    RunningSelfCheck,
    ReadingProof,
    ReadingPublicInputs,
    Attesting,
    CleaningUp,
    Done,
}

/// One action the driver must perform for the pipeline.
#[derive(Debug)]
pub enum PipelineAction {
    /// Ask whether this filesystem path exists.
    CheckPath { path: String },
    /// Deep-copy the circuit directory to the workspace path.
    CreateWorkspace { source: String, workspace: String },
    /// Write a text file.
    WriteFile { path: String, contents: String },
    /// Run an external command in `cwd`, bounded by the timeout.
    RunCommand { program: String, args: Vec<String>, cwd: String, timeout_secs: u64 },
    /// Create a directory (and its parents).
    CreateDir { path: String },
    /// Move a file.
    MoveFile { from: String, to: String },
    /// Read a file's bytes.
    ReadFile { path: String },
    /// Best-effort attestation over the proof bytes.
    RequestAttestation { proof_bytes: Vec<u8> },
    /// Delete the workspace directory; failures are logged, never escalated.
    RemoveWorkspace { workspace: String },
    /// Hand the response out and close the session.
    Respond { response: VsockResponse },
}

/// The driver's answer to the last action.
#[derive(Debug)]
pub enum PipelineEvent {
    PathChecked { exists: bool },
    WorkspaceCreated { error: Option<String> },
    FileWritten { error: Option<String> },
    CommandFinished { result: Result<String, String> },
    DirCreated { error: Option<String> },
    FileMoved { error: Option<String> },
    FileRead { read: Result<Vec<u8>, String> },
    AttestationDone { document: Option<String> },
    WorkspaceRemoved,
}

/// The pipeline's state between two actions.
#[derive(Debug)]
pub struct ProvePipeline {
    pub request_id: String,
    pub circuit_id: String,
    pub prover_toml: String,
    pub nargo_path: String,
    pub bb_path: String,
    pub circuit_dir: String,
    pub bytecode_path: String,
    pub vk_path: String,
    pub nargo_toml_path: String,
    pub workspace: String,
    pub stage: PipelineStage,
    pub workspace_live: bool,
    pub proof_bytes: Vec<u8>,
    pub public_inputs_bytes: Vec<u8>,
    pub pending: Option<VsockResponse>,
}

impl ProvePipeline {
    /// The stages before a workspace exists.
    pub open spec fn pre_workspace(self) -> bool {
        match self.stage {
            PipelineStage::CheckingCircuitDir => true,
            PipelineStage::CheckingBytecode => true,
            PipelineStage::CheckingVk => true,
            PipelineStage::CheckingNargoToml => true,
            PipelineStage::CreatingWorkspace => true,
            _ => false,
        }
    }

    /// The stages that work inside a live workspace.
    pub open spec fn in_workspace(self) -> bool {
        match self.stage {
            PipelineStage::WritingProverToml => true,
            PipelineStage::RunningWitnessGen => true,
            PipelineStage::CreatingProofDir => true,
            PipelineStage::MovingWitness => true,
            PipelineStage::RunningProve => true,
            PipelineStage::RunningSelfCheck => true,
            PipelineStage::ReadingProof => true,
            PipelineStage::ReadingPublicInputs => true,
            PipelineStage::Attesting => true,
            _ => false,
        }
    }

    /// The state invariant: the workspace is owned exactly while work
    /// happens inside it, never after completion, and a cleanup stage
    /// already knows what it will answer.
    pub open spec fn inv(self) -> bool {
        &&& (self.pre_workspace() ==> !self.workspace_live)
        &&& (self.in_workspace() ==> self.workspace_live)
        &&& (self.stage is CleaningUp ==> !self.workspace_live && self.pending is Some)
        &&& (self.stage is Done ==> !self.workspace_live)
    }
}

/// Which event kind a stage waits for.
pub open spec fn event_matches(stage: PipelineStage, event: PipelineEvent) -> bool {
    match stage {
        PipelineStage::CheckingCircuitDir => event is PathChecked,
        PipelineStage::CheckingBytecode => event is PathChecked,
        PipelineStage::CheckingVk => event is PathChecked,
        PipelineStage::CheckingNargoToml => event is PathChecked,
        PipelineStage::CreatingWorkspace => event is WorkspaceCreated,
        PipelineStage::WritingProverToml => event is FileWritten,
        PipelineStage::RunningWitnessGen => event is CommandFinished,
        PipelineStage::CreatingProofDir => event is DirCreated,
        PipelineStage::MovingWitness => event is FileMoved,
        PipelineStage::RunningProve => event is CommandFinished,
        PipelineStage::RunningSelfCheck => event is CommandFinished,
        PipelineStage::ReadingProof => event is FileRead,
        PipelineStage::ReadingPublicInputs => event is FileRead,
        PipelineStage::Attesting => event is AttestationDone,
        PipelineStage::CleaningUp => event is WorkspaceRemoved,
        PipelineStage::Done => false,
    }
}

/// The request does not carry a usable circuit id.
pub open spec fn missing_circuit_id(request: VsockRequest) -> bool {
    match request.circuit_id {
        None => true,
        Some(id) => id@.len() == 0,
    }
}

/// The request does not carry a usable parameter document.
pub open spec fn missing_prover_toml(request: VsockRequest) -> bool {
    match request.prover_toml {
        None => true,
        Some(t) => t@.len() == 0,
    }
}

/// The successful response of the pipeline: both outputs hex-encoded with a
/// `0x` prefix, the public inputs as a one-element list, the attestation
/// document as the device answered.
pub open spec fn is_success_resp(
    r: VsockResponse,
    request_id: Seq<char>,
    proof_bytes: Seq<u8>,
    public_inputs_bytes: Seq<u8>,
    attestation: Option<String>,
) -> bool {
    &&& r.response_type@ == "proof"@
    &&& r.request_id@ == request_id
    &&& r.proof matches Some(p) && p@ == seq!['0', 'x'] + hex_of(proof_bytes)
    &&& r.public_inputs matches Some(pi) && pi@.len() == 1 && pi@[0]@ == seq!['0', 'x'] + hex_of(
        public_inputs_bytes,
    )
    &&& r.attestation_document == attestation
    &&& r.error is None
}

/// The arguments of the external witness-generation command.
pub fn nargo_execute_args() -> (r: Vec<String>)
    ensures
        r.deep_view() =~= seq!["execute"@, "witness"@],
{
    let mut r: Vec<String> = Vec::new();
    r.push(String::from_str("execute"));
    r.push(String::from_str("witness"));
    proof {
        assert(r.deep_view() =~= seq!["execute"@, "witness"@]);
    }
    r
}

/// The arguments of the external proof-generation command, referencing the
/// bytecode, witness and verification key relative to the workspace.
pub fn bb_prove_args(circuit_id: &str) -> (r: Vec<String>)
    ensures
        r.deep_view() =~= seq![
            "prove"@,
            "-b"@,
            "target/"@ + circuit_id@ + ".json"@,
            "-w"@,
            "target/proof/witness.gz"@,
            "-k"@,
            "target/vk/vk"@,
            "-o"@,
            "target/proof"@,
            "--oracle_hash"@,
            "keccak"@,
        ],
{
    let mut r: Vec<String> = Vec::new();
    r.push(String::from_str("prove"));
    r.push(String::from_str("-b"));
    r.push(concat3("target/", circuit_id, ".json"));
    r.push(String::from_str("-w"));
    r.push(String::from_str("target/proof/witness.gz"));
    r.push(String::from_str("-k"));
    r.push(String::from_str("target/vk/vk"));
    r.push(String::from_str("-o"));
    r.push(String::from_str("target/proof"));
    r.push(String::from_str("--oracle_hash"));
    r.push(String::from_str("keccak"));
    proof {
        assert(r.deep_view() =~= seq![
            "prove"@,
            "-b"@,
            "target/"@ + circuit_id@ + ".json"@,
            "-w"@,
            "target/proof/witness.gz"@,
            "-k"@,
            "target/vk/vk"@,
            "-o"@,
            "target/proof"@,
            "--oracle_hash"@,
            "keccak"@,
        ]);
    }
    r
}

/// The arguments of the external self-check command, verifying the
/// just-produced proof against the verification key.
pub fn bb_verify_args() -> (r: Vec<String>)
    ensures
        r.deep_view() =~= seq![
            "verify"@,
            "-p"@,
            "target/proof/proof"@,
            "-i"@,
            "target/proof/public_inputs"@,
            "-k"@,
            "target/vk/vk"@,
            "--oracle_hash"@,
            "keccak"@,
        ],
{
    let mut r: Vec<String> = Vec::new();
    r.push(String::from_str("verify"));
    r.push(String::from_str("-p"));
    r.push(String::from_str("target/proof/proof"));
    r.push(String::from_str("-i"));
    r.push(String::from_str("target/proof/public_inputs"));
    r.push(String::from_str("-k"));
    r.push(String::from_str("target/vk/vk"));
    r.push(String::from_str("--oracle_hash"));
    r.push(String::from_str("keccak"));
    proof {
        assert(r.deep_view() =~= seq![
            "verify"@,
            "-p"@,
            "target/proof/proof"@,
            "-i"@,
            "target/proof/public_inputs"@,
            "-k"@,
            "target/vk/vk"@,
            "--oracle_hash"@,
            "keccak"@,
        ]);
    }
    r
}

/// Validates the pipeline's request fields and starts the machine: the
/// paths are laid out under the artifact root, the workspace name joins
/// the circuit id with the caller-supplied timestamp, and the first action
/// checks the circuit's artifact directory.  A request without a circuit
/// id or parameter document is answered at once, and no pipeline (and so
/// no external process) is started.
pub fn start_pipeline(
    request: &VsockRequest,
    config: &VsockConfig,
    temp_dir: &str,
    timestamp: u64,
) -> (r: Result<(ProvePipeline, PipelineAction), VsockResponse>)
    ensures
        missing_circuit_id(*request) ==> (r matches Err(resp) && is_error_resp(
            resp,
            request.request_id@,
            "circuitId is required"@,
        )),
        !missing_circuit_id(*request) && missing_prover_toml(*request) ==> (r matches Err(resp)
            && is_error_resp(resp, request.request_id@, "proverToml is required"@)),
        !missing_circuit_id(*request) && !missing_prover_toml(*request) ==> (r matches Ok(pa) && (
        request.circuit_id matches Some(ci) && request.prover_toml matches Some(toml)
            && pa.0.inv() && pa.0.stage is CheckingCircuitDir && !pa.0.workspace_live
            && pa.0.request_id@ == request.request_id@ && pa.0.circuit_id@ == ci@
            && pa.0.prover_toml@ == toml@ && pa.0.nargo_path@ == config.nargo_path@
            && pa.0.bb_path@ == config.bb_path@ && pa.0.circuit_dir@ == config.circuits_dir@
            + "/"@ + ci@ && pa.0.bytecode_path@ == pa.0.circuit_dir@ + "/target/"@ + ci@ + ".json"@
            && pa.0.vk_path@ == pa.0.circuit_dir@ + "/target/vk/vk"@ && pa.0.nargo_toml_path@
            == pa.0.circuit_dir@ + "/Nargo.toml"@ && pa.0.workspace@ == temp_dir@ + "/proofport-"@
            + ci@ + "_"@ + dec_of(timestamp as nat) && (pa.1 matches PipelineAction::CheckPath {
            path,
        } && path@ == pa.0.circuit_dir@))),
{
    let circuit_id: String = match &request.circuit_id {
        Some(id) => {
            if id.as_str().is_empty() {
                return Err(
                    error_response(
                        request.request_id.as_str(),
                        String::from_str("circuitId is required"),
                    ),
                );
            }
            id.clone()
        },
        None => {
            return Err(
                error_response(
                    request.request_id.as_str(),
                    String::from_str("circuitId is required"),
                ),
            );
        },
    };
    let prover_toml: String = match &request.prover_toml {
        Some(t) => {
            if t.as_str().is_empty() {
                return Err(
                    error_response(
                        request.request_id.as_str(),
                        String::from_str("proverToml is required"),
                    ),
                );
            }
            t.clone()
        },
        None => {
            return Err(
                error_response(
                    request.request_id.as_str(),
                    String::from_str("proverToml is required"),
                ),
            );
        },
    };
    let circuit_dir = concat3(config.circuits_dir.as_str(), "/", circuit_id.as_str());
    let bytecode_path = concat2(
        circuit_dir.as_str(),
        concat3("/target/", circuit_id.as_str(), ".json").as_str(),
    );
    let vk_path = concat2(circuit_dir.as_str(), "/target/vk/vk");
    let nargo_toml_path = concat2(circuit_dir.as_str(), "/Nargo.toml");
    let ts = u64_to_dec(timestamp);
    let mut workspace = concat3(temp_dir, "/proofport-", circuit_id.as_str());
    workspace.append("_");
    workspace.append(ts.as_str());
    let first_check = circuit_dir.clone();
    let p = ProvePipeline {
        request_id: request.request_id.clone(),
        circuit_id,
        prover_toml,
        nargo_path: config.nargo_path.clone(),
        bb_path: config.bb_path.clone(),
        circuit_dir,
        bytecode_path,
        vk_path,
        nargo_toml_path,
        workspace,
        stage: PipelineStage::CheckingCircuitDir,
        workspace_live: false,
        proof_bytes: Vec::new(),
        public_inputs_bytes: Vec::new(),
        pending: None,
    };
    Ok((p, PipelineAction::CheckPath { path: first_check }))
}

/// The step fails before any workspace exists: the pipeline completes at
/// once with an error response.
pub open spec fn fail_direct(
    p: ProvePipeline,
    q: ProvePipeline,
    a: PipelineAction,
    msg: Seq<char>,
) -> bool {
    &&& q.stage is Done
    &&& !q.workspace_live
    &&& a matches PipelineAction::Respond { response } && is_error_resp(
        response,
        p.request_id@,
        msg,
    )
}

/// The step fails while a workspace is owned: the pipeline gives the
/// workspace up by issuing its removal, holding the error response back
/// until the removal has been performed.
pub open spec fn fail_to_cleanup(
    p: ProvePipeline,
    q: ProvePipeline,
    a: PipelineAction,
    msg: Seq<char>,
) -> bool {
    &&& q.stage is CleaningUp
    &&& !q.workspace_live
    &&& q.pending matches Some(resp) && is_error_resp(resp, p.request_id@, msg)
    &&& q.request_id == p.request_id
    &&& a matches PipelineAction::RemoveWorkspace { workspace } && workspace@ == p.workspace@
}

/// The step succeeds: the pipeline moves to `stage` with everything else
/// unchanged.
pub open spec fn advance(p: ProvePipeline, q: ProvePipeline, stage: PipelineStage) -> bool {
    &&& q.stage == stage
    &&& q.workspace_live == p.workspace_live
    &&& q.request_id == p.request_id
    &&& q.circuit_id == p.circuit_id
    &&& q.prover_toml == p.prover_toml
    &&& q.nargo_path == p.nargo_path
    &&& q.bb_path == p.bb_path
    &&& q.circuit_dir == p.circuit_dir
    &&& q.bytecode_path == p.bytecode_path
    &&& q.vk_path == p.vk_path
    &&& q.nargo_toml_path == p.nargo_toml_path
    &&& q.workspace == p.workspace
    &&& q.pending == p.pending
}

/// The transition relation of the pipeline: for each stage and the event
/// it waits for, the following state and the action handed to the driver.
pub open spec fn step_spec(
    p: ProvePipeline,
    event: PipelineEvent,
    q: ProvePipeline,
    a: PipelineAction,
) -> bool {
    match p.stage {
        PipelineStage::CheckingCircuitDir => event matches PipelineEvent::PathChecked { exists }
            && if !exists {
            fail_direct(p, q, a, "Circuit directory not found: "@ + p.circuit_dir@)
        } else {
            &&& advance(p, q, PipelineStage::CheckingBytecode)
            &&& q.proof_bytes == p.proof_bytes
            &&& q.public_inputs_bytes == p.public_inputs_bytes
            &&& a matches PipelineAction::CheckPath { path } && path@ == p.bytecode_path@
        },
        PipelineStage::CheckingBytecode => event matches PipelineEvent::PathChecked { exists }
            && if !exists {
            fail_direct(p, q, a, "Circuit bytecode not found: "@ + p.bytecode_path@)
        } else {
            &&& advance(p, q, PipelineStage::CheckingVk)
            &&& a matches PipelineAction::CheckPath { path } && path@ == p.vk_path@
        },
        PipelineStage::CheckingVk => event matches PipelineEvent::PathChecked { exists }
            && if !exists {
            fail_direct(p, q, a, "Verification key not found: "@ + p.vk_path@)
        } else {
            &&& advance(p, q, PipelineStage::CheckingNargoToml)
            &&& a matches PipelineAction::CheckPath { path } && path@ == p.nargo_toml_path@
        },
        PipelineStage::CheckingNargoToml => event matches PipelineEvent::PathChecked { exists }
            && if !exists {
            fail_direct(p, q, a, "Nargo.toml not found: "@ + p.nargo_toml_path@)
        } else {
            &&& advance(p, q, PipelineStage::CreatingWorkspace)
            &&& a matches PipelineAction::CreateWorkspace { source, workspace } && source@
                == p.circuit_dir@ && workspace@ == p.workspace@
        },
        PipelineStage::CreatingWorkspace => event matches PipelineEvent::WorkspaceCreated { error }
            && match error {
            Some(e) => fail_direct(p, q, a, "Failed to create work dir: "@ + e@),
            None => {
                &&& q.stage is WritingProverToml
                &&& q.workspace_live
                &&& q.request_id == p.request_id
                &&& q.circuit_id == p.circuit_id
                &&& q.prover_toml == p.prover_toml
                &&& q.nargo_path == p.nargo_path
                &&& q.bb_path == p.bb_path
                &&& q.workspace == p.workspace
                &&& a matches PipelineAction::WriteFile { path, contents } && path@ == p.workspace@
                    + "/Prover.toml"@ && contents@ == p.prover_toml@
            },
        },
        PipelineStage::WritingProverToml => event matches PipelineEvent::FileWritten { error }
            && match error {
            Some(e) => fail_to_cleanup(p, q, a, "Failed to write Prover.toml: "@ + e@),
            None => {
                &&& advance(p, q, PipelineStage::RunningWitnessGen)
                &&& a matches PipelineAction::RunCommand { program, args, cwd, timeout_secs }
                    && program@ == p.nargo_path@ && args.deep_view() == seq!["execute"@, "witness"@]
                    && cwd@ == p.workspace@ && timeout_secs == 120
            },
        },
        PipelineStage::RunningWitnessGen => event matches PipelineEvent::CommandFinished { result }
            && match result {
            Err(e) => fail_to_cleanup(p, q, a, "nargo execute failed: "@ + e@),
            Ok(_) => {
                &&& advance(p, q, PipelineStage::CreatingProofDir)
                &&& a matches PipelineAction::CreateDir { path } && path@ == p.workspace@
                    + "/target/proof"@
            },
        },
        PipelineStage::CreatingProofDir => event matches PipelineEvent::DirCreated { error }
            && match error {
            Some(e) => fail_to_cleanup(p, q, a, "Failed to create proof dir: "@ + e@),
            None => {
                &&& advance(p, q, PipelineStage::MovingWitness)
                &&& a matches PipelineAction::MoveFile { from, to } && from@ == p.workspace@
                    + "/target/witness.gz"@ && to@ == p.workspace@ + "/target/proof/witness.gz"@
            },
        },
        PipelineStage::MovingWitness => event matches PipelineEvent::FileMoved { error }
            && match error {
            Some(e) => fail_to_cleanup(p, q, a, "Failed to move witness: "@ + e@),
            None => {
                &&& advance(p, q, PipelineStage::RunningProve)
                &&& a matches PipelineAction::RunCommand { program, args, cwd, timeout_secs }
                    && program@ == p.bb_path@ && args.deep_view() == seq![
                    "prove"@,
                    "-b"@,
                    "target/"@ + p.circuit_id@ + ".json"@,
                    "-w"@,
                    "target/proof/witness.gz"@,
                    "-k"@,
                    "target/vk/vk"@,
                    "-o"@,
                    "target/proof"@,
                    "--oracle_hash"@,
                    "keccak"@,
                ] && cwd@ == p.workspace@ && timeout_secs == 120
            },
        },
        PipelineStage::RunningProve => event matches PipelineEvent::CommandFinished { result }
            && match result {
            Err(e) => fail_to_cleanup(p, q, a, "bb prove failed: "@ + e@),
            Ok(_) => {
                &&& advance(p, q, PipelineStage::RunningSelfCheck)
                &&& a matches PipelineAction::RunCommand { program, args, cwd, timeout_secs }
                    && program@ == p.bb_path@ && args.deep_view() == seq![
                    "verify"@,
                    "-p"@,
                    "target/proof/proof"@,
                    "-i"@,
                    "target/proof/public_inputs"@,
                    "-k"@,
                    "target/vk/vk"@,
                    "--oracle_hash"@,
                    "keccak"@,
                ] && cwd@ == p.workspace@ && timeout_secs == 120
            },
        },
        PipelineStage::RunningSelfCheck => event matches PipelineEvent::CommandFinished { result }
            && match result {
            Err(e) => fail_to_cleanup(p, q, a, "bb verify failed (proof invalid): "@ + e@),
            Ok(_) => {
                &&& advance(p, q, PipelineStage::ReadingProof)
                &&& a matches PipelineAction::ReadFile { path } && path@ == p.workspace@
                    + "/target/proof/proof"@
            },
        },
        PipelineStage::ReadingProof => event matches PipelineEvent::FileRead { read }
            && match read {
            Err(e) => fail_to_cleanup(p, q, a, "Failed to read proof file: "@ + e@),
            Ok(bytes) => {
                &&& advance(p, q, PipelineStage::ReadingPublicInputs)
                &&& q.proof_bytes == bytes
                &&& q.public_inputs_bytes == p.public_inputs_bytes
                &&& a matches PipelineAction::ReadFile { path } && path@ == p.workspace@
                    + "/target/proof/public_inputs"@
            },
        },
        PipelineStage::ReadingPublicInputs => event matches PipelineEvent::FileRead { read }
            && match read {
            Err(e) => fail_to_cleanup(p, q, a, "Failed to read public_inputs file: "@ + e@),
            Ok(bytes) => {
                &&& advance(p, q, PipelineStage::Attesting)
                &&& q.proof_bytes == p.proof_bytes
                &&& q.public_inputs_bytes == bytes
                &&& a matches PipelineAction::RequestAttestation { proof_bytes } && proof_bytes@
                    == p.proof_bytes@
            },
        },
        PipelineStage::Attesting => event matches PipelineEvent::AttestationDone { document } && {
            &&& q.stage is CleaningUp
            &&& !q.workspace_live
            &&& q.request_id == p.request_id
            &&& q.pending matches Some(resp) && is_success_resp(
                resp,
                p.request_id@,
                p.proof_bytes@,
                p.public_inputs_bytes@,
                document,
            )
            &&& a matches PipelineAction::RemoveWorkspace { workspace } && workspace@
                == p.workspace@
        },
        PipelineStage::CleaningUp => event is WorkspaceRemoved && {
            &&& q.stage is Done
            &&& !q.workspace_live
            &&& p.pending matches Some(resp) && (a matches PipelineAction::Respond { response }
                && response == resp)
        },
        PipelineStage::Done => false,
    }
}

/// What one step must uphold so that cleanup is never skipped: ownership of
/// the workspace only ends by issuing its removal, a response only stands
/// at the end, and a completed pipeline owns no workspace.
pub open spec fn step_obligations(
    pre: ProvePipeline,
    post: ProvePipeline,
    action: PipelineAction,
) -> bool {
    &&& (pre.workspace_live && !post.workspace_live ==> action is RemoveWorkspace)
    &&& (action is Respond ==> post.stage is Done)
    &&& (post.stage is Done ==> !post.workspace_live)
}

/// Performs one decision step of the pipeline: consumes the outcome of the
/// last action and decides the next, per the transition relation
/// [`step_spec`].  A response is only ever issued when no workspace is
/// owned, and ownership only ends by issuing the workspace's removal.
pub fn pipeline_step(p: ProvePipeline, event: PipelineEvent) -> (r: (
    ProvePipeline,
    PipelineAction,
))
    requires
        p.inv(),
        !(p.stage is Done),
        event_matches(p.stage, event),
    ensures
        step_spec(p, event, r.0, r.1),
        r.0.inv(),
        step_obligations(p, r.0, r.1),
{
    match p.stage {
        PipelineStage::CheckingCircuitDir => match event {
            PipelineEvent::PathChecked { exists } => {
                if exists {
                    let path = p.bytecode_path.clone();
                    (
                        ProvePipeline { stage: PipelineStage::CheckingBytecode, ..p },
                        PipelineAction::CheckPath { path },
                    )
                } else {
                    let resp = error_response(
                        p.request_id.as_str(),
                        concat2("Circuit directory not found: ", p.circuit_dir.as_str()),
                    );
                    (
                        ProvePipeline { stage: PipelineStage::Done, ..p },
                        PipelineAction::Respond { response: resp },
                    )
                }
            },
            _ => unreached(),
        },
        PipelineStage::CheckingBytecode => match event {
            PipelineEvent::PathChecked { exists } => {
                if exists {
                    let path = p.vk_path.clone();
                    (
                        ProvePipeline { stage: PipelineStage::CheckingVk, ..p },
                        PipelineAction::CheckPath { path },
                    )
                } else {
                    let resp = error_response(
                        p.request_id.as_str(),
                        concat2("Circuit bytecode not found: ", p.bytecode_path.as_str()),
                    );
                    (
                        ProvePipeline { stage: PipelineStage::Done, ..p },
                        PipelineAction::Respond { response: resp },
                    )
                }
            },
            _ => unreached(),
        },
        PipelineStage::CheckingVk => match event {
            PipelineEvent::PathChecked { exists } => {
                if exists {
                    let path = p.nargo_toml_path.clone();
                    (
                        ProvePipeline { stage: PipelineStage::CheckingNargoToml, ..p },
                        PipelineAction::CheckPath { path },
                    )
                } else {
                    let resp = error_response(
                        p.request_id.as_str(),
                        concat2("Verification key not found: ", p.vk_path.as_str()),
                    );
                    (
                        ProvePipeline { stage: PipelineStage::Done, ..p },
                        PipelineAction::Respond { response: resp },
                    )
                }
            },
            _ => unreached(),
        },
        PipelineStage::CheckingNargoToml => match event {
            PipelineEvent::PathChecked { exists } => {
                if exists {
                    let source = p.circuit_dir.clone();
                    let workspace = p.workspace.clone();
                    (
                        ProvePipeline { stage: PipelineStage::CreatingWorkspace, ..p },
                        PipelineAction::CreateWorkspace { source, workspace },
                    )
                } else {
                    let resp = error_response(
                        p.request_id.as_str(),
                        concat2("Nargo.toml not found: ", p.nargo_toml_path.as_str()),
                    );
                    (
                        ProvePipeline { stage: PipelineStage::Done, ..p },
                        PipelineAction::Respond { response: resp },
                    )
                }
            },
            _ => unreached(),
        },
        PipelineStage::CreatingWorkspace => match event {
            PipelineEvent::WorkspaceCreated { error } => match error {
                None => {
                    let path = concat2(p.workspace.as_str(), "/Prover.toml");
                    let contents = p.prover_toml.clone();
                    (
                        ProvePipeline {
                            stage: PipelineStage::WritingProverToml,
                            workspace_live: true,
                            ..p
                        },
                        PipelineAction::WriteFile { path, contents },
                    )
                },
                Some(e) => {
                    let resp = error_response(
                        p.request_id.as_str(),
                        concat2("Failed to create work dir: ", e.as_str()),
                    );
                    (
                        ProvePipeline { stage: PipelineStage::Done, ..p },
                        PipelineAction::Respond { response: resp },
                    )
                },
            },
            _ => unreached(),
        },
        PipelineStage::WritingProverToml => match event {
            PipelineEvent::FileWritten { error } => match error {
                None => {
                    let program = p.nargo_path.clone();
                    let cwd = p.workspace.clone();
                    (
                        ProvePipeline { stage: PipelineStage::RunningWitnessGen, ..p },
                        PipelineAction::RunCommand {
                            program,
                            args: nargo_execute_args(),
                            cwd,
                            timeout_secs: 120,
                        },
                    )
                },
                Some(e) => fail_while_live(p, concat2("Failed to write Prover.toml: ", e.as_str())),
            },
            _ => unreached(),
        },
        PipelineStage::RunningWitnessGen => match event {
            PipelineEvent::CommandFinished { result } => match result {
                Ok(_out) => {
                    let path = concat2(p.workspace.as_str(), "/target/proof");
                    (
                        ProvePipeline { stage: PipelineStage::CreatingProofDir, ..p },
                        PipelineAction::CreateDir { path },
                    )
                },
                Err(e) => fail_while_live(p, concat2("nargo execute failed: ", e.as_str())),
            },
            _ => unreached(),
        },
        PipelineStage::CreatingProofDir => match event {
            PipelineEvent::DirCreated { error } => match error {
                None => {
                    let from = concat2(p.workspace.as_str(), "/target/witness.gz");
                    let to = concat2(p.workspace.as_str(), "/target/proof/witness.gz");
                    (
                        ProvePipeline { stage: PipelineStage::MovingWitness, ..p },
                        PipelineAction::MoveFile { from, to },
                    )
                },
                Some(e) => fail_while_live(p, concat2("Failed to create proof dir: ", e.as_str())),
            },
            _ => unreached(),
        },
        PipelineStage::MovingWitness => match event {
            PipelineEvent::FileMoved { error } => match error {
                None => {
                    let program = p.bb_path.clone();
                    let cwd = p.workspace.clone();
                    let args = bb_prove_args(p.circuit_id.as_str());
                    (
                        ProvePipeline { stage: PipelineStage::RunningProve, ..p },
                        PipelineAction::RunCommand { program, args, cwd, timeout_secs: 120 },
                    )
                },
                Some(e) => fail_while_live(p, concat2("Failed to move witness: ", e.as_str())),
            },
            _ => unreached(),
        },
        PipelineStage::RunningProve => match event {
            PipelineEvent::CommandFinished { result } => match result {
                Ok(_out) => {
                    let program = p.bb_path.clone();
                    let cwd = p.workspace.clone();
                    (
                        ProvePipeline { stage: PipelineStage::RunningSelfCheck, ..p },
                        PipelineAction::RunCommand {
                            program,
                            args: bb_verify_args(),
                            cwd,
                            timeout_secs: 120,
                        },
                    )
                },
                Err(e) => fail_while_live(p, concat2("bb prove failed: ", e.as_str())),
            },
            _ => unreached(),
        },
        PipelineStage::RunningSelfCheck => match event {
            PipelineEvent::CommandFinished { result } => match result {
                Ok(_out) => {
                    let path = concat2(p.workspace.as_str(), "/target/proof/proof");
                    (
                        ProvePipeline { stage: PipelineStage::ReadingProof, ..p },
                        PipelineAction::ReadFile { path },
                    )
                },
                Err(e) => fail_while_live(
                    p,
                    concat2("bb verify failed (proof invalid): ", e.as_str()),
                ),
            },
            _ => unreached(),
        },
        PipelineStage::ReadingProof => match event {
            PipelineEvent::FileRead { read } => match read {
                Ok(bytes) => {
                    let path = concat2(p.workspace.as_str(), "/target/proof/public_inputs");
                    (
                        ProvePipeline {
                            stage: PipelineStage::ReadingPublicInputs,
                            proof_bytes: bytes,
                            ..p
                        },
                        PipelineAction::ReadFile { path },
                    )
                },
                Err(e) => fail_while_live(p, concat2("Failed to read proof file: ", e.as_str())),
            },
            _ => unreached(),
        },
        PipelineStage::ReadingPublicInputs => match event {
            PipelineEvent::FileRead { read } => match read {
                Ok(bytes) => {
                    let proof_bytes = crate::circuit::clone_byte_vec(&p.proof_bytes);
                    (
                        ProvePipeline {
                            stage: PipelineStage::Attesting,
                            public_inputs_bytes: bytes,
                            ..p
                        },
                        PipelineAction::RequestAttestation { proof_bytes },
                    )
                },
                Err(e) => fail_while_live(
                    p,
                    concat2("Failed to read public_inputs file: ", e.as_str()),
                ),
            },
            _ => unreached(),
        },
        PipelineStage::Attesting => match event {
            PipelineEvent::AttestationDone { document } => {
                let proof_hex = hex_encode_prefixed(p.proof_bytes.as_slice());
                let pi_hex = hex_encode_prefixed(p.public_inputs_bytes.as_slice());
                let mut public_inputs: Vec<String> = Vec::new();
                public_inputs.push(pi_hex);
                let resp = VsockResponse {
                    response_type: String::from_str("proof"),
                    request_id: p.request_id.clone(),
                    proof: Some(proof_hex),
                    public_inputs: Some(public_inputs),
                    attestation_document: document,
                    error: None,
                };
                let workspace = p.workspace.clone();
                (
                    ProvePipeline {
                        stage: PipelineStage::CleaningUp,
                        workspace_live: false,
                        pending: Some(resp),
                        ..p
                    },
                    PipelineAction::RemoveWorkspace { workspace },
                )
            },
            _ => unreached(),
        },
        PipelineStage::CleaningUp => match event {
            PipelineEvent::WorkspaceRemoved => {
                let ProvePipeline {
                    request_id,
                    circuit_id,
                    prover_toml,
                    nargo_path,
                    bb_path,
                    circuit_dir,
                    bytecode_path,
                    vk_path,
                    nargo_toml_path,
                    workspace,
                    proof_bytes,
                    public_inputs_bytes,
                    pending,
                    ..
                } = p;
                match pending {
                    Some(resp) => (
                        ProvePipeline {
                            request_id,
                            circuit_id,
                            prover_toml,
                            nargo_path,
                            bb_path,
                            circuit_dir,
                            bytecode_path,
                            vk_path,
                            nargo_toml_path,
                            workspace,
                            stage: PipelineStage::Done,
                            workspace_live: false,
                            proof_bytes,
                            public_inputs_bytes,
                            pending: None,
                        },
                        PipelineAction::Respond { response: resp },
                    ),
                    None => unreached(),
                }
            },
            _ => unreached(),
        },
        PipelineStage::Done => unreached(),
    }
}

/// Fails a step that owns the workspace: the removal is issued first, the
/// error response is held back for the cleanup step.
fn fail_while_live(p: ProvePipeline, msg: String) -> (r: (ProvePipeline, PipelineAction))
    requires
        p.workspace_live,
    ensures
        fail_to_cleanup(p, r.0, r.1, msg@),
        r.0.inv(),
        step_obligations(p, r.0, r.1),
{
    let resp = error_response(p.request_id.as_str(), msg);
    let workspace = p.workspace.clone();
    (
        ProvePipeline {
            stage: PipelineStage::CleaningUp,
            workspace_live: false,
            pending: Some(resp),
            ..p
        },
        PipelineAction::RemoveWorkspace { workspace },
    )
}

/// Workspace cleanup discipline over any run of the machine: if the
/// pipeline owns a live workspace at some step and later stands completed,
/// the removal of the workspace was issued in between.
pub proof fn lemma_cleanup_before_completion(
    states: Seq<ProvePipeline>,
    actions: Seq<PipelineAction>,
    i: int,
    j: int,
)
    requires
        states.len() == actions.len() + 1,
        forall|k: int|
            0 <= k < actions.len() ==> step_obligations(
                states[k],
                states[k + 1],
                #[trigger] actions[k],
            ),
        states[0].stage is Done ==> !states[0].workspace_live,
        0 <= i <= j < states.len(),
        states[i].workspace_live,
        states[j].stage is Done,
    ensures
        exists|k: int| i <= k < j && (#[trigger] actions[k]) is RemoveWorkspace,
    decreases j - i,
{
    assert(j >= 1 ==> !states[j].workspace_live || actions[j - 1] is RemoveWorkspace);
    if i == j {
        assert(step_obligations(states[j - 1], states[j], actions[j - 1]) || j == 0);
        if j == 0 {
            assert(false);
        } else {
            assert(!states[j].workspace_live);
            assert(false);
        }
    } else {
        if states[i + 1].workspace_live {
            lemma_cleanup_before_completion(states, actions, i + 1, j);
            let k = choose|k: int| i + 1 <= k < j && (#[trigger] actions[k]) is RemoveWorkspace;
            assert(i <= k < j && actions[k] is RemoveWorkspace);
        } else {
            assert(step_obligations(states[i], states[i + 1], actions[i]));
            assert(actions[i] is RemoveWorkspace);
        }
    }
}

} // verus!
