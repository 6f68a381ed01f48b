use vstd::prelude::*;
use vstd::string::*;

use crate::collector::{collect_bundle, spec_collected_bundle, spec_distinct_keys};
use crate::endpoint::{resolve_endpoint, spec_endpoint};
use crate::error::VerifyError;
use crate::executor::{spec_classify, ExchangeOutcome, VerifyResponse};
use crate::json::spec_pairs_view;
use crate::network::{spec_verifier_name, Network, Verifier};
use crate::paths::{parent_dir_of, workspace_root};
use crate::payload::{spec_opt_view, spec_payload_json_parts, VerificationPayload};

verus! {

/// The caller-supplied parameters of one verification attempt. Exactly one
/// of `contract_address` and `class_hash` is meant to carry the on-chain
/// identity; `package` is an opaque pass-through for the caller's build
/// tooling, not interpreted by the pipeline.
pub struct Verify {
    pub contract_address: Option<String>,
    pub class_hash: Option<String>,
    pub contract_name: String,
    pub verifier: Verifier,
    pub network: Network,
    pub confirm_verification: bool,
    pub package: Option<String>,
}

/// An input confirms the submission when it starts with the affirmative
/// token `Y`.
pub open spec fn spec_input_confirms(i: Seq<char>) -> bool {
    i.len() > 0 && i[0] == 'Y'
}

/// Whether the prompt answer confirms the submission.
pub fn input_confirms(s: &str) -> (r: bool)
    ensures
        r == spec_input_confirms(s@),
{
    let n = s.unicode_len();
    if n == 0 {
        false
    } else {
        s.get_char(0) == 'Y'
    }
}

/// The confirmation prompt: it names the selected verifier service and
/// states that the workspace code becomes public through that service.
pub open spec fn spec_prompt_text(v: Verifier) -> Seq<char> {
    "You are about to submit the entire workspace's code to the third-party chosen verifier at "@
        + spec_verifier_name(v)
        + ", and the code will be publicly available through "@
        + spec_verifier_name(v)
        + "'s APIs. Are you sure? (Y/n)"@
}

/// Build the confirmation prompt for a verifier service.
pub fn confirmation_prompt(v: &Verifier) -> (r: String)
    ensures
        r@ == spec_prompt_text(*v),
{
    let name = v.name();
    let mut out: String =
        "You are about to submit the entire workspace's code to the third-party chosen verifier at ".to_owned();
    out.append(name.as_str());
    out.append(", and the code will be publicly available through ");
    out.append(name.as_str());
    out.append("'s APIs. Are you sure? (Y/n)");
    proof {
        assert(out@ =~= spec_prompt_text(*v));
    }
    out
}

/// Whether a class name is a key of the build-artifact map (only key
/// presence matters; the compiled artifacts themselves are opaque here).
pub open spec fn spec_contract_known(artifact_names: Seq<String>, name: Seq<char>) -> bool {
    exists|i: int| 0 <= i < artifact_names.len() && artifact_names[i]@ == name
}

/// Whether the artifact map has an entry for this class name.
pub fn contract_known(artifact_names: &Vec<String>, name: &String) -> (r: bool)
    ensures
        r == spec_contract_known(artifact_names@, name@),
{
    let n = artifact_names.len();
    let mut i: usize = 0;
    while i < n
        invariant
            n == artifact_names@.len(),
            i <= n,
            forall|j: int| 0 <= j < i ==> artifact_names@[j]@ != name@,
        decreases n - i,
    {
        if artifact_names[i].eq(name) {
            return true;
        }
        i = i + 1;
    }
    false
}

/// Where a session stands in the linear flow. There is no branching back:
/// every stage is visited at most once, and `Finished` is terminal.
#[derive(Clone, Copy, Debug, PartialEq, Eq, Structural)]
pub enum Stage {
    AwaitingConfirmation,
    AwaitingFiles,
    AwaitingOutcome,
    Finished,
}

/// What the pipeline asks its driver to do next. Only `CollectFiles` reads
/// the workspace and only `SendRequest` touches the network, so a run whose
/// steps never include them provably performs no such side effect.
pub enum Step {
    /// Put this prompt to the user and report the answer.
    AskConfirmation { prompt: String },
    /// Walk this directory, read every file the collector keeps, and report
    /// the (relative path, content) list, or that collection failed.
    CollectFiles { workspace_root: String },
    /// POST `body` to `url` with a JSON content type and report the outcome.
    SendRequest { url: String, body: String },
    /// The run is over with this result.
    Finish { outcome: Result<VerifyResponse, VerifyError> },
}

/// What the driver reports back after performing a step.
pub enum Event {
    /// The user's answer to the confirmation prompt.
    ConfirmationInput { input: String },
    /// Every file found under the workspace root, as (relative path,
    /// content) in traversal order, paths in forward-slash form.
    FilesCollected { entries: Vec<(String, String)> },
    /// Traversal or reading failed; `detail` describes the I/O error.
    CollectionFailed { detail: String },
    /// The single HTTP exchange's outcome.
    Exchanged { outcome: ExchangeOutcome },
}

/// One verification attempt, driven step by step. The orchestrator decides;
/// the driver performs the prompt, the file reads and the HTTP exchange,
/// and reports each outcome as an `Event`.
pub struct Session {
    pub args: Verify,
    pub artifact_names: Vec<String>,
    pub manifest_path: String,
    pub base_url_override: Option<String>,
    pub stage: Stage,
}

/// Which event answers which stage.
pub open spec fn spec_event_fits(stage: Stage, e: Event) -> bool {
    match e {
        Event::ConfirmationInput { .. } => stage == Stage::AwaitingConfirmation,
        Event::FilesCollected { .. } => stage == Stage::AwaitingFiles,
        Event::CollectionFailed { .. } => stage == Stage::AwaitingFiles,
        Event::Exchanged { .. } => stage == Stage::AwaitingOutcome,
    }
}

/// What holds right after the confirmation gate has been passed (or
/// bypassed): a class name absent from the artifact map ends the run with
/// ContractNotFound; then a manifest path without a parent directory ends
/// it with a configuration error; otherwise, and only then, the driver is
/// asked to collect files under the manifest's parent directory.
pub open spec fn spec_gate_post(s: Session, step: Step) -> bool {
    if !spec_contract_known(s.artifact_names@, s.args.contract_name@) {
        &&& s.stage == Stage::Finished
        &&& step matches Step::Finish { outcome } && (outcome matches Err(
            VerifyError::ContractNotFound { name },
        ) && name@ == s.args.contract_name@)
    } else if parent_dir_of(s.manifest_path@) is None {
        &&& s.stage == Stage::Finished
        &&& step matches Step::Finish { outcome } && outcome matches Err(
            VerifyError::WorkspacePathError { .. },
        )
    } else {
        &&& s.stage == Stage::AwaitingFiles
        &&& step matches Step::CollectFiles { workspace_root } && Some(workspace_root@)
            == parent_dir_of(s.manifest_path@)
    }
}

/// A copy of an optional string with the same view.
fn clone_opt(o: &Option<String>) -> (r: Option<String>)
    ensures
        spec_opt_view(r) == spec_opt_view(*o),
{
    match o {
        Some(s) => Some(s.clone()),
        None => None,
    }
}

impl Session {
    /// Begin a verification attempt. Unless confirmation is bypassed, the
    /// first step is the confirmation prompt, before any file is read or
    /// any network call is made; with the bypass flag set, the run begins
    /// with the artifact and manifest checks directly.
    pub fn start(
        args: Verify,
        artifact_names: Vec<String>,
        manifest_path: String,
        base_url_override: Option<String>,
    ) -> (r: (Session, Step))
        ensures
            r.0.args == args,
            r.0.artifact_names == artifact_names,
            r.0.manifest_path == manifest_path,
            r.0.base_url_override == base_url_override,
            !args.confirm_verification ==> r.0.stage == Stage::AwaitingConfirmation && (
            r.1 matches Step::AskConfirmation { prompt } && prompt@ == spec_prompt_text(
                args.verifier,
            )),
            args.confirm_verification ==> spec_gate_post(r.0, r.1),
    {
        let s = Session {
            args,
            artifact_names,
            manifest_path,
            base_url_override,
            stage: Stage::AwaitingConfirmation,
        };
        if s.args.confirm_verification {
            s.gate()
        } else {
            let prompt = confirmation_prompt(&s.args.verifier);
            (s, Step::AskConfirmation { prompt })
        }
    }

    /// The checks between confirmation and collection: the class name must
    /// be a key of the artifact map, and the manifest path must have a
    /// parent directory to serve as the workspace root.
    fn gate(self) -> (r: (Session, Step))
        ensures
            r.0.args == self.args,
            r.0.artifact_names == self.artifact_names,
            r.0.manifest_path == self.manifest_path,
            r.0.base_url_override == self.base_url_override,
            spec_gate_post(r.0, r.1),
    {
        if !contract_known(&self.artifact_names, &self.args.contract_name) {
            let name = self.args.contract_name.clone();
            let s2 = Session {
                args: self.args,
                artifact_names: self.artifact_names,
                manifest_path: self.manifest_path,
                base_url_override: self.base_url_override,
                stage: Stage::Finished,
            };
            (s2, Step::Finish { outcome: Err(VerifyError::ContractNotFound { name }) })
        } else {
            match workspace_root(self.manifest_path.as_str()) {
                Ok(root) => {
                    let s2 = Session {
                        args: self.args,
                        artifact_names: self.artifact_names,
                        manifest_path: self.manifest_path,
                        base_url_override: self.base_url_override,
                        stage: Stage::AwaitingFiles,
                    };
                    (s2, Step::CollectFiles { workspace_root: root })
                },
                Err(e) => {
                    let s2 = Session {
                        args: self.args,
                        artifact_names: self.artifact_names,
                        manifest_path: self.manifest_path,
                        base_url_override: self.base_url_override,
                        stage: Stage::Finished,
                    };
                    (s2, Step::Finish { outcome: Err(e) })
                },
            }
        }
    }

    /// Advance the attempt by one driver report. The confirmation gate law:
    /// an answer not starting with the affirmative token ends the run at
    /// once with UserAborted, so no CollectFiles and no SendRequest step is
    /// ever issued for it — zero file reads and zero network calls.
    pub fn advance(self, event: Event) -> (r: (Session, Step))
        requires
            spec_event_fits(self.stage, event),
            event matches Event::FilesCollected { entries } ==> spec_distinct_keys(
                spec_pairs_view(entries@),
            ),
        ensures
            r.0.args == self.args,
            r.0.artifact_names == self.artifact_names,
            r.0.manifest_path == self.manifest_path,
            r.0.base_url_override == self.base_url_override,
            event matches Event::ConfirmationInput { input } && !spec_input_confirms(input@)
                ==> r.0.stage == Stage::Finished && (r.1 matches Step::Finish { outcome }
                && outcome matches Err(VerifyError::UserAborted)),
            event matches Event::ConfirmationInput { input } && spec_input_confirms(input@)
                ==> spec_gate_post(r.0, r.1),
            event matches Event::FilesCollected { entries } ==> r.0.stage
                == Stage::AwaitingOutcome && (r.1 matches Step::SendRequest { url, body } && url@
                == spec_endpoint(
                self.args.verifier,
                self.args.network,
                spec_opt_view(self.base_url_override),
            ) && body@ == spec_payload_json_parts(
                self.args.contract_name@,
                spec_opt_view(self.args.contract_address),
                spec_opt_view(self.args.class_hash),
                spec_collected_bundle(spec_pairs_view(entries@)),
            )),
            event matches Event::CollectionFailed { detail } ==> r.0.stage == Stage::Finished && (
            r.1 matches Step::Finish { outcome } && (outcome matches Err(
                VerifyError::WorkspacePathError { detail: d },
            ) && d@ == detail@)),
            event matches Event::Exchanged { outcome } ==> r.0.stage == Stage::Finished && (
            r.1 matches Step::Finish { outcome: res } && res == spec_classify(outcome)),
    {
        match event {
            Event::ConfirmationInput { input } => {
                if input_confirms(input.as_str()) {
                    self.gate()
                } else {
                    let s2 = Session {
                        args: self.args,
                        artifact_names: self.artifact_names,
                        manifest_path: self.manifest_path,
                        base_url_override: self.base_url_override,
                        stage: Stage::Finished,
                    };
                    (s2, Step::Finish { outcome: Err(VerifyError::UserAborted) })
                }
            },
            Event::FilesCollected { entries } => {
                let bundle = collect_bundle(entries);
                let payload = VerificationPayload {
                    class_name: self.args.contract_name.clone(),
                    contract_address: clone_opt(&self.args.contract_address),
                    class_hash: clone_opt(&self.args.class_hash),
                    source_code: bundle,
                };
                let body = payload.to_json();
                let url = resolve_endpoint(
                    self.args.verifier,
                    self.args.network,
                    self.base_url_override.as_ref(),
                );
                let s2 = Session {
                    args: self.args,
                    artifact_names: self.artifact_names,
                    manifest_path: self.manifest_path,
                    base_url_override: self.base_url_override,
                    stage: Stage::AwaitingOutcome,
                };
                (s2, Step::SendRequest { url, body })
            },
            Event::CollectionFailed { detail } => {
                let s2 = Session {
                    args: self.args,
                    artifact_names: self.artifact_names,
                    manifest_path: self.manifest_path,
                    base_url_override: self.base_url_override,
                    stage: Stage::Finished,
                };
                (s2, Step::Finish {
                    outcome: Err(VerifyError::WorkspacePathError { detail }),
                })
            },
            Event::Exchanged { outcome } => {
                let res = crate::executor::classify_response(outcome);
                let s2 = Session {
                    args: self.args,
                    artifact_names: self.artifact_names,
                    manifest_path: self.manifest_path,
                    base_url_override: self.base_url_override,
                    stage: Stage::Finished,
                };
                (s2, Step::Finish { outcome: res })
            },
        }
    }
}

/// Law: a class name absent from the artifact map ends the run with
/// ContractNotFound right away. The step is terminal, never a CollectFiles
/// and never a SendRequest, so the collector is not invoked.
pub proof fn lemma_unknown_contract_terminal(s: Session, step: Step)
    requires
        spec_gate_post(s, step),
        !spec_contract_known(s.artifact_names@, s.args.contract_name@),
    ensures
        s.stage == Stage::Finished,
        step matches Step::Finish { outcome } && (outcome matches Err(
            VerifyError::ContractNotFound { name },
        ) && name@ == s.args.contract_name@),
        !(step matches Step::CollectFiles { .. }),
        !(step matches Step::SendRequest { .. }),
{
}

} // verus!
