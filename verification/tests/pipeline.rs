use verify_pipeline::collector::{collect_bundle, has_collected_extension};
use verify_pipeline::endpoint::{base_url_env_var, resolve_endpoint};
use verify_pipeline::error::VerifyError;
use verify_pipeline::executor::{classify_response, ExchangeOutcome, VerifyResponse};
use verify_pipeline::network::{Network, Verifier};
use verify_pipeline::orchestrator::{
    confirmation_prompt, input_confirms, Event, Session, Stage, Step, Verify,
};
use verify_pipeline::paths::workspace_root;
use verify_pipeline::payload::VerificationPayload;

fn s(x: &str) -> String {
    x.to_string()
}

fn args(name: &str, verifier: Verifier, network: Network, confirmed: bool) -> Verify {
    Verify {
        contract_address: Some(s("0x123")),
        class_hash: None,
        contract_name: s(name),
        verifier,
        network,
        confirm_verification: confirmed,
        package: None,
    }
}

#[test]
fn collector_keeps_exactly_allowed_files() {
    let entries = vec![
        (s("src/lib.cairo"), s("mod token;")),
        (s("Scarb.toml"), s("[package]\nname = \"demo\"")),
        (s("README.md"), s("docs")),
        (s("notes"), s("no extension")),
    ];
    let bundle = collect_bundle(entries);
    assert_eq!(bundle.files.len(), 2);
    assert_eq!(bundle.files[0].0, "src/lib.cairo");
    assert_eq!(bundle.files[0].1, "mod token;");
    assert_eq!(bundle.files[1].0, "Scarb.toml");
    assert_eq!(bundle.files[1].1, "[package]\nname = \"demo\"");
}

#[test]
fn collector_empty_workspace_is_empty_not_error() {
    let bundle = collect_bundle(vec![]);
    assert!(bundle.files.is_empty());
}

#[test]
fn collector_content_round_trips_exactly() {
    let content = s("fn main() {\n\t\"quoted\\path\"\n}");
    let bundle = collect_bundle(vec![(s("a.cairo"), content.clone())]);
    assert_eq!(bundle.files[0].1, content);
}

#[test]
fn collector_extension_allow_list() {
    assert!(has_collected_extension("src/lib.cairo"));
    assert!(has_collected_extension("Scarb.toml"));
    assert!(has_collected_extension("a.b.cairo"));
    assert!(!has_collected_extension("README.md"));
    assert!(!has_collected_extension("noext"));
    assert!(!has_collected_extension("cairo"));
    assert!(!has_collected_extension(".cairo"));
    assert!(!has_collected_extension("dir/.toml"));
    assert!(!has_collected_extension(""));
}

#[test]
fn endpoint_every_pair_has_network_segment() {
    let pairs = [
        (Verifier::Walnut, Network::Mainnet, "/v1/sn_main/verify"),
        (Verifier::Walnut, Network::Sepolia, "/v1/sn_sepolia/verify"),
        (Verifier::Voyager, Network::Mainnet, "/v1/sn_main/verify"),
        (Verifier::Voyager, Network::Sepolia, "/v1/sn_sepolia/verify"),
    ];
    for (v, n, segment) in pairs {
        let url = resolve_endpoint(v, n, None);
        assert!(!url.is_empty());
        assert!(url.ends_with(segment));
    }
}

#[test]
fn endpoint_documented_defaults() {
    assert_eq!(
        resolve_endpoint(Verifier::Walnut, Network::Mainnet, None),
        "https://api.walnut.dev/v1/sn_main/verify"
    );
    assert_eq!(
        resolve_endpoint(Verifier::Voyager, Network::Sepolia, None),
        "https://api.voyager.online/beta/v1/sn_sepolia/verify"
    );
}

#[test]
fn endpoint_reflects_override() {
    let base = s("http://localhost:8080");
    assert_eq!(
        resolve_endpoint(Verifier::Walnut, Network::Sepolia, Some(&base)),
        "http://localhost:8080/v1/sn_sepolia/verify"
    );
    assert_eq!(
        resolve_endpoint(Verifier::Voyager, Network::Mainnet, Some(&base)),
        "http://localhost:8080/v1/sn_main/verify"
    );
}

#[test]
fn endpoint_env_var_names() {
    assert_eq!(base_url_env_var(&Verifier::Walnut), "WALNUT_API_URL");
    assert_eq!(base_url_env_var(&Verifier::Voyager), "VOYAGER_API_URL");
}

#[test]
fn payload_json_exact_text() {
    let bundle = collect_bundle(vec![(s("src/lib.cairo"), s("fn main() {}"))]);
    let payload = VerificationPayload {
        class_name: s("MyToken"),
        contract_address: Some(s("0x123")),
        class_hash: None,
        source_code: bundle,
    };
    assert_eq!(
        payload.to_json(),
        "{\"class_name\":\"MyToken\",\"contract_address\":\"0x123\",\"class_hash\":null,\
         \"source_code\":{\"src/lib.cairo\":\"fn main() {}\"}}"
    );
}

#[test]
fn payload_json_escapes_specials() {
    let bundle = collect_bundle(vec![(s("a.cairo"), s("a\"b\\c\nd\te"))]);
    let payload = VerificationPayload {
        class_name: s("T"),
        contract_address: None,
        class_hash: Some(s("0xff")),
        source_code: bundle,
    };
    assert_eq!(
        payload.to_json(),
        "{\"class_name\":\"T\",\"contract_address\":null,\"class_hash\":\"0xff\",\
         \"source_code\":{\"a.cairo\":\"a\\\"b\\\\c\\u000ad\\u0009e\"}}"
    );
}

#[test]
fn payload_json_parses_with_real_parser() {
    let content = s("line1\nline2\t\"x\"\\y\u{1}");
    let bundle = collect_bundle(vec![
        (s("src/lib.cairo"), content.clone()),
        (s("Scarb.toml"), s("[package]")),
    ]);
    let payload = VerificationPayload {
        class_name: s("MyToken"),
        contract_address: Some(s("0xabc")),
        class_hash: None,
        source_code: bundle,
    };
    let value: serde_json::Value = serde_json::from_str(&payload.to_json()).unwrap();
    assert_eq!(value["class_name"], serde_json::Value::String(s("MyToken")));
    assert_eq!(value["contract_address"], serde_json::Value::String(s("0xabc")));
    assert!(value["class_hash"].is_null());
    let sources = value["source_code"].as_object().unwrap();
    assert_eq!(sources.len(), 2);
    assert_eq!(sources["src/lib.cairo"], serde_json::Value::String(content));
    assert_eq!(sources["Scarb.toml"], serde_json::Value::String(s("[package]")));
}

#[test]
fn executor_status_200_is_success_with_body() {
    let r = classify_response(ExchangeOutcome::Response { status: 200, body: s("OK") });
    assert_eq!(r, Ok(VerifyResponse { message: s("OK") }));
}

#[test]
fn executor_status_400_is_rejection_with_body() {
    let r = classify_response(ExchangeOutcome::Response { status: 400, body: s("bad request") });
    assert_eq!(r, Err(VerifyError::ServiceRejected { message: s("bad request") }));
}

#[test]
fn executor_send_failure_distinct_from_rejection() {
    let r = classify_response(ExchangeOutcome::SendFailed);
    assert_eq!(r, Err(VerifyError::TransportSendError));
    assert!(!matches!(r, Err(VerifyError::ServiceRejected { .. })));
}

#[test]
fn executor_read_failure_kind() {
    let r = classify_response(ExchangeOutcome::ReadFailed);
    assert_eq!(r, Err(VerifyError::ResponseReadError));
}

#[test]
fn prompt_names_the_verifier_twice() {
    assert_eq!(
        confirmation_prompt(&Verifier::Voyager),
        "You are about to submit the entire workspace's code to the third-party chosen verifier \
         at voyager, and the code will be publicly available through voyager's APIs. \
         Are you sure? (Y/n)"
    );
    assert!(confirmation_prompt(&Verifier::Walnut).contains("walnut"));
}

#[test]
fn verifier_lowercase_names() {
    assert_eq!(Verifier::Walnut.name(), "walnut");
    assert_eq!(Verifier::Voyager.name(), "voyager");
}

#[test]
fn affirmative_token_rule() {
    assert!(input_confirms("Y"));
    assert!(input_confirms("Yes"));
    assert!(!input_confirms("y"));
    assert!(!input_confirms("n"));
    assert!(!input_confirms(""));
    assert!(!input_confirms(" Y"));
}

#[test]
fn confirmation_declined_aborts_with_no_reads_or_sends() {
    let (session, step) = Session::start(
        args("MyToken", Verifier::Walnut, Network::Sepolia, false),
        vec![s("MyToken")],
        s("ws/Scarb.toml"),
        None,
    );
    let mut collect_steps = 0;
    let mut send_steps = 0;
    let prompt = match step {
        Step::AskConfirmation { prompt } => prompt,
        Step::CollectFiles { .. } => {
            collect_steps += 1;
            unreachable!()
        }
        Step::SendRequest { .. } => {
            send_steps += 1;
            unreachable!()
        }
        Step::Finish { .. } => unreachable!(),
    };
    assert!(prompt.contains("walnut"));
    let (session, step) = session.advance(Event::ConfirmationInput { input: s("no") });
    match step {
        Step::Finish { outcome } => assert_eq!(outcome, Err(VerifyError::UserAborted)),
        Step::CollectFiles { .. } => collect_steps += 1,
        Step::SendRequest { .. } => send_steps += 1,
        Step::AskConfirmation { .. } => unreachable!(),
    }
    assert_eq!(session.stage, Stage::Finished);
    assert_eq!(collect_steps, 0);
    assert_eq!(send_steps, 0);
    assert_eq!(
        VerifyError::UserAborted.describe(),
        "Verification aborted"
    );
}

#[test]
fn confirmation_accepted_proceeds_to_collection() {
    let (session, step) = Session::start(
        args("MyToken", Verifier::Walnut, Network::Sepolia, false),
        vec![s("MyToken")],
        s("ws/Scarb.toml"),
        None,
    );
    assert!(matches!(step, Step::AskConfirmation { .. }));
    let (_, step) = session.advance(Event::ConfirmationInput { input: s("Yes") });
    match step {
        Step::CollectFiles { workspace_root } => assert_eq!(workspace_root, "ws"),
        _ => panic!("expected a collection step"),
    }
}

#[test]
fn unknown_contract_aborts_before_collection() {
    let (session, step) = Session::start(
        args("MyToken", Verifier::Voyager, Network::Mainnet, true),
        vec![s("Other"), s("Another")],
        s("ws/Scarb.toml"),
        None,
    );
    assert_eq!(session.stage, Stage::Finished);
    match step {
        Step::Finish { outcome } => {
            let err = outcome.unwrap_err();
            assert_eq!(err, VerifyError::ContractNotFound { name: s("MyToken") });
            assert_eq!(err.describe(), "Contract named 'MyToken' was not found");
        }
        _ => panic!("expected a terminal step, not a collection or send"),
    }
}

#[test]
fn manifest_without_parent_is_config_error() {
    assert_eq!(workspace_root("project/Scarb.toml"), Ok(s("project")));
    let err = workspace_root("/").unwrap_err();
    assert!(matches!(err, VerifyError::WorkspacePathError { .. }));
    assert_eq!(err.describe(), "Failed to obtain workspace dir");
}

#[test]
fn collection_failure_surfaces_detail() {
    let (session, _) = Session::start(
        args("MyToken", Verifier::Walnut, Network::Mainnet, true),
        vec![s("MyToken")],
        s("ws/Scarb.toml"),
        None,
    );
    let (_, step) = session.advance(Event::CollectionFailed { detail: s("permission denied") });
    match step {
        Step::Finish { outcome } => assert_eq!(
            outcome,
            Err(VerifyError::WorkspacePathError { detail: s("permission denied") })
        ),
        _ => panic!("expected a terminal step"),
    }
}

#[test]
fn end_to_end_success_scenario() {
    let (session, step) = Session::start(
        args("MyToken", Verifier::Walnut, Network::Sepolia, true),
        vec![s("MyToken"), s("Other")],
        s("ws/Scarb.toml"),
        None,
    );
    let root = match step {
        Step::CollectFiles { workspace_root } => workspace_root,
        _ => panic!("expected a collection step"),
    };
    assert_eq!(root, "ws");
    let entries = vec![
        (s("src/lib.cairo"), s("mod token;")),
        (s("Scarb.toml"), s("[package]")),
        (s("target/out.json"), s("{}")),
    ];
    let (session, step) = session.advance(Event::FilesCollected { entries });
    let (url, body) = match step {
        Step::SendRequest { url, body } => (url, body),
        _ => panic!("expected a send step"),
    };
    assert_eq!(url, "https://api.walnut.dev/v1/sn_sepolia/verify");
    let value: serde_json::Value = serde_json::from_str(&body).unwrap();
    assert_eq!(value["class_name"], serde_json::Value::String(s("MyToken")));
    let sources = value["source_code"].as_object().unwrap();
    assert_eq!(sources.len(), 2);
    assert!(sources.contains_key("src/lib.cairo"));
    assert!(sources.contains_key("Scarb.toml"));
    let (session, step) = session.advance(Event::Exchanged {
        outcome: ExchangeOutcome::Response {
            status: 200,
            body: s("Verification submitted successfully"),
        },
    });
    assert_eq!(session.stage, Stage::Finished);
    match step {
        Step::Finish { outcome } => assert_eq!(
            outcome,
            Ok(VerifyResponse { message: s("Verification submitted successfully") })
        ),
        _ => panic!("expected the run to finish"),
    }
}
