use openvscode_farm::env::Env;
use openvscode_farm::orchestrator::{
    container_name, create_args, finish_provisioning, on_create_result, on_start_result,
    parse_inspect_output, plan_provisioning, render_url, reply_for_provision_error, start_begin,
    CreateOutcome, ProvisionError, StartOutcome, CONNECTION_TOKEN_CMD_INDEX, INSPECT_FORMAT,
};
use openvscode_farm::session::{LoginError, LoginState, SessionState};
use openvscode_farm::{err, HttpReply};

fn test_env() -> Env {
    Env {
        cookie_path: String::from("/vscode"),
        cookie_secret: String::from("cookie-secret-value"),
        public_url: String::from("https://gw.example"),
        container_url: String::from("http://host:{port}/?tkn={token}"),
        image_name: String::from("openvscode-server"),
        oauth_app_id: String::from("the-app-id"),
        oauth_app_secret: String::from("app-secret-value"),
        oauth_server: String::from("https://idp.example"),
    }
}

#[test]
fn container_name_is_prefix_plus_user_name() {
    assert_eq!(container_name("alice"), "vscs-alice");
    assert_eq!(container_name(""), "vscs-");
}

#[test]
fn create_args_carry_secret_at_recorded_position() {
    let env = test_env();
    let args = create_args(&env, "vscs-alice", "tok123");
    assert_eq!(args.len(), 19);
    assert_eq!(args[0], "run");
    assert_eq!(args[3], "vscs-alice");
    assert_eq!(args[9], "openvscode-server");
    // Everything after the image is the recorded launch command; the inspect
    // format reads the secret back from its fixed position there.
    assert_eq!(args[10 + CONNECTION_TOKEN_CMD_INDEX], "tok123");
    assert!(INSPECT_FORMAT.contains("index (index .Config.Cmd) 5"));
}

#[test]
fn start_without_identity_is_forbidden_and_plans_nothing() {
    let env = test_env();
    let session = SessionState::new();
    let r = start_begin(&session, &env);
    assert!(matches!(r, Err(LoginError::NotLoggedIn)));
}

#[test]
fn start_with_identity_plans_the_container() {
    let env = test_env();
    let mut session = SessionState::new();
    session.set_identity(LoginState { user_name: String::from("alice") });
    let plan = start_begin(&session, &env).expect("gate passes");
    assert_eq!(plan.container_name, "vscs-alice");
    assert_eq!(plan.connection_secret.len(), 32);
    assert!(plan.connection_secret.chars().all(|c| c.is_ascii_alphanumeric()));
    assert_eq!(plan.create_args[10 + CONNECTION_TOKEN_CMD_INDEX], plan.connection_secret);
}

#[test]
fn create_outcomes_already_exists_is_success() {
    assert!(on_create_result(&CreateOutcome::Created).is_ok());
    assert!(on_create_result(&CreateOutcome::AlreadyExists).is_ok());
    assert!(matches!(
        on_create_result(&CreateOutcome::Failed),
        Err(ProvisionError::ProvisioningFailed)
    ));
}

#[test]
fn start_outcomes() {
    assert!(on_start_result(&StartOutcome::Started).is_ok());
    assert!(matches!(
        on_start_result(&StartOutcome::Failed),
        Err(ProvisionError::ProvisioningFailed)
    ));
}

#[test]
fn malformed_inspect_output_never_renders() {
    for bad in ["", "   ", "34567", "34567 tok123 extra", "34567  tok123", "\n"] {
        let r = parse_inspect_output(bad);
        assert!(
            matches!(r, Err(ProvisionError::MalformedInspectOutput)),
            "expected malformed for {:?}",
            bad
        );
    }
}

#[test]
fn well_formed_inspect_output_parses() {
    let info = parse_inspect_output("34567 tok123\n").expect("two tokens");
    assert_eq!(info.host_port, "34567");
    assert_eq!(info.connection_secret, "tok123");
}

#[test]
fn render_substitutes_port_and_token() {
    let url = render_url("http://host:{port}/?tkn={token}", "34567", "tok123");
    assert_eq!(url, "http://host:34567/?tkn=tok123");
    // Every marker occurrence is replaced, as str::replace does.
    let twice = render_url("{port}-{port}-{token}", "1", "t");
    assert_eq!(twice, "1-1-t");
}

#[test]
fn end_to_end_start_against_stub_runtime() {
    let env = test_env();
    let mut session = SessionState::new();
    session.set_identity(LoginState { user_name: String::from("alice") });

    let plan = start_begin(&session, &env).expect("gate passes");
    assert_eq!(plan.container_name, "vscs-alice");

    // Stub runtime: create reports fresh, start succeeds, inspect answers.
    assert!(on_create_result(&CreateOutcome::Created).is_ok());
    assert!(on_start_result(&StartOutcome::Started).is_ok());
    let url = finish_provisioning(&env, "34567 tok123").expect("well-formed answer");
    assert_eq!(url, "http://host:34567/?tkn=tok123");
}

#[test]
fn provisioning_twice_converges_on_one_container() {
    let env = test_env();
    let mut session = SessionState::new();
    session.set_identity(LoginState { user_name: String::from("alice") });

    // First invocation: the runtime had no container, creates one.
    let plan1 = start_begin(&session, &env).expect("gate passes");
    assert!(on_create_result(&CreateOutcome::Created).is_ok());
    assert!(on_start_result(&StartOutcome::Started).is_ok());
    let url1 = finish_provisioning(&env, "34567 tok123").expect("valid url");

    // Second invocation: same derived name, so the stub runtime reports the
    // container as already existing — accepted, not an error.
    let plan2 = start_begin(&session, &env).expect("gate passes");
    assert_eq!(plan1.container_name, plan2.container_name);
    assert!(on_create_result(&CreateOutcome::AlreadyExists).is_ok());
    assert!(on_start_result(&StartOutcome::Started).is_ok());
    let url2 = finish_provisioning(&env, "34567 tok123").expect("valid url");

    assert_eq!(url1, "http://host:34567/?tkn=tok123");
    assert_eq!(url2, url1);
}

#[test]
fn provisioning_failures_surface_generic_error_only() {
    for e in [ProvisionError::MalformedInspectOutput, ProvisionError::ProvisioningFailed] {
        match reply_for_provision_error(&e) {
            HttpReply::InternalError(message) => assert_eq!(message, "Please contact admin"),
            _ => panic!("expected an internal error"),
        }
    }
    let generic = err();
    assert_eq!(generic.status_code, 500);
    assert_eq!(generic.message, "Please contact admin");
}
