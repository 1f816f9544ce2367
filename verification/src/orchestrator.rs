//! Container orchestrator: plans the idempotent create/start/inspect sequence
//! for a verified login identity, judges each runtime outcome, parses the
//! inspect answer, and renders the final access URL. The runtime requests
//! themselves are process I/O performed by the surrounding application, which
//! hands each outcome back in as a plain value.

use vstd::prelude::*;

use crate::env::Env;
use crate::secret::{generate_secret_token, is_alphanumeric_seq, CONNECTION_SECRET_LEN};
use crate::session::{LoginError, LoginState, SessionState};
use crate::strutil::{
    replace_all, spec_replace_all, spec_split_spaces, spec_trim, split_spaces, trim,
};
use crate::{err, HttpReply};

verus! {

/// Shim run in place of the image's entrypoint; the service's own arguments
/// follow it in the recorded launch command.
pub const ENTRYPOINT_SCRIPT: &'static str =
    "exec ${OPENVSCODE_SERVER_ROOT}/bin/openvscode-server \"${@}\"";

/// Position of the connection secret in the launch command the runtime
/// records (a deliberate, documented fragility: the inspect query reads the
/// secret back from exactly this position).
pub const CONNECTION_TOKEN_CMD_INDEX: usize = 5;

/// Format query handed to the inspect request: the host port bound to the
/// fixed internal service port, one space, and the recorded launch-command
/// entry at the connection secret's position.
pub const INSPECT_FORMAT: &'static str =
    "{{(index (index .NetworkSettings.Ports \"3000/tcp\") 0).HostPort}} {{ index (index .Config.Cmd) 5 }}";

/// Deterministic container name: a fixed prefix plus the user name. This is
/// the idempotency key: one user, one container.
pub open spec fn spec_container_name(user_name: Seq<char>) -> Seq<char> {
    "vscs-"@ + user_name
}

/// Derives the container name for a user.
pub fn container_name(user_name: &str) -> (r: String)
    ensures
        r@ == spec_container_name(user_name@),
{
    let mut r = String::from_str("vscs-");
    r.append(user_name);
    r
}

/// The launch command the runtime records for the container: the entrypoint
/// shim and the service's arguments, with the connection secret at the fixed
/// recorded position.
pub open spec fn spec_launch_cmd(secret: Seq<char>) -> Seq<Seq<char>> {
    seq![
        "sh"@,
        "-c"@,
        ENTRYPOINT_SCRIPT@,
        "--"@,
        "--connection-token"@,
        secret,
        "--host"@,
        "0.0.0.0"@,
        "--enable-remote-auto-shutdown"@,
    ]
}

/// The full argument list of the create request: detached run of the pinned
/// image under the derived name, entrypoint overridden, the fixed internal
/// service port published to an ephemeral host port, then the launch command.
pub open spec fn spec_create_args(image: Seq<char>, name: Seq<char>, secret: Seq<char>) -> Seq<
    Seq<char>,
> {
    seq!["run"@, "-d"@, "--name"@, name, "--init"@, "--entrypoint"@, ""@, "-p"@, "3000"@, image]
        + spec_launch_cmd(secret)
}

/// Lays out the create request's arguments.
pub fn create_args(env: &Env, name: &str, secret: &str) -> (r: Vec<String>)
    ensures
        r@.len() == spec_create_args(env.image_name@, name@, secret@).len(),
        forall|i: int|
            0 <= i < r@.len() ==> r@[i]@ == spec_create_args(env.image_name@, name@, secret@)[i],
        r@.len() == 19,
        r@[10 + CONNECTION_TOKEN_CMD_INDEX]@ == secret@,
{
    let mut r: Vec<String> = Vec::new();
    r.push(String::from_str("run"));
    r.push(String::from_str("-d"));
    r.push(String::from_str("--name"));
    r.push(String::from_str(name));
    r.push(String::from_str("--init"));
    r.push(String::from_str("--entrypoint"));
    r.push(String::from_str(""));
    r.push(String::from_str("-p"));
    r.push(String::from_str("3000"));
    r.push(String::from_str(env.image_name.as_str()));
    r.push(String::from_str("sh"));
    r.push(String::from_str("-c"));
    r.push(String::from_str(ENTRYPOINT_SCRIPT));
    r.push(String::from_str("--"));
    r.push(String::from_str("--connection-token"));
    r.push(String::from_str(secret));
    r.push(String::from_str("--host"));
    r.push(String::from_str("0.0.0.0"));
    r.push(String::from_str("--enable-remote-auto-shutdown"));
    r
}

/// Outcome of a create request to the container runtime.
#[derive(Debug)]
pub enum CreateOutcome {
    Created,
    AlreadyExists,
    Failed,
}

/// Outcome of a start request to the container runtime.
#[derive(Debug)]
pub enum StartOutcome {
    Started,
    Failed,
}

/// Failures of the provisioning path.
#[derive(Debug)]
pub enum ProvisionError {
    MalformedInspectOutput,
    ProvisioningFailed,
}

/// A create outcome the flow proceeds past: a fresh container, or one that
/// already existed (idempotent re-provisioning for a returning user).
pub open spec fn create_accepted(o: CreateOutcome) -> bool {
    o is Created || o is AlreadyExists
}

/// Judges the create outcome: an existing container is not an error; any
/// other creation failure is fatal for the request.
pub fn on_create_result(o: &CreateOutcome) -> (r: Result<(), ProvisionError>)
    ensures
        r is Ok <==> create_accepted(*o),
        r is Err ==> r == Result::<(), ProvisionError>::Err(ProvisionError::ProvisioningFailed),
{
    match o {
        CreateOutcome::Failed => Result::Err(ProvisionError::ProvisioningFailed),
        _ => Result::Ok(()),
    }
}

/// Judges the start outcome; starting an already-running container is the
/// runtime's harmless no-op and reports success.
pub fn on_start_result(o: &StartOutcome) -> (r: Result<(), ProvisionError>)
    ensures
        r is Ok <==> *o is Started,
        r is Err ==> r == Result::<(), ProvisionError>::Err(ProvisionError::ProvisioningFailed),
{
    match o {
        StartOutcome::Started => Result::Ok(()),
        StartOutcome::Failed => Result::Err(ProvisionError::ProvisioningFailed),
    }
}

/// Everything the surrounding application needs in order to issue the create
/// and start requests for one identity.
pub struct ProvisionPlan {
    pub container_name: String,
    pub connection_secret: String,
    pub create_args: Vec<String>,
}

/// Plans provisioning for a verified identity: the deterministic container
/// name, a fresh connection secret, and the create request carrying the
/// secret at the fixed recorded position.
pub fn plan_provisioning(login: &LoginState, env: &Env) -> (r: ProvisionPlan)
    ensures
        r.container_name@ == spec_container_name(login.user_name@),
        r.connection_secret@.len() == CONNECTION_SECRET_LEN,
        is_alphanumeric_seq(r.connection_secret@),
        r.create_args@.len() == 19,
        forall|i: int|
            0 <= i < r.create_args@.len() ==> r.create_args@[i]@ == spec_create_args(
                env.image_name@,
                spec_container_name(login.user_name@),
                r.connection_secret@,
            )[i],
        r.create_args@[10 + CONNECTION_TOKEN_CMD_INDEX]@ == r.connection_secret@,
{
    let name = container_name(login.user_name.as_str());
    let secret = generate_secret_token();
    let args = create_args(env, name.as_str(), secret.as_str());
    ProvisionPlan { container_name: name, connection_secret: secret, create_args: args }
}

/// The `start` leg up to the first runtime request: the login-state gate,
/// then the plan. Without a login identity there is no plan, so the container
/// runtime is never reached.
pub fn start_begin(session: &SessionState, env: &Env) -> (r: Result<ProvisionPlan, LoginError>)
    ensures
        r is Ok <==> session@.identity is Some,
        r is Err ==> r == Result::<ProvisionPlan, LoginError>::Err(LoginError::NotLoggedIn),
        r matches Ok(p) ==> session@.identity matches Some(u) && p.container_name@
            == spec_container_name(u) && p.connection_secret@.len() == CONNECTION_SECRET_LEN
            && is_alphanumeric_seq(p.connection_secret@) && p.create_args@.len() == 19 && (forall|
            i: int,
        |
            0 <= i < p.create_args@.len() ==> p.create_args@[i]@ == spec_create_args(
                env.image_name@,
                spec_container_name(u),
                p.connection_secret@,
            )[i]),
{
    match LoginState::from_session(session) {
        Result::Ok(login) => Result::Ok(plan_provisioning(&login, env)),
        Result::Err(e) => Result::Err(e),
    }
}

/// The whitespace-trimmed inspect answer, split on single spaces.
pub open spec fn spec_inspect_tokens(output: Seq<char>) -> Seq<Seq<char>> {
    spec_split_spaces(spec_trim(output))
}

/// What one inspect round trip recovers: the externally reachable host port
/// and the connection secret read back from the recorded launch command.
pub struct InspectInfo {
    pub host_port: String,
    pub connection_secret: String,
}

/// Parses an inspect answer as exactly two whitespace-separated tokens; any
/// other token count is malformed, aborts the flow, and never reaches URL
/// rendering.
pub fn parse_inspect_output(output: &str) -> (r: Result<InspectInfo, ProvisionError>)
    ensures
        r is Ok <==> spec_inspect_tokens(output@).len() == 2,
        r matches Ok(info) ==> info.host_port@ == spec_inspect_tokens(output@)[0]
            && info.connection_secret@ == spec_inspect_tokens(output@)[1],
        r is Err ==> r == Result::<InspectInfo, ProvisionError>::Err(
            ProvisionError::MalformedInspectOutput,
        ),
{
    let trimmed = trim(output);
    let mut parts = split_spaces(trimmed.as_str());
    if parts.len() != 2 {
        return Result::Err(ProvisionError::MalformedInspectOutput);
    }
    let connection_secret = parts.remove(1);
    let host_port = parts.remove(0);
    Result::Ok(InspectInfo { host_port, connection_secret })
}

/// The final access URL: the configured template with every `{port}` marker
/// replaced by the host port, then every `{token}` marker by the secret.
pub open spec fn spec_rendered_url(template: Seq<char>, port: Seq<char>, token: Seq<char>) -> Seq<
    char,
> {
    spec_replace_all(spec_replace_all(template, "{port}"@, port), "{token}"@, token)
}

/// Substitutes the runtime-assigned port and recovered secret into the
/// configured URL template.
pub fn render_url(template: &str, port: &str, token: &str) -> (r: String)
    ensures
        r@ == spec_rendered_url(template@, port@, token@),
{
    proof {
        reveal_strlit("{port}");
        reveal_strlit("{token}");
    }
    let step = replace_all(template, "{port}", port);
    replace_all(step.as_str(), "{token}", token)
}

/// The `start` leg after the inspect round trip: parses the runtime's answer
/// and renders the redirect target.
pub fn finish_provisioning(env: &Env, inspect_output: &str) -> (r: Result<String, ProvisionError>)
    ensures
        r is Ok <==> spec_inspect_tokens(inspect_output@).len() == 2,
        r matches Ok(u) ==> u@ == spec_rendered_url(
            env.container_url@,
            spec_inspect_tokens(inspect_output@)[0],
            spec_inspect_tokens(inspect_output@)[1],
        ),
        r is Err ==> r == Result::<String, ProvisionError>::Err(
            ProvisionError::MalformedInspectOutput,
        ),
{
    match parse_inspect_output(inspect_output) {
        Result::Ok(info) => Result::Ok(
            render_url(
                env.container_url.as_str(),
                info.host_port.as_str(),
                info.connection_secret.as_str(),
            ),
        ),
        Result::Err(e) => Result::Err(e),
    }
}

/// Maps a provisioning failure to the user-visible reply: a generic internal
/// error whose body withholds runtime detail and the connection secret.
pub fn reply_for_provision_error(e: &ProvisionError) -> (r: HttpReply)
    ensures
        r matches HttpReply::InternalError(m) && m@ == "Please contact admin"@,
{
    let generic = err();
    HttpReply::InternalError(generic.message)
}

/// Abstract state of the container runtime: the set of container names that
/// exist. The runtime is an external shared resource; this model captures the
/// create-if-absent idempotency the flow relies on.
pub ghost struct RuntimeModel {
    pub containers: Set<Seq<char>>,
}

/// The runtime's create-if-absent transition: creating an existing name
/// reports that it already exists and changes nothing; otherwise the name is
/// added.
pub open spec fn spec_runtime_create(rt: RuntimeModel, name: Seq<char>) -> (
    RuntimeModel,
    CreateOutcome,
) {
    if rt.containers.contains(name) {
        (rt, CreateOutcome::AlreadyExists)
    } else {
        (RuntimeModel { containers: rt.containers.insert(name) }, CreateOutcome::Created)
    }
}

/// Idempotent provisioning law: two create requests in sequence for the same
/// derived name both pass the create judgement — the second reports that the
/// container already exists — and the runtime ends exactly where the first
/// request left it, holding that one container.
pub proof fn lemma_provisioning_idempotent(rt: RuntimeModel, name: Seq<char>)
    ensures
        ({
            let (rt1, o1) = spec_runtime_create(rt, name);
            let (rt2, o2) = spec_runtime_create(rt1, name);
            &&& create_accepted(o1)
            &&& o2 == CreateOutcome::AlreadyExists
            &&& create_accepted(o2)
            &&& rt2 == rt1
            &&& rt1.containers.contains(name)
        }),
{
}

} // verus!
