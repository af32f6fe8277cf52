//! The clients of the Kurtosis engine and API container services: how a
//! client goes from pending to ready or failed, what a request for it
//! gets in each state, and where the services are reached.
use vstd::prelude::*;
use std::sync::Arc;
use crate::text::{append_decimal, decimal};

verus! {

/// The state of a client of a Kurtosis service. A failed connection is
/// held by the text of its error.
#[derive(Clone, Debug, PartialEq, Eq)]
pub enum KurtosisClientState<T> {
    Failed(String),
    Pending,
    Ready(T),
    Uninitialized,
}

/// What a request for the client gets: the client, a wait for the state
/// to change, or a refusal with its message.
#[derive(Clone, Debug, PartialEq, Eq)]
pub enum ClientAccess<T> {
    Granted(T),
    Wait,
    Refused(String),
}

/// What a request for the client gets, as the contracts see it.
pub enum AccessView<T> {
    Granted(T),
    Wait,
    Refused(Seq<char>),
}

/// What a request for the client gets in `state`: a ready client, a wait
/// while it connects, and otherwise a refusal that says why.
pub open spec fn access_view<T>(state: KurtosisClientState<T>) -> AccessView<T> {
    match state {
        KurtosisClientState::Ready(client) => AccessView::Granted(client),
        KurtosisClientState::Pending => AccessView::Wait,
        KurtosisClientState::Uninitialized => AccessView::Refused("Client has not been initialized"@),
        KurtosisClientState::Failed(reason) => AccessView::Refused("Client initialization failed: "@ + reason@),
    }
}

/// Whether `access` is what `view` describes.
pub open spec fn access_agrees<T>(access: ClientAccess<&T>, view: AccessView<T>) -> bool {
    match (access, view) {
        (ClientAccess::Granted(client), AccessView::Granted(expected)) => *client == expected,
        (ClientAccess::Wait, AccessView::Wait) => true,
        (ClientAccess::Refused(message), AccessView::Refused(expected)) => message@ == expected,
        _ => false,
    }
}

/// The state once the connection of a client in `state` has come to
/// `outcome`: a pending client becomes ready with the client or failed with
/// the error; a client that is not pending has no connection under way and
/// keeps its state.
pub open spec fn initialized<T>(state: KurtosisClientState<T>, outcome: Result<T, String>) -> KurtosisClientState<T> {
    match state {
        KurtosisClientState::Pending => match outcome {
            Ok(client) => KurtosisClientState::Ready(client),
            Err(reason) => KurtosisClientState::Failed(reason),
        },
        _ => state,
    }
}

/// What a request for the client gets in `state`.
pub fn client_access<T>(state: &KurtosisClientState<T>) -> (access: ClientAccess<&T>)
    ensures
        access_agrees(access, access_view(*state)),
{
    match state {
        KurtosisClientState::Uninitialized => {
            let message = String::from_str("Client has not been initialized");
            ClientAccess::Refused(message)
        },
        KurtosisClientState::Ready(client) => ClientAccess::Granted(client),
        KurtosisClientState::Pending => ClientAccess::Wait,
        KurtosisClientState::Failed(reason) => {
            let mut message = String::from_str("Client initialization failed: ");
            message.append(reason.as_str());
            ClientAccess::Refused(message)
        },
    }
}

/// The state once the connection of a client in `state` has come to `outcome`.
pub fn complete_initialization<T>(state: KurtosisClientState<T>, outcome: Result<T, String>) -> (next:
    KurtosisClientState<T>)
    ensures
        next == initialized(state, outcome),
{
    match state {
        KurtosisClientState::Pending => match outcome {
            Ok(client) => KurtosisClientState::Ready(client),
            Err(reason) => KurtosisClientState::Failed(reason),
        },
        other => other,
    }
}

/// A request waits exactly while the client connects; once the connection
/// is settled, every request gets the connected client, or is refused with
/// the connection's error, and a settled client stays as it is.
pub proof fn law_settled_connection_answers_requests<T>(outcome: Result<T, String>, later: Result<T, String>)
    ensures
        access_view(KurtosisClientState::<T>::Pending) == AccessView::<T>::Wait,
        match outcome {
            Ok(client) => access_view(initialized(KurtosisClientState::Pending, outcome)) == AccessView::Granted(client),
            Err(reason) => access_view(initialized(KurtosisClientState::<T>::Pending, outcome))
                == AccessView::<T>::Refused("Client initialization failed: "@ + reason@),
        },
        initialized(initialized(KurtosisClientState::Pending, outcome), later) == initialized(
            KurtosisClientState::Pending,
            outcome,
        ),
{
}

/// The address at which the engine service is reached.
pub fn engine_endpoint() -> (endpoint: String)
    ensures
        endpoint@ == "https://[::1]:9710"@,
{
    String::from_str("https://[::1]:9710")
}

/// The address at which the API container of an enclave is reached, on
/// the host machine's port `port`.
pub fn api_container_endpoint(port: u32) -> (endpoint: String)
    ensures
        endpoint@ == "https://[::1]:"@ + decimal(port as nat),
{
    let mut endpoint = String::from_str("https://[::1]:");
    append_decimal(&mut endpoint, port as u64);
    endpoint
}

/// What the engine tells of a created enclave's API container host machine.
#[derive(Clone, Debug, PartialEq, Eq)]
pub struct HostMachineInfo {
    pub grpc_port_on_host_machine: u32,
}

/// What the engine tells of a created enclave.
#[derive(Clone, Debug, PartialEq, Eq)]
pub struct EnclaveInfo {
    pub api_container_host_machine_info: Option<HostMachineInfo>,
}

/// The port of a created enclave's API container on the host machine,
/// where the engine's reply describes the enclave and its host machine.
pub fn enclave_port(enclave_info: &Option<EnclaveInfo>) -> (port: Option<u32>)
    ensures
        port == match *enclave_info {
            Some(info) => match info.api_container_host_machine_info {
                Some(host) => Some(host.grpc_port_on_host_machine),
                None => None,
            },
            None => None,
        },
{
    match enclave_info {
        Some(info) => match &info.api_container_host_machine_info {
            Some(host) => Some(host.grpc_port_on_host_machine),
            None => None,
        },
        None => None,
    }
}

/// A line of the response to running a package: the result of an
/// instruction, with its serialized text, or another kind of line.
#[derive(Clone, Debug, PartialEq, Eq)]
pub enum RunResponseLine {
    InstructionResult(String),
    Other,
}

/// The text printed for a line of the response: the serialized result of
/// an instruction, and nothing for any other line.
pub fn printed_result(line: &Option<RunResponseLine>) -> (text: Option<String>)
    ensures
        match *line {
            Some(RunResponseLine::InstructionResult(result)) => text matches Some(t) && t@ == result@,
            _ => text is None,
        },
{
    match line {
        Some(RunResponseLine::InstructionResult(result)) => Some(result.clone()),
        _ => None,
    }
}

/// The arguments of a request to the engine to create an enclave.
#[derive(Clone, Debug, PartialEq, Eq)]
pub struct CreateEnclaveArgs {
    pub enclave_name: Option<String>,
    pub api_container_log_level: Option<String>,
    pub api_container_version_tag: Option<String>,
    pub mode: Option<i32>,
}

/// The arguments of a request to an API container to run a remote package.
#[derive(Clone, Debug, PartialEq, Eq)]
pub struct RunPackageArgs {
    pub package_id: String,
    pub parallelism: Option<i32>,
    pub serialized_params: Option<String>,
    pub clone_package: Option<bool>,
    pub relative_path_to_main_file: Option<String>,
    pub main_function_name: Option<String>,
}

/// The network that an enclave is set up with: a local Rococo relay chain
/// and a Frequency parachain, each with a validator and a full node, and an explorer.
pub const NETWORK_PARAMS: &'static str = r#"{ "chain_type": "local", "relaychain": { "name": "rococo-local", "nodes": [ { "name": "alice", "node_type": "validator", "prometheus": false }, { "name": "bob", "node_type": "full", "prometheus": true } ] }, "parachains": [ { "name": "frequency", "nodes": [ { "name": "alice", "node_type": "validator", "prometheus": false }, { "name": "bob", "node_type": "full", "prometheus": true } ] } ], "explorer": true }"#;

/// Whether `args` ask for the enclave that a node wants: unnamed, logging
/// at level "info", in the first mode.
pub open spec fn is_enclave_creation_args(args: CreateEnclaveArgs) -> bool {
    &&& args.enclave_name is None
    &&& args.api_container_log_level matches Some(level) && level@ == "info"@
    &&& args.api_container_version_tag is None
    &&& args.mode == Some(0i32)
}

/// Whether `args` run the package that a new enclave runs: the Polkadot
/// package, with four instructions at a time, the network of
/// `NETWORK_PARAMS`, and its main function `run` in `./main.star`.
pub open spec fn is_network_package_args(args: RunPackageArgs) -> bool {
    &&& args.package_id@ == "github.com/hugobyte/polkadot-kurtosis-package"@
    &&& args.parallelism == Some(4i32)
    &&& args.serialized_params matches Some(p) && p@ == NETWORK_PARAMS@
    &&& args.clone_package == Some(true)
    &&& args.relative_path_to_main_file matches Some(p) && p@ == "./main.star"@
    &&& args.main_function_name matches Some(f) && f@ == "run"@
}

/// The enclave that a node asks the engine for.
pub fn enclave_creation_args() -> (args: CreateEnclaveArgs)
    ensures
        is_enclave_creation_args(args),
{
    CreateEnclaveArgs {
        enclave_name: None,
        api_container_log_level: Some(String::from_str("info")),
        api_container_version_tag: None,
        mode: Some(0),
    }
}

/// The package that a new enclave runs.
pub fn network_package_args() -> (args: RunPackageArgs)
    ensures
        is_network_package_args(args),
{
    RunPackageArgs {
        package_id: String::from_str("github.com/hugobyte/polkadot-kurtosis-package"),
        parallelism: Some(4),
        serialized_params: Some(String::from_str(NETWORK_PARAMS)),
        clone_package: Some(true),
        relative_path_to_main_file: Some(String::from_str("./main.star")),
        main_function_name: Some(String::from_str("run")),
    }
}

/// Where a node is in creating an enclave and running the network package in it.
#[derive(Clone, Copy, Debug, PartialEq, Eq, Structural)]
pub enum CreationStage {
    Start,
    AwaitingEnclave,
    AwaitingApiContainer,
    RunningPackage,
    Done,
    Failed,
}

/// What happens to a node that creates an enclave: it begins, the engine
/// answers the creation, the API container's client is ready, a line of the
/// package's response comes, the response ends, or a call fails with an error.
#[derive(Clone, Debug, PartialEq, Eq)]
pub enum CreationEvent {
    Begin,
    EnclaveCreated(Option<EnclaveInfo>),
    ApiContainerReady,
    ResponseLine(Option<RunResponseLine>),
    ResponseEnded,
    CallFailed(String),
}

/// What the node does next: ask the engine for an enclave, connect to the
/// enclave's API container, run the package, print a result, do nothing,
/// finish, or stop with a message.
#[derive(Clone, Debug, PartialEq, Eq)]
pub enum CreationAction {
    CreateEnclave(CreateEnclaveArgs),
    ConnectApiContainer(String),
    RunPackage(RunPackageArgs),
    Print(String),
    Nothing,
    Finish,
    Abort(String),
}

/// The message of a stop for an engine answer without the enclave's port.
pub open spec fn missing_port_message(info: Option<EnclaveInfo>) -> Seq<char> {
    match info {
        None => "Enclave info must be present"@,
        Some(_) => "Enclave host machine info must be present"@,
    }
}

/// The stage and action that follow `event` at `stage`:
/// - beginning asks the engine for the enclave;
/// - the engine's answer leads to the enclave's API container, at the port
///   the answer gives, or stops the node when it gives none;
/// - a ready API container runs the package;
/// - each line of the response prints the result of an instruction, and
///   nothing for other lines; the end of the response finishes;
/// - a failed call stops the node with its error;
/// - any other event at any stage changes nothing.
pub fn creation_step(stage: CreationStage, event: CreationEvent) -> (next: (CreationStage, CreationAction))
    ensures
        match (stage, event) {
            (CreationStage::Start, CreationEvent::Begin) => {
                &&& next.0 == CreationStage::AwaitingEnclave
                &&& next.1 matches CreationAction::CreateEnclave(args)
                &&& is_enclave_creation_args(args)
            },
            (CreationStage::AwaitingEnclave, CreationEvent::EnclaveCreated(info)) => match info {
                Some(EnclaveInfo { api_container_host_machine_info: Some(host) }) => {
                    &&& next.0 == CreationStage::AwaitingApiContainer
                    &&& next.1 matches CreationAction::ConnectApiContainer(endpoint)
                    &&& endpoint@ == "https://[::1]:"@ + decimal(host.grpc_port_on_host_machine as nat)
                },
                _ => {
                    &&& next.0 == CreationStage::Failed
                    &&& next.1 matches CreationAction::Abort(message)
                    &&& message@ == missing_port_message(info)
                },
            },
            (CreationStage::AwaitingApiContainer, CreationEvent::ApiContainerReady) => {
                &&& next.0 == CreationStage::RunningPackage
                &&& next.1 matches CreationAction::RunPackage(args)
                &&& is_network_package_args(args)
            },
            (CreationStage::RunningPackage, CreationEvent::ResponseLine(line)) => {
                &&& next.0 == CreationStage::RunningPackage
                &&& match line {
                    Some(RunResponseLine::InstructionResult(result)) => {
                        &&& next.1 matches CreationAction::Print(text)
                        &&& text@ == result@
                    },
                    _ => next.1 == CreationAction::Nothing,
                }
            },
            (CreationStage::RunningPackage, CreationEvent::ResponseEnded) => {
                &&& next.0 == CreationStage::Done
                &&& next.1 == CreationAction::Finish
            },
            (_, CreationEvent::CallFailed(error)) => {
                &&& next.0 == CreationStage::Failed
                &&& next.1 matches CreationAction::Abort(message)
                &&& message@ == error@
            },
            _ => next.0 == stage && next.1 == CreationAction::Nothing,
        },
{
    match (stage, event) {
        (CreationStage::Start, CreationEvent::Begin) => (
            CreationStage::AwaitingEnclave,
            CreationAction::CreateEnclave(enclave_creation_args()),
        ),
        (CreationStage::AwaitingEnclave, CreationEvent::EnclaveCreated(info)) => match enclave_port(&info) {
            Some(port) => (CreationStage::AwaitingApiContainer, CreationAction::ConnectApiContainer(api_container_endpoint(port))),
            None => {
                let message = match info {
                    None => String::from_str("Enclave info must be present"),
                    Some(_) => String::from_str("Enclave host machine info must be present"),
                };
                (CreationStage::Failed, CreationAction::Abort(message))
            },
        },
        (CreationStage::AwaitingApiContainer, CreationEvent::ApiContainerReady) => (
            CreationStage::RunningPackage,
            CreationAction::RunPackage(network_package_args()),
        ),
        (CreationStage::RunningPackage, CreationEvent::ResponseLine(line)) => match printed_result(&line) {
            Some(text) => (CreationStage::RunningPackage, CreationAction::Print(text)),
            None => (CreationStage::RunningPackage, CreationAction::Nothing),
        },
        (CreationStage::RunningPackage, CreationEvent::ResponseEnded) => (CreationStage::Done, CreationAction::Finish),
        (_, CreationEvent::CallFailed(error)) => (CreationStage::Failed, CreationAction::Abort(error)),
        (other, _) => (other, CreationAction::Nothing),
    }
}

/// A client that stands in for the Kurtosis services in tests.
pub struct TestKurtosisClient;

impl TestKurtosisClient {
    /// A shared test client.
    pub fn new() -> (client: Arc<Self>) {
        Arc::new(TestKurtosisClient)
    }
}

} // verus!
