use pocs::kurtosis::{
    creation_step, CreationAction, CreationEvent, CreationStage, api_container_endpoint, client_access, complete_initialization, enclave_creation_args, enclave_port,
    engine_endpoint, network_package_args, printed_result, ClientAccess, EnclaveInfo, HostMachineInfo,
    KurtosisClientState, RunResponseLine, TestKurtosisClient, NETWORK_PARAMS,
};

#[test]
fn access_follows_the_client_state() {
    let ready: KurtosisClientState<u8> = KurtosisClientState::Ready(7);
    assert_eq!(client_access(&ready), ClientAccess::Granted(&7));
    assert_eq!(client_access(&KurtosisClientState::<u8>::Pending), ClientAccess::Wait);
    assert_eq!(
        client_access(&KurtosisClientState::<u8>::Uninitialized),
        ClientAccess::Refused("Client has not been initialized".to_string())
    );
    assert_eq!(
        client_access(&KurtosisClientState::<u8>::Failed("Connection refused".to_string())),
        ClientAccess::Refused("Client initialization failed: Connection refused".to_string())
    );
}

#[test]
fn a_pending_client_becomes_ready_or_failed() {
    assert_eq!(complete_initialization(KurtosisClientState::Pending, Ok(3u8)), KurtosisClientState::Ready(3));
    assert_eq!(
        complete_initialization(KurtosisClientState::<u8>::Pending, Err("timeout".to_string())),
        KurtosisClientState::Failed("timeout".to_string())
    );
}

#[test]
fn only_a_pending_client_changes() {
    assert_eq!(complete_initialization(KurtosisClientState::Ready(1u8), Ok(2)), KurtosisClientState::Ready(1));
    assert_eq!(
        complete_initialization(KurtosisClientState::<u8>::Uninitialized, Ok(2)),
        KurtosisClientState::Uninitialized
    );
}

#[test]
fn endpoints() {
    assert_eq!(engine_endpoint(), "https://[::1]:9710");
    assert_eq!(api_container_endpoint(9710), engine_endpoint());
    assert_eq!(api_container_endpoint(0), "https://[::1]:0");
    assert_eq!(api_container_endpoint(u32::MAX), "https://[::1]:4294967295");
}

#[test]
fn enclave_port_needs_both_descriptions() {
    let host = HostMachineInfo { grpc_port_on_host_machine: 51234 };
    let info = EnclaveInfo { api_container_host_machine_info: Some(host) };
    assert_eq!(enclave_port(&Some(info)), Some(51234));
    assert_eq!(enclave_port(&Some(EnclaveInfo { api_container_host_machine_info: None })), None);
    assert_eq!(enclave_port(&None), None);
}

#[test]
fn only_instruction_results_are_printed() {
    let line = Some(RunResponseLine::InstructionResult("Hello World!".to_string()));
    assert_eq!(printed_result(&line), Some("Hello World!".to_string()));
    assert_eq!(printed_result(&Some(RunResponseLine::Other)), None);
    assert_eq!(printed_result(&None), None);
}

#[test]
fn request_arguments() {
    let create = enclave_creation_args();
    assert_eq!(create.api_container_log_level.as_deref(), Some("info"));
    assert_eq!(create.mode, Some(0));
    assert!(create.enclave_name.is_none() && create.api_container_version_tag.is_none());
    let run = network_package_args();
    assert_eq!(run.package_id, "github.com/hugobyte/polkadot-kurtosis-package");
    assert_eq!(run.parallelism, Some(4));
    assert_eq!(run.serialized_params.as_deref(), Some(NETWORK_PARAMS));
    assert!(NETWORK_PARAMS.contains("rococo-local"));
    assert_eq!(run.main_function_name.as_deref(), Some("run"));
    let _client = TestKurtosisClient::new();
}

#[test]
fn enclave_creation_runs_through_its_stages() {
    let (stage, action) = creation_step(CreationStage::Start, CreationEvent::Begin);
    assert_eq!(stage, CreationStage::AwaitingEnclave);
    assert_eq!(action, CreationAction::CreateEnclave(enclave_creation_args()));
    let info = EnclaveInfo { api_container_host_machine_info: Some(HostMachineInfo { grpc_port_on_host_machine: 40001 }) };
    let (stage, action) = creation_step(stage, CreationEvent::EnclaveCreated(Some(info)));
    assert_eq!(stage, CreationStage::AwaitingApiContainer);
    assert_eq!(action, CreationAction::ConnectApiContainer("https://[::1]:40001".to_string()));
    let (stage, action) = creation_step(stage, CreationEvent::ApiContainerReady);
    assert_eq!(stage, CreationStage::RunningPackage);
    assert_eq!(action, CreationAction::RunPackage(network_package_args()));
    let line = Some(RunResponseLine::InstructionResult("Hello World!".to_string()));
    let (stage, action) = creation_step(stage, CreationEvent::ResponseLine(line));
    assert_eq!(action, CreationAction::Print("Hello World!".to_string()));
    let (stage, action) = creation_step(stage, CreationEvent::ResponseLine(Some(RunResponseLine::Other)));
    assert_eq!(action, CreationAction::Nothing);
    let (stage, action) = creation_step(stage, CreationEvent::ResponseEnded);
    assert_eq!((stage, action), (CreationStage::Done, CreationAction::Finish));
}

#[test]
fn enclave_creation_stops_without_a_port_or_on_a_failed_call() {
    let (stage, action) = creation_step(CreationStage::AwaitingEnclave, CreationEvent::EnclaveCreated(None));
    assert_eq!(stage, CreationStage::Failed);
    assert_eq!(action, CreationAction::Abort("Enclave info must be present".to_string()));
    let no_host = EnclaveInfo { api_container_host_machine_info: None };
    let (_, action) = creation_step(CreationStage::AwaitingEnclave, CreationEvent::EnclaveCreated(Some(no_host)));
    assert_eq!(action, CreationAction::Abort("Enclave host machine info must be present".to_string()));
    let (stage, action) = creation_step(CreationStage::RunningPackage, CreationEvent::CallFailed("gone".to_string()));
    assert_eq!((stage, action), (CreationStage::Failed, CreationAction::Abort("gone".to_string())));
    let (stage, action) = creation_step(CreationStage::Done, CreationEvent::ApiContainerReady);
    assert_eq!((stage, action), (CreationStage::Done, CreationAction::Nothing));
}
