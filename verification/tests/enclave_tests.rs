use pocs::enclave::{
    Call, EnclaveAction, EnclaveInfo, EnclaveRequestParam, EnclaveStatus, Error, Event, OffchainAction, Outcome,
    Pallet,
};
use pocs::frame::{AccountId, DispatchError, Origin};

const PROVIDER: AccountId = 1;
const CONDUIT: AccountId = 2;
const USER: AccountId = 3;

fn new_mock_runtime() -> Pallet {
    Pallet::new(1)
}

fn events(pallet: &mut Pallet) -> Vec<Event> {
    let result = pallet.events().clone();
    pallet.reset_events();
    result
}

fn last_event(pallet: &Pallet) -> Option<Event> {
    pallet.events().last().copied()
}

fn create_enclave_param() -> EnclaveRequestParam {
    EnclaveRequestParam::new(EnclaveAction::CreateEnclave, None)
}

#[test]
fn enroll_as_provider_works() {
    let mut pallet = new_mock_runtime();
    let account_id: AccountId = 1;
    assert_eq!(pallet.enroll_as_provider(Origin::Signed(account_id)), Ok(()));
    assert_eq!(last_event(&pallet), Some(Event::ProviderEnrolled(account_id)));
}

#[test]
fn enroll_as_provider_fails_with_non_signed_origin() {
    let mut pallet = new_mock_runtime();
    assert_eq!(pallet.enroll_as_provider(Origin::Unsigned), Err(DispatchError::BadOrigin));
    assert!(pallet.events().is_empty());
}

#[test]
fn enroll_as_provider_fails_when_already_enrolled() {
    let mut pallet = new_mock_runtime();
    let account_id: AccountId = 1;
    assert_eq!(pallet.enroll_as_provider(Origin::Signed(account_id)), Ok(()));
    let before = pallet.events().len();
    assert_eq!(
        pallet.enroll_as_provider(Origin::Signed(account_id)),
        Err(DispatchError::Module(Error::AlreadyAProvider))
    );
    assert_eq!(pallet.events().len(), before);
}

#[test]
fn create_enclave_request_works() {
    let mut pallet = new_mock_runtime();
    let account_id: AccountId = 1;
    assert_eq!(pallet.create_enclave_request(Origin::Signed(account_id), None, create_enclave_param()), Ok(()));
    assert_eq!(last_event(&pallet), Some(Event::EnclaveRequestCreated(1)));
}

#[test]
fn create_enclave_request_fails_with_non_signed_origin() {
    let mut pallet = new_mock_runtime();
    assert_eq!(
        pallet.create_enclave_request(Origin::Unsigned, None, create_enclave_param()),
        Err(DispatchError::BadOrigin)
    );
    assert_eq!(pallet.request_counter(), 0);
}

#[test]
fn acknowledge_enclave_request_works() {
    let mut pallet = new_mock_runtime();
    let account_id: AccountId = 1;
    let handler_id: AccountId = 2;
    assert_eq!(pallet.enroll_as_provider(Origin::Signed(handler_id)), Ok(()));
    assert_eq!(
        pallet.create_enclave_request(Origin::Signed(account_id), Some(handler_id), create_enclave_param()),
        Ok(())
    );
    assert_eq!(pallet.acknowledge_enclave_request(Origin::Signed(handler_id), 1), Ok(()));
    assert_eq!(last_event(&pallet), Some(Event::EnclaveRequestAcknowledged(1)));
}

#[test]
fn acknowledge_enclave_request_fails_for_nonexistent_request() {
    let mut pallet = new_mock_runtime();
    let account_id: AccountId = 1;
    assert_eq!(
        pallet.acknowledge_enclave_request(Origin::Signed(account_id), 999),
        Err(DispatchError::Module(Error::RequestNotFound))
    );
}

#[test]
fn acknowledge_enclave_request_fails_for_unauthorized_handler() {
    let mut pallet = new_mock_runtime();
    let account_id: AccountId = 1;
    let handler: AccountId = 2;
    let unauthorized_handler: AccountId = 3;
    assert_eq!(
        pallet.create_enclave_request(Origin::Signed(account_id), Some(handler), create_enclave_param()),
        Ok(())
    );
    assert_eq!(
        pallet.acknowledge_enclave_request(Origin::Signed(unauthorized_handler), 1),
        Err(DispatchError::Module(Error::NotAuthorizedHandler))
    );
}

#[test]
fn acknowledge_enclave_request_fails_if_already_acknowledged() {
    let mut pallet = new_mock_runtime();
    let account_id: AccountId = 1;
    let handler: AccountId = 2;
    assert_eq!(pallet.create_enclave_request(Origin::Signed(account_id), None, create_enclave_param()), Ok(()));
    assert_eq!(pallet.enroll_as_provider(Origin::Signed(handler)), Ok(()));
    assert_eq!(pallet.acknowledge_enclave_request(Origin::Signed(handler), 1), Ok(()));
    assert_eq!(
        pallet.acknowledge_enclave_request(Origin::Signed(handler), 1),
        Err(DispatchError::Module(Error::RequestNotFound))
    );
}

#[test]
fn test_create_enclave_and_setup_enclave_works() {
    let mut pallet = new_mock_runtime();
    let local = [PROVIDER, CONDUIT, USER];
    let provider = local[0];
    let conduit_node = local[1];
    let user = local[2];
    let request_id = 1;

    assert_eq!(pallet.enroll_as_provider(Origin::Signed(provider)), Ok(()));
    assert_eq!(pallet.create_enclave_request(Origin::Signed(user), Some(provider), create_enclave_param()), Ok(()));
    assert_eq!(last_event(&pallet), Some(Event::EnclaveRequestCreated(request_id)));

    let tx = pallet.handle_enclave_request_created(request_id, &local).unwrap();
    match tx.call {
        Call::AcknowledgeEnclaveRequest { request_id } => {
            assert_eq!(pallet.acknowledge_enclave_request(Origin::Signed(provider), request_id), Ok(()));
        },
        _ => assert!(false, "Test failed due to unexpected call encountered"),
    }
    assert_eq!(last_event(&pallet), Some(Event::EnclaveRequestAcknowledged(request_id)));
    pallet.reset_events();

    assert_eq!(pallet.handle_enclave_request_acknowledged(request_id, &local), Some(OffchainAction::CreateEnclave));

    let pending_authorized_nodes = [(request_id, conduit_node)];
    let mut txs = pallet.process_pending_authorized_conduit_nodes(&pending_authorized_nodes, &local);
    let tx = txs.pop().unwrap();
    match tx.call {
        Call::ProcessEnclaveRequest { request_id, outcome } => {
            assert_eq!(pallet.process_enclave_request(Origin::Signed(provider), request_id, outcome), Ok(()));
        },
        _ => assert!(false, "Test failed due to unexpected call encountered"),
    }

    assert_eq!(pallet.enclaves(conduit_node), Some(EnclaveInfo::new(provider, user, EnclaveStatus::Pending)));
    assert_eq!(
        events(&mut pallet),
        vec![
            Event::EnclaveRequestCreated(2),
            Event::EnclaveRequestProcessed {
                request_id,
                handle: provider,
                outcome: Outcome::EnclaveCreated { handle: conduit_node },
            },
        ]
    );

    let tx = pallet.handle_enclave_request_created(2, &local).unwrap();
    match tx.call {
        Call::AcknowledgeEnclaveRequest { request_id } => {
            assert_eq!(pallet.acknowledge_enclave_request(Origin::Signed(conduit_node), request_id), Ok(()));
        },
        _ => assert!(false, "Test failed due to unexpected call encountered"),
    }
    assert_eq!(last_event(&pallet), Some(Event::EnclaveRequestAcknowledged(2)));

    let tx = match pallet.handle_enclave_request_acknowledged(2, &local) {
        Some(OffchainAction::SetupEnclave { request_id, then }) => {
            assert_eq!(request_id, 2);
            then
        },
        other => panic!("unexpected action {:?}", other),
    };
    match tx.call {
        Call::ProcessEnclaveRequest { request_id, outcome } => {
            assert_eq!(pallet.process_enclave_request(Origin::Signed(conduit_node), request_id, outcome), Ok(()));
        },
        _ => assert!(false, "Test failed due to unexpected call encountered"),
    }
    assert_eq!(
        last_event(&pallet),
        Some(Event::EnclaveRequestProcessed {
            request_id: 2,
            handle: conduit_node,
            outcome: Outcome::EnclaveSetupCompleted,
        })
    );
    assert_eq!(pallet.enclaves(conduit_node), Some(EnclaveInfo::new(provider, user, EnclaveStatus::Active)));
}

#[test]
fn set_enclave_status_works() {
    let mut pallet = new_mock_runtime();
    let provider = PROVIDER;
    let conduit = CONDUIT;
    let user = USER;
    pallet.insert_enclave(conduit, EnclaveInfo::new(provider, user, EnclaveStatus::Pending));
    assert_eq!(pallet.set_enclave_status(Origin::Signed(conduit), EnclaveStatus::Active), Ok(()));
    assert_eq!(pallet.enclaves(conduit).unwrap().status(), &EnclaveStatus::Active);
}

// ---- further cases ----

#[test]
fn set_enclave_status_fails_without_enclave() {
    let mut pallet = new_mock_runtime();
    assert_eq!(
        pallet.set_enclave_status(Origin::Signed(USER), EnclaveStatus::Inactive),
        Err(DispatchError::Module(Error::EnclaveNotFound))
    );
    assert_eq!(pallet.set_enclave_status(Origin::Root, EnclaveStatus::Inactive), Err(DispatchError::BadOrigin));
}

#[test]
fn acknowledging_create_request_needs_a_provider() {
    let mut pallet = new_mock_runtime();
    assert_eq!(pallet.create_enclave_request(Origin::Signed(USER), None, create_enclave_param()), Ok(()));
    assert_eq!(
        pallet.acknowledge_enclave_request(Origin::Signed(CONDUIT), 1),
        Err(DispatchError::Module(Error::NotAProvider))
    );
}

#[test]
fn processing_checks_request_handler_and_provider() {
    let mut pallet = new_mock_runtime();
    assert_eq!(
        pallet.process_enclave_request(Origin::Signed(PROVIDER), 7, Outcome::EnclaveSetupCompleted),
        Err(DispatchError::Module(Error::RequestNotFound))
    );
    assert_eq!(pallet.enroll_as_provider(Origin::Signed(PROVIDER)), Ok(()));
    assert_eq!(pallet.create_enclave_request(Origin::Signed(USER), None, create_enclave_param()), Ok(()));
    assert_eq!(pallet.acknowledge_enclave_request(Origin::Signed(PROVIDER), 1), Ok(()));
    assert_eq!(
        pallet.process_enclave_request(Origin::Signed(CONDUIT), 1, Outcome::EnclaveSetupCompleted),
        Err(DispatchError::Module(Error::NotAuthorizedHandler))
    );
    assert_eq!(
        pallet.process_enclave_request(Origin::Signed(PROVIDER), 1, Outcome::EnclaveSetupCompleted),
        Ok(())
    );
    assert_eq!(pallet.enclaves(CONDUIT), None);
}

#[test]
fn offchain_worker_acts_on_block_events() {
    let mut pallet = new_mock_runtime();
    let local = [PROVIDER];
    assert_eq!(pallet.enroll_as_provider(Origin::Signed(PROVIDER)), Ok(()));
    assert_eq!(pallet.create_enclave_request(Origin::Signed(USER), None, create_enclave_param()), Ok(()));
    let block_events = events(&mut pallet);
    let actions = pallet.offchain_worker(&block_events, &[], &local);
    assert_eq!(actions.len(), 1);
    match actions[0] {
        OffchainAction::Submit(tx) => {
            assert_eq!(tx.signer, PROVIDER);
            assert_eq!(tx.call, Call::AcknowledgeEnclaveRequest { request_id: 1 });
        },
        _ => panic!("expected a submission"),
    }
}

#[test]
fn request_counter_wraps() {
    let mut pallet = new_mock_runtime();
    assert_eq!(pallet.create_enclave_request(Origin::Signed(USER), None, create_enclave_param()), Ok(()));
    assert_eq!(pallet.request_counter(), 1);
    assert_eq!(pallet.providers(PROVIDER), None);
}
