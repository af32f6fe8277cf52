//! A pallet through which users ask providers for enclaves: requests are
//! created, acknowledged by the node that handles them, and processed into
//! enclaves; an off-chain worker decides which transactions a node submits.
use crate::frame::{ensure_signed, AccountId, BlockNumber, DispatchError, Origin};
use std::collections::HashMap;
use vstd::prelude::*;

verus! {

broadcast use vstd::std_specs::hash::group_hash_axioms;

/// The identifier of an enclave request.
pub type RequestId = u64;

/// What a request asks for, and of whom: providers create, stop, start and
/// remove enclaves; conduit nodes set them up and execute in them.
#[derive(Clone, Copy, Debug, PartialEq, Eq, Structural)]
pub enum EnclaveAction {
    CreateEnclave,
    SetupEnclave,
    ExecuteInEnclave,
    StopEnclave,
    StartEnclave,
    RemoveEnclave,
}

/// The life cycle of an enclave.
#[derive(Clone, Copy, Debug, PartialEq, Eq, Structural)]
pub enum EnclaveStatus {
    Pending,
    Active,
    Inactive,
}

/// What the handler of a request reports when it processes it.
#[derive(Clone, Copy, Debug, PartialEq, Eq, Structural)]
pub enum Outcome {
    /// A new enclave, reachable as the account `handle`.
    EnclaveCreated { handle: AccountId },
    EnclaveSetupCompleted,
}

/// An enrolled provider.
#[derive(Clone, Copy, Debug, PartialEq, Eq, Structural, Default)]
pub struct Provider {}

/// The action of a request and the script that goes with it.
#[derive(Clone, Debug, PartialEq, Eq)]
pub struct EnclaveRequestParam {
    pub action: EnclaveAction,
    pub script: Option<Vec<u8>>,
}

/// A request by `user`, to be handled by `handler` if one is named.
#[derive(Clone, Debug, PartialEq, Eq)]
pub struct EnclaveRequest {
    pub user: AccountId,
    pub handler: Option<AccountId>,
    pub params: EnclaveRequestParam,
}

/// A request that `handler` took on at `start_block`.
#[derive(Clone, Debug, PartialEq, Eq)]
pub struct AcknowledgedRequest {
    pub request: EnclaveRequest,
    pub start_block: BlockNumber,
    pub handler: AccountId,
}

/// An enclave: who provides it, who asked for it, and its status.
#[derive(Clone, Copy, Debug, PartialEq, Eq, Structural)]
pub struct EnclaveInfo {
    pub provider: AccountId,
    pub user: AccountId,
    pub status: EnclaveStatus,
}

/// What the pallet announces.
#[derive(Clone, Copy, Debug, PartialEq, Eq, Structural)]
pub enum Event {
    ProviderEnrolled(AccountId),
    EnclaveRequestCreated(RequestId),
    EnclaveRequestAcknowledged(RequestId),
    EnclaveRequestProcessed { request_id: RequestId, handle: AccountId, outcome: Outcome },
    EnclaveCreated { user: AccountId, handler: AccountId, enclave_port: u32 },
    EnclaveStatusUpdated(EnclaveStatus),
    IntializeDeployment,
    DeploymentCompleted,
}

/// Why the pallet refuses a call.
#[derive(Clone, Copy, Debug, PartialEq, Eq, Structural)]
pub enum Error {
    NoneValue,
    StorageOverflow,
    NotAProvider,
    AlreadyAProvider,
    NotAuthorizedHandler,
    RequestNotFound,
    EnclaveNotFound,
}

/// A request as the contracts see it: the script as a sequence of bytes.
pub struct RequestView {
    pub user: AccountId,
    pub handler: Option<AccountId>,
    pub action: EnclaveAction,
    pub script: Option<Seq<u8>>,
}

/// An acknowledged request as the contracts see it.
pub struct AcknowledgedView {
    pub request: RequestView,
    pub start_block: BlockNumber,
    pub handler: AccountId,
}

/// The bytes of an optional script.
pub open spec fn script_view(script: Option<Vec<u8>>) -> Option<Seq<u8>> {
    match script {
        Some(bytes) => Some(bytes@),
        None => None,
    }
}

impl View for EnclaveRequest {
    type V = RequestView;

    open spec fn view(&self) -> RequestView {
        RequestView {
            user: self.user,
            handler: self.handler,
            action: self.params.action,
            script: script_view(self.params.script),
        }
    }
}

impl View for AcknowledgedRequest {
    type V = AcknowledgedView;

    open spec fn view(&self) -> AcknowledgedView {
        AcknowledgedView { request: self.request@, start_block: self.start_block, handler: self.handler }
    }
}

impl EnclaveRequestParam {
    pub fn new(action: EnclaveAction, script: Option<Vec<u8>>) -> (param: Self)
        ensures
            param.action == action,
            param.script == script,
    {
        EnclaveRequestParam { action, script }
    }
}

impl EnclaveInfo {
    pub fn new(provider: AccountId, user: AccountId, status: EnclaveStatus) -> (info: Self)
        ensures
            info == (EnclaveInfo { provider, user, status }),
    {
        EnclaveInfo { provider, user, status }
    }

    pub fn status(&self) -> (status: &EnclaveStatus)
        ensures
            *status == self.status,
    {
        &self.status
    }
}

/// A copy of an optional script, byte for byte.
fn copy_script(script: &Option<Vec<u8>>) -> (copy: Option<Vec<u8>>)
    ensures
        script_view(copy) == script_view(*script),
{
    match script {
        Some(bytes) => {
            let copy = bytes.clone();
            assert(copy@ =~= bytes@);
            Some(copy)
        },
        None => None,
    }
}

/// The storage of the pallet and the events it has deposited, as the contracts see them.
#[verifier::ext_equal]
pub struct EnclaveState {
    pub request_counter: u64,
    pub providers: Set<AccountId>,
    pub requests: Map<RequestId, RequestView>,
    pub acknowledged: Map<RequestId, AcknowledgedView>,
    pub enclaves: Map<AccountId, EnclaveInfo>,
    pub block_number: BlockNumber,
    pub events: Seq<Event>,
}

/// The storage of the pallet, the current block, and the events deposited so far.
pub struct Pallet {
    request_counter: u64,
    providers: HashMap<AccountId, Provider>,
    enclave_requests: HashMap<RequestId, EnclaveRequest>,
    acknowledged_requests: HashMap<RequestId, AcknowledgedRequest>,
    enclaves: HashMap<AccountId, EnclaveInfo>,
    block_number: BlockNumber,
    events: Vec<Event>,
}

impl View for Pallet {
    type V = EnclaveState;

    closed spec fn view(&self) -> EnclaveState {
        EnclaveState {
            request_counter: self.request_counter,
            providers: self.providers@.dom(),
            requests: self.enclave_requests@.map_values(|r: EnclaveRequest| r@),
            acknowledged: self.acknowledged_requests@.map_values(|a: AcknowledgedRequest| a@),
            enclaves: self.enclaves@,
            block_number: self.block_number,
            events: self.events@,
        }
    }
}

/// A call of this pallet that a node signs and submits.
#[derive(Clone, Copy, Debug, PartialEq, Eq, Structural)]
pub enum Call {
    AcknowledgeEnclaveRequest { request_id: RequestId },
    ProcessEnclaveRequest { request_id: RequestId, outcome: Outcome },
}

/// A call and the local account that signs it.
#[derive(Clone, Copy, Debug, PartialEq, Eq, Structural)]
pub struct SignedCall {
    pub signer: AccountId,
    pub call: Call,
}

/// What the off-chain worker of a node does.
#[derive(Clone, Copy, Debug, PartialEq, Eq, Structural)]
pub enum OffchainAction {
    /// Submit this signed call.
    Submit(SignedCall),
    /// Have the host create an enclave.
    CreateEnclave,
    /// Have the host set up an enclave with the script of the acknowledged
    /// request `request_id`; if that succeeds, submit `then`.
    SetupEnclave { request_id: RequestId, then: SignedCall },
}

/// The first of the `local` accounts that is a provider.
pub open spec fn first_provider(local: Seq<AccountId>, providers: Set<AccountId>) -> Option<AccountId>
    decreases local.len(),
{
    if local.len() == 0 {
        None
    } else if providers.contains(local[0]) {
        Some(local[0])
    } else {
        first_provider(local.drop_first(), providers)
    }
}

/// The local account that may acknowledge request `request_id`: for a
/// request to create an enclave, the first local provider, provided the
/// request names no other handler; for any other request, the handler it
/// names, if that account is local.
pub open spec fn request_signer(s: EnclaveState, request_id: RequestId, local: Seq<AccountId>) -> Option<AccountId> {
    if !s.requests.contains_key(request_id) {
        None
    } else {
        let request = s.requests[request_id];
        if request.action == EnclaveAction::CreateEnclave {
            match first_provider(local, s.providers) {
                Some(account) => if request.handler is None || request.handler == Some(account) {
                    Some(account)
                } else {
                    None
                },
                None => None,
            }
        } else {
            match request.handler {
                Some(handler) => if local.contains(handler) {
                    Some(handler)
                } else {
                    None
                },
                None => None,
            }
        }
    }
}

/// The local account that handles the acknowledged request `request_id`, if it is local.
pub open spec fn acknowledged_signer(s: EnclaveState, request_id: RequestId, local: Seq<AccountId>) -> Option<AccountId> {
    if s.acknowledged.contains_key(request_id) && local.contains(s.acknowledged[request_id].handler) {
        Some(s.acknowledged[request_id].handler)
    } else {
        None
    }
}

/// What a node does when request `request_id` has just been created: the
/// local account that may take it on acknowledges it.
pub open spec fn created_call(s: EnclaveState, request_id: RequestId, local: Seq<AccountId>) -> Option<SignedCall> {
    match request_signer(s, request_id, local) {
        Some(signer) => Some(SignedCall { signer, call: Call::AcknowledgeEnclaveRequest { request_id } }),
        None => None,
    }
}

/// What a node does when request `request_id` has just been acknowledged by
/// one of its accounts: create the enclave, or set it up and report so.
pub open spec fn acknowledged_action(s: EnclaveState, request_id: RequestId, local: Seq<AccountId>) -> Option<
    OffchainAction,
> {
    match acknowledged_signer(s, request_id, local) {
        Some(signer) => match s.acknowledged[request_id].request.action {
            EnclaveAction::CreateEnclave => Some(OffchainAction::CreateEnclave),
            EnclaveAction::SetupEnclave => Some(
                OffchainAction::SetupEnclave {
                    request_id,
                    then: SignedCall {
                        signer,
                        call: Call::ProcessEnclaveRequest { request_id, outcome: Outcome::EnclaveSetupCompleted },
                    },
                },
            ),
            _ => None,
        },
        None => None,
    }
}

/// The calls that report the enclaves authorized for pending requests: for
/// each pending (request, enclave account), in order, when the request is
/// acknowledged by a local account and creates an enclave.
pub open spec fn pending_calls(s: EnclaveState, pending: Seq<(RequestId, AccountId)>, local: Seq<AccountId>) -> Seq<
    SignedCall,
>
    decreases pending.len(),
{
    if pending.len() == 0 {
        Seq::empty()
    } else {
        let rest = pending_calls(s, pending.drop_last(), local);
        let (request_id, account) = pending.last();
        match acknowledged_signer(s, request_id, local) {
            Some(signer) => if s.acknowledged[request_id].request.action == EnclaveAction::CreateEnclave {
                rest.push(
                    SignedCall {
                        signer,
                        call: Call::ProcessEnclaveRequest {
                            request_id,
                            outcome: Outcome::EnclaveCreated { handle: account },
                        },
                    },
                )
            } else {
                rest
            },
            None => rest,
        }
    }
}

/// What the off-chain worker does for the events of a block, in order.
pub open spec fn event_actions(s: EnclaveState, events: Seq<Event>, local: Seq<AccountId>) -> Seq<OffchainAction>
    decreases events.len(),
{
    if events.len() == 0 {
        Seq::empty()
    } else {
        let rest = event_actions(s, events.drop_last(), local);
        match events.last() {
            Event::EnclaveRequestCreated(id) => match created_call(s, id, local) {
                Some(call) => rest.push(OffchainAction::Submit(call)),
                None => rest,
            },
            Event::EnclaveRequestAcknowledged(id) => match acknowledged_action(s, id, local) {
                Some(action) => rest.push(action),
                None => rest,
            },
            _ => rest,
        }
    }
}

/// The request id that follows `counter`, wrapping around at the end of the range.
pub open spec fn next_id(counter: u64) -> u64 {
    if counter == u64::MAX {
        0
    } else {
        (counter + 1) as u64
    }
}

/// The storage after `who` acknowledged request `request_id` at the current block.
pub open spec fn acknowledge_effect(s: EnclaveState, who: AccountId, request_id: RequestId) -> EnclaveState {
    EnclaveState {
        requests: s.requests.remove(request_id),
        acknowledged: s.acknowledged.insert(
            request_id,
            AcknowledgedView { request: s.requests[request_id], start_block: s.block_number, handler: who },
        ),
        events: s.events.push(Event::EnclaveRequestAcknowledged(request_id)),
        ..s
    }
}

/// The storage after `who` processed the acknowledged request `request_id`
/// with `outcome`: a created enclave is recorded as pending and a request to
/// set it up is made, addressed to the enclave's account; a completed set-up
/// makes the handler's enclave active; the acknowledged request is dropped
/// and the processing is announced.
pub open spec fn process_effect(
    s: EnclaveState,
    who: AccountId,
    request_id: RequestId,
    outcome: Outcome,
) -> EnclaveState {
    let ack = s.acknowledged[request_id];
    let base = EnclaveState { acknowledged: s.acknowledged.remove(request_id), ..s };
    let after = match (ack.request.action, outcome) {
        (EnclaveAction::CreateEnclave, Outcome::EnclaveCreated { handle }) => {
            let id = next_id(s.request_counter);
            EnclaveState {
                enclaves: base.enclaves.insert(
                    handle,
                    EnclaveInfo { provider: ack.handler, user: ack.request.user, status: EnclaveStatus::Pending },
                ),
                request_counter: id,
                requests: base.requests.insert(
                    id,
                    RequestView {
                        user: who,
                        handler: Some(handle),
                        action: EnclaveAction::SetupEnclave,
                        script: ack.request.script,
                    },
                ),
                events: base.events.push(Event::EnclaveRequestCreated(id)),
                ..base
            }
        },
        (EnclaveAction::SetupEnclave, Outcome::EnclaveSetupCompleted) => if base.enclaves.contains_key(who) {
            EnclaveState {
                enclaves: base.enclaves.insert(
                    who,
                    EnclaveInfo { status: EnclaveStatus::Active, ..base.enclaves[who] },
                ),
                ..base
            }
        } else {
            base
        },
        _ => base,
    };
    EnclaveState {
        events: after.events.push(Event::EnclaveRequestProcessed { request_id, handle: who, outcome }),
        ..after
    }
}

/// Once a request is acknowledged it is no longer open: it moves, unchanged,
/// to the acknowledged requests under its handler, so acknowledging it again
/// is refused as not found.
pub proof fn law_acknowledgement_moves_the_request(s: EnclaveState, who: AccountId, request_id: RequestId)
    requires
        s.requests.contains_key(request_id),
    ensures
        !acknowledge_effect(s, who, request_id).requests.contains_key(request_id),
        acknowledge_effect(s, who, request_id).acknowledged.contains_key(request_id),
        acknowledge_effect(s, who, request_id).acknowledged[request_id].request == s.requests[request_id],
        acknowledge_effect(s, who, request_id).acknowledged[request_id].handler == who,
{
}

/// Processing consumes the acknowledged request, so it cannot be processed twice.
pub proof fn law_processing_consumes_the_request(
    s: EnclaveState,
    who: AccountId,
    request_id: RequestId,
    outcome: Outcome,
)
    requires
        s.acknowledged.contains_key(request_id),
    ensures
        !process_effect(s, who, request_id, outcome).acknowledged.contains_key(request_id),
{
}

/// An enclave created for a request is recorded as pending, provided by the
/// handler for the user who asked, and a request to set it up is addressed to it.
pub proof fn law_created_enclave_awaits_setup(s: EnclaveState, who: AccountId, request_id: RequestId, handle: AccountId)
    requires
        s.acknowledged.contains_key(request_id),
        s.acknowledged[request_id].request.action == EnclaveAction::CreateEnclave,
    ensures
        ({
            let t = process_effect(s, who, request_id, Outcome::EnclaveCreated { handle });
            let id = next_id(s.request_counter);
            &&& t.enclaves[handle] == (EnclaveInfo {
                provider: s.acknowledged[request_id].handler,
                user: s.acknowledged[request_id].request.user,
                status: EnclaveStatus::Pending,
            })
            &&& t.requests.contains_key(id)
            &&& t.requests[id].handler == Some(handle)
            &&& t.requests[id].action == EnclaveAction::SetupEnclave
            &&& t.requests[id].script == s.acknowledged[request_id].request.script
        }),
{
}

/// The acknowledgement that a node submits for a new request is one that
/// the pallet accepts: the request is open, the signer is the handler it
/// names (if any), and the signer is a provider when an enclave is to be created.
pub proof fn law_submitted_acknowledgement_is_accepted(s: EnclaveState, request_id: RequestId, local: Seq<AccountId>)
    requires
        created_call(s, request_id, local) is Some,
    ensures
        ({
            let signer = created_call(s, request_id, local)->0.signer;
            &&& s.requests.contains_key(request_id)
            &&& s.requests[request_id].handler is None || s.requests[request_id].handler == Some(signer)
            &&& s.requests[request_id].action == EnclaveAction::CreateEnclave ==> s.providers.contains(signer)
            &&& local.contains(signer)
        }),
{
    let request = s.requests[request_id];
    if request.action == EnclaveAction::CreateEnclave {
        lemma_first_provider(local, s.providers);
    }
}

/// The first local provider is a local account and a provider.
pub proof fn lemma_first_provider(local: Seq<AccountId>, providers: Set<AccountId>)
    ensures
        first_provider(local, providers) matches Some(a) ==> local.contains(a) && providers.contains(a),
    decreases local.len(),
{
    if local.len() > 0 && !providers.contains(local[0]) {
        lemma_first_provider(local.drop_first(), providers);
        if let Some(a) = first_provider(local.drop_first(), providers) {
            let i = choose|i: int| 0 <= i < local.drop_first().len() && local.drop_first()[i] == a;
            assert(local[i + 1] == a);
        }
    } else if local.len() > 0 {
        assert(local.contains(local[0]));
    }
}

/// The report that a node submits after setting up an enclave is one that
/// the pallet accepts: the request is acknowledged, its handler signs, and
/// it does not create an enclave.
pub proof fn law_submitted_setup_report_is_accepted(s: EnclaveState, request_id: RequestId, local: Seq<AccountId>)
    requires
        acknowledged_action(s, request_id, local) matches Some(OffchainAction::SetupEnclave { then, .. }),
    ensures
        acknowledged_action(s, request_id, local) matches Some(OffchainAction::SetupEnclave { then, .. }) ==> {
            &&& s.acknowledged.contains_key(request_id)
            &&& s.acknowledged[request_id].handler == then.signer
            &&& s.acknowledged[request_id].request.action != EnclaveAction::CreateEnclave
            &&& then.call == (Call::ProcessEnclaveRequest { request_id, outcome: Outcome::EnclaveSetupCompleted })
        },
{
}

/// Completing the set-up of an enclave makes the handler's enclave active.
pub proof fn law_completed_setup_activates_enclave(s: EnclaveState, who: AccountId, request_id: RequestId)
    requires
        s.acknowledged.contains_key(request_id),
        s.acknowledged[request_id].request.action == EnclaveAction::SetupEnclave,
        s.enclaves.contains_key(who),
    ensures
        process_effect(s, who, request_id, Outcome::EnclaveSetupCompleted).enclaves[who] == (EnclaveInfo {
            status: EnclaveStatus::Active,
            ..s.enclaves[who]
        }),
{
}

/// A node acts on the acknowledgement of a request that one of its
/// accounts handles: for a request to create an enclave it has the host
/// create the enclave; for a request to set one up it has the host set it
/// up with the request's script and then reports the set-up, signed by the
/// handler.
pub proof fn law_local_acknowledgement_is_acted_on(s: EnclaveState, request_id: RequestId, local: Seq<AccountId>)
    requires
        s.acknowledged.contains_key(request_id),
        local.contains(s.acknowledged[request_id].handler),
    ensures
        s.acknowledged[request_id].request.action == EnclaveAction::CreateEnclave ==> event_actions(
            s,
            seq![Event::EnclaveRequestAcknowledged(request_id)],
            local,
        ) == seq![OffchainAction::CreateEnclave],
        s.acknowledged[request_id].request.action == EnclaveAction::SetupEnclave ==> event_actions(
            s,
            seq![Event::EnclaveRequestAcknowledged(request_id)],
            local,
        ) == seq![
            OffchainAction::SetupEnclave {
                request_id,
                then: SignedCall {
                    signer: s.acknowledged[request_id].handler,
                    call: Call::ProcessEnclaveRequest { request_id, outcome: Outcome::EnclaveSetupCompleted },
                },
            },
        ],
{
    let events = seq![Event::EnclaveRequestAcknowledged(request_id)];
    assert(events.drop_last() =~= Seq::<Event>::empty());
    assert(events.last() == Event::EnclaveRequestAcknowledged(request_id));
    assert(event_actions(s, Seq::<Event>::empty(), local) =~= Seq::<OffchainAction>::empty());
    let action = acknowledged_action(s, request_id, local);
    if action is Some {
        assert(event_actions(s, events, local) =~= seq![action->0]);
    }
}

/// Acting on the events of a block acts on each event in turn: the actions
/// for the events followed by one more event are the actions for the events
/// followed by the actions for that event alone.
pub proof fn law_events_are_acted_on_in_order(s: EnclaveState, events: Seq<Event>, event: Event, local: Seq<AccountId>)
    ensures
        event_actions(s, events.push(event), local) == event_actions(s, events, local) + event_actions(
            s,
            seq![event],
            local,
        ),
{
    let single = seq![event];
    assert(events.push(event).drop_last() =~= events);
    assert(events.push(event).last() == event);
    assert(single.drop_last() =~= Seq::<Event>::empty());
    assert(single.last() == event);
    assert(event_actions(s, Seq::<Event>::empty(), local) =~= Seq::<OffchainAction>::empty());
    let before = event_actions(s, events, local);
    let one = event_actions(s, single, local);
    match event {
        Event::EnclaveRequestCreated(id) => match created_call(s, id, local) {
            Some(call) => {
                assert(one =~= seq![OffchainAction::Submit(call)]);
                assert(before.push(OffchainAction::Submit(call)) =~= before + one);
            },
            None => {
                assert(one =~= Seq::<OffchainAction>::empty());
                assert(before =~= before + one);
            },
        },
        Event::EnclaveRequestAcknowledged(id) => match acknowledged_action(s, id, local) {
            Some(action) => {
                assert(one =~= seq![action]);
                assert(before.push(action) =~= before + one);
            },
            None => {
                assert(one =~= Seq::<OffchainAction>::empty());
                assert(before =~= before + one);
            },
        },
        _ => {
            assert(one =~= Seq::<OffchainAction>::empty());
            assert(before =~= before + one);
        },
    }
}

/// Processing the creation of an enclave moves the request counter on to
/// the id of the set-up request it stores, so that id is not handed out
/// again: the next request gets the id after it.
pub proof fn law_setup_request_takes_the_next_id(
    s: EnclaveState,
    who: AccountId,
    request_id: RequestId,
    handle: AccountId,
)
    requires
        s.acknowledged.contains_key(request_id),
        s.acknowledged[request_id].request.action == EnclaveAction::CreateEnclave,
    ensures
        ({
            let t = process_effect(s, who, request_id, Outcome::EnclaveCreated { handle });
            &&& t.request_counter == (if s.request_counter == u64::MAX {
                0u64
            } else {
                (s.request_counter + 1) as u64
            })
            &&& t.requests.contains_key(t.request_counter)
            &&& t.requests[t.request_counter].handler == Some(handle)
            &&& t.requests[t.request_counter].action == EnclaveAction::SetupEnclave
        }),
{
}

/// Every pending (request, enclave account) pair whose request one of the
/// node's accounts acknowledged, and which asks to create an enclave, is
/// reported with a call of its own, signed by the handler, after the calls
/// for the pairs before it; any other pair adds no call.
pub proof fn law_each_pending_pair_is_reported(
    s: EnclaveState,
    pending: Seq<(RequestId, AccountId)>,
    request_id: RequestId,
    account: AccountId,
    local: Seq<AccountId>,
)
    ensures
        s.acknowledged.contains_key(request_id) && local.contains(s.acknowledged[request_id].handler)
            && s.acknowledged[request_id].request.action == EnclaveAction::CreateEnclave ==> pending_calls(
            s,
            pending.push((request_id, account)),
            local,
        ) == pending_calls(s, pending, local).push(
            SignedCall {
                signer: s.acknowledged[request_id].handler,
                call: Call::ProcessEnclaveRequest { request_id, outcome: Outcome::EnclaveCreated { handle: account } },
            },
        ),
        !(s.acknowledged.contains_key(request_id) && local.contains(s.acknowledged[request_id].handler)
            && s.acknowledged[request_id].request.action == EnclaveAction::CreateEnclave) ==> pending_calls(
            s,
            pending.push((request_id, account)),
            local,
        ) == pending_calls(s, pending, local),
{
    assert(pending.push((request_id, account)).drop_last() =~= pending);
}

/// When every pending pair qualifies, there is one call per pair, in the
/// order of the pairs.
pub proof fn law_qualifying_pairs_are_all_reported(
    s: EnclaveState,
    pending: Seq<(RequestId, AccountId)>,
    local: Seq<AccountId>,
)
    requires
        forall|i: int|
            0 <= i < pending.len() ==> {
                &&& s.acknowledged.contains_key(#[trigger] pending[i].0)
                &&& local.contains(s.acknowledged[pending[i].0].handler)
                &&& s.acknowledged[pending[i].0].request.action == EnclaveAction::CreateEnclave
            },
    ensures
        pending_calls(s, pending, local).len() == pending.len(),
        forall|i: int|
            0 <= i < pending.len() ==> #[trigger] pending_calls(s, pending, local)[i] == (SignedCall {
                signer: s.acknowledged[pending[i].0].handler,
                call: Call::ProcessEnclaveRequest {
                    request_id: pending[i].0,
                    outcome: Outcome::EnclaveCreated { handle: pending[i].1 },
                },
            }),
    decreases pending.len(),
{
    if pending.len() > 0 {
        let rest = pending.drop_last();
        assert forall|i: int| 0 <= i < rest.len() implies {
            &&& s.acknowledged.contains_key(#[trigger] rest[i].0)
            &&& local.contains(s.acknowledged[rest[i].0].handler)
            &&& s.acknowledged[rest[i].0].request.action == EnclaveAction::CreateEnclave
        } by {
            assert(rest[i] == pending[i]);
        }
        law_qualifying_pairs_are_all_reported(s, rest, local);
        let last = pending.last();
        assert(s.acknowledged.contains_key(pending[pending.len() - 1].0));
        law_each_pending_pair_is_reported(s, rest, last.0, last.1, local);
        assert(rest.push(last) =~= pending);
        assert forall|i: int| 0 <= i < pending.len() implies #[trigger] pending_calls(s, pending, local)[i] == (SignedCall {
            signer: s.acknowledged[pending[i].0].handler,
            call: Call::ProcessEnclaveRequest {
                request_id: pending[i].0,
                outcome: Outcome::EnclaveCreated { handle: pending[i].1 },
            },
        }) by {
            if i < rest.len() {
                assert(rest[i] == pending[i]);
                assert(pending_calls(s, rest, local)[i] == pending_calls(s, pending, local)[i]);
            }
        }
    }
}

impl Pallet {
    /// A pallet with empty storage at block `block_number`.
    pub fn new(block_number: BlockNumber) -> (pallet: Self)
        ensures
            pallet@ == (EnclaveState {
                request_counter: 0,
                providers: Set::empty(),
                requests: Map::empty(),
                acknowledged: Map::empty(),
                enclaves: Map::empty(),
                block_number,
                events: Seq::empty(),
            }),
    {
        let pallet = Pallet {
            request_counter: 0,
            providers: HashMap::new(),
            enclave_requests: HashMap::new(),
            acknowledged_requests: HashMap::new(),
            enclaves: HashMap::new(),
            block_number,
            events: Vec::new(),
        };
        assert(pallet@.providers =~= Set::empty());
        assert(pallet@.requests =~= Map::empty());
        assert(pallet@.acknowledged =~= Map::empty());
        pallet
    }

    /// Moves the chain to block `block_number`.
    pub fn set_block_number(&mut self, block_number: BlockNumber)
        ensures
            final(self)@ == (EnclaveState { block_number, ..old(self)@ }),
    {
        self.block_number = block_number;
    }

    /// The events deposited so far, oldest first.
    pub fn events(&self) -> (events: &Vec<Event>)
        ensures
            events@ == self@.events,
    {
        &self.events
    }

    /// Forgets the events deposited so far.
    pub fn reset_events(&mut self)
        ensures
            final(self)@ == (EnclaveState { events: Seq::empty(), ..old(self)@ }),
    {
        self.events = Vec::new();
    }

    /// The id of the last request created.
    pub fn request_counter(&self) -> (counter: u64)
        ensures
            counter == self@.request_counter,
    {
        self.request_counter
    }

    /// The provider record of `who`, if `who` is enrolled.
    pub fn providers(&self, who: AccountId) -> (provider: Option<Provider>)
        ensures
            provider is Some <==> self@.providers.contains(who),
    {
        match self.providers.get(&who) {
            Some(p) => Some(*p),
            None => None,
        }
    }

    /// The enclave reachable as `handle`, if there is one.
    pub fn enclaves(&self, handle: AccountId) -> (info: Option<EnclaveInfo>)
        ensures
            info == (if self@.enclaves.contains_key(handle) {
                Some(self@.enclaves[handle])
            } else {
                None
            }),
    {
        match self.enclaves.get(&handle) {
            Some(info) => Some(*info),
            None => None,
        }
    }

    /// Writes an enclave record straight into storage.
    pub fn insert_enclave(&mut self, handle: AccountId, info: EnclaveInfo)
        ensures
            final(self)@ == (EnclaveState { enclaves: old(self)@.enclaves.insert(handle, info), ..old(self)@ }),
    {
        self.enclaves.insert(handle, info);
    }

    /// Advances the request counter and returns the new id.
    fn next_request_id(&mut self) -> (id: u64)
        ensures
            id == next_id(old(self)@.request_counter),
            final(self)@ == (EnclaveState { request_counter: id, ..old(self)@ }),
    {
        let next_request = self.request_counter.wrapping_add(1);
        self.request_counter = next_request;
        next_request
    }

    /// Enrolls the signer as a provider.
    pub fn enroll_as_provider(&mut self, origin: Origin) -> (result: Result<(), DispatchError<Error>>)
        ensures
            match origin {
                Origin::Signed(who) => if old(self)@.providers.contains(who) {
                    &&& result == Err::<(), DispatchError<Error>>(DispatchError::Module(Error::AlreadyAProvider))
                    &&& final(self)@ == old(self)@
                } else {
                    &&& result is Ok
                    &&& final(self)@ == (EnclaveState {
                        providers: old(self)@.providers.insert(who),
                        events: old(self)@.events.push(Event::ProviderEnrolled(who)),
                        ..old(self)@
                    })
                },
                _ => result == Err::<(), DispatchError<Error>>(DispatchError::BadOrigin) && final(self)@ == old(self)@,
            },
    {
        let who = ensure_signed(origin)?;
        if self.providers.contains_key(&who) {
            return Err(DispatchError::Module(Error::AlreadyAProvider));
        }
        self.providers.insert(who, Provider {});
        self.events.push(Event::ProviderEnrolled(who));
        assert(self@.providers =~= old(self)@.providers.insert(who));
        Ok(())
    }

    /// Records a new request by `who` under the next id.
    fn store_request(&mut self, who: AccountId, handler: Option<AccountId>, params: EnclaveRequestParam) -> (id: RequestId)
        ensures
            id == next_id(old(self)@.request_counter),
            final(self)@ == (EnclaveState {
                request_counter: id,
                requests: old(self)@.requests.insert(id, (EnclaveRequest { user: who, handler, params })@),
                events: old(self)@.events.push(Event::EnclaveRequestCreated(id)),
                ..old(self)@
            }),
    {
        let request_id = self.next_request_id();
        let request = EnclaveRequest { user: who, handler, params };
        let ghost view = request@;
        self.enclave_requests.insert(request_id, request);
        self.events.push(Event::EnclaveRequestCreated(request_id));
        assert(self@.requests =~= old(self)@.requests.insert(request_id, view));
        request_id
    }

    /// Creates a request by the signer, to be handled by `handler` if given,
    /// under the next request id.
    pub fn create_enclave_request(
        &mut self,
        origin: Origin,
        handler: Option<AccountId>,
        params: EnclaveRequestParam,
    ) -> (result: Result<(), DispatchError<Error>>)
        ensures
            match origin {
                Origin::Signed(who) => {
                    let id = next_id(old(self)@.request_counter);
                    &&& result is Ok
                    &&& final(self)@ == (EnclaveState {
                        request_counter: id,
                        requests: old(self)@.requests.insert(id, (EnclaveRequest { user: who, handler, params })@),
                        events: old(self)@.events.push(Event::EnclaveRequestCreated(id)),
                        ..old(self)@
                    })
                },
                _ => result == Err::<(), DispatchError<Error>>(DispatchError::BadOrigin) && final(self)@ == old(self)@,
            },
    {
        let who = ensure_signed(origin)?;
        self.store_request(who, handler, params);
        Ok(())
    }

    /// The signer takes on request `request_id`: it must be the named handler,
    /// if there is one, and a provider when the request creates an enclave.
    pub fn acknowledge_enclave_request(&mut self, origin: Origin, request_id: RequestId) -> (result: Result<
        (),
        DispatchError<Error>,
    >)
        ensures
            match origin {
                Origin::Signed(who) => {
                    let s = old(self)@;
                    if !s.requests.contains_key(request_id) {
                        result == Err::<(), DispatchError<Error>>(DispatchError::Module(Error::RequestNotFound))
                            && final(self)@ == s
                    } else if s.requests[request_id].handler is Some && s.requests[request_id].handler
                        != Some(who) {
                        result == Err::<(), DispatchError<Error>>(
                            DispatchError::Module(Error::NotAuthorizedHandler),
                        ) && final(self)@ == s
                    } else if s.requests[request_id].action == EnclaveAction::CreateEnclave
                        && !s.providers.contains(who) {
                        result == Err::<(), DispatchError<Error>>(DispatchError::Module(Error::NotAProvider))
                            && final(self)@ == s
                    } else {
                        result is Ok && final(self)@ == acknowledge_effect(s, who, request_id)
                    }
                },
                _ => result == Err::<(), DispatchError<Error>>(DispatchError::BadOrigin) && final(self)@ == old(self)@,
            },
    {
        let who = ensure_signed(origin)?;
        match self.enclave_requests.get(&request_id) {
            None => {
                return Err(DispatchError::Module(Error::RequestNotFound));
            },
            Some(request) => {
                match request.handler {
                    Some(handler) => {
                        if handler != who {
                            return Err(DispatchError::Module(Error::NotAuthorizedHandler));
                        }
                    },
                    None => {},
                }
                if let EnclaveAction::CreateEnclave = request.params.action {
                    if !self.providers.contains_key(&who) {
                        return Err(DispatchError::Module(Error::NotAProvider));
                    }
                }
            },
        }
        let ghost s = self@;
        let request = self.enclave_requests.remove(&request_id).unwrap();
        let acknowledged_request = AcknowledgedRequest { request, start_block: self.block_number, handler: who };
        let ghost view = acknowledged_request@;
        self.acknowledged_requests.insert(request_id, acknowledged_request);
        self.events.push(Event::EnclaveRequestAcknowledged(request_id));
        assert(self@.requests =~= s.requests.remove(request_id));
        assert(self@.acknowledged =~= s.acknowledged.insert(request_id, view));
        Ok(())
    }

    /// The handler of acknowledged request `request_id` reports `outcome`;
    /// creating an enclave is for providers only.
    pub fn process_enclave_request(&mut self, origin: Origin, request_id: RequestId, outcome: Outcome) -> (result:
        Result<(), DispatchError<Error>>)
        ensures
            match origin {
                Origin::Signed(who) => {
                    let s = old(self)@;
                    if !s.acknowledged.contains_key(request_id) {
                        result == Err::<(), DispatchError<Error>>(DispatchError::Module(Error::RequestNotFound))
                            && final(self)@ == s
                    } else if s.acknowledged[request_id].handler != who {
                        result == Err::<(), DispatchError<Error>>(
                            DispatchError::Module(Error::NotAuthorizedHandler),
                        ) && final(self)@ == s
                    } else if s.acknowledged[request_id].request.action == EnclaveAction::CreateEnclave
                        && !s.providers.contains(who) {
                        result == Err::<(), DispatchError<Error>>(DispatchError::Module(Error::NotAProvider))
                            && final(self)@ == s
                    } else {
                        result is Ok && final(self)@ == process_effect(s, who, request_id, outcome)
                    }
                },
                _ => result == Err::<(), DispatchError<Error>>(DispatchError::BadOrigin) && final(self)@ == old(self)@,
            },
    {
        let who = ensure_signed(origin)?;
        let ghost s = self@;
        let action = match self.acknowledged_requests.get(&request_id) {
            None => {
                return Err(DispatchError::Module(Error::RequestNotFound));
            },
            Some(acknowledged_request) => {
                if acknowledged_request.handler != who {
                    return Err(DispatchError::Module(Error::NotAuthorizedHandler));
                }
                acknowledged_request.request.params.action
            },
        };
        if let EnclaveAction::CreateEnclave = action {
            if !self.providers.contains_key(&who) {
                return Err(DispatchError::Module(Error::NotAProvider));
            }
        }
        let acknowledged_request = self.acknowledged_requests.remove(&request_id).unwrap();
        assert(self@.acknowledged =~= s.acknowledged.remove(request_id));
        let ghost base = self@;
        match (action, outcome) {
            (EnclaveAction::CreateEnclave, Outcome::EnclaveCreated { handle }) => {
                let enclave_info = EnclaveInfo {
                    provider: acknowledged_request.handler,
                    user: acknowledged_request.request.user,
                    status: EnclaveStatus::Pending,
                };
                self.enclaves.insert(handle, enclave_info);
                let script = copy_script(&acknowledged_request.request.params.script);
                self.store_request(
                    who,
                    Some(handle),
                    EnclaveRequestParam { action: EnclaveAction::SetupEnclave, script },
                );
            },
            (EnclaveAction::SetupEnclave, Outcome::EnclaveSetupCompleted) => {
                match self.enclaves.get(&who) {
                    Some(info) => {
                        let updated = EnclaveInfo { status: EnclaveStatus::Active, ..*info };
                        self.enclaves.insert(who, updated);
                    },
                    None => {},
                }
            },
            _ => {},
        }
        self.events.push(Event::EnclaveRequestProcessed { request_id, handle: who, outcome });
        assert(self@ =~= process_effect(s, who, request_id, outcome));
        Ok(())
    }

    /// The signer sets the status of its own enclave.
    pub fn set_enclave_status(&mut self, origin: Origin, status: EnclaveStatus) -> (result: Result<
        (),
        DispatchError<Error>,
    >)
        ensures
            match origin {
                Origin::Signed(who) => if !old(self)@.enclaves.contains_key(who) {
                    &&& result == Err::<(), DispatchError<Error>>(DispatchError::Module(Error::EnclaveNotFound))
                    &&& final(self)@ == old(self)@
                } else {
                    &&& result is Ok
                    &&& final(self)@ == (EnclaveState {
                        enclaves: old(self)@.enclaves.insert(
                            who,
                            EnclaveInfo { status, ..old(self)@.enclaves[who] },
                        ),
                        events: old(self)@.events.push(Event::EnclaveStatusUpdated(status)),
                        ..old(self)@
                    })
                },
                _ => result == Err::<(), DispatchError<Error>>(DispatchError::BadOrigin) && final(self)@ == old(self)@,
            },
    {
        let who = ensure_signed(origin)?;
        match self.enclaves.get(&who) {
            None => Err(DispatchError::Module(Error::EnclaveNotFound)),
            Some(info) => {
                let updated = EnclaveInfo { status, ..*info };
                self.enclaves.insert(who, updated);
                self.events.push(Event::EnclaveStatusUpdated(status));
                Ok(())
            },
        }
    }

    /// The first of the `local` accounts that is a provider.
    fn find_provider(&self, local: &[AccountId]) -> (account: Option<AccountId>)
        ensures
            account == first_provider(local@, self@.providers),
    {
        let mut i: usize = 0;
        assert(local@.subrange(0, local@.len() as int) =~= local@);
        while i < local.len()
            invariant
                i <= local@.len(),
                first_provider(local@, self@.providers) == first_provider(
                    local@.subrange(i as int, local@.len() as int),
                    self@.providers,
                ),
            decreases local@.len() - i,
        {
            let account = local[i];
            assert(local@.subrange(i as int, local@.len() as int).drop_first() =~= local@.subrange(
                i + 1,
                local@.len() as int,
            ));
            if self.providers.contains_key(&account) {
                return Some(account);
            }
            i += 1;
        }
        None
    }

    /// Whether `account` is one of the `local` accounts.
    fn is_local(local: &[AccountId], account: AccountId) -> (found: bool)
        ensures
            found == local@.contains(account),
    {
        let mut i: usize = 0;
        while i < local.len()
            invariant
                i <= local@.len(),
                forall|j: int| 0 <= j < i ==> local@[j] != account,
            decreases local@.len() - i,
        {
            if local[i] == account {
                assert(local@[i as int] == account);
                return true;
            }
            i += 1;
        }
        false
    }

    /// The local account that may acknowledge request `request_id`, if any.
    pub fn request_with_authorization(&self, request_id: RequestId, local: &[AccountId]) -> (signer: Option<AccountId>)
        ensures
            signer == request_signer(self@, request_id, local@),
    {
        match self.enclave_requests.get(&request_id) {
            None => None,
            Some(request) => {
                if let EnclaveAction::CreateEnclave = request.params.action {
                    match self.find_provider(local) {
                        Some(account) => {
                            match request.handler {
                                None => Some(account),
                                Some(handler) => if handler == account {
                                    Some(account)
                                } else {
                                    None
                                },
                            }
                        },
                        None => None,
                    }
                } else {
                    match request.handler {
                        Some(handler) => if Self::is_local(local, handler) {
                            Some(handler)
                        } else {
                            None
                        },
                        None => None,
                    }
                }
            },
        }
    }

    /// The local account that handles the acknowledged request `request_id`, if any.
    pub fn acknowledged_request_with_authorization(&self, request_id: RequestId, local: &[AccountId]) -> (signer:
        Option<AccountId>)
        ensures
            signer == acknowledged_signer(self@, request_id, local@),
    {
        match self.acknowledged_requests.get(&request_id) {
            None => None,
            Some(acknowledged_request) => {
                if Self::is_local(local, acknowledged_request.handler) {
                    Some(acknowledged_request.handler)
                } else {
                    None
                }
            },
        }
    }

    /// The call a node submits when request `request_id` has been created.
    pub fn handle_enclave_request_created(&self, request_id: RequestId, local: &[AccountId]) -> (call: Option<
        SignedCall,
    >)
        ensures
            call == created_call(self@, request_id, local@),
    {
        match self.request_with_authorization(request_id, local) {
            Some(signer) => Some(SignedCall { signer, call: Call::AcknowledgeEnclaveRequest { request_id } }),
            None => None,
        }
    }

    /// What a node does when request `request_id` has been acknowledged.
    pub fn handle_enclave_request_acknowledged(&self, request_id: RequestId, local: &[AccountId]) -> (action:
        Option<OffchainAction>)
        ensures
            action == acknowledged_action(self@, request_id, local@),
    {
        match self.acknowledged_request_with_authorization(request_id, local) {
            None => None,
            Some(signer) => {
                let acknowledged_request = self.acknowledged_requests.get(&request_id).unwrap();
                match acknowledged_request.request.params.action {
                    EnclaveAction::CreateEnclave => Some(OffchainAction::CreateEnclave),
                    EnclaveAction::SetupEnclave => Some(
                        OffchainAction::SetupEnclave {
                            request_id,
                            then: SignedCall {
                                signer,
                                call: Call::ProcessEnclaveRequest {
                                    request_id,
                                    outcome: Outcome::EnclaveSetupCompleted,
                                },
                            },
                        },
                    ),
                    _ => None,
                }
            },
        }
    }

    /// The script of the acknowledged request `request_id`, if there is one.
    pub fn acknowledged_script(&self, request_id: RequestId) -> (script: Option<Vec<u8>>)
        ensures
            match script {
                Some(bytes) => self@.acknowledged.contains_key(request_id)
                    && self@.acknowledged[request_id].request.script == Some(bytes@),
                None => !self@.acknowledged.contains_key(request_id)
                    || self@.acknowledged[request_id].request.script is None,
            },
    {
        match self.acknowledged_requests.get(&request_id) {
            None => None,
            Some(acknowledged_request) => copy_script(&acknowledged_request.request.params.script),
        }
    }

    /// The calls that report the enclaves authorized for the `pending`
    /// (request, enclave account) pairs; every pending pair is consumed.
    pub fn process_pending_authorized_conduit_nodes(
        &self,
        pending: &[(RequestId, AccountId)],
        local: &[AccountId],
    ) -> (calls: Vec<SignedCall>)
        ensures
            calls@ == pending_calls(self@, pending@, local@),
    {
        let mut calls: Vec<SignedCall> = Vec::new();
        let mut i: usize = 0;
        while i < pending.len()
            invariant
                i <= pending@.len(),
                calls@ == pending_calls(self@, pending@.subrange(0, i as int), local@),
            decreases pending@.len() - i,
        {
            let (request_id, account) = pending[i];
            assert(pending@.subrange(0, i + 1).drop_last() =~= pending@.subrange(0, i as int));
            match self.acknowledged_request_with_authorization(request_id, local) {
                Some(signer) => {
                    let acknowledged_request = self.acknowledged_requests.get(&request_id).unwrap();
                    if let EnclaveAction::CreateEnclave = acknowledged_request.request.params.action {
                        calls.push(
                            SignedCall {
                                signer,
                                call: Call::ProcessEnclaveRequest {
                                    request_id,
                                    outcome: Outcome::EnclaveCreated { handle: account },
                                },
                            },
                        );
                    }
                },
                None => {},
            }
            i += 1;
        }
        assert(pending@.subrange(0, pending@.len() as int) =~= pending@);
        calls
    }

    /// What the off-chain worker of a node does in a block: report the
    /// enclaves authorized for the pending requests, then act on the events
    /// of the block, in order.
    pub fn offchain_worker(
        &self,
        events: &[Event],
        pending: &[(RequestId, AccountId)],
        local: &[AccountId],
    ) -> (actions: Vec<OffchainAction>)
        ensures
            actions@ == pending_calls(self@, pending@, local@).map_values(|c: SignedCall| OffchainAction::Submit(c))
                + event_actions(self@, events@, local@),
    {
        let calls = self.process_pending_authorized_conduit_nodes(pending, local);
        let mut actions: Vec<OffchainAction> = Vec::new();
        let mut i: usize = 0;
        while i < calls.len()
            invariant
                i <= calls@.len(),
                actions@ =~= calls@.subrange(0, i as int).map_values(|c: SignedCall| OffchainAction::Submit(c)),
            decreases calls@.len() - i,
        {
            actions.push(OffchainAction::Submit(calls[i]));
            i += 1;
        }
        assert(calls@.subrange(0, calls@.len() as int) =~= calls@);
        let ghost submitted = actions@;
        let mut j: usize = 0;
        while j < events.len()
            invariant
                j <= events@.len(),
                actions@ == submitted + event_actions(self@, events@.subrange(0, j as int), local@),
            decreases events@.len() - j,
        {
            assert(events@.subrange(0, j + 1).drop_last() =~= events@.subrange(0, j as int));
            match events[j] {
                Event::EnclaveRequestCreated(id) => {
                    match self.handle_enclave_request_created(id, local) {
                        Some(call) => actions.push(OffchainAction::Submit(call)),
                        None => {},
                    }
                },
                Event::EnclaveRequestAcknowledged(id) => {
                    match self.handle_enclave_request_acknowledged(id, local) {
                        Some(action) => actions.push(action),
                        None => {},
                    }
                },
                _ => {},
            }
            j += 1;
        }
        assert(events@.subrange(0, events@.len() as int) =~= events@);
        actions
    }
}

} // verus!
