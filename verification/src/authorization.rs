//! The node's record of enclave accounts authorized for acknowledged
//! requests, kept until the off-chain worker reports them.
use vstd::prelude::*;
use vstd::std_specs::btree::{key_obeys_cmp_spec, spec_btree_map_iter, increasing_seq};
use vstd::std_specs::iter::IteratorSpec;
use vstd::std_specs::cmp::OrdSpec;
use std::collections::BTreeMap;
use crate::frame::AccountId;
use crate::enclave::RequestId;

verus! {

broadcast use vstd::laws_cmp::group_laws_cmp, vstd::std_specs::btree::group_btree_axioms;

/// Keys strictly increasing along the listing.
pub open spec fn keys_increasing(entries: Seq<(RequestId, AccountId)>) -> bool {
    forall|i: int, j: int| 0 <= i < j < entries.len() ==> entries[i].0 < entries[j].0
}

/// `entries` lists exactly the map `m`, by increasing key.
pub open spec fn lists_map(entries: Seq<(RequestId, AccountId)>, m: Map<RequestId, AccountId>) -> bool {
    &&& keys_increasing(entries)
    &&& forall|i: int| 0 <= i < entries.len() ==> #[trigger] m.contains_key(entries[i].0) && m[entries[i].0] == entries[i].1
    &&& forall|k: RequestId| #[trigger] m.contains_key(k) ==> exists|i: int| 0 <= i < entries.len() && entries[i].0 == k
}

/// Records that `account` is the enclave authorized for request
/// `request_id`, replacing an earlier authorization for it.
pub fn authorize_node(pending: &mut BTreeMap<RequestId, AccountId>, account: AccountId, request_id: RequestId)
    ensures
        final(pending)@ == old(pending)@.insert(request_id, account),
{
    pending.insert(request_id, account);
}

/// The pending authorizations, by increasing request id.
pub fn pending_entries(pending: &BTreeMap<RequestId, AccountId>) -> (entries: Vec<(RequestId, AccountId)>)
    ensures
        lists_map(entries@, pending@),
{
    let mut entries: Vec<(RequestId, AccountId)> = Vec::new();
    proof {
        assert(key_obeys_cmp_spec::<RequestId>());
    }
    for kv in it: pending.iter()
        invariant
            it.seq() == spec_btree_map_iter(pending).remaining(),
            entries@.len() == it.index(),
            forall|i: int| 0 <= i < entries@.len() ==> entries@[i] == (*it.seq()[i].0, *it.seq()[i].1),
    {
        entries.push((*kv.0, *kv.1));
    }
    proof {
        let rem = spec_btree_map_iter(pending).remaining();
        assert(increasing_seq(rem.map_values(|kv: (&RequestId, &AccountId)| *kv.0)));
        assert forall|i: int, j: int| 0 <= i < j < entries@.len() implies entries@[i].0 < entries@[j].0 by {
            let keys = rem.map_values(|kv: (&RequestId, &AccountId)| *kv.0);
            assert(keys[i] == entries@[i].0);
            assert(keys[j] == entries@[j].0);
            assert(keys[i].cmp_spec(&keys[j]) is Less);
        }
        assert forall|k: RequestId| #[trigger] pending@.contains_key(k) implies exists|i: int|
            0 <= i < entries@.len() && entries@[i].0 == k by {
            assert(rem.contains((&k, &pending@[k])));
            let i = choose|i: int| 0 <= i < rem.len() && rem[i] == (&k, &pending@[k]);
            assert(entries@[i].0 == k);
        }
        assert forall|i: int| 0 <= i < entries@.len() implies #[trigger] pending@.contains_key(entries@[i].0)
            && pending@[entries@[i].0] == entries@[i].1 by {
            assert(pending@.contains_key(*rem[i].0));
        }
    }
    entries
}

/// Takes every pending authorization out of `pending` for reporting, by
/// increasing request id; `pending` is left empty.
pub fn take_pending(pending: &mut BTreeMap<RequestId, AccountId>) -> (entries: Vec<(RequestId, AccountId)>)
    ensures
        lists_map(entries@, old(pending)@),
        final(pending)@ == Map::<RequestId, AccountId>::empty(),
{
    let entries = pending_entries(pending);
    let mut i: usize = 0;
    while i < entries.len()
        invariant
            i <= entries@.len(),
            lists_map(entries@, old(pending)@),
            forall|k: RequestId| #[trigger] pending@.contains_key(k) ==> old(pending)@.contains_key(k),
            forall|j: int| 0 <= j < i ==> !pending@.contains_key(#[trigger] entries@[j].0),
        decreases entries@.len() - i,
    {
        let request_id = entries[i].0;
        pending.remove(&request_id);
        i += 1;
    }
    assert forall|k: RequestId| !pending@.contains_key(k) by {
        if pending@.contains_key(k) {
            assert(old(pending)@.contains_key(k));
            let j = choose|j: int| 0 <= j < entries@.len() && entries@[j].0 == k;
            assert(!pending@.contains_key(entries@[j].0));
        }
    }
    assert(pending@ =~= Map::<RequestId, AccountId>::empty());
    entries
}

/// The enclave account last authorized for a request is the one reported
/// for it, and each request is reported once.
pub proof fn law_authorization_is_reported(
    pending: Map<RequestId, AccountId>,
    account: AccountId,
    request_id: RequestId,
    entries: Seq<(RequestId, AccountId)>,
)
    requires
        lists_map(entries, pending.insert(request_id, account)),
    ensures
        exists|i: int| 0 <= i < entries.len() && entries[i] == (request_id, account),
        forall|i: int, j: int| 0 <= i < j < entries.len() ==> entries[i].0 != entries[j].0,
{
    assert(pending.insert(request_id, account).contains_key(request_id));
    let i = choose|i: int| 0 <= i < entries.len() && entries[i].0 == request_id;
    assert(pending.insert(request_id, account).contains_key(entries[i].0));
}

} // verus!
