//! A pallet that stores the genesis arguments of an upcoming parachain.
use crate::frame::{ensure_signed, AccountId, DispatchError, Origin};
use blake2::Digest;
use vstd::prelude::*;

verus! {

/// The BLAKE2b digest, 32 bytes long, of `data`.
pub uninterp spec fn blake2_256(data: Seq<u8>) -> Seq<u8>;

/// Wraps `blake2::Blake2b::<U32>::digest`: the 32-byte BLAKE2b digest of `data`.
#[verifier::external_body]
fn blake2_256_digest(data: &[u8]) -> (digest: [u8; 32])
    ensures
        digest@ == blake2_256(data@),
{
    <blake2::Blake2b<blake2::digest::consts::U32> as Digest>::digest(data).into()
}

/// The code that validates the blocks of a parachain.
#[derive(Clone, Debug, PartialEq, Eq)]
pub struct ValidationCode(pub Vec<u8>);

/// The hash of a validation code.
#[derive(Clone, Copy, Debug, PartialEq, Eq, Hash)]
pub struct ValidationCodeHash(pub [u8; 32]);

impl ValidationCode {
    /// The BLAKE2b-256 hash of the code bytes.
    pub fn hash(&self) -> (hash: ValidationCodeHash)
        ensures
            hash.0@ == blake2_256(self.0@),
    {
        ValidationCodeHash(blake2_256_digest(self.0.as_slice()))
    }
}

/// What a parachain starts from.
#[derive(Clone, Debug, PartialEq, Eq)]
pub struct ParaGenesisArgs {
    pub validation_code: ValidationCode,
}

/// What the pallet announces.
#[derive(Clone, Copy, Debug, PartialEq, Eq, Structural)]
pub enum Event {
    Created(AccountId),
}

/// Why the pallet refuses a call.
#[derive(Clone, Copy, Debug, PartialEq, Eq, Structural)]
pub enum Error {
    ErrorOccurs,
    ParaAlreadyExists,
}

/// The scheduled genesis, as its code bytes, and the events deposited so far.
pub struct ParaState {
    pub upcoming: Option<Seq<u8>>,
    pub events: Seq<Event>,
}

/// The scheduled genesis and the events deposited so far.
pub struct Pallet {
    upcoming_paras_genesis: Option<ParaGenesisArgs>,
    events: Vec<Event>,
}

impl View for Pallet {
    type V = ParaState;

    closed spec fn view(&self) -> ParaState {
        ParaState {
            upcoming: match self.upcoming_paras_genesis {
                Some(genesis) => Some(genesis.validation_code.0@),
                None => None,
            },
            events: self.events@,
        }
    }
}

impl Pallet {
    /// A pallet with nothing scheduled.
    pub fn new() -> (pallet: Self)
        ensures
            pallet@.upcoming is None,
            pallet@.events.len() == 0,
    {
        Pallet { upcoming_paras_genesis: None, events: Vec::new() }
    }

    /// The scheduled genesis, if there is one.
    pub fn upcoming_paras_genesis(&self) -> (genesis: &Option<ParaGenesisArgs>)
        ensures
            match *genesis {
                Some(g) => self@.upcoming == Some(g.validation_code.0@),
                None => self@.upcoming is None,
            },
    {
        &self.upcoming_paras_genesis
    }

    /// The events deposited so far, oldest first.
    pub fn events(&self) -> (events: &Vec<Event>)
        ensures
            events@ == self@.events,
    {
        &self.events
    }

    /// The signer schedules `genesis`, replacing whatever was scheduled.
    pub fn sudo_schedule_para_initialize(&mut self, origin: Origin, genesis: ParaGenesisArgs) -> (result: Result<
        (),
        DispatchError<Error>,
    >)
        ensures
            match origin {
                Origin::Signed(who) => {
                    &&& result is Ok
                    &&& final(self)@.upcoming == Some(genesis.validation_code.0@)
                    &&& final(self)@.events == old(self)@.events.push(Event::Created(who))
                },
                _ => result == Err::<(), DispatchError<Error>>(DispatchError::BadOrigin) && final(self)@.upcoming
                    == old(self)@.upcoming && final(self)@.events == old(self)@.events,
            },
    {
        let who = ensure_signed(origin)?;
        self.upcoming_paras_genesis = Some(genesis);
        self.events.push(Event::Created(who));
        Ok(())
    }
}

} // verus!
