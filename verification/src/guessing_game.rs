//! A pallet for a number guessing game: the superuser sets a target number
//! and players guess it.
use crate::frame::{ensure_root, ensure_signed, AccountId, DispatchError, Origin};
use vstd::prelude::*;

verus! {

/// What the pallet announces.
#[derive(Clone, Copy, Debug, PartialEq, Eq, Structural)]
pub enum Event {
    TargetNotSet,
    ExactNumber { who: AccountId, number: u32 },
    TargetNumberChanged,
    TargetNumberRemoved,
    GuessedNumber { who: AccountId, number: u32 },
}

/// Why the pallet refuses a call.
#[derive(Clone, Copy, Debug, PartialEq, Eq, Structural)]
pub enum Error {
    TargetNotSet,
    /// The guess is below the target.
    PredecessorNumber,
    /// The guess is above the target.
    SuccessorNumber,
    TooManyTurns,
}

/// The target number, if one is set, and the events deposited so far, as the contracts see them.
pub struct GameState {
    pub target: Option<u32>,
    pub events: Seq<Event>,
}

/// The target number, if one is set, and the events deposited so far.
pub struct Pallet {
    target_number: Option<u32>,
    events: Vec<Event>,
}

impl View for Pallet {
    type V = GameState;

    closed spec fn view(&self) -> GameState {
        GameState { target: self.target_number, events: self.events@ }
    }
}

/// What a guess of `number` by `origin` gives against `target`: refused when
/// no target is set, when the origin is not signed, or when the guess is
/// below or above the target.
pub open spec fn guess_result(target: Option<u32>, origin: Origin, number: u32) -> Result<(), DispatchError<Error>> {
    match target {
        None => Err(DispatchError::Module(Error::TargetNotSet)),
        Some(t) => match origin {
            Origin::Signed(_) => if number == t {
                Ok(())
            } else if number < t {
                Err(DispatchError::Module(Error::PredecessorNumber))
            } else {
                Err(DispatchError::Module(Error::SuccessorNumber))
            },
            _ => Err(DispatchError::BadOrigin),
        },
    }
}

/// A right guess is the one guess that wins, and it takes the target away,
/// so that the next guess finds no target.
pub proof fn law_only_the_target_wins(target: u32, who: AccountId, number: u32)
    ensures
        guess_result(Some(target), Origin::Signed(who), number) is Ok <==> number == target,
        guess_result(None, Origin::Signed(who), number) == Err::<(), DispatchError<Error>>(
            DispatchError::Module(Error::TargetNotSet),
        ),
{
}

impl Pallet {
    /// A game with no target.
    pub fn new() -> (pallet: Self)
        ensures
            pallet@.target is None,
            pallet@.events.len() == 0,
    {
        Pallet { target_number: None, events: Vec::new() }
    }

    /// The target number, if one is set.
    pub fn target_number(&self) -> (target: Option<u32>)
        ensures
            target == self@.target,
    {
        self.target_number
    }

    /// The events deposited so far, oldest first.
    pub fn events(&self) -> (events: &Vec<Event>)
        ensures
            events@ == self@.events,
    {
        &self.events
    }

    /// The superuser sets the target to `number`.
    pub fn set_target(&mut self, origin: Origin, number: u32) -> (result: Result<(), DispatchError<Error>>)
        ensures
            match origin {
                Origin::Root => result is Ok && final(self)@ == (GameState {
                    target: Some(number),
                    events: old(self)@.events.push(Event::TargetNumberChanged),
                }),
                _ => result == Err::<(), DispatchError<Error>>(DispatchError::BadOrigin) && final(self)@ == old(self)@,
            },
    {
        ensure_root(origin)?;
        self.events.push(Event::TargetNumberChanged);
        self.target_number = Some(number);
        Ok(())
    }

    /// The signer guesses `number`; a right guess takes the target away.
    pub fn check_with(&mut self, origin: Origin, number: u32) -> (result: Result<(), DispatchError<Error>>)
        ensures
            result == guess_result(old(self)@.target, origin, number),
            result is Ok ==> final(self)@ == (GameState {
                target: None,
                events: old(self)@.events + seq![
                    Event::GuessedNumber { who: origin->Signed_0, number },
                    Event::ExactNumber { who: origin->Signed_0, number },
                    Event::TargetNumberRemoved,
                ],
            }),
            result is Err ==> final(self)@ == old(self)@,
    {
        let target = match self.target_number {
            None => {
                return Err(DispatchError::Module(Error::TargetNotSet));
            },
            Some(target) => target,
        };
        let sender = ensure_signed(origin)?;
        if number == target {
            self.events.push(Event::GuessedNumber { who: sender, number });
            self.events.push(Event::ExactNumber { who: sender, number });
            self.target_number = None;
            self.events.push(Event::TargetNumberRemoved);
            assert(self.events@ =~= old(self).events@ + seq![
                Event::GuessedNumber { who: sender, number },
                Event::ExactNumber { who: sender, number },
                Event::TargetNumberRemoved,
            ]);
            Ok(())
        } else if number < target {
            Err(DispatchError::Module(Error::PredecessorNumber))
        } else {
            Err(DispatchError::Module(Error::SuccessorNumber))
        }
    }

    /// The superuser takes the target away.
    pub fn remove_target(&mut self, origin: Origin) -> (result: Result<(), DispatchError<Error>>)
        ensures
            match (origin, old(self)@.target) {
                (Origin::Root, Some(_)) => result is Ok && final(self)@ == (GameState {
                    target: None,
                    events: old(self)@.events.push(Event::TargetNumberRemoved),
                }),
                (Origin::Root, None) => result == Err::<(), DispatchError<Error>>(
                    DispatchError::Module(Error::TargetNotSet),
                ) && final(self)@ == old(self)@,
                _ => result == Err::<(), DispatchError<Error>>(DispatchError::BadOrigin) && final(self)@ == old(self)@,
            },
    {
        ensure_root(origin)?;
        if self.target_number.is_none() {
            return Err(DispatchError::Module(Error::TargetNotSet));
        }
        self.target_number = None;
        self.events.push(Event::TargetNumberRemoved);
        Ok(())
    }
}

} // verus!
