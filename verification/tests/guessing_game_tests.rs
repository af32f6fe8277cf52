use pocs::frame::{DispatchError, Origin};
use pocs::guessing_game::{Error, Event, Pallet};

#[test]
fn only_the_superuser_sets_the_target() {
    let mut pallet = Pallet::new();
    assert_eq!(pallet.set_target(Origin::Signed(1), 7), Err(DispatchError::BadOrigin));
    assert_eq!(pallet.target_number(), None);
    assert_eq!(pallet.set_target(Origin::Root, 7), Ok(()));
    assert_eq!(pallet.target_number(), Some(7));
    assert_eq!(pallet.events().last(), Some(&Event::TargetNumberChanged));
}

#[test]
fn a_guess_without_target_is_refused() {
    let mut pallet = Pallet::new();
    assert_eq!(pallet.check_with(Origin::Signed(1), 3), Err(DispatchError::Module(Error::TargetNotSet)));
}

#[test]
fn wrong_guesses_say_which_way_and_change_nothing() {
    let mut pallet = Pallet::new();
    pallet.set_target(Origin::Root, 42).unwrap();
    assert_eq!(pallet.check_with(Origin::Signed(1), 41), Err(DispatchError::Module(Error::PredecessorNumber)));
    assert_eq!(pallet.check_with(Origin::Signed(1), 43), Err(DispatchError::Module(Error::SuccessorNumber)));
    assert_eq!(pallet.check_with(Origin::Unsigned, 42), Err(DispatchError::BadOrigin));
    assert_eq!(pallet.target_number(), Some(42));
    assert_eq!(pallet.events().len(), 1);
}

#[test]
fn the_right_guess_wins_and_removes_the_target() {
    let mut pallet = Pallet::new();
    pallet.set_target(Origin::Root, 42).unwrap();
    assert_eq!(pallet.check_with(Origin::Signed(5), 42), Ok(()));
    assert_eq!(pallet.target_number(), None);
    assert_eq!(
        pallet.events()[1..].to_vec(),
        vec![
            Event::GuessedNumber { who: 5, number: 42 },
            Event::ExactNumber { who: 5, number: 42 },
            Event::TargetNumberRemoved,
        ]
    );
    assert_eq!(pallet.check_with(Origin::Signed(6), 42), Err(DispatchError::Module(Error::TargetNotSet)));
}

#[test]
fn removing_the_target() {
    let mut pallet = Pallet::new();
    assert_eq!(pallet.remove_target(Origin::Root), Err(DispatchError::Module(Error::TargetNotSet)));
    pallet.set_target(Origin::Root, 1).unwrap();
    assert_eq!(pallet.remove_target(Origin::Signed(1)), Err(DispatchError::BadOrigin));
    assert_eq!(pallet.remove_target(Origin::Root), Ok(()));
    assert_eq!(pallet.target_number(), None);
    assert_eq!(pallet.events().last(), Some(&Event::TargetNumberRemoved));
}
