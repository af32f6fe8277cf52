use blake2::digest::consts::U32;
use blake2::{Blake2b, Digest};
use pocs::frame::{DispatchError, Origin};
use pocs::para_genesis::{Event, ParaGenesisArgs, Pallet, ValidationCode, ValidationCodeHash};

#[test]
fn hash_of_empty_code() {
    let expected: [u8; 32] = [
        0x0e, 0x57, 0x51, 0xc0, 0x26, 0xe5, 0x43, 0xb2, 0xe8, 0xab, 0x2e, 0xb0, 0x60, 0x99, 0xda, 0xa1, 0xd1, 0xe5,
        0xdf, 0x47, 0x77, 0x8f, 0x77, 0x87, 0xfa, 0xab, 0x45, 0xcd, 0xf1, 0x2f, 0xe3, 0xa8,
    ];
    assert_eq!(ValidationCode(vec![]).hash(), ValidationCodeHash(expected));
}

#[test]
fn hash_is_the_blake2b_256_digest_of_the_code() {
    let code = vec![0u8, 97, 115, 109, 1, 0, 0, 0];
    let digest: [u8; 32] = Blake2b::<U32>::digest(&code).into();
    let hash = ValidationCode(code.clone()).hash();
    assert_eq!(hash, ValidationCodeHash(digest));
    assert_ne!(hash.0[..], code[..]);
    assert_ne!(ValidationCode(vec![1]).hash(), ValidationCode(vec![2]).hash());
}

#[test]
fn scheduling_a_genesis_stores_it() {
    let mut pallet = Pallet::new();
    let genesis = ParaGenesisArgs { validation_code: ValidationCode(vec![1, 2, 3]) };
    assert_eq!(pallet.sudo_schedule_para_initialize(Origin::Signed(4), genesis.clone()), Ok(()));
    assert_eq!(pallet.upcoming_paras_genesis(), &Some(genesis));
    assert_eq!(pallet.events().clone(), vec![Event::Created(4)]);
}

#[test]
fn scheduling_needs_a_signer() {
    let mut pallet = Pallet::new();
    let genesis = ParaGenesisArgs { validation_code: ValidationCode(vec![1]) };
    assert_eq!(pallet.sudo_schedule_para_initialize(Origin::Root, genesis), Err(DispatchError::BadOrigin));
    assert_eq!(pallet.upcoming_paras_genesis(), &None);
}
