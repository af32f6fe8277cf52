//! A pallet that keeps balances of a custom token: native currency is
//! exchanged for tokens, and tokens are transferred between accounts.
use crate::frame::{ensure_signed, AccountId, DispatchError, Origin};
use std::collections::HashMap;
use vstd::prelude::*;

verus! {

broadcast use vstd::std_specs::hash::group_hash_axioms;

/// The price of one token in native currency.
pub const TOKEN_VALUE: u32 = 2;

/// Why the pallet refuses a call.
#[derive(Clone, Copy, Debug, PartialEq, Eq, Structural)]
pub enum Error {
    NoSufficientBalance,
    NoneValue,
}

/// What the pallet announces.
#[derive(Clone, Copy, Debug, PartialEq, Eq, Structural)]
pub enum Event {
    Balance { amount: u32 },
    TokenTransferred { from: AccountId, to: AccountId, amount: u32 },
}

/// The storage of the pallet and the events it has deposited, as the contracts see them.
#[verifier::ext_equal]
pub struct TokenState {
    pub balances: Map<AccountId, u32>,
    pub events: Seq<Event>,
}

/// The token balances and the events deposited so far.
pub struct Pallet {
    balance_store: HashMap<AccountId, u32>,
    events: Vec<Event>,
}

impl View for Pallet {
    type V = TokenState;

    closed spec fn view(&self) -> TokenState {
        TokenState { balances: self.balance_store@, events: self.events@ }
    }
}

/// The sum of all balances.
pub open spec fn total_supply(balances: Map<AccountId, u32>) -> int
    decreases balances.dom().len(),
    when balances.dom().finite()
{
    if balances.dom().len() == 0 {
        0
    } else {
        let account = balances.dom().choose();
        balances[account] + total_supply(balances.remove(account))
    }
}

/// The token balance of `who`: zero when it has none.
pub open spec fn token_balance(balances: Map<AccountId, u32>, who: AccountId) -> u32 {
    if balances.contains_key(who) {
        balances[who]
    } else {
        0
    }
}

/// The balances after `amount` tokens moved from `from` to `to`.
pub open spec fn transferred(balances: Map<AccountId, u32>, from: AccountId, to: AccountId, amount: u32) -> Map<
    AccountId,
    u32,
> {
    let debited = balances.insert(from, (balances[from] - amount) as u32);
    if debited.contains_key(to) {
        debited.insert(to, (debited[to] + amount) as u32)
    } else {
        debited.insert(to, amount)
    }
}

/// Taking any one account out of the balances takes exactly its balance out of the supply.
pub proof fn lemma_total_supply_remove(balances: Map<AccountId, u32>, account: AccountId)
    requires
        balances.dom().finite(),
        balances.contains_key(account),
    ensures
        total_supply(balances) == balances[account] + total_supply(balances.remove(account)),
    decreases balances.dom().len(),
{
    let chosen = balances.dom().choose();
    assert(balances.dom().contains(account));
    if chosen != account {
        let without_chosen = balances.remove(chosen);
        let without_account = balances.remove(account);
        lemma_total_supply_remove(without_chosen, account);
        lemma_total_supply_remove(without_account, chosen);
        assert(without_chosen.remove(account) =~= without_account.remove(chosen));
    }
}

/// Setting the balance of an account changes the supply by the difference.
pub proof fn lemma_total_supply_insert(balances: Map<AccountId, u32>, account: AccountId, value: u32)
    requires
        balances.dom().finite(),
    ensures
        total_supply(balances.insert(account, value)) == total_supply(balances) + value - (if balances.contains_key(
            account,
        ) {
            balances[account] as int
        } else {
            0
        }),
{
    let updated = balances.insert(account, value);
    lemma_total_supply_remove(updated, account);
    if balances.contains_key(account) {
        lemma_total_supply_remove(balances, account);
        assert(updated.remove(account) =~= balances.remove(account));
    } else {
        assert(updated.remove(account) =~= balances);
    }
}

/// A transfer that the pallet carries out neither creates nor destroys tokens.
pub proof fn law_transfer_conserves_supply(
    balances: Map<AccountId, u32>,
    from: AccountId,
    to: AccountId,
    amount: u32,
)
    requires
        balances.dom().finite(),
        balances.contains_key(from),
        amount <= balances[from],
        from != to && balances.contains_key(to) ==> balances[to] + amount <= u32::MAX,
    ensures
        total_supply(transferred(balances, from, to, amount)) == total_supply(balances),
{
    let debited = balances.insert(from, (balances[from] - amount) as u32);
    lemma_total_supply_insert(balances, from, (balances[from] - amount) as u32);
    if debited.contains_key(to) {
        lemma_total_supply_insert(debited, to, (debited[to] + amount) as u32);
    } else {
        lemma_total_supply_insert(debited, to, amount);
    }
}

/// An exchange adds exactly the tokens bought to the supply; tokens held
/// before are kept.
pub proof fn law_exchange_adds_the_bought_tokens(balances: Map<AccountId, u32>, owner: AccountId, amount: u32)
    requires
        balances.dom().finite(),
        token_balance(balances, owner) + amount <= u32::MAX,
    ensures
        total_supply(balances.insert(owner, (token_balance(balances, owner) + amount) as u32)) == total_supply(
            balances,
        ) + amount,
{
    lemma_total_supply_insert(balances, owner, (token_balance(balances, owner) + amount) as u32);
}

impl Pallet {
    /// A pallet with no balances.
    pub fn new() -> (pallet: Self)
        ensures
            pallet@ == (TokenState { balances: Map::empty(), events: Seq::empty() }),
    {
        Pallet { balance_store: HashMap::new(), events: Vec::new() }
    }

    /// The events deposited so far, oldest first.
    pub fn events(&self) -> (events: &Vec<Event>)
        ensures
            events@ == self@.events,
    {
        &self.events
    }

    /// The stored balance of `who`, if there is one.
    pub fn balance_of(&self, who: AccountId) -> (balance: Option<u32>)
        ensures
            balance == (if self@.balances.contains_key(who) {
                Some(self@.balances[who])
            } else {
                None
            }),
    {
        match self.balance_store.get(&who) {
            Some(b) => Some(*b),
            None => None,
        }
    }

    /// The signer exchanges `amount * TOKEN_VALUE` of its native currency,
    /// of which it holds `native_balance`, for `amount` tokens: the native
    /// amount is taken from `native_balance` and the tokens are added to the
    /// signer's token balance (a signer without one starts from zero).
    pub fn exchange_native_to_custom_token(
        &mut self,
        origin: Origin,
        amount: u32,
        native_balance: &mut u128,
    ) -> (result: Result<(), DispatchError<Error>>)
        requires
            amount * TOKEN_VALUE <= u32::MAX,
            match origin {
                Origin::Signed(owner) => old(self)@.balances.contains_key(owner) ==> old(self)@.balances[owner] + amount
                    <= u32::MAX,
                _ => true,
            },
        ensures
            match origin {
                Origin::Signed(owner) => if *old(native_balance) < amount * TOKEN_VALUE {
                    &&& result == Err::<(), DispatchError<Error>>(DispatchError::Module(Error::NoSufficientBalance))
                    &&& final(self)@ == old(self)@
                    &&& *final(native_balance) == *old(native_balance)
                } else {
                    &&& result is Ok
                    &&& *final(native_balance) == *old(native_balance) - amount * TOKEN_VALUE
                    &&& final(self)@ == (TokenState {
                        balances: old(self)@.balances.insert(
                            owner,
                            (token_balance(old(self)@.balances, owner) + amount) as u32,
                        ),
                        ..old(self)@
                    })
                },
                _ => {
                    &&& result == Err::<(), DispatchError<Error>>(DispatchError::BadOrigin)
                    &&& final(self)@ == old(self)@
                    &&& *final(native_balance) == *old(native_balance)
                },
            },
    {
        let owner = ensure_signed(origin)?;
        let total_fee: u32 = amount * TOKEN_VALUE;
        if *native_balance < total_fee as u128 {
            return Err(DispatchError::Module(Error::NoSufficientBalance));
        }
        *native_balance = *native_balance - total_fee as u128;
        let held: u32 = match self.balance_store.get(&owner) {
            Some(balance) => *balance,
            None => 0,
        };
        self.balance_store.insert(owner, held + amount);
        Ok(())
    }

    /// The signer sends `amount` of its tokens to `dest`.
    pub fn my_transfer(&mut self, origin: Origin, dest: AccountId, amount: u32) -> (result: Result<
        (),
        DispatchError<Error>,
    >)
        requires
            match origin {
                Origin::Signed(owner) => owner != dest && old(self)@.balances.contains_key(owner)
                    && old(self)@.balances.contains_key(dest) && amount <= old(self)@.balances[owner]
                    ==> old(self)@.balances[dest] + amount <= u32::MAX,
                _ => true,
            },
        ensures
            match origin {
                Origin::Signed(owner) => if !old(self)@.balances.contains_key(owner) || old(self)@.balances[owner]
                    < amount {
                    &&& result == Err::<(), DispatchError<Error>>(DispatchError::Module(Error::NoSufficientBalance))
                    &&& final(self)@ == old(self)@
                } else {
                    &&& result is Ok
                    &&& final(self)@ == (TokenState {
                        balances: transferred(old(self)@.balances, owner, dest, amount),
                        events: old(self)@.events.push(Event::TokenTransferred { from: owner, to: dest, amount }),
                    })
                },
                _ => result == Err::<(), DispatchError<Error>>(DispatchError::BadOrigin) && final(self)@ == old(self)@,
            },
    {
        let owner = ensure_signed(origin)?;
        let balance = match self.balance_store.get(&owner) {
            Some(balance) => *balance,
            None => {
                return Err(DispatchError::Module(Error::NoSufficientBalance));
            },
        };
        if balance < amount {
            return Err(DispatchError::Module(Error::NoSufficientBalance));
        }
        self.balance_store.insert(owner, balance - amount);
        match self.balance_store.get(&dest) {
            Some(dest_balance) => {
                let credited = *dest_balance + amount;
                self.balance_store.insert(dest, credited);
            },
            None => {
                self.balance_store.insert(dest, amount);
            },
        }
        self.events.push(Event::TokenTransferred { from: owner, to: dest, amount });
        Ok(())
    }

    /// Announces the signer's balance, recording a zero balance if it had none.
    pub fn get_balance(&mut self, origin: Origin) -> (result: Result<(), DispatchError<Error>>)
        ensures
            match origin {
                Origin::Signed(owner) => if old(self)@.balances.contains_key(owner) {
                    &&& result is Ok
                    &&& final(self)@ == (TokenState {
                        events: old(self)@.events.push(Event::Balance { amount: old(self)@.balances[owner] }),
                        ..old(self)@
                    })
                } else {
                    &&& result is Ok
                    &&& final(self)@ == (TokenState {
                        balances: old(self)@.balances.insert(owner, 0),
                        events: old(self)@.events.push(Event::Balance { amount: 0 }),
                    })
                },
                _ => result == Err::<(), DispatchError<Error>>(DispatchError::BadOrigin) && final(self)@ == old(self)@,
            },
    {
        let owner = ensure_signed(origin)?;
        match self.balance_store.get(&owner) {
            Some(balance) => {
                let amount = *balance;
                self.events.push(Event::Balance { amount });
            },
            None => {
                self.events.push(Event::Balance { amount: 0 });
                self.balance_store.insert(owner, 0);
            },
        }
        Ok(())
    }
}

} // verus!
