//! The registry itself: the counter, the kitties, their owners and the
//! market, with the calls that change them.

use std::collections::HashMap;
use vstd::prelude::*;
use crate::dna::{crossover, Dna};
use crate::laws::{lemma_apply_keeps_inv, lemma_create_keeps_inv};
use crate::model::{Call, State};
use crate::randomness::{random_dna, random_value, Randomness};
use crate::types::{AccountId, Balance, Error, Event, InsufficientFunds, Kitty, KittyIndex};

verus! {

broadcast use vstd::std_specs::hash::group_hash_axioms;

impl View for Kitty {
    type V = Seq<u8>;

    /// A kitty is its DNA, byte by byte.
    open spec fn view(&self) -> Seq<u8> {
        self.0@
    }
}

/// The registry of kitties and the market they are traded on.
///
/// The four fields are the whole state and are kept as they would be in a
/// key-value store: a single counter and three maps keyed by kitty index.
#[derive(Debug, PartialEq, Eq)]
pub struct Pallet {
    /// The index handed out last, `None` before the first.
    pub kitties_count: Option<KittyIndex>,
    /// Every kitty, by index.
    pub kitties: HashMap<KittyIndex, Kitty>,
    /// The owner of every kitty, by index.
    pub owner: HashMap<KittyIndex, AccountId>,
    /// The asking price of every kitty that is offered for sale, by index.
    pub kitties_market: HashMap<KittyIndex, Balance>,
}

impl View for Pallet {
    type V = State;

    open spec fn view(&self) -> State {
        State {
            count: self.kitties_count,
            kitties: self.kitties@.map_values(|k: Kitty| k@),
            owner: self.owner@,
            market: self.kitties_market@,
        }
    }
}

impl Clone for Pallet {
    /// A copy of the registry, entry for entry.
    fn clone(&self) -> (copy: Pallet)
        ensures
            copy@ == self@,
    {
        Pallet {
            kitties_count: self.kitties_count,
            kitties: self.kitties.clone(),
            owner: self.owner.clone(),
            kitties_market: self.kitties_market.clone(),
        }
    }
}

impl Pallet {
    /// The empty registry.
    pub fn new() -> (pallet: Pallet)
        ensures
            pallet@ == State::init(),
            pallet@.inv(),
    {
        let pallet = Pallet {
            kitties_count: None,
            kitties: HashMap::new(),
            owner: HashMap::new(),
            kitties_market: HashMap::new(),
        };
        assert(pallet@.kitties =~= Map::empty());
        pallet
    }

    /// The index handed out last, `None` before the first.
    pub fn kitties_count(&self) -> (count: Option<KittyIndex>)
        ensures
            count == self@.count,
    {
        self.kitties_count
    }

    /// The kitty with index `id`, if there is one.
    pub fn kitties(&self, id: KittyIndex) -> (kitty: Option<Kitty>)
        ensures
            kitty is Some <==> self@.kitties.contains_key(id),
            kitty matches Some(k) ==> k@ == self@.kitties[id],
    {
        match self.kitties.get(&id) {
            Some(k) => Some(*k),
            None => None,
        }
    }

    /// The owner of kitty `id`, if it has one.
    pub fn owner(&self, id: KittyIndex) -> (owner: Option<AccountId>)
        ensures
            owner == (if self@.owner.contains_key(id) {
                Some(self@.owner[id])
            } else {
                None
            }),
    {
        match self.owner.get(&id) {
            Some(o) => Some(*o),
            None => None,
        }
    }

    /// The asking price of kitty `id`, if it is offered for sale.
    pub fn kitties_market(&self, id: KittyIndex) -> (price: Option<Balance>)
        ensures
            price == (if self@.market.contains_key(id) {
                Some(self@.market[id])
            } else {
                None
            }),
    {
        match self.kitties_market.get(&id) {
            Some(p) => Some(*p),
            None => None,
        }
    }

    /// The index that the next kitty gets: one more than the last, 1 for the
    /// first. Fails with `KittiesCountOverflow` once the largest index has
    /// been handed out. The counter itself moves only when the kitty is
    /// entered.
    pub fn next_kitty_id(&self) -> (res: Result<KittyIndex, Error>)
        ensures
            res == self@.next_id(),
    {
        match self.kitties_count {
            Some(id) => {
                if id == u32::MAX {
                    return Err(Error::KittiesCountOverflow);
                }
                Ok(id + 1)
            },
            None => Ok(1),
        }
    }

    /// Enters kitty `kitty_id` with the given DNA for `owner` and moves the
    /// counter to `kitty_id`. Whatever stood under that index before is
    /// overwritten; `create` and `breed` call this with the index from
    /// `next_kitty_id`, which no kitty has yet.
    pub fn add_one_kitty(&mut self, owner: AccountId, kitty_id: KittyIndex, dna: Dna)
        ensures
            final(self)@ == old(self)@.add(owner, kitty_id, dna@),
            old(self)@.inv() && old(self)@.next_id() == Ok::<KittyIndex, Error>(kitty_id)
                ==> final(self)@.inv(),
    {
        proof {
            if old(self)@.inv() && old(self)@.next_id() == Ok::<KittyIndex, Error>(kitty_id) {
                lemma_create_keeps_inv(old(self)@, owner, dna@);
            }
        }
        self.kitties.insert(kitty_id, Kitty(dna));
        self.owner.insert(kitty_id, owner);
        self.kitties_count = Some(kitty_id);
        assert(self@.kitties =~= old(self)@.kitties.insert(kitty_id, dna@));
    }

    /// Enters a new kitty with the given DNA for `owner` under the next
    /// index, and returns the index. Fails with `KittiesCountOverflow` if
    /// no index is left.
    pub fn create_kitty(&mut self, owner: AccountId, dna: Dna) -> (res: Result<KittyIndex, Error>)
        ensures
            final(self)@ == old(self)@.create(owner, dna@).0,
            res == old(self)@.create(owner, dna@).1,
            old(self)@.inv() ==> final(self)@.inv(),
    {
        let kitty_id = match self.next_kitty_id() {
            Ok(id) => id,
            Err(e) => { return Err(e); },
        };
        self.add_one_kitty(owner, kitty_id, dna);
        Ok(kitty_id)
    }

    /// The DNA of a child of kitties `kitty_id_1` and `kitty_id_2`: bit by
    /// bit the first parent's where `selector` has a 1 and the second
    /// parent's where it has a 0. Fails with `SameParentIndex` if the two
    /// indices are equal, else with `InvalidKittyIndex` if either kitty does
    /// not exist.
    pub fn breed_dna(&self, selector: &Dna, kitty_id_1: KittyIndex, kitty_id_2: KittyIndex) -> (res:
        Result<Dna, Error>)
        ensures
            match self@.breed_dna(selector@, kitty_id_1, kitty_id_2) {
                Ok(dna) => res matches Ok(child) && child@ == dna,
                Err(e) => res == Err::<Dna, Error>(e),
            },
    {
        if kitty_id_1 == kitty_id_2 {
            return Err(Error::SameParentIndex);
        }
        let kitty_1 = match self.kitties.get(&kitty_id_1) {
            Some(k) => *k,
            None => { return Err(Error::InvalidKittyIndex); },
        };
        let kitty_2 = match self.kitties.get(&kitty_id_2) {
            Some(k) => *k,
            None => { return Err(Error::InvalidKittyIndex); },
        };
        Ok(crossover(selector, &kitty_1.0, &kitty_2.0))
    }

    /// Whether `sender` may dispose of kitty `kitty_id`. Fails with
    /// `InvalidKittyIndex` if the kitty has no owner, and with `NotOwner` if
    /// its owner is someone else.
    fn ensure_owner(&self, sender: AccountId, kitty_id: KittyIndex) -> (res: Result<(), Error>)
        ensures
            res == self@.check_owner(sender, kitty_id),
    {
        match self.owner.get(&kitty_id) {
            None => Err(Error::InvalidKittyIndex),
            Some(owner) => if *owner != sender {
                Err(Error::NotOwner)
            } else {
                Ok(())
            },
        }
    }

    /// Creates a kitty for `sender` with a DNA drawn from `randomness` and
    /// the call's index, and reports its index. Fails with
    /// `KittiesCountOverflow` if no index is left.
    pub fn create(
        &mut self,
        sender: AccountId,
        randomness: &Randomness,
        extrinsic_index: Option<u32>,
    ) -> (res: Result<Event, Error>)
        ensures
            (final(self)@, res) == old(self)@.apply(
                Call::Create { sender, dna: random_dna(*randomness, sender, extrinsic_index) },
            ),
            old(self)@.inv() ==> final(self)@.inv(),
    {
        let dna = random_value(randomness, sender, extrinsic_index);
        match self.create_kitty(sender, dna) {
            Ok(kitty_id) => Ok(Event::KittyCreate(sender, kitty_id)),
            Err(e) => Err(e),
        }
    }

    /// Hands kitty `kitty_id` over from `sender` to `new_owner`. Fails with
    /// `InvalidKittyIndex` if the kitty does not exist and with `NotOwner`
    /// if `sender` does not own it. The kitty's DNA and its asking price stay
    /// as they are.
    pub fn transfer(&mut self, sender: AccountId, new_owner: AccountId, kitty_id: KittyIndex) -> (res:
        Result<Event, Error>)
        ensures
            (final(self)@, res) == old(self)@.apply(Call::Transfer { sender, new_owner, kitty_id }),
            old(self)@.inv() ==> final(self)@.inv(),
    {
        proof {
            if old(self)@.inv() {
                lemma_apply_keeps_inv(old(self)@, Call::Transfer { sender, new_owner, kitty_id });
            }
        }
        match self.ensure_owner(sender, kitty_id) {
            Ok(_) => {},
            Err(e) => { return Err(e); },
        }
        self.owner.insert(kitty_id, new_owner);
        Ok(Event::KittyTransfer(sender, new_owner, kitty_id))
    }

    /// Breeds a child of kitties `kitty_id_1` and `kitty_id_2` for `sender`,
    /// under a selector drawn from `randomness` and the call's index, and
    /// reports the child's index. Fails with `SameParentIndex` if the two
    /// indices are equal, else with `InvalidKittyIndex` if either kitty does
    /// not exist, else with `KittiesCountOverflow` if no index is left.
    pub fn breed(
        &mut self,
        sender: AccountId,
        kitty_id_1: KittyIndex,
        kitty_id_2: KittyIndex,
        randomness: &Randomness,
        extrinsic_index: Option<u32>,
    ) -> (res: Result<Event, Error>)
        ensures
            (final(self)@, res) == old(self)@.apply(
                Call::Breed {
                    sender,
                    kitty_id_1,
                    kitty_id_2,
                    selector: random_dna(*randomness, sender, extrinsic_index),
                },
            ),
            old(self)@.inv() ==> final(self)@.inv(),
    {
        let selector = random_value(randomness, sender, extrinsic_index);
        let dna = match self.breed_dna(&selector, kitty_id_1, kitty_id_2) {
            Ok(dna) => dna,
            Err(e) => { return Err(e); },
        };
        match self.create_kitty(sender, dna) {
            Ok(kitty_id) => Ok(Event::KittyBreed(sender, kitty_id)),
            Err(e) => Err(e),
        }
    }

    /// Sets the asking price of kitty `kitty_id`, or with `None` withdraws
    /// it from the market. Fails with `InvalidKittyIndex` if the kitty does
    /// not exist and with `NotOwner` if `sender` does not own it.
    pub fn market(&mut self, sender: AccountId, kitty_id: KittyIndex, price: Option<Balance>) -> (res:
        Result<Event, Error>)
        ensures
            (final(self)@, res) == old(self)@.apply(Call::Market { sender, kitty_id, price }),
            old(self)@.inv() ==> final(self)@.inv(),
    {
        proof {
            if old(self)@.inv() {
                lemma_apply_keeps_inv(old(self)@, Call::Market { sender, kitty_id, price });
            }
        }
        match self.ensure_owner(sender, kitty_id) {
            Ok(_) => {},
            Err(e) => { return Err(e); },
        }
        match price {
            Some(p) => { self.kitties_market.insert(kitty_id, p); },
            None => { self.kitties_market.remove(&kitty_id); },
        }
        Ok(Event::KittyMarket(sender, kitty_id, price))
    }

    /// What a buyer who offers `price` for kitty `kitty_id` has to pay, and
    /// to whom: the asking price, to the owner. Fails with
    /// `InvalidKittyIndex` if the kitty has no owner, else with
    /// `InvalidMarketPrice` if it is not for sale, else with `PriceTooLow`
    /// if `price` is below the asking price.
    pub fn price_due(&self, kitty_id: KittyIndex, price: Balance) -> (res: Result<
        (AccountId, Balance),
        Error,
    >)
        ensures
            res == self@.price_due(kitty_id, price),
    {
        let owner = match self.owner.get(&kitty_id) {
            Some(o) => *o,
            None => { return Err(Error::InvalidKittyIndex); },
        };
        let kitty_price = match self.kitties_market.get(&kitty_id) {
            Some(p) => *p,
            None => { return Err(Error::InvalidMarketPrice); },
        };
        if price < kitty_price {
            return Err(Error::PriceTooLow);
        }
        Ok((owner, kitty_price))
    }

    /// Completes the purchase of kitty `kitty_id` by `sender`, who offered
    /// `price`, once the currency ledger has answered `paid` to the payment
    /// due. Fails as `price_due` does; else, if the ledger refused, with
    /// `InsufficientFunds`. Otherwise the kitty leaves the market and
    /// belongs to `sender`, and the price paid is returned.
    pub fn settle(
        &mut self,
        sender: AccountId,
        kitty_id: KittyIndex,
        price: Balance,
        paid: Result<(), InsufficientFunds>,
    ) -> (res: Result<Balance, Error>)
        ensures
            (final(self)@, res) == old(self)@.buy(sender, kitty_id, price, paid),
            old(self)@.inv() ==> final(self)@.inv(),
    {
        proof {
            if old(self)@.inv() {
                lemma_apply_keeps_inv(
                    old(self)@,
                    Call::Buy { sender, kitty_id, offer: price, paid },
                );
            }
        }
        let due = match self.price_due(kitty_id, price) {
            Ok(due) => due,
            Err(e) => { return Err(e); },
        };
        match paid {
            Ok(_) => {},
            Err(_) => { return Err(Error::InsufficientFunds); },
        }
        self.kitties_market.remove(&kitty_id);
        self.owner.insert(kitty_id, sender);
        Ok(due.1)
    }

    /// Buys kitty `kitty_id` for `sender`, who offers `price`. Once the
    /// offer is found good, `transfer` is called, once, to move the asking
    /// price from `sender` to the owner; the registry changes if and only if
    /// it answers `Ok`. Returns the price paid, which is the asking price.
    pub fn buy_kitty<F>(
        &mut self,
        sender: AccountId,
        kitty_id: KittyIndex,
        price: Balance,
        transfer: F,
    ) -> (res: Result<Balance, Error>) where
        F: FnOnce(AccountId, AccountId, Balance) -> Result<(), InsufficientFunds>,

        requires
            old(self)@.price_due(kitty_id, price) matches Ok(due) ==> call_requires(
                transfer,
                (sender, due.0, due.1),
            ),
        ensures
            match old(self)@.price_due(kitty_id, price) {
                Err(e) => res == Err::<Balance, Error>(e) && final(self)@ == old(self)@,
                Ok(due) => exists|paid: Result<(), InsufficientFunds>|
                    {
                        &&& #[trigger] call_ensures(transfer, (sender, due.0, due.1), paid)
                        &&& (final(self)@, res) == old(self)@.buy(sender, kitty_id, price, paid)
                    },
            },
            old(self)@.inv() ==> final(self)@.inv(),
    {
        let due = match self.price_due(kitty_id, price) {
            Ok(due) => due,
            Err(e) => { return Err(e); },
        };
        let paid = transfer(sender, due.0, due.1);
        self.settle(sender, kitty_id, price, paid)
    }

    /// Buys kitty `kitty_id` for `sender` as `buy_kitty` does, and reports
    /// the purchase.
    pub fn buy<F>(
        &mut self,
        sender: AccountId,
        kitty_id: KittyIndex,
        price: Balance,
        transfer: F,
    ) -> (res: Result<Event, Error>) where
        F: FnOnce(AccountId, AccountId, Balance) -> Result<(), InsufficientFunds>,

        requires
            old(self)@.price_due(kitty_id, price) matches Ok(due) ==> call_requires(
                transfer,
                (sender, due.0, due.1),
            ),
        ensures
            match old(self)@.price_due(kitty_id, price) {
                Err(e) => res == Err::<Event, Error>(e) && final(self)@ == old(self)@,
                Ok(due) => exists|paid: Result<(), InsufficientFunds>|
                    {
                        &&& #[trigger] call_ensures(transfer, (sender, due.0, due.1), paid)
                        &&& (final(self)@, res) == old(self)@.apply(
                            Call::Buy { sender, kitty_id, offer: price, paid },
                        )
                    },
            },
            old(self)@.inv() ==> final(self)@.inv(),
    {
        match self.buy_kitty(sender, kitty_id, price, transfer) {
            Ok(kitty_price) => Ok(Event::KittyBuy(sender, kitty_id, kitty_price)),
            Err(e) => Err(e),
        }
    }
}

} // verus!
