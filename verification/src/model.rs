//! The registry as a mathematical value, and each call as a function from
//! the state before it to the state after it and the call's result.
//!
//! The executable registry is specified against this model: what a call does
//! to the registry is what the function of the same name does to its view.

use vstd::prelude::*;
use crate::dna::cross;
use crate::types::{AccountId, Balance, Error, Event, InsufficientFunds, KittyIndex};

verus! {

/// The state of the registry: the counter and three maps keyed by kitty
/// index. A kitty's DNA is held as its sequence of bytes.
pub struct State {
    /// The index handed out last, `None` before the first.
    pub count: Option<KittyIndex>,
    /// The DNA of each kitty.
    pub kitties: Map<KittyIndex, Seq<u8>>,
    /// The owner of each kitty.
    pub owner: Map<KittyIndex, AccountId>,
    /// The asking price of each kitty that is offered for sale.
    pub market: Map<KittyIndex, Balance>,
}

/// One call to the registry with all that it is given: for `Create` the DNA
/// and for `Breed` the selector that was drawn, for `Buy` the answer of the
/// currency ledger.
pub enum Call {
    /// `sender` creates a kitty with the DNA `dna`.
    Create { sender: AccountId, dna: Seq<u8> },
    /// `sender` hands kitty `kitty_id` over to `new_owner`.
    Transfer { sender: AccountId, new_owner: AccountId, kitty_id: KittyIndex },
    /// `sender` breeds a child of kitties `kitty_id_1` and `kitty_id_2`
    /// under `selector`.
    Breed { sender: AccountId, kitty_id_1: KittyIndex, kitty_id_2: KittyIndex, selector: Seq<u8> },
    /// `sender` asks `price` for kitty `kitty_id`, or with `None` withdraws
    /// it from the market.
    Market { sender: AccountId, kitty_id: KittyIndex, price: Option<Balance> },
    /// `sender` offers `offer` for kitty `kitty_id`, and the currency ledger
    /// answers `paid` when asked for the payment due.
    Buy {
        sender: AccountId,
        kitty_id: KittyIndex,
        offer: Balance,
        paid: Result<(), InsufficientFunds>,
    },
}

impl Call {
    /// A `Create` call brings a DNA of 16 bytes; the other calls bring
    /// nothing that could be malformed.
    pub open spec fn well_formed(self) -> bool {
        self matches Call::Create { dna, .. } ==> dna.len() == 16
    }
}

impl State {
    /// The empty registry: no index handed out, no kitty, nothing for sale.
    pub open spec fn init() -> State {
        State { count: None, kitties: Map::empty(), owner: Map::empty(), market: Map::empty() }
    }

    /// How many indices have been handed out.
    pub open spec fn allocated(self) -> nat {
        match self.count {
            None => 0,
            Some(c) => c as nat,
        }
    }

    /// The index that the next kitty gets: one more than the last, 1 for the
    /// first, and an error once the largest index has been handed out.
    pub open spec fn next_id(self) -> Result<KittyIndex, Error> {
        match self.count {
            None => Ok(1u32),
            Some(c) => if c == u32::MAX {
                Err(Error::KittiesCountOverflow)
            } else {
                Ok((c + 1) as u32)
            },
        }
    }

    /// The state with kitty `id` entered for `owner` and the counter moved
    /// to `id`.
    pub open spec fn add(self, owner: AccountId, id: KittyIndex, dna: Seq<u8>) -> State {
        State {
            count: Some(id),
            kitties: self.kitties.insert(id, dna),
            owner: self.owner.insert(id, owner),
            market: self.market,
        }
    }

    /// Creates a kitty with the given DNA for `sender`.
    pub open spec fn create(self, sender: AccountId, dna: Seq<u8>) -> (State, Result<
        KittyIndex,
        Error,
    >) {
        match self.next_id() {
            Err(e) => (self, Err(e)),
            Ok(id) => (self.add(sender, id, dna), Ok(id)),
        }
    }

    /// Whether `sender` may dispose of kitty `id`: the kitty must have an
    /// owner, and the owner must be `sender`.
    pub open spec fn check_owner(self, sender: AccountId, id: KittyIndex) -> Result<(), Error> {
        if !self.owner.contains_key(id) {
            Err(Error::InvalidKittyIndex)
        } else if self.owner[id] != sender {
            Err(Error::NotOwner)
        } else {
            Ok(())
        }
    }

    /// Hands kitty `id` over from `sender` to `new_owner`.
    pub open spec fn transfer(self, sender: AccountId, new_owner: AccountId, id: KittyIndex) -> (
        State,
        Result<(), Error>,
    ) {
        match self.check_owner(sender, id) {
            Err(e) => (self, Err(e)),
            Ok(_) => (State { owner: self.owner.insert(id, new_owner), ..self }, Ok(())),
        }
    }

    /// The DNA of a child of kitties `id_1` and `id_2` under `selector`.
    pub open spec fn breed_dna(self, selector: Seq<u8>, id_1: KittyIndex, id_2: KittyIndex) -> Result<
        Seq<u8>,
        Error,
    > {
        if id_1 == id_2 {
            Err(Error::SameParentIndex)
        } else if !self.kitties.contains_key(id_1) {
            Err(Error::InvalidKittyIndex)
        } else if !self.kitties.contains_key(id_2) {
            Err(Error::InvalidKittyIndex)
        } else {
            Ok(cross(selector, self.kitties[id_1], self.kitties[id_2]))
        }
    }

    /// Breeds a child of kitties `id_1` and `id_2` for `sender`.
    pub open spec fn breed(
        self,
        sender: AccountId,
        id_1: KittyIndex,
        id_2: KittyIndex,
        selector: Seq<u8>,
    ) -> (State, Result<KittyIndex, Error>) {
        match self.breed_dna(selector, id_1, id_2) {
            Err(e) => (self, Err(e)),
            Ok(dna) => self.create(sender, dna),
        }
    }

    /// Sets the asking price of kitty `id`, or with `None` withdraws it from
    /// the market.
    pub open spec fn market(self, sender: AccountId, id: KittyIndex, price: Option<Balance>) -> (
        State,
        Result<(), Error>,
    ) {
        match self.check_owner(sender, id) {
            Err(e) => (self, Err(e)),
            Ok(_) => match price {
                Some(p) => (State { market: self.market.insert(id, p), ..self }, Ok(())),
                None => (State { market: self.market.remove(id), ..self }, Ok(())),
            },
        }
    }

    /// What a buyer who offers `price` for kitty `id` has to pay, and to
    /// whom: the asking price, to the owner.
    pub open spec fn price_due(self, id: KittyIndex, price: Balance) -> Result<
        (AccountId, Balance),
        Error,
    > {
        if !self.owner.contains_key(id) {
            Err(Error::InvalidKittyIndex)
        } else if !self.market.contains_key(id) {
            Err(Error::InvalidMarketPrice)
        } else if price < self.market[id] {
            Err(Error::PriceTooLow)
        } else {
            Ok((self.owner[id], self.market[id]))
        }
    }

    /// Buys kitty `id` for `sender`, who offers `price`; `paid` is what the
    /// currency ledger answered when asked to make the payment due.
    pub open spec fn buy(
        self,
        sender: AccountId,
        id: KittyIndex,
        price: Balance,
        paid: Result<(), InsufficientFunds>,
    ) -> (State, Result<Balance, Error>) {
        match self.price_due(id, price) {
            Err(e) => (self, Err(e)),
            Ok(due) => match paid {
                Err(_) => (self, Err(Error::InsufficientFunds)),
                Ok(_) => (
                    State {
                        owner: self.owner.insert(id, sender),
                        market: self.market.remove(id),
                        ..self
                    },
                    Ok(due.1),
                ),
            },
        }
    }

    /// The state after `call`, and the event that it reports or the error
    /// that it fails with.
    pub open spec fn apply(self, call: Call) -> (State, Result<Event, Error>) {
        match call {
            Call::Create { sender, dna } => {
                let (next, res) = self.create(sender, dna);
                (
                    next,
                    match res {
                        Ok(id) => Ok(Event::KittyCreate(sender, id)),
                        Err(e) => Err(e),
                    },
                )
            },
            Call::Transfer { sender, new_owner, kitty_id } => {
                let (next, res) = self.transfer(sender, new_owner, kitty_id);
                (
                    next,
                    match res {
                        Ok(_) => Ok(Event::KittyTransfer(sender, new_owner, kitty_id)),
                        Err(e) => Err(e),
                    },
                )
            },
            Call::Breed { sender, kitty_id_1, kitty_id_2, selector } => {
                let (next, res) = self.breed(sender, kitty_id_1, kitty_id_2, selector);
                (
                    next,
                    match res {
                        Ok(id) => Ok(Event::KittyBreed(sender, id)),
                        Err(e) => Err(e),
                    },
                )
            },
            Call::Market { sender, kitty_id, price } => {
                let (next, res) = self.market(sender, kitty_id, price);
                (
                    next,
                    match res {
                        Ok(_) => Ok(Event::KittyMarket(sender, kitty_id, price)),
                        Err(e) => Err(e),
                    },
                )
            },
            Call::Buy { sender, kitty_id, offer, paid } => {
                let (next, res) = self.buy(sender, kitty_id, offer, paid);
                (
                    next,
                    match res {
                        Ok(kitty_price) => Ok(Event::KittyBuy(sender, kitty_id, kitty_price)),
                        Err(e) => Err(e),
                    },
                )
            },
        }
    }

    /// The state after the calls of `calls`, made one after the other.
    pub open spec fn run(self, calls: Seq<Call>) -> State
        decreases calls.len(),
    {
        if calls.len() == 0 {
            self
        } else {
            self.run(calls.drop_last()).apply(calls.last()).0
        }
    }

    /// The indices that the calls of `calls` hand out, in the order in which
    /// they do: one for each `Create` and each `Breed` that succeeds.
    pub open spec fn minted(self, calls: Seq<Call>) -> Seq<KittyIndex>
        decreases calls.len(),
    {
        if calls.len() == 0 {
            Seq::empty()
        } else {
            let before = self.minted(calls.drop_last());
            match self.run(calls.drop_last()).apply(calls.last()).1 {
                Ok(Event::KittyCreate(_, id)) => before.push(id),
                Ok(Event::KittyBreed(_, id)) => before.push(id),
                _ => before,
            }
        }
    }

    /// What holds of every registry that the calls can reach from the empty
    /// one: each kitty has an owner and each owner entry a kitty; only
    /// kitties that exist are for sale; every index in use was handed out by
    /// the counter; and every DNA has 16 bytes.
    pub open spec fn inv(self) -> bool {
        &&& self.kitties.dom() == self.owner.dom()
        &&& self.market.dom().subset_of(self.owner.dom())
        &&& forall|id: KittyIndex| #[trigger]
            self.owner.contains_key(id) ==> 1 <= id && id <= self.allocated()
        &&& forall|id: KittyIndex| #[trigger]
            self.kitties.contains_key(id) ==> self.kitties[id].len() == 16
    }
}

} // verus!
