//! What holds of the registry whatever calls are made: the invariants of its
//! state, and the laws that relate its calls.

use vstd::prelude::*;
use crate::dna::{cross, cross_byte};
use crate::model::{Call, State};
use crate::types::{AccountId, Balance, Error, Event, InsufficientFunds, KittyIndex};

verus! {

/// The empty registry satisfies the invariant.
pub proof fn lemma_init_inv()
    ensures
        State::init().inv(),
{
}

/// The index that the counter hands out is one more than the number handed
/// out so far, and no kitty has it yet.
pub proof fn lemma_next_id_is_fresh(s: State)
    requires
        s.inv(),
    ensures
        s.next_id() matches Ok(id) ==> id == s.allocated() + 1 && !s.kitties.contains_key(id)
            && !s.owner.contains_key(id) && !s.market.contains_key(id),
        s.next_id() is Err <==> s.count == Some(u32::MAX),
{
}

/// Every call keeps the invariant, whether it succeeds or fails.
pub proof fn lemma_apply_keeps_inv(s: State, call: Call)
    requires
        s.inv(),
        call.well_formed(),
    ensures
        s.apply(call).0.inv(),
{
    let t = s.apply(call).0;
    match call {
        Call::Create { sender, dna } => {
            lemma_create_keeps_inv(s, sender, dna);
        },
        Call::Breed { sender, kitty_id_1, kitty_id_2, selector } => {
            if let Ok(dna) = s.breed_dna(selector, kitty_id_1, kitty_id_2) {
                lemma_create_keeps_inv(s, sender, dna);
            }
        },
        Call::Transfer { sender, new_owner, kitty_id } => {
            if s.check_owner(sender, kitty_id) is Ok {
                assert(t.owner.dom() =~= s.owner.dom());
            }
        },
        Call::Market { .. } => {},
        Call::Buy { sender, kitty_id, offer, paid } => {
            if s.price_due(kitty_id, offer) is Ok && paid is Ok {
                assert(t.owner.dom() =~= s.owner.dom());
            }
        },
    }
}

/// Creating a kitty with a DNA of 16 bytes keeps the invariant.
pub proof fn lemma_create_keeps_inv(s: State, sender: AccountId, dna: Seq<u8>)
    requires
        s.inv(),
        dna.len() == 16,
    ensures
        s.create(sender, dna).0.inv(),
{
}

/// Calls lead from a registry that satisfies the invariant only to
/// registries that satisfy it, and so from the empty registry.
pub proof fn lemma_run_keeps_inv(s: State, calls: Seq<Call>)
    requires
        s.inv(),
        forall|i: int| 0 <= i < calls.len() ==> (#[trigger] calls[i]).well_formed(),
    ensures
        s.run(calls).inv(),
    decreases calls.len(),
{
    if calls.len() > 0 {
        lemma_run_keeps_inv(s, calls.drop_last());
        lemma_apply_keeps_inv(s.run(calls.drop_last()), calls.last());
    }
}

/// A call that fails leaves the registry as it was.
pub proof fn lemma_failure_changes_nothing(s: State, call: Call)
    ensures
        s.apply(call).1 is Err ==> s.apply(call).0 == s,
{
}

/// A call that hands out an index hands out the next one and moves the
/// counter to it; no other call moves the counter.
pub proof fn lemma_apply_counts(s: State, call: Call)
    ensures
        match s.apply(call).1 {
            Ok(Event::KittyCreate(_, id)) => id == s.allocated() + 1 && s.apply(call).0.allocated()
                == id,
            Ok(Event::KittyBreed(_, id)) => id == s.allocated() + 1 && s.apply(call).0.allocated()
                == id,
            _ => s.apply(call).0.count == s.count,
        },
{
}

/// Whatever calls are made, the indices handed out are the successors of the
/// counter's value at the start, each once and in order, and the counter
/// ends at the last of them.
pub proof fn lemma_minted_in_sequence(s: State, calls: Seq<Call>)
    ensures
        s.run(calls).allocated() == s.allocated() + s.minted(calls).len(),
        forall|i: int|
            0 <= i < s.minted(calls).len() ==> (#[trigger] s.minted(calls)[i]) == s.allocated() + i
                + 1,
    decreases calls.len(),
{
    if calls.len() > 0 {
        lemma_minted_in_sequence(s, calls.drop_last());
        lemma_apply_counts(s.run(calls.drop_last()), calls.last());
    }
}

/// Starting from the empty registry, the indices handed out by any sequence
/// of calls are 1, 2, 3 and so on: strictly increasing, without gaps and
/// without repeats.
pub proof fn lemma_indices_count_up_from_one(calls: Seq<Call>)
    ensures
        forall|i: int|
            0 <= i < State::init().minted(calls).len() ==> (#[trigger] State::init().minted(
                calls,
            )[i]) == i + 1,
        forall|i: int, j: int|
            0 <= i < j < State::init().minted(calls).len() ==> State::init().minted(calls)[i]
                < State::init().minted(calls)[j],
{
    lemma_minted_in_sequence(State::init(), calls);
}

/// No call changes the DNA of a kitty that exists, or removes the kitty.
pub proof fn lemma_dna_is_immutable(s: State, call: Call, id: KittyIndex)
    requires
        s.inv(),
        s.kitties.contains_key(id),
    ensures
        s.apply(call).0.kitties.contains_key(id),
        s.apply(call).0.kitties[id] == s.kitties[id],
{
    lemma_next_id_is_fresh(s);
}

/// Breeding a kitty with itself fails with `SameParentIndex` and changes
/// nothing, whether or not the kitty exists.
pub proof fn lemma_breed_same_parent(
    s: State,
    sender: AccountId,
    kitty_id: KittyIndex,
    selector: Seq<u8>,
)
    ensures
        s.breed(sender, kitty_id, kitty_id, selector) == (
            s,
            Err::<KittyIndex, Error>(Error::SameParentIndex),
        ),
{
}

/// Breeding from two different indices of which one has no kitty fails with
/// `InvalidKittyIndex` and changes nothing, the counter included.
pub proof fn lemma_breed_missing_parent(
    s: State,
    sender: AccountId,
    kitty_id_1: KittyIndex,
    kitty_id_2: KittyIndex,
    selector: Seq<u8>,
)
    requires
        kitty_id_1 != kitty_id_2,
        !s.kitties.contains_key(kitty_id_1) || !s.kitties.contains_key(kitty_id_2),
    ensures
        s.breed(sender, kitty_id_1, kitty_id_2, selector) == (
            s,
            Err::<KittyIndex, Error>(Error::InvalidKittyIndex),
        ),
{
}

/// A child that is bred belongs to the breeder and has the crossover of its
/// parents' DNA; the parents and their owners stay as they are.
pub proof fn lemma_breed_success(
    s: State,
    sender: AccountId,
    kitty_id_1: KittyIndex,
    kitty_id_2: KittyIndex,
    selector: Seq<u8>,
)
    requires
        s.inv(),
        s.breed(sender, kitty_id_1, kitty_id_2, selector).1 is Ok,
    ensures
        ({
            let (t, res) = s.breed(sender, kitty_id_1, kitty_id_2, selector);
            let child = res->Ok_0;
            &&& child == s.allocated() + 1
            &&& t.owner[child] == sender
            &&& t.kitties[child] == cross(selector, s.kitties[kitty_id_1], s.kitties[kitty_id_2])
            &&& t.kitties[kitty_id_1] == s.kitties[kitty_id_1]
            &&& t.kitties[kitty_id_2] == s.kitties[kitty_id_2]
            &&& t.owner[kitty_id_1] == s.owner[kitty_id_1]
            &&& t.owner[kitty_id_2] == s.owner[kitty_id_2]
        }),
{
    lemma_next_id_is_fresh(s);
}

/// Each bit of a crossed byte is the first parent's bit where the selector
/// has a 1, and the second parent's bit where it has a 0.
pub proof fn lemma_cross_selects_bits(selector: u8, dna_1: u8, dna_2: u8, bit: u8)
    requires
        bit < 8,
    ensures
        (cross_byte(selector, dna_1, dna_2) >> bit) & 1 == (if (selector >> bit) & 1 == 1 {
            (dna_1 >> bit) & 1
        } else {
            (dna_2 >> bit) & 1
        }),
{
    assert((((selector & dna_1) | (!selector & dna_2)) >> bit) & 1 == (if (selector >> bit) & 1
        == 1 {
        (dna_1 >> bit) & 1
    } else {
        (dna_2 >> bit) & 1
    })) by (bit_vector)
        requires
            bit < 8,
    ;
}

/// A purchase is all or nothing. It succeeds exactly when the offer is good
/// and the ledger has made the payment; then the kitty leaves the market and
/// belongs to the buyer, the price paid is the asking price, and no other
/// kitty changes its owner or its price. In every other case the registry
/// stays as it was.
pub proof fn lemma_buy_all_or_nothing(
    s: State,
    sender: AccountId,
    kitty_id: KittyIndex,
    price: Balance,
    paid: Result<(), InsufficientFunds>,
)
    ensures
        ({
            let (t, res) = s.buy(sender, kitty_id, price, paid);
            &&& res is Ok <==> s.price_due(kitty_id, price) is Ok && paid is Ok
            &&& res is Err ==> t == s
            &&& res is Ok ==> {
                &&& res == Ok::<Balance, Error>(s.market[kitty_id])
                &&& s.market[kitty_id] <= price
                &&& t.owner == s.owner.insert(kitty_id, sender)
                &&& t.market == s.market.remove(kitty_id)
                &&& t.kitties == s.kitties
                &&& t.count == s.count
                &&& forall|other: KittyIndex|
                    other != kitty_id ==> t.owner.contains_key(other) == s.owner.contains_key(
                        other,
                    ) && t.owner[other] == s.owner[other]
            }
            &&& s.price_due(kitty_id, price) is Ok && paid is Err ==> res == Err::<Balance, Error>(
                Error::InsufficientFunds,
            )
        }),
{
}

/// An offer below the asking price fails with `PriceTooLow`, whatever the
/// ledger would have answered, and changes nothing.
pub proof fn lemma_buy_price_too_low(
    s: State,
    sender: AccountId,
    kitty_id: KittyIndex,
    price: Balance,
    paid: Result<(), InsufficientFunds>,
)
    requires
        s.inv(),
        s.market.contains_key(kitty_id),
        price < s.market[kitty_id],
    ensures
        s.price_due(kitty_id, price) == Err::<(AccountId, Balance), Error>(Error::PriceTooLow),
        s.buy(sender, kitty_id, price, paid) == (s, Err::<Balance, Error>(Error::PriceTooLow)),
{
}

/// Whoever is not the owner of a kitty can neither hand it over nor set its
/// price: the call fails with `NotOwner`, or with `InvalidKittyIndex` where
/// the kitty has no owner at all, and changes nothing. A kitty without an
/// owner cannot be bought either.
pub proof fn lemma_only_the_owner_disposes(
    s: State,
    sender: AccountId,
    kitty_id: KittyIndex,
    new_owner: AccountId,
    price: Option<Balance>,
)
    requires
        !(s.owner.contains_key(kitty_id) && s.owner[kitty_id] == sender),
    ensures
        ({
            let e = if s.owner.contains_key(kitty_id) {
                Error::NotOwner
            } else {
                Error::InvalidKittyIndex
            };
            &&& s.transfer(sender, new_owner, kitty_id) == (s, Err::<(), Error>(e))
            &&& s.market(sender, kitty_id, price) == (s, Err::<(), Error>(e))
        }),
{
}

/// A kitty that has no owner cannot be bought: the call fails with
/// `InvalidKittyIndex`, whatever is offered, and changes nothing.
pub proof fn lemma_buy_needs_an_owner(
    s: State,
    sender: AccountId,
    kitty_id: KittyIndex,
    price: Balance,
    paid: Result<(), InsufficientFunds>,
)
    requires
        !s.owner.contains_key(kitty_id),
    ensures
        s.buy(sender, kitty_id, price, paid) == (s, Err::<Balance, Error>(Error::InvalidKittyIndex)),
{
}

/// Once the counter stands at the largest index, no kitty can be created or
/// bred: `create` fails with `KittiesCountOverflow`, and so does `breed`
/// unless it fails for its parents already. Either way nothing changes.
pub proof fn lemma_counter_at_its_limit(
    s: State,
    sender: AccountId,
    dna: Seq<u8>,
    kitty_id_1: KittyIndex,
    kitty_id_2: KittyIndex,
    selector: Seq<u8>,
)
    requires
        s.count == Some(u32::MAX),
    ensures
        s.create(sender, dna) == (s, Err::<KittyIndex, Error>(Error::KittiesCountOverflow)),
        s.breed(sender, kitty_id_1, kitty_id_2, selector).0 == s,
        s.breed(sender, kitty_id_1, kitty_id_2, selector).1 is Err,
        kitty_id_1 != kitty_id_2 && s.kitties.contains_key(kitty_id_1) && s.kitties.contains_key(
            kitty_id_2,
        ) ==> s.breed(sender, kitty_id_1, kitty_id_2, selector).1 == Err::<KittyIndex, Error>(
            Error::KittiesCountOverflow,
        ),
{
}

/// Handing a kitty over changes its owner and nothing else.
pub proof fn lemma_transfer_success(
    s: State,
    sender: AccountId,
    new_owner: AccountId,
    kitty_id: KittyIndex,
)
    requires
        s.owner.contains_key(kitty_id),
        s.owner[kitty_id] == sender,
    ensures
        ({
            let (t, res) = s.transfer(sender, new_owner, kitty_id);
            &&& res is Ok
            &&& t.owner == s.owner.insert(kitty_id, new_owner)
            &&& t.kitties == s.kitties
            &&& t.market == s.market
            &&& t.count == s.count
        }),
{
}

} // verus!
