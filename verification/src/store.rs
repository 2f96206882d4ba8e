use crate::listing::lists_under;
use crate::model::{key_fits, State};
use crate::state::{
    deposit_rows, held_view, offer_rows, Coin, Config, Deposits, DepositsView, Offer, OfferView, Side,
};
use cosmwasm_std::{Addr, MemoryStorage, Order, StdError, Uint128};
use cw_storage_plus::Item;
use vstd::prelude::*;

verus! {

/// `MemoryStorage` of cosmwasm_std: keys and values in memory, both bytes.
/// Nothing of its inside is used here but through the functions below.
#[verifier::external_type_specification]
#[verifier::external_body]
pub struct ExMemoryStorage(MemoryStorage);

/// The administrator that `storage` holds under "config", if it holds one
/// that can be read back.
pub uninterp spec fn stored_config(storage: MemoryStorage) -> Option<Seq<char>>;

/// The balances that `storage` holds in the map "deposits": each pair of
/// keys under which a record can be read back, with that record.
pub uninterp spec fn stored_deposits(storage: MemoryStorage) -> Map<(Seq<char>, Seq<char>), DepositsView>;

/// The offers that `storage` holds in the map named `namespace`: each pair
/// of keys under which an offer can be read back, with that offer.
pub uninterp spec fn stored_offers(storage: MemoryStorage, namespace: Seq<char>) -> Map<
    (Seq<char>, Seq<char>),
    OfferView,
>;

/// Whether every entry that `storage` holds in the maps "deposits", "bids"
/// and "asks" can be read back: its second key is text and its value is a
/// record of its map.
pub uninterp spec fn stored_intact(storage: MemoryStorage) -> bool;

/// Whether an administrator can be written out for storing.
pub uninterp spec fn config_storable(owner: Seq<char>) -> bool;

/// Whether a balance record can be written out for storing.
pub uninterp spec fn deposits_storable(record: DepositsView) -> bool;

/// Whether an offer can be written out for storing.
pub uninterp spec fn offers_storable(offer: OfferView) -> bool;

/// The table that files nothing.
pub open spec fn nothing<V>() -> Map<(Seq<char>, Seq<char>), V> {
    Map::empty()
}

/// `MemoryStorage::new` of cosmwasm_std. A new storage holds no entry, so
/// nothing can be read from it under any name, and nothing in it is
/// unreadable.
#[verifier::external_body]
fn storage_new() -> (r: MemoryStorage)
    ensures
        stored_config(r) is None,
        stored_deposits(r) == nothing::<DepositsView>(),
        forall|namespace: Seq<char>| #[trigger] stored_offers(r, namespace) == nothing::<OfferView>(),
        stored_intact(r),
{
    MemoryStorage::new()
}

/// `Item::load` of cw_storage_plus, on the item "config" that holds an
/// address. It returns the stored administrator, and an error where none is
/// stored or what is stored cannot be read.
#[verifier::external_body]
fn config_load(storage: &MemoryStorage) -> (r: Result<String, StdError>)
    ensures
        r is Ok <==> stored_config(*storage) is Some,
        r is Ok ==> r.unwrap()@ == stored_config(*storage).unwrap(),
{
    Ok(Item::<Addr>::new("config").load(storage)?.into_string())
}

/// `Item::save` of cw_storage_plus, on the item "config". It fails only
/// where the address cannot be written out, and then before it stores
/// anything. Its key is not one of any map, so the maps keep what they hold
/// and stay as readable as they were.
#[verifier::external_body]
fn config_save(storage: &mut MemoryStorage, owner: &str) -> (r: Result<(), StdError>)
    ensures
        r is Ok <==> config_storable(owner@),
        r is Ok ==> stored_config(*final(storage)) == Some(owner@),
        r is Err ==> stored_config(*final(storage)) == stored_config(*old(storage)),
        stored_deposits(*final(storage)) == stored_deposits(*old(storage)),
        forall|namespace: Seq<char>| #[trigger]
            stored_offers(*final(storage), namespace) == stored_offers(*old(storage), namespace),
        stored_intact(*final(storage)) == stored_intact(*old(storage)),
{
    Item::<Addr>::new("config").save(storage, &Addr::unchecked(owner))
}

/// `Map::load` of cw_storage_plus, on the map "deposits". It returns the
/// record stored under the two keys, and an error where none is stored or
/// what is stored cannot be read. The map frames the leading key with its
/// length in two bytes and panics on a longer one, so the key must fit.
#[verifier::external_body]
fn deposits_load(storage: &MemoryStorage, owner: &str, denom: &str) -> (r: Result<Deposits, StdError>)
    requires
        key_fits(owner@),
    ensures
        r is Ok <==> stored_deposits(*storage).contains_key((owner@, denom@)),
        r is Ok ==> r.unwrap()@ == stored_deposits(*storage)[(owner@, denom@)],
{
    let table: cw_storage_plus::Map<(&str, &str), (i32, Addr, cosmwasm_std::Coin)> = cw_storage_plus::Map::new("deposits");
    let (count, owner, coins) = table.load(storage, (owner, denom))?;
    Ok(Deposits { count, owner: owner.into_string(), coins: Coin { denom: coins.denom, amount: coins.amount.u128() } })
}

/// `Map::save` of cw_storage_plus, on the map "deposits". It fails only
/// where the record cannot be written out, and then before it stores
/// anything; else the record replaces what the two keys held, and can be
/// read back. Keys of other maps and of the item "config" differ from every
/// key of this map. The leading key must fit, as for `Map::load`.
#[verifier::external_body]
fn deposits_save(storage: &mut MemoryStorage, owner: &str, denom: &str, record: &Deposits) -> (r: Result<
    (),
    StdError,
>)
    requires
        key_fits(owner@),
    ensures
        r is Ok <==> deposits_storable(record@),
        r is Ok ==> stored_deposits(*final(storage)) == stored_deposits(*old(storage)).insert(
            (owner@, denom@),
            record@,
        ),
        r is Err ==> stored_deposits(*final(storage)) == stored_deposits(*old(storage)),
        stored_config(*final(storage)) == stored_config(*old(storage)),
        forall|namespace: Seq<char>|
            namespace != "deposits"@ ==> #[trigger] stored_offers(*final(storage), namespace) == stored_offers(
                *old(storage),
                namespace,
            ),
        stored_intact(*old(storage)) ==> stored_intact(*final(storage)),
{
    let table: cw_storage_plus::Map<(&str, &str), (i32, Addr, cosmwasm_std::Coin)> = cw_storage_plus::Map::new("deposits");
    let coins = cosmwasm_std::Coin { denom: record.coins.denom.clone(), amount: Uint128::new(record.coins.amount) };
    table.save(storage, (owner, denom), &(record.count, Addr::unchecked(record.owner.as_str()), coins))
}

/// `Prefix::range` of cw_storage_plus, over what `Map::prefix` selects in
/// the map "deposits", in ascending order and collected. The storage walks
/// its keys in byte order, which for text is the order of the characters.
/// Where every entry under `owner` can be read, the result lists each with
/// its second key; where one cannot, the result is an error, which does not
/// happen while the maps are intact. The leading key must fit, as for
/// `Map::load`.
#[verifier::external_body]
fn deposits_range(storage: &MemoryStorage, owner: &str) -> (r: Result<Vec<(String, Deposits)>, StdError>)
    requires
        key_fits(owner@),
    ensures
        r is Ok ==> lists_under(deposit_rows(r.unwrap()@), stored_deposits(*storage), owner@),
        stored_intact(*storage) ==> r is Ok,
{
    let table: cw_storage_plus::Map<(&str, &str), (i32, Addr, cosmwasm_std::Coin)> = cw_storage_plus::Map::new("deposits");
    let rows = table.prefix(owner).range(storage, None, None, Order::Ascending).collect::<Result<Vec<_>, _>>()?;
    Ok(rows.into_iter().map(|(denom, (count, owner, coins))| (
        denom,
        Deposits { count, owner: owner.into_string(), coins: Coin { denom: coins.denom, amount: coins.amount.u128() } },
    )).collect())
}

/// `Map::load` of cw_storage_plus, on the map named `namespace`. It
/// returns the offer stored under the two keys, and an error where none is
/// stored or what is stored cannot be read. The maps of offers are "bids"
/// and "asks"; the leading key must fit in the two bytes that frame its
/// length, or the map panics.
#[verifier::external_body]
fn offers_load(storage: &MemoryStorage, namespace: &str, first: &str, second: &str) -> (r: Result<
    Offer,
    StdError,
>)
    requires
        namespace@ == "bids"@ || namespace@ == "asks"@,
        key_fits(first@),
    ensures
        r is Ok <==> stored_offers(*storage, namespace@).contains_key((first@, second@)),
        r is Ok ==> r.unwrap()@ == stored_offers(*storage, namespace@)[(first@, second@)],
{
    let table: cw_storage_plus::Map<(&str, &str), (String, cosmwasm_std::Coin)> = cw_storage_plus::Map::new(namespace);
    let (token_id, amount) = table.load(storage, (first, second))?;
    Ok(Offer { token_id, amount: Coin { denom: amount.denom, amount: amount.amount.u128() } })
}

/// `Map::save` of cw_storage_plus, on the map named `namespace`. It fails
/// only where the offer cannot be written out, and then before it stores
/// anything; else the offer replaces what the two keys held, and can be
/// read back. Every other map, and the item "config", keeps what it holds.
/// Namespace and leading key are bound as for `offers_load`.
#[verifier::external_body]
fn offers_save(storage: &mut MemoryStorage, namespace: &str, first: &str, second: &str, offer: &Offer) -> (r:
    Result<(), StdError>)
    requires
        namespace@ == "bids"@ || namespace@ == "asks"@,
        key_fits(first@),
    ensures
        r is Ok <==> offers_storable(offer@),
        r is Ok ==> stored_offers(*final(storage), namespace@) == stored_offers(*old(storage), namespace@).insert(
            (first@, second@),
            offer@,
        ),
        r is Err ==> stored_offers(*final(storage), namespace@) == stored_offers(*old(storage), namespace@),
        forall|other: Seq<char>|
            other != namespace@ ==> #[trigger] stored_offers(*final(storage), other) == stored_offers(
                *old(storage),
                other,
            ),
        stored_deposits(*final(storage)) == stored_deposits(*old(storage)),
        stored_config(*final(storage)) == stored_config(*old(storage)),
        stored_intact(*old(storage)) ==> stored_intact(*final(storage)),
{
    let table: cw_storage_plus::Map<(&str, &str), (String, cosmwasm_std::Coin)> = cw_storage_plus::Map::new(namespace);
    let amount = cosmwasm_std::Coin { denom: offer.amount.denom.clone(), amount: Uint128::new(offer.amount.amount) };
    table.save(storage, (first, second), &(offer.token_id.clone(), amount))
}

/// `Map::remove` of cw_storage_plus, on the map named `namespace`. What
/// the two keys held is gone; nothing else changes. Namespace and leading
/// key are bound as for `offers_load`.
#[verifier::external_body]
fn offers_remove(storage: &mut MemoryStorage, namespace: &str, first: &str, second: &str)
    requires
        namespace@ == "bids"@ || namespace@ == "asks"@,
        key_fits(first@),
    ensures
        stored_offers(*final(storage), namespace@) == stored_offers(*old(storage), namespace@).remove(
            (first@, second@),
        ),
        forall|other: Seq<char>|
            other != namespace@ ==> #[trigger] stored_offers(*final(storage), other) == stored_offers(
                *old(storage),
                other,
            ),
        stored_deposits(*final(storage)) == stored_deposits(*old(storage)),
        stored_config(*final(storage)) == stored_config(*old(storage)),
        stored_intact(*old(storage)) ==> stored_intact(*final(storage)),
{
    cw_storage_plus::Map::<(&str, &str), (String, cosmwasm_std::Coin)>::new(namespace).remove(storage, (first, second))
}

/// `Prefix::range` of cw_storage_plus, over what `Map::prefix` selects in
/// the map named `namespace`, in ascending order and collected. Where every
/// entry under `first` can be read, the result lists each with its second
/// key; where one cannot, the result is an error, which does not happen
/// while the maps are intact. Namespace and leading key are bound as for
/// `offers_load`.
#[verifier::external_body]
fn offers_range(storage: &MemoryStorage, namespace: &str, first: &str) -> (r: Result<
    Vec<(String, Offer)>,
    StdError,
>)
    requires
        namespace@ == "bids"@ || namespace@ == "asks"@,
        key_fits(first@),
    ensures
        r is Ok ==> lists_under(offer_rows(r.unwrap()@), stored_offers(*storage, namespace@), first@),
        stored_intact(*storage) ==> r is Ok,
{
    let table: cw_storage_plus::Map<(&str, &str), (String, cosmwasm_std::Coin)> = cw_storage_plus::Map::new(namespace);
    let rows = table.prefix(first).range(storage, None, None, Order::Ascending).collect::<Result<Vec<_>, _>>()?;
    Ok(rows.into_iter().map(|(second, (token_id, amount))| (
        second,
        Offer { token_id, amount: Coin { denom: amount.denom, amount: amount.amount.u128() } },
    )).collect())
}

/// What `storage` holds, as the operations see it.
pub closed spec fn state_of(storage: MemoryStorage) -> State {
    State {
        config: stored_config(storage),
        deposits: stored_deposits(storage),
        bids: stored_offers(storage, "bids"@),
        asks: stored_offers(storage, "asks"@),
    }
}

/// The three maps go by different names.
proof fn lemma_namespaces_differ()
    ensures
        "bids"@ != "asks"@,
        "bids"@ != "deposits"@,
        "asks"@ != "deposits"@,
{
    reveal_strlit("bids");
    reveal_strlit("asks");
    reveal_strlit("deposits");
    assert("bids"@[0] != "asks"@[0]);
}

/// The name of the map that holds one side's offers.
fn namespace_of(side: Side) -> (r: &'static str)
    ensures
        r@ == "bids"@ || r@ == "asks"@,
        side == Side::Bid <==> r@ == "bids"@,
{
    proof {
        lemma_namespaces_differ();
    }
    match side {
        Side::Bid => "bids",
        Side::Ask => "asks",
    }
}

/// The store that every operation works on: the ledger, the offer registry
/// and the configuration of one invocation.
pub struct Store {
    storage: MemoryStorage,
}

impl View for Store {
    type V = State;

    closed spec fn view(&self) -> State {
        state_of(self.storage)
    }
}

impl Store {
    /// Whether every entry of the ledger and of the registry can be read
    /// back. A new store is intact, and no operation of this library ends
    /// that.
    pub closed spec fn intact(&self) -> bool {
        stored_intact(self.storage)
    }

    /// A store that holds nothing.
    pub fn new() -> (r: Store)
        ensures
            r@ == State::empty(),
            r@.wf(),
            r.intact(),
    {
        let r = Store { storage: storage_new() };
        r
    }

    /// The store over what `storage` holds.
    pub fn from_storage(storage: MemoryStorage) -> (r: Store)
        ensures
            r@ == state_of(storage),
            r.intact() == stored_intact(storage),
    {
        Store { storage }
    }

    /// Hands the storage back.
    pub fn into_storage(self) -> (r: MemoryStorage)
        ensures
            state_of(r) == self@,
            stored_intact(r) == self.intact(),
    {
        self.storage
    }

    /// The configuration; an error where none was saved.
    pub fn load_config(&self) -> (r: Result<Config, StdError>)
        ensures
            r is Ok <==> self@.config is Some,
            r is Ok ==> r.unwrap().owner@ == self@.config.unwrap(),
    {
        match config_load(&self.storage) {
            Ok(owner) => Ok(Config { owner }),
            Err(refusal) => Err(refusal),
        }
    }

    /// Saves the configuration, unless the store refuses it.
    pub fn save_config(&mut self, config: &Config) -> (r: Result<(), StdError>)
        ensures
            r is Ok <==> config_storable(config.owner@),
            r is Ok ==> final(self)@ == (State { config: Some(config.owner@), ..old(self)@ }),
            r is Err ==> final(self)@ == old(self)@,
            final(self).intact() == old(self).intact(),
    {
        let r = config_save(&mut self.storage, config.owner.as_str());
        r
    }

    /// The balance held under (`owner`, `denom`), if any.
    pub fn deposit(&self, owner: &str, denom: &str) -> (r: Option<Deposits>)
        requires
            key_fits(owner@),
        ensures
            held_view(r) == self@.held(owner@, denom@),
    {
        match deposits_load(&self.storage, owner, denom) {
            Ok(record) => Some(record),
            Err(_) => None,
        }
    }

    /// Files `record` under (`owner`, `denom`), unless the store refuses it.
    pub fn save_deposit(&mut self, owner: &str, denom: &str, record: &Deposits) -> (r: Result<(), StdError>)
        requires
            key_fits(owner@),
        ensures
            r is Ok <==> deposits_storable(record@),
            r is Ok ==> final(self)@ == (
            State { deposits: old(self)@.deposits.insert((owner@, denom@), record@), ..old(self)@ }),
            r is Err ==> final(self)@ == old(self)@,
            old(self).intact() ==> final(self).intact(),
    {
        proof {
            lemma_namespaces_differ();
        }
        let r = deposits_save(&mut self.storage, owner, denom, record);
        r
    }

    /// The balances of `owner`, by denomination in ascending order.
    pub fn deposits_of(&self, owner: &str) -> (r: Result<Vec<(String, Deposits)>, StdError>)
        requires
            key_fits(owner@),
        ensures
            r is Ok ==> lists_under(deposit_rows(r.unwrap()@), self@.deposits, owner@),
            self.intact() ==> r is Ok,
    {
        deposits_range(&self.storage, owner)
    }

    /// The offer filed on `side` under (`first`, `second`), if any.
    pub fn offer(&self, side: Side, first: &str, second: &str) -> (r: Option<Offer>)
        requires
            key_fits(first@),
        ensures
            r is Some <==> self@.offers(side).contains_key((first@, second@)),
            r is Some ==> r.unwrap()@ == self@.offers(side)[(first@, second@)],
    {
        match offers_load(&self.storage, namespace_of(side), first, second) {
            Ok(offer) => Some(offer),
            Err(_) => None,
        }
    }

    /// Files `offer` on `side` under (`first`, `second`), unless the store
    /// refuses it.
    pub fn save_offer(&mut self, side: Side, first: &str, second: &str, offer: &Offer) -> (r: Result<
        (),
        StdError,
    >)
        requires
            key_fits(first@),
        ensures
            r is Ok <==> offers_storable(offer@),
            r is Ok ==> final(self)@ == old(self)@.with_offers(
                side,
                old(self)@.offers(side).insert((first@, second@), offer@),
            ),
            r is Err ==> final(self)@ == old(self)@,
            old(self).intact() ==> final(self).intact(),
    {
        proof {
            lemma_namespaces_differ();
        }
        let namespace = namespace_of(side);
        let r = offers_save(&mut self.storage, namespace, first, second, offer);
        r
    }

    /// Takes away what `side` files under (`first`, `second`).
    pub fn remove_offer(&mut self, side: Side, first: &str, second: &str)
        requires
            key_fits(first@),
        ensures
            final(self)@ == old(self)@.with_offers(side, old(self)@.offers(side).remove((first@, second@))),
            old(self).intact() ==> final(self).intact(),
    {
        proof {
            lemma_namespaces_differ();
        }
        let namespace = namespace_of(side);
        offers_remove(&mut self.storage, namespace, first, second);
    }

    /// What `side` files under the leading key `first`, by second key in
    /// ascending order.
    pub fn offers_of(&self, side: Side, first: &str) -> (r: Result<Vec<(String, Offer)>, StdError>)
        requires
            key_fits(first@),
        ensures
            r is Ok ==> lists_under(offer_rows(r.unwrap()@), self@.offers(side), first@),
            self.intact() ==> r is Ok,
    {
        offers_range(&self.storage, namespace_of(side), first)
    }
}

} // verus!
