//! Values the contracts share with the chain: coins sent along with a
//! message, the block environment, and the token transfers a handler asks
//! the chain to perform.

use vstd::prelude::*;

verus! {

/// An amount of a native token.
#[derive(Clone, Debug, PartialEq, Eq)]
pub struct Coin {
    pub denom: String,
    pub amount: u128,
}

/// What the chain tells a contract about the block it runs in.
#[derive(Clone, Debug, PartialEq, Eq)]
pub struct Env {
    /// Block time in seconds.
    pub block_time: u64,
    /// The address of the contract itself.
    pub contract_address: String,
}

/// Who sent the message, and which native coins came with it.
#[derive(Clone, Debug, PartialEq, Eq)]
pub struct MessageInfo {
    pub sender: String,
    pub funds: Vec<Coin>,
}

/// A token movement that a handler asks the chain to perform.
#[derive(Clone, Debug, PartialEq, Eq)]
pub enum TransferMsg {
    /// A CW20 `Transfer` from this contract to `recipient`.
    Cw20Transfer { contract_addr: String, recipient: String, amount: u128 },
    /// A CW20 `TransferFrom` of `owner`'s tokens to `recipient`.
    Cw20TransferFrom { contract_addr: String, owner: String, recipient: String, amount: u128 },
    /// A bank send of a native token from this contract.
    BankSend { to_address: String, denom: String, amount: u128 },
}

/// The first coin of `funds` whose denomination is `denom`, if any.
pub open spec fn first_coin_of(funds: Seq<Coin>, denom: Seq<char>) -> Option<Coin>
    decreases funds.len(),
{
    if funds.len() == 0 {
        None
    } else if funds[0].denom@ == denom {
        Some(funds[0])
    } else {
        first_coin_of(funds.drop_first(), denom)
    }
}

/// Whether the first coin of `funds` in `denom` holds at least `amount`.
pub open spec fn funds_cover(funds: Seq<Coin>, denom: Seq<char>, amount: u128) -> bool {
    match first_coin_of(funds, denom) {
        Some(c) => c.amount >= amount,
        None => false,
    }
}

/// The ids a page of a registry lists: those after `start_after`, at most
/// `limit` of them, among the ids `1..=count`.
pub open spec fn page_ids(start_after: u64, limit: nat, count: u64) -> Seq<u64> {
    let n = if start_after >= count {
        0
    } else if count - start_after < limit {
        (count - start_after) as nat
    } else {
        limit
    };
    Seq::new(n, |i: int| (start_after + 1 + i) as u64)
}

/// Lists the ids of a page of a registry of `count` entries numbered from 1:
/// those after `start_after` (0 by default), at most `limit` (30 by default).
pub fn page_of_ids(start_after: Option<u64>, limit: Option<u32>, count: u64) -> (r: Vec<u64>)
    ensures
        r@ == page_ids(
            match start_after { Some(s) => s, None => 0 },
            match limit { Some(l) => l as nat, None => 30 },
            count,
        ),
{
    let start = match start_after {
        Some(s) => s,
        None => 0,
    };
    let limit: u64 = match limit {
        Some(l) => l as u64,
        None => 30,
    };
    let ghost target = page_ids(start, limit as nat, count);
    let mut ids: Vec<u64> = Vec::new();
    let mut id = start;
    while id < count && ((id - start) as u64) < limit
        invariant
            start <= id <= count || (start >= count && id == start),
            id - start <= limit,
            target == page_ids(start, limit as nat, count),
            ids@ == Seq::new((id - start) as nat, |i: int| (start + 1 + i) as u64),
        decreases count - id,
    {
        ids.push(id + 1);
        id = id + 1;
        assert(ids@ =~= Seq::new((id - start) as nat, |i: int| (start + 1 + i) as u64));
    }
    assert(ids@ =~= target);
    ids
}

/// Pages follow one another: the page of `l1` ids after `start_after`,
/// followed by the page of `l2` ids after where it stopped, is the page of
/// `l1 + l2` ids after `start_after`.
pub proof fn lemma_pages_concatenate(start_after: u64, l1: nat, l2: nat, count: u64)
    requires
        start_after + l1 <= u64::MAX,
    ensures
        page_ids(start_after, l1, count) + page_ids((start_after + l1) as u64, l2, count)
            == page_ids(start_after, l1 + l2, count),
{
    let a = page_ids(start_after, l1, count);
    let b = page_ids((start_after + l1) as u64, l2, count);
    let c = page_ids(start_after, l1 + l2, count);
    assert(a + b =~= c);
}

/// A page lists registered ids only, each once, in increasing order, and
/// starts right after `start_after`.
pub proof fn lemma_page_lists_registered_ids(start_after: u64, limit: nat, count: u64)
    ensures
        forall|i: int| 0 <= i < page_ids(start_after, limit, count).len() ==> {
            let id = #[trigger] page_ids(start_after, limit, count)[i];
            &&& start_after < id <= count
            &&& id == start_after + 1 + i
        },
        page_ids(start_after, limit, count).len() <= limit,
        start_after < count && limit > 0 ==> page_ids(start_after, limit, count).len() > 0,
{
}

/// Once an entry is registered under the next id, the page right after the
/// previous count lists exactly that id.
pub proof fn lemma_new_entry_is_listed(count: u64)
    requires
        count < u64::MAX,
    ensures
        page_ids(count, 1, (count + 1) as u64) == seq![(count + 1) as u64],
{
    assert(page_ids(count, 1, (count + 1) as u64) =~= seq![(count + 1) as u64]);
}

} // verus!
