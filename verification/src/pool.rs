//! Pool attribution: mapping a block's coinbase metadata to a mining-pool
//! label. The identification itself is the outside crate's work; the library
//! fixes when that call is sound, names its result, and fixes how the result
//! becomes the label a result row carries.

use vstd::prelude::*;
use std::str::FromStr;
use bitcoin_pool_identification::PoolIdentification;

verus! {

#[verifier::external_type_specification]
#[verifier::external_body]
pub struct ExBlock(bitcoin::Block);

#[verifier::external_type_specification]
#[verifier::external_body]
pub struct ExPool(bitcoin_pool_identification::Pool);

/// The block has a first transaction and it is the coinbase. The outside
/// identification walks the first transaction and asserts this of it, so the
/// call is only sound where this holds.
pub uninterp spec fn coinbase_leads(block: bitcoin::Block) -> bool;

/// Every address of every pool entry parses as an address that is valid for
/// mainnet. The outside identification unwraps that parse for each entry once
/// the coinbase has an address-bearing output, so the call is only sound
/// where this holds.
pub uninterp spec fn pool_addresses_parse(pools: Seq<bitcoin_pool_identification::Pool>) -> bool;

/// What the identification returns for a block against a list of known
/// pools: the identified pool's name, or `None` when neither its coinbase
/// output addresses nor its coinbase tags match. It reads only its two
/// arguments, so the result is stable per block and pool list.
pub uninterp spec fn pool_name_of(
    block: bitcoin::Block,
    pools: Seq<bitcoin_pool_identification::Pool>,
) -> Option<String>;

/// Relies on `Vec::first` over `Block::txdata` and
/// `Transaction::is_coinbase` (bitcoin): whether the block has a first
/// transaction and that transaction is the coinbase.
#[verifier::external_body]
fn check_coinbase_leads(block: &bitcoin::Block) -> (r: bool)
    ensures
        r == coinbase_leads(*block),
{
    match block.txdata.first() {
        Some(tx) => tx.is_coinbase(),
        None => false,
    }
}

/// Relies on `Address::from_str` and `Address::require_network` (bitcoin),
/// the same parse that `Pool::addresses` unwraps: whether every address of
/// every pool entry parses and is valid for mainnet.
#[verifier::external_body]
fn check_pool_addresses_parse(pools: &Vec<bitcoin_pool_identification::Pool>) -> (r: bool)
    ensures
        r == pool_addresses_parse(pools@),
{
    pools.iter().all(|pool| {
        pool.addresses.iter().all(|addr| {
            match bitcoin::Address::from_str(addr) {
                Ok(a) => a.require_network(bitcoin::Network::Bitcoin).is_ok(),
                Err(_) => false,
            }
        })
    })
}

/// Relies on `PoolIdentification::identify_pool` for `bitcoin::Block`
/// (bitcoin_pool_identification): identifies the mining pool of a block from
/// its coinbase output addresses and coinbase tags against the given list of
/// known pools, and returns the identified pool's name, or `None` when
/// neither method matches. The call asserts that the block's first
/// transaction is the coinbase and unwraps the parse of every pool address
/// for mainnet, so the preconditions exclude the inputs on which it panics.
#[verifier::external_body]
fn identify_pool_name(
    block: &bitcoin::Block,
    pools: &Vec<bitcoin_pool_identification::Pool>,
) -> (r: Option<String>)
    requires
        coinbase_leads(*block),
        pool_addresses_parse(pools@),
    ensures
        r == pool_name_of(*block, pools@),
{
    block
        .identify_pool(bitcoin::Network::Bitcoin, pools.as_slice())
        .map(|found| found.pool.name)
}

/// The label a block's rows carry: the identified pool's name as it stands,
/// or "Unknown" when no known pool matched. "Unknown" is a valid, stable
/// value, not an error.
pub fn pool_label(name: Option<String>) -> (r: String)
    ensures
        name matches Some(n) ==> r == n,
        name is None ==> r@ == "Unknown"@,
{
    match name {
        Some(n) => n,
        None => "Unknown".to_owned(),
    }
}

/// Resolves the mining-pool label of a block against a list of known pools:
/// the name the identification finds, or "Unknown" when no known pool
/// matches. The label depends on the block and on the pool list it is given,
/// and on nothing else. Callers establish the preconditions with
/// [`try_miner_label`], which tests them.
pub fn miner_label(
    block: &bitcoin::Block,
    pools: &Vec<bitcoin_pool_identification::Pool>,
) -> (r: String)
    requires
        coinbase_leads(*block),
        pool_addresses_parse(pools@),
    ensures
        pool_name_of(*block, pools@) matches Some(n) ==> r == n,
        pool_name_of(*block, pools@) is None ==> r@ == "Unknown"@,
{
    pool_label(identify_pool_name(block, pools))
}

/// Resolves the mining-pool label of a block after testing that the
/// identification is sound on these inputs: `Some` label — the identified
/// pool's name, or "Unknown" when no known pool matches — exactly when the
/// block's first transaction is the coinbase and every pool address parses
/// for mainnet, and `None` otherwise.
pub fn try_miner_label(
    block: &bitcoin::Block,
    pools: &Vec<bitcoin_pool_identification::Pool>,
) -> (r: Option<String>)
    ensures
        r is Some <==> coinbase_leads(*block) && pool_addresses_parse(pools@),
        r matches Some(label) ==> {
            &&& pool_name_of(*block, pools@) matches Some(n) ==> label == n
            &&& pool_name_of(*block, pools@) is None ==> label@ == "Unknown"@
        },
{
    if check_coinbase_leads(block) && check_pool_addresses_parse(pools) {
        Some(miner_label(block, pools))
    } else {
        None
    }
}

} // verus!
