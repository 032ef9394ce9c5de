//! The seeds from which the addresses of the records are derived.
//!
//! Every record lives at an address derived from a fixed tag and the
//! identities it belongs to, so that it is found again by what it is about.
//! The market record also signs for its vault with its own seeds followed by
//! its nonce. The ledger says which seeds those are; hashing them into an
//! address is left to whoever keeps the records.

use vstd::prelude::*;
use vstd::slice::slice_to_vec;
use crate::identity::Identity;
use crate::state::Market;

verus! {

/// The tag of a market record: the bytes of `market`.
pub open spec fn market_tag() -> Seq<u8> {
    seq![109u8, 97u8, 114u8, 107u8, 101u8, 116u8]
}

/// The tag of a pooled-token vault: the bytes of `treasury`.
pub open spec fn treasury_tag() -> Seq<u8> {
    seq![116u8, 114u8, 101u8, 97u8, 115u8, 117u8, 114u8, 121u8]
}

/// The tag of a holdings record: the bytes of `user_holdings`.
pub open spec fn user_holdings_tag() -> Seq<u8> {
    seq![
        117u8,
        115u8,
        101u8,
        114u8,
        95u8,
        104u8,
        111u8,
        108u8,
        100u8,
        105u8,
        110u8,
        103u8,
        115u8,
    ]
}

/// A list of seeds as the sequence of their byte sequences.
pub open spec fn seeds_view(seeds: Vec<Vec<u8>>) -> Seq<Seq<u8>> {
    seeds@.map_values(|seed: Vec<u8>| seed@)
}

/// The seeds of the market that `authority` opened under `name`: the tag,
/// the authority and the encoded name.
pub open spec fn market_seeds_of(authority: Identity, name: Seq<char>) -> Seq<Seq<u8>> {
    seq![market_tag(), authority.bytes@, vstd::utf8::encode_utf8(name)]
}

/// The seeds with which a market signs for its vault: its own seeds followed
/// by its nonce.
pub open spec fn market_signer_seeds_of(market: Market) -> Seq<Seq<u8>> {
    market_seeds_of(market.authority, market.name@).push(seq![market.bump])
}

/// The seeds of the vault of the market at `market_key`: the tag and the
/// market.
pub open spec fn treasury_seeds_of(market_key: Identity) -> Seq<Seq<u8>> {
    seq![treasury_tag(), market_key.bytes@]
}

/// The seeds of the holdings of `user` in the market at `market_key`: the
/// tag, the user and the market.
pub open spec fn user_holdings_seeds_of(user: Identity, market_key: Identity) -> Seq<Seq<u8>> {
    seq![user_holdings_tag(), user.bytes@, market_key.bytes@]
}

fn market_tag_bytes() -> (tag: Vec<u8>)
    ensures
        tag@ == market_tag(),
{
    let tag: Vec<u8> = vec![109u8, 97u8, 114u8, 107u8, 101u8, 116u8];
    assert(tag@ =~= market_tag());
    tag
}

fn treasury_tag_bytes() -> (tag: Vec<u8>)
    ensures
        tag@ == treasury_tag(),
{
    let tag: Vec<u8> = vec![116u8, 114u8, 101u8, 97u8, 115u8, 117u8, 114u8, 121u8];
    assert(tag@ =~= treasury_tag());
    tag
}

fn user_holdings_tag_bytes() -> (tag: Vec<u8>)
    ensures
        tag@ == user_holdings_tag(),
{
    let tag: Vec<u8> = vec![
        117u8,
        115u8,
        101u8,
        114u8,
        95u8,
        104u8,
        111u8,
        108u8,
        100u8,
        105u8,
        110u8,
        103u8,
        115u8,
    ];
    assert(tag@ =~= user_holdings_tag());
    tag
}

fn identity_bytes(identity: &Identity) -> (bytes: Vec<u8>)
    ensures
        bytes@ == identity.bytes@,
{
    slice_to_vec(identity.bytes.as_slice())
}

/// Lists the seeds of the market that `authority` opened under `name`.
pub fn market_seeds(authority: &Identity, name: &String) -> (seeds: Vec<Vec<u8>>)
    ensures
        seeds_view(seeds) == market_seeds_of(*authority, name@),
{
    let mut seeds: Vec<Vec<u8>> = Vec::new();
    seeds.push(market_tag_bytes());
    seeds.push(identity_bytes(authority));
    seeds.push(slice_to_vec(name.as_str().as_bytes()));
    assert(seeds_view(seeds) =~= market_seeds_of(*authority, name@));
    seeds
}

/// Lists the seeds with which `market` signs for its vault.
pub fn market_signer_seeds(market: &Market) -> (seeds: Vec<Vec<u8>>)
    ensures
        seeds_view(seeds) == market_signer_seeds_of(*market),
{
    let mut seeds = market_seeds(&market.authority, &market.name);
    let nonce: Vec<u8> = vec![market.bump];
    assert(nonce@ =~= seq![market.bump]);
    seeds.push(nonce);
    assert(seeds_view(seeds) =~= market_signer_seeds_of(*market));
    seeds
}

/// Lists the seeds of the vault of the market at `market_key`.
pub fn treasury_seeds(market_key: &Identity) -> (seeds: Vec<Vec<u8>>)
    ensures
        seeds_view(seeds) == treasury_seeds_of(*market_key),
{
    let mut seeds: Vec<Vec<u8>> = Vec::new();
    seeds.push(treasury_tag_bytes());
    seeds.push(identity_bytes(market_key));
    assert(seeds_view(seeds) =~= treasury_seeds_of(*market_key));
    seeds
}

/// Lists the seeds of the holdings of `user` in the market at `market_key`.
pub fn user_holdings_seeds(user: &Identity, market_key: &Identity) -> (seeds: Vec<Vec<u8>>)
    ensures
        seeds_view(seeds) == user_holdings_seeds_of(*user, *market_key),
{
    let mut seeds: Vec<Vec<u8>> = Vec::new();
    seeds.push(user_holdings_tag_bytes());
    seeds.push(identity_bytes(user));
    seeds.push(identity_bytes(market_key));
    assert(seeds_view(seeds) =~= user_holdings_seeds_of(*user, *market_key));
    seeds
}

} // verus!
