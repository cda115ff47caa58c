use vstd::prelude::*;
use crate::pubkey::Pubkey;

verus! {

/// Seed prefix of a pool record's address: the ASCII bytes of `agent_pool`.
pub const AGENT_POOL_SEED: [u8; 10] = [97, 103, 101, 110, 116, 95, 112, 111, 111, 108];

/// Seed prefix of a position record's address: the ASCII bytes of `stake`.
pub const STAKE_SEED: [u8; 5] = [115, 116, 97, 107, 101];

/// The address that the seeds derive under a program, with its bump seed, or
/// `None` where no bump seed yields one. This names what
/// `Pubkey::try_find_program_address` of `solana_program` computes from the
/// bytes of its arguments alone; the computation itself is not modelled.
pub uninterp spec fn program_address(seeds: Seq<Seq<u8>>, program_id: Seq<u8>) -> Option<
    (Seq<u8>, u8),
>;

/// The bytes of each seed of a list.
pub open spec fn seed_bytes(seeds: Seq<&[u8]>) -> Seq<Seq<u8>> {
    Seq::new(seeds.len(), |i: int| seeds[i]@)
}

/// A derived address and bump seed, by the bytes of the address.
pub open spec fn address_view(found: Option<(Pubkey, u8)>) -> Option<(Seq<u8>, u8)> {
    match found {
        Some((key, bump)) => Some((key@, bump)),
        None => None,
    }
}

/// The seeds of the pool record of `agent`.
pub open spec fn agent_pool_seeds(agent: Seq<u8>) -> Seq<Seq<u8>> {
    seq![AGENT_POOL_SEED@, agent]
}

/// The seeds of the position record of `user` in the pool at `pool`.
pub open spec fn stake_position_seeds(user: Seq<u8>, pool: Seq<u8>) -> Seq<Seq<u8>> {
    seq![STAKE_SEED@, user, pool]
}

/// Calls `solana_program::pubkey::Pubkey::try_find_program_address` on the
/// seeds and the program's address. Not verified: the contract only gives
/// the outcome its name, `program_address` of the arguments' bytes. It
/// claims that the outcome depends on those bytes alone, which holds of a
/// search that hashes the seeds, a bump seed and the program's address and
/// tests the digest against the curve.
#[verifier::external_body]
fn try_find_program_address(seeds: &[&[u8]], program_id: &Pubkey) -> (found: Option<(Pubkey, u8)>)
    ensures
        address_view(found) == program_address(seed_bytes(seeds@), program_id@),
{
    let id = solana_program::pubkey::Pubkey::new_from_array(program_id.bytes);
    match solana_program::pubkey::Pubkey::try_find_program_address(seeds, &id) {
        Some((key, bump)) => Some((Pubkey { bytes: key.to_bytes() }, bump)),
        None => None,
    }
}

/// Searches for the address of the pool record of `agent`.
fn find_agent_pool_pda(agent: &Pubkey, program_id: &Pubkey) -> (found: Option<(Pubkey, u8)>)
    ensures
        address_view(found) == program_address(agent_pool_seeds(agent@), program_id@),
{
    let prefix = AGENT_POOL_SEED;
    let seeds: [&[u8]; 2] = [prefix.as_slice(), agent.bytes.as_slice()];
    let list: &[&[u8]] = seeds.as_slice();
    proof {
        assert(seed_bytes(list@) =~= agent_pool_seeds(agent@));
    }
    try_find_program_address(list, program_id)
}

/// Searches for the address of the position record of `user` in the pool at
/// `pool`.
fn find_stake_position_pda(user: &Pubkey, pool: &Pubkey, program_id: &Pubkey) -> (found: Option<
    (Pubkey, u8),
>)
    ensures
        address_view(found) == program_address(stake_position_seeds(user@, pool@), program_id@),
{
    let prefix = STAKE_SEED;
    let seeds: [&[u8]; 3] = [prefix.as_slice(), user.bytes.as_slice(), pool.bytes.as_slice()];
    let list: &[&[u8]] = seeds.as_slice();
    proof {
        assert(seed_bytes(list@) =~= stake_position_seeds(user@, pool@));
    }
    try_find_program_address(list, program_id)
}

/// Derives the address of the pool record of `agent` under `program_id`,
/// with its bump seed.
///
/// The seeds must derive an address; `try_get_agent_pool_pda` serves a
/// caller who cannot know that.
pub fn get_agent_pool_pda(agent: &Pubkey, program_id: &Pubkey) -> (pda: (Pubkey, u8))
    requires
        program_address(agent_pool_seeds(agent@), program_id@) is Some,
    ensures
        program_address(agent_pool_seeds(agent@), program_id@) == Some((pda.0@, pda.1)),
{
    find_agent_pool_pda(agent, program_id).unwrap()
}

/// Derives the address of the position record of `user` in the pool at
/// `pool` under `program_id`, with its bump seed.
///
/// The seeds must derive an address; `try_get_stake_position_pda` serves a
/// caller who cannot know that.
pub fn get_stake_position_pda(user: &Pubkey, pool: &Pubkey, program_id: &Pubkey) -> (pda: (
    Pubkey,
    u8,
))
    requires
        program_address(stake_position_seeds(user@, pool@), program_id@) is Some,
    ensures
        program_address(stake_position_seeds(user@, pool@), program_id@) == Some((pda.0@, pda.1)),
{
    find_stake_position_pda(user, pool, program_id).unwrap()
}

/// Derives the address of the pool record of `agent` where the seeds derive
/// one, and returns `None` where they do not.
pub fn try_get_agent_pool_pda(agent: &Pubkey, program_id: &Pubkey) -> (found: Option<(Pubkey, u8)>)
    ensures
        address_view(found) == program_address(agent_pool_seeds(agent@), program_id@),
{
    match find_agent_pool_pda(agent, program_id) {
        Some(_) => Some(get_agent_pool_pda(agent, program_id)),
        None => None,
    }
}

/// Derives the address of the position record of `user` in the pool at
/// `pool` where the seeds derive one, and returns `None` where they do not.
pub fn try_get_stake_position_pda(user: &Pubkey, pool: &Pubkey, program_id: &Pubkey) -> (found:
    Option<(Pubkey, u8)>)
    ensures
        address_view(found) == program_address(stake_position_seeds(user@, pool@), program_id@),
{
    match find_stake_position_pda(user, pool, program_id) {
        Some(_) => Some(get_stake_position_pda(user, pool, program_id)),
        None => None,
    }
}

} // verus!
