use vstd::prelude::*;
use crate::identity::Identity;

verus! {

/// The seed that, followed by an owner's key, addresses that owner's player
/// record: the bytes of "player".
pub const PLAYER_SEED: [u8; 6] = [112, 108, 97, 121, 101, 114];

/// The program-derived address of a list of seeds under a program, with its
/// bump seed; `None` when no bump seed gives an address off the curve.
pub uninterp spec fn program_address(seeds: Seq<Seq<u8>>, program_id: Seq<u8>) -> Option<(Seq<u8>, u8)>;

/// Relies on solana's `Pubkey::try_find_program_address`: for the seeds
/// `[prefix, key]` it searches the bump seeds and returns the first address
/// off the curve with its bump, or `None`. The result depends on the seeds and
/// the program id alone.
#[verifier::external_body]
fn try_find_program_address(prefix: &[u8], key: &[u8; 32], program_id: &[u8; 32]) -> (r: Option<([u8; 32], u8)>)
    ensures
        match r {
            Some((address, bump)) => program_address(seq![prefix@, key@], program_id@) == Some(
                (address@, bump),
            ),
            None => program_address(seq![prefix@, key@], program_id@) is None,
        },
{
    let program = anchor_lang::prelude::Pubkey::new_from_array(*program_id);
    anchor_lang::prelude::Pubkey::try_find_program_address(&[prefix, &key[..]], &program).map(
        |(address, bump)| (address.to_bytes(), bump),
    )
}

/// The bytes of the address of `owner`'s player record under `program_id`.
pub open spec fn player_record_address_spec(owner: Identity, program_id: Identity) -> Option<Seq<u8>> {
    match program_address(seq![PLAYER_SEED@, owner.bytes@], program_id.bytes@) {
        Some((address, _bump)) => Some(address),
        None => None,
    }
}

/// The address of the player record of `owner` under the program
/// `program_id`.
pub fn player_record_address(owner: &Identity, program_id: &Identity) -> (r: Option<Identity>)
    ensures
        match r {
            Some(address) => player_record_address_spec(*owner, *program_id) == Some(address.bytes@),
            None => player_record_address_spec(*owner, *program_id) is None,
        },
{
    let seed = PLAYER_SEED;
    match try_find_program_address(&seed, &owner.bytes, &program_id.bytes) {
        Some((address, _bump)) => {
            Some(Identity { bytes: address })
        },
        None => None,
    }
}

} // verus!
