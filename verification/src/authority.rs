//! The vault's authority over its pool tokens: an identity without a key,
//! derived from a label, the season's address and a bump. Who presents
//! these seeds signs as the vault.

use vstd::prelude::*;
use crate::pubkey::Pubkey;

verus! {

/// The label that the vault's authority is derived from: `vault_authority`
/// in ASCII.
pub const VAULT_AUTHORITY_SEED: [u8; 15] = [
    118, 97, 117, 108, 116, 95, 97, 117, 116, 104, 111, 114, 105, 116, 121,
];

/// The seeds of the authority of the season at `season_state_key`: the
/// label, the 32 bytes of the address, and the bump.
pub open spec fn vault_authority_seeds(season_state_key: Pubkey, bump: u8) -> Seq<Seq<u8>> {
    seq![VAULT_AUTHORITY_SEED@, season_state_key.bytes@, seq![bump]]
}

/// The seeds in `seeds` are those of the season's authority.
pub open spec fn is_vault_authority(seeds: Seq<Vec<u8>>, season_state_key: Pubkey, bump: u8) -> bool {
    seeds.map_values(|seed: Vec<u8>| seed@) == vault_authority_seeds(season_state_key, bump)
}

/// Writes out the seeds of the season's authority.
pub fn vault_authority_signer_seeds(season_state_key: &Pubkey, bump: u8) -> (seeds: Vec<Vec<u8>>)
    ensures
        is_vault_authority(seeds@, *season_state_key, bump),
{
    let mut label: Vec<u8> = Vec::new();
    let mut i: usize = 0;
    while i < 15
        invariant
            i <= 15,
            label@ == VAULT_AUTHORITY_SEED@.take(i as int),
        decreases 15 - i,
    {
        label.push(VAULT_AUTHORITY_SEED[i]);
        i = i + 1;
        assert(label@ =~= VAULT_AUTHORITY_SEED@.take(i as int));
    }
    assert(label@ =~= VAULT_AUTHORITY_SEED@);

    let mut address: Vec<u8> = Vec::new();
    let mut j: usize = 0;
    while j < 32
        invariant
            j <= 32,
            address@ == season_state_key.bytes@.take(j as int),
        decreases 32 - j,
    {
        address.push(season_state_key.bytes[j]);
        j = j + 1;
        assert(address@ =~= season_state_key.bytes@.take(j as int));
    }
    assert(address@ =~= season_state_key.bytes@);

    let mut last: Vec<u8> = Vec::new();
    last.push(bump);
    assert(last@ =~= seq![bump]);

    let mut seeds: Vec<Vec<u8>> = Vec::new();
    seeds.push(label);
    seeds.push(address);
    seeds.push(last);
    assert(seeds@.map_values(|seed: Vec<u8>| seed@) =~= vault_authority_seeds(
        *season_state_key,
        bump,
    ));
    seeds
}

} // verus!
