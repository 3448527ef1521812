use vstd::prelude::*;

use crate::address::{find_program_address, found_program_address, seeds_view, Address};
use crate::fee::{BPS_DENOMINATOR, PROTOCOL_FEE_BPS};
use crate::vault::derivation_view;

verus! {

/// The protocol's settings: who manages them, who receives fees, the fee
/// rate in basis points, and the bump of the record's own derived address.
#[derive(Debug, Clone, Copy)]
pub struct ProtocolConfig {
    pub authority: Address,
    pub fee_recipient: Address,
    pub fee_bps: u64,
    pub bump: u8,
}

impl ProtocolConfig {
    /// The fee rate is at most a whole.
    pub open spec fn wf(&self) -> bool {
        self.fee_bps <= BPS_DENOMINATOR
    }

    /// The fee rate in basis points.
    pub fn fee_bps(&self) -> (r: u64)
        ensures
            r == self.fee_bps,
    {
        self.fee_bps
    }
}

/// The seed tag of the config record: the bytes of `protocol_config`.
pub open spec fn config_tag() -> Seq<u8> {
    seq![112u8, 114, 111, 116, 111, 99, 111, 108, 95, 99, 111, 110, 102, 105, 103]
}

/// The derived address of the config record under `program_id`, with its
/// canonical bump.
pub open spec fn config_address_of(program_id: Address) -> Option<(Seq<u8>, u8)> {
    found_program_address(seq![config_tag()], program_id@)
}

/// Derives the address of the config record, from the tag alone, and its
/// canonical bump.
pub fn derive_config_address(program_id: &Address) -> (r: Option<(Address, u8)>)
    ensures
        derivation_view(r) == config_address_of(*program_id),
{
    let tag: Vec<u8> = vec![112u8, 114, 111, 116, 111, 99, 111, 108, 95, 99, 111, 110, 102, 105, 103];
    let seeds: Vec<Vec<u8>> = vec![tag];
    assert(seeds_view(seeds@) =~= seq![config_tag()]);
    find_program_address(&seeds, program_id)
}

/// The config record created for the given manager, fee recipient and bump.
pub open spec fn initialized(authority: Address, fee_recipient: Address, bump: u8) -> ProtocolConfig {
    ProtocolConfig { authority, fee_recipient, fee_bps: PROTOCOL_FEE_BPS, bump }
}

/// Creates the config record at its derived address under `program_id`,
/// storing the canonical bump of that address. The fee rate is always the
/// protocol's fixed rate, whoever creates it. Nothing is created where no
/// address can be derived.
pub fn initialize(authority: &Address, fee_recipient: &Address, program_id: &Address) -> (r: Option<ProtocolConfig>)
    ensures
        r == match config_address_of(*program_id) {
            Some(found) => Some(initialized(*authority, *fee_recipient, found.1)),
            None => None::<ProtocolConfig>,
        },
        r is Some ==> r->Some_0.wf(),
{
    match derive_config_address(program_id) {
        Some((_, bump)) => Some(
            ProtocolConfig { authority: *authority, fee_recipient: *fee_recipient, fee_bps: PROTOCOL_FEE_BPS, bump },
        ),
        None => None,
    }
}

/// A config just created reads back a fee rate of exactly 100 basis points,
/// whatever the manager, fee recipient and bump it was created with.
pub proof fn lemma_initialized_fee_fixed(authority: Address, fee_recipient: Address, bump: u8)
    ensures
        initialized(authority, fee_recipient, bump).fee_bps == 100,
        initialized(authority, fee_recipient, bump).wf(),
{
}

} // verus!
