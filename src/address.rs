use vstd::prelude::*;

verus! {

/// A 32-byte account address on the ledger.
#[derive(Clone, Copy, Debug)]
pub struct Address {
    pub bytes: [u8; 32],
}

impl View for Address {
    type V = Seq<u8>;

    open spec fn view(&self) -> Seq<u8> {
        self.bytes@
    }
}

/// The associated token account address of a wallet for a mint, as derived by
/// the associated token account program from the wallet, the token program and
/// the mint.
pub uninterp spec fn associated_address_of(wallet: Seq<u8>, mint: Seq<u8>) -> Seq<u8>;

impl Address {
    pub fn new(bytes: [u8; 32]) -> (r: Address)
        ensures
            r.bytes == bytes,
    {
        Address { bytes }
    }
}

/// Relies on spl_associated_token_account::get_associated_token_address: the
/// address it derives depends on the wallet and the mint alone (the program
/// ids are fixed). It panics only where no bump seed gives an off-curve
/// address, which does not happen in practice.
#[verifier::external_body]
pub(crate) fn derive_associated_address(wallet: &Address, mint: &Address) -> (r: Address)
    ensures
        r@ == associated_address_of(wallet@, mint@),
{
    let wallet_key = spl_associated_token_account::solana_program::pubkey::Pubkey::new_from_array(wallet.bytes);
    let mint_key = spl_associated_token_account::solana_program::pubkey::Pubkey::new_from_array(mint.bytes);
    let derived = spl_associated_token_account::get_associated_token_address(&wallet_key, &mint_key);
    Address { bytes: derived.to_bytes() }
}

} // verus!
