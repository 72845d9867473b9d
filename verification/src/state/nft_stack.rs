use vstd::prelude::*;
use crate::state::pubkey::Pubkey;

verus! {

/// The record of one stacked NFT.
#[derive(Clone, Copy, Debug, PartialEq, Eq)]
pub struct NFTStack {
    pub nft_mint: Pubkey,
    pub owner: Pubkey,
    /// Unix time (seconds) at which the NFT was stacked.
    pub stack_time_at: i64,
    pub nft_stack_bump: u8,
}

/// The parts of the signer seeds of a stack record that vary: the user record's
/// address, the NFT's mint and the bump. The seed list is
/// `[USER_NFT, user_account, nft_mint, [bump]]`.
#[derive(Clone, Copy, Debug, PartialEq, Eq)]
pub struct NftStackSigner {
    pub user_account: Pubkey,
    pub nft_mint: Pubkey,
    pub bump: u8,
}

} // verus!
