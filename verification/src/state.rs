pub mod config;
pub mod nft_stack;
pub mod pubkey;
pub mod user;
