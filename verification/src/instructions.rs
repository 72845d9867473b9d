pub mod claim;
pub mod initialize_config;
pub mod initialize_user;
pub mod stack;
pub mod unstack;
