pub mod access;
pub mod account;
pub mod balance;
pub mod crypto;
pub mod data;
pub mod store;
pub mod tokens;
pub mod transact;
pub mod user_quest;
