pub mod account;
pub mod address;
pub mod encoding;
pub mod errors;
pub mod keycrypt;
pub mod service;
