//! What the program keeps on record.

pub mod trading_account;
