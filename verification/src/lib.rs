//! The rules of a BITZ mining pool: who may connect, what clients send, what they may claim and
//! how claims are paid.

pub mod accounts;
pub mod app_rr_database;
pub mod authentication;
pub mod bitz_utils;
pub mod claims;
pub mod database_error;
pub mod decimal;
pub mod epoch;
pub mod instruction;
pub mod login;
pub mod messages;
pub mod onchain;
pub mod pubkey;
pub mod queue;
pub mod registry;
pub mod reply;
pub mod router;
pub mod signature;
pub mod signup;
pub mod sockets;
pub mod startup;
pub mod stats;
pub mod systems;
