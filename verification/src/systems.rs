//! What runs beside the requests.

pub mod claim_system;
