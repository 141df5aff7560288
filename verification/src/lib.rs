//! Network access control core: reconciliation of authorization state
//! against a kernel packet-filter allow set, the control protocol between
//! the reconciliation engine and the enforcement agent, and the enforcement
//! backend that drives the external filter-management tool.

pub mod agent;
pub mod auth;
pub mod device;
pub mod engine;
pub mod errors;
pub mod login;
pub mod mac;
pub mod model;
pub mod nft;
pub mod protocol;
pub mod text;
pub mod user;
