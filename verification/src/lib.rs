pub mod action;
pub mod client;
pub mod codec;
pub mod config;
pub mod dispatch;
pub mod ledger;
pub mod protocol;
pub mod supervisor;
