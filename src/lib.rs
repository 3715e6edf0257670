pub mod booking;
pub mod cookies;
pub mod direction;
pub mod error;
pub mod fake_telescope;
pub mod order;
pub mod protocol;
pub mod registry;
pub mod secrets;
pub mod session;
pub mod telescope;
pub mod tracker;
pub mod user;
