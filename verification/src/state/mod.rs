pub mod vault;
pub mod event;
pub mod pool;
pub mod user;
pub mod house;
pub mod market;
pub mod bet;
