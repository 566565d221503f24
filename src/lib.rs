pub mod display;
pub mod replies;
pub mod store;
pub mod access;
pub mod capture;
pub mod poll;
pub mod hug;
