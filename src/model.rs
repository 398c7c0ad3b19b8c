pub mod character;
pub mod user;
