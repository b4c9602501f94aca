pub mod admin;
pub mod lifecycle;
pub mod test;
pub mod user;
