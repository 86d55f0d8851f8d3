pub mod repository;
pub mod status;
pub mod provider;
pub mod keys;
