pub mod actor;
pub mod character;
pub mod clips;
pub mod data;
pub mod manager;
pub mod stats;
