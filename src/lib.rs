pub mod carrier;
pub mod chained;
pub mod command;
pub mod config;
pub mod disable;
pub mod explicit;
pub mod frequency;
pub mod packet;
