pub mod global_config;
pub mod mint_reservation;
