pub mod proxy_service;
pub mod token_counter;
