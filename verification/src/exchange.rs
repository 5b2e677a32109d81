pub mod adapter;
pub mod binance;
pub mod depth;
pub mod info;
pub mod limiter;
