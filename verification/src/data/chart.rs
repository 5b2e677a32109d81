pub mod indicator;
pub mod indicators;
pub mod kline;
pub mod timeandsales;
