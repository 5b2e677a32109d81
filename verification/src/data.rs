pub mod aggr;
pub mod chart;
pub mod config;
pub mod layout;
pub mod util;
