pub mod text;
pub mod exchange;
pub mod exchanges;
pub mod data;
pub mod charts;
pub mod chart;
pub mod data_providers;
pub mod aggr;
