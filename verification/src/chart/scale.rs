pub mod timeseries;
