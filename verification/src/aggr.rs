pub use crate::data_providers::TickMultiplier;
