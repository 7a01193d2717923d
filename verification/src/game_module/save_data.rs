pub mod save_data;
pub mod tally;
