//! Elementary cellular automaton on a fixed-boundary grid, with the integer
//! parts of a per-column spectral estimate.
mod coin;
mod config;
mod grid;
mod rule;
mod spectrum;

pub use config::{config_error, ConfigError, GridConfig};
pub use grid::{
    cells, construct, construct_from_row, is_bit_row, is_grid_of, lemma_grid_determined,
    lemma_row_at, next_row, row_at,
};
pub use rule::{eca_rule_result, is_bit, is_rule, rule_index, rule_output};
pub use spectrum::{column_activities, column_activity, column_sum, has_bit_column};
