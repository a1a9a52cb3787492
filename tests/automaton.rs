use eca_spectrum::{
    column_activities, column_activity, construct, construct_from_row, eca_rule_result,
    ConfigError, GridConfig,
};
use rand::rngs::StdRng;
use rand::SeedableRng;

fn rule110() -> Vec<usize> {
    vec![0, 1, 1, 0, 1, 1, 1, 0]
}

#[test]
fn rule_table_examples() {
    assert_eq!(eca_rule_result((1, 1, 0), rule110()), 1);
    assert_eq!(eca_rule_result((0, 0, 0), rule110()), 0);
    assert_eq!(eca_rule_result((1, 1, 1), rule110()), 0);
}

#[test]
fn rule_table_index_for_every_neighbourhood() {
    let rule = rule110();
    for a in 0..2usize {
        for b in 0..2usize {
            for c in 0..2usize {
                let idx = 7 - (4 * a + 2 * b + c);
                assert_eq!(eca_rule_result((a, b, c), rule.clone()), rule[idx]);
            }
        }
    }
}

#[test]
fn rule_table_single_entry_rules() {
    for idx in 0..8usize {
        let mut rule = vec![0usize; 8];
        rule[idx] = 1;
        let v = 7 - idx;
        let n = ((v >> 2) & 1, (v >> 1) & 1, v & 1);
        assert_eq!(eca_rule_result(n, rule.clone()), 1);
        let other = (v + 1) % 8;
        let m = ((other >> 2) & 1, (other >> 1) & 1, other & 1);
        assert_eq!(eca_rule_result(m, rule), 0);
    }
}

#[test]
fn rule_entry_other_than_one_gives_zero() {
    let rule = vec![2usize, 2, 2, 2, 2, 2, 2, 2];
    assert_eq!(eca_rule_result((0, 1, 0), rule), 0);
}

#[test]
fn end_to_end_grid_from_fixed_row() {
    let x = construct_from_row(vec![0, 1, 1, 0, 1], 3, &rule110());
    assert_eq!(x.len(), 3);
    assert_eq!(x[0], vec![0, 1, 1, 0, 1]);
    assert_eq!(x[1], vec![0, 1, 1, 1, 0]);
    assert_eq!(x[2], vec![0, 1, 0, 1, 0]);
}

#[test]
fn single_row_grid_is_row_zero() {
    let x = construct_from_row(vec![1, 0, 1], 1, &rule110());
    assert_eq!(x, vec![vec![1, 0, 1]]);
}

#[test]
fn narrow_grids_have_no_interior() {
    let x = construct_from_row(vec![1, 1], 3, &rule110());
    assert_eq!(x, vec![vec![1, 1], vec![0, 0], vec![0, 0]]);
    let y = construct_from_row(vec![1], 2, &rule110());
    assert_eq!(y, vec![vec![1], vec![0]]);
}

#[test]
fn all_ones_row_under_rule110() {
    let x = construct_from_row(vec![1, 1, 1, 1, 1, 1], 2, &rule110());
    assert_eq!(x[1], vec![0, 0, 0, 0, 0, 0]);
}

#[test]
fn constructed_grid_cells_are_bits_and_edges_zero() {
    let mut rng = StdRng::seed_from_u64(17);
    let (n, t) = (40usize, 30usize);
    let x = construct(n, t, &rule110(), &mut rng);
    assert_eq!(x.len(), t);
    for (m, row) in x.iter().enumerate() {
        assert_eq!(row.len(), n);
        assert!(row.iter().all(|&c| c <= 1));
        if m >= 1 {
            assert_eq!(row[0], 0);
            assert_eq!(row[n - 1], 0);
        }
    }
}

#[test]
fn constructed_grid_follows_rule_from_its_row_zero() {
    let mut rng = StdRng::seed_from_u64(3);
    let x = construct(25, 12, &rule110(), &mut rng);
    let y = construct_from_row(x[0].clone(), 12, &rule110());
    assert_eq!(x, y);
}

#[test]
fn row_zero_draws_both_values() {
    let mut rng = StdRng::seed_from_u64(11);
    let x = construct(200, 1, &rule110(), &mut rng);
    assert!(x[0].iter().any(|&c| c == 0));
    assert!(x[0].iter().any(|&c| c == 1));
}

#[test]
fn same_seed_gives_identical_grids() {
    let mut a = StdRng::seed_from_u64(2024);
    let mut b = StdRng::seed_from_u64(2024);
    let x = construct(50, 20, &rule110(), &mut a);
    let y = construct(50, 20, &rule110(), &mut b);
    assert_eq!(x, y);
    assert_eq!(column_activities(&x, 50), column_activities(&y, 50));
}

#[test]
fn column_activity_counts_active_steps() {
    let x = construct_from_row(vec![0, 1, 1, 0, 1], 3, &rule110());
    assert_eq!(column_activity(&x, 0), 0);
    assert_eq!(column_activity(&x, 1), 3);
    assert_eq!(column_activity(&x, 2), 2);
    assert_eq!(column_activity(&x, 3), 2);
    assert_eq!(column_activity(&x, 4), 1);
    assert_eq!(column_activities(&x, 5), vec![0, 3, 2, 2, 1]);
}

#[test]
fn column_activity_of_empty_grid_is_zero() {
    let x: Vec<Vec<usize>> = Vec::new();
    assert_eq!(column_activity(&x, 0), 0);
    assert_eq!(column_activities(&x, 0), Vec::<usize>::new());
}

fn config(columns: usize, time_steps: usize, rule: Vec<usize>, freq_steps: usize) -> GridConfig {
    GridConfig { columns, time_steps, rule, freq_steps }
}

#[test]
fn valid_config_is_accepted() {
    assert_eq!(config(5, 3, rule110(), 2).validate(), Ok(()));
    assert_eq!(config(700, 1024, rule110(), 100).validate(), Ok(()));
}

#[test]
fn invalid_configs_are_rejected() {
    assert_eq!(config(2, 3, rule110(), 2).validate(), Err(ConfigError::TooFewColumns));
    assert_eq!(config(5, 0, rule110(), 2).validate(), Err(ConfigError::NoTimeSteps));
    assert_eq!(config(5, 3, rule110(), 0).validate(), Err(ConfigError::NoFrequencySteps));
    assert_eq!(config(5, 3, vec![0, 1, 1], 2).validate(), Err(ConfigError::RuleLength));
    assert_eq!(
        config(5, 3, vec![0, 1, 1, 0, 1, 1, 1, 2], 2).validate(),
        Err(ConfigError::RuleEntry)
    );
    assert_eq!(config(0, 0, vec![], 0).validate(), Err(ConfigError::TooFewColumns));
}
