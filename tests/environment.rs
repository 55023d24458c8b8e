use service_dependencies::environment::{
    select_environment, Environment, EnvironmentFlags, SelectionError,
};

fn flags(beta: bool, dev: bool, test: bool) -> EnvironmentFlags {
    EnvironmentFlags { beta, dev, test }
}

#[test]
fn no_flag_selects_production() {
    assert_eq!(select_environment(flags(false, false, false)), Ok(Environment::Production));
}

#[test]
fn each_single_flag_selects_its_environment() {
    assert_eq!(select_environment(flags(true, false, false)), Ok(Environment::Beta));
    assert_eq!(select_environment(flags(false, true, false)), Ok(Environment::Development));
    assert_eq!(select_environment(flags(false, false, true)), Ok(Environment::Test));
}

#[test]
fn conflicting_flags_select_nothing() {
    let conflict = Err(SelectionError::ConflictingFlags);
    assert_eq!(select_environment(flags(true, true, false)), conflict);
    assert_eq!(select_environment(flags(true, false, true)), conflict);
    assert_eq!(select_environment(flags(false, true, true)), conflict);
    assert_eq!(select_environment(flags(true, true, true)), conflict);
}
