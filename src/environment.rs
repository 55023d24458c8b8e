use vstd::prelude::*;

verus! {

/// The environments a build can target; each has one bundle of dependencies.
#[derive(PartialEq, Eq, Structural, Clone, Copy, Debug)]
pub enum Environment {
    Production,
    Beta,
    Development,
    Test,
}

/// The environment flags a build was configured with. None set means production.
#[derive(PartialEq, Eq, Structural, Clone, Copy, Debug)]
pub struct EnvironmentFlags {
    pub beta: bool,
    pub dev: bool,
    pub test: bool,
}

/// Why a configuration selects no environment.
#[derive(PartialEq, Eq, Structural, Clone, Copy, Debug)]
pub enum SelectionError {
    /// More than one environment flag is set.
    ConflictingFlags,
}

pub open spec fn count(b: bool) -> nat {
    if b {
        1
    } else {
        0
    }
}

/// How many environment flags are set.
pub open spec fn flags_set(f: EnvironmentFlags) -> nat {
    count(f.beta) + count(f.dev) + count(f.test)
}

/// A configuration is valid when its flags exclude one another.
pub open spec fn valid_flags(f: EnvironmentFlags) -> bool {
    flags_set(f) <= 1
}

/// `f` calls for environment `e`: its flag is set, or, for production, no flag is.
pub open spec fn calls_for(f: EnvironmentFlags, e: Environment) -> bool {
    match e {
        Environment::Production => flags_set(f) == 0,
        Environment::Beta => f.beta,
        Environment::Development => f.dev,
        Environment::Test => f.test,
    }
}

/// The environment that `flags` calls for; an error where two or more flags are set.
pub fn select_environment(flags: EnvironmentFlags) -> (r: Result<Environment, SelectionError>)
    ensures
        r.is_ok() == valid_flags(flags),
        r matches Ok(e) ==> calls_for(flags, e),
        r matches Err(err) ==> err == SelectionError::ConflictingFlags,
{
    if (flags.beta && flags.dev) || (flags.beta && flags.test) || (flags.dev && flags.test) {
        Err(SelectionError::ConflictingFlags)
    } else if flags.beta {
        Ok(Environment::Beta)
    } else if flags.dev {
        Ok(Environment::Development)
    } else if flags.test {
        Ok(Environment::Test)
    } else {
        Ok(Environment::Production)
    }
}

/// Every valid configuration calls for exactly one environment, and one without flags calls
/// for production.
pub proof fn lemma_selection_exhaustive_exclusive(f: EnvironmentFlags)
    requires
        valid_flags(f),
    ensures
        exists|e: Environment| calls_for(f, e),
        forall|a: Environment, b: Environment| calls_for(f, a) && calls_for(f, b) ==> a == b,
        flags_set(f) == 0 ==> calls_for(f, Environment::Production),
{
    if f.beta {
        assert(calls_for(f, Environment::Beta));
    } else if f.dev {
        assert(calls_for(f, Environment::Development));
    } else if f.test {
        assert(calls_for(f, Environment::Test));
    } else {
        assert(calls_for(f, Environment::Production));
    }
}

} // verus!
