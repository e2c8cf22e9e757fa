//! The deployment environment a server runs in.
use vstd::prelude::*;
use vstd::string::*;
use crate::text::{lowercase, same_text, to_lowercase};

verus! {

/// Where the server is deployed. Each environment has its own settings file,
/// named after [`Environment::as_str`].
#[derive(Debug, Clone, Copy, PartialEq, Eq, Structural)]
pub enum Environment {
    Local,
    Production,
}

/// The name of an environment, as it appears in file names and variables.
pub open spec fn environment_name(environment: Environment) -> Seq<char> {
    match environment {
        Environment::Local => "local"@,
        Environment::Production => "production"@,
    }
}

/// What is appended to a rejected name to make the error message.
pub open spec fn unsupported_suffix() -> Seq<char> {
    " is not a supported environment. Use either `local` or `production`."@
}

/// The environment a lower-case name stands for, or the message that rejects it.
pub open spec fn environment_of_name(lower: Seq<char>) -> Result<Environment, Seq<char>> {
    if lower == "local"@ {
        Ok(Environment::Local)
    } else if lower == "production"@ {
        Ok(Environment::Production)
    } else {
        Err(lower + unsupported_suffix())
    }
}

/// Whether an exec result carries what the spec result says.
pub open spec fn matches_outcome(
    got: Result<Environment, String>,
    want: Result<Environment, Seq<char>>,
) -> bool {
    match (got, want) {
        (Ok(g), Ok(w)) => g == w,
        (Err(g), Err(w)) => g@ == w,
        _ => false,
    }
}

impl Environment {
    /// The name of this environment: `local` or `production`.
    pub fn as_str(&self) -> (name: &'static str)
        ensures
            name@ == environment_name(*self),
    {
        match self {
            Environment::Local => "local",
            Environment::Production => "production",
        }
    }

    /// Reads an environment from a name that is already in lower case.
    /// Exactly `local` and `production` are accepted; any other name comes
    /// back inside the error message.
    pub fn from_lowercase(lower: &str) -> (outcome: Result<Environment, String>)
        ensures
            matches_outcome(outcome, environment_of_name(lower@)),
    {
        if same_text(lower, "local") {
            Ok(Environment::Local)
        } else if same_text(lower, "production") {
            Ok(Environment::Production)
        } else {
            let message = String::from_str(lower).concat(
                " is not a supported environment. Use either `local` or `production`.",
            );
            Err(message)
        }
    }

    /// Reads an environment from a name in any letter case.
    pub fn try_from(name: String) -> (outcome: Result<Environment, String>)
        ensures
            matches_outcome(outcome, environment_of_name(lowercase(name@))),
    {
        let lower = to_lowercase(name.as_str());
        Environment::from_lowercase(lower.as_str())
    }
}

/// Every environment is read back from its own name.
pub proof fn lemma_name_round_trip(environment: Environment)
    ensures
        environment_of_name(environment_name(environment)) == Ok::<Environment, Seq<char>>(environment),
{
    reveal_strlit("local");
    reveal_strlit("production");
    if environment == Environment::Production {
        assert("production"@.len() == 10);
        assert("local"@.len() == 5);
    }
}

} // verus!
