//! The settings of a deployment.

use crate::errors::Errors;
use vstd::prelude::*;
use vstd::string::StringExecFns;

verus! {

#[verifier::external_type_specification]
#[verifier::external_body]
pub struct ExLogLevel(log::Level);

/// The lower-case form that `str::to_lowercase` gives a text.
pub uninterp spec fn lowercase(text: Seq<char>) -> Seq<char>;

/// `str::to_lowercase`: the lower-case equivalent of a text, by the
/// Unicode rules.
#[verifier::external_body]
fn str_to_lowercase(text: &str) -> (lower: String)
    ensures
        lower@ == lowercase(text@),
{
    text.to_lowercase()
}

/// Where the service runs.
#[derive(Clone, Copy, Debug, PartialEq, Eq, Structural)]
pub enum Stage {
    Local,
    Test,
    Prod,
}

/// The stage that a lower-case name denotes.
pub open spec fn stage_named(name: Seq<char>) -> Result<Stage, Errors> {
    if name == "local"@ {
        Ok(Stage::Local)
    } else if name == "test"@ {
        Ok(Stage::Test)
    } else if name == "prod"@ {
        Ok(Stage::Prod)
    } else {
        Err(Errors::StageParseError)
    }
}

/// The lower-case name of a stage.
pub open spec fn stage_name(stage: Stage) -> Seq<char> {
    match stage {
        Stage::Local => "local"@,
        Stage::Test => "test"@,
        Stage::Prod => "prod"@,
    }
}

/// Whether two texts are the same.
pub fn same_text(a: &str, b: &str) -> (same: bool)
    ensures
        same == (a@ == b@),
{
    String::from_str(a) == String::from_str(b)
}

impl Stage {
    /// The stage that a name denotes, whatever the case of its letters.
    pub fn parse(s: &str) -> (r: Result<Stage, Errors>)
        ensures
            r == stage_named(lowercase(s@)),
    {
        let lower = str_to_lowercase(s);
        Stage::from_lowercase(lower.as_str())
    }

    /// The stage that a lower-case name denotes: `local`, `test` or `prod`.
    pub fn from_lowercase(name: &str) -> (r: Result<Stage, Errors>)
        ensures
            r == stage_named(name@),
    {
        if same_text(name, "local") {
            Ok(Stage::Local)
        } else if same_text(name, "test") {
            Ok(Stage::Test)
        } else if same_text(name, "prod") {
            Ok(Stage::Prod)
        } else {
            Err(Errors::StageParseError)
        }
    }

    /// The lower-case name of the stage. It denotes the stage again.
    pub fn name(&self) -> (text: String)
        ensures
            text@ == stage_name(*self),
            stage_named(text@) == Ok::<Stage, Errors>(*self),
    {
        proof {
            reveal_strlit("local");
            reveal_strlit("test");
            reveal_strlit("prod");
        }
        match self {
            Stage::Local => String::from_str("local"),
            Stage::Test => {
                assert("test"@ != "local"@) by {
                    assert("test"@[0] != "local"@[0]);
                }
                String::from_str("test")
            },
            Stage::Prod => {
                assert("prod"@ != "local"@) by {
                    assert("prod"@[0] != "local"@[0]);
                }
                assert("prod"@ != "test"@) by {
                    assert("prod"@[0] != "test"@[0]);
                }
                String::from_str("prod")
            },
        }
    }
}

impl std::str::FromStr for Stage {
    type Err = Errors;

    fn from_str(s: &str) -> (r: Result<Stage, Errors>)
        ensures
            r == stage_named(lowercase(s@)),
    {
        Stage::parse(s)
    }
}

/// The settings of a deployment.
#[derive(Debug)]
pub struct Config {
    pub db_url: String,
    pub db_token: Option<String>,
    pub stage: Stage,
    pub log_level: log::Level,
}

impl Config {
    /// The settings for the given values, the stage given by its name.
    pub fn new(db_url: String, db_token: Option<String>, stage: &str, log_level: log::Level) -> (r:
        Result<Config, Errors>)
        ensures
            match stage_named(lowercase(stage@)) {
                Ok(parsed) => r is Ok && r->Ok_0.stage == parsed && r->Ok_0.db_url == db_url
                    && r->Ok_0.db_token == db_token && r->Ok_0.log_level == log_level,
                Err(e) => r is Err && r->Err_0 == e,
            },
    {
        match Stage::parse(stage) {
            Ok(stage) => Ok(Config { db_url, db_token, stage, log_level }),
            Err(e) => Err(e),
        }
    }
}

} // verus!
