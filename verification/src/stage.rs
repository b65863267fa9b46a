//! The stage that the service runs in.

use vstd::prelude::*;

verus! {

/// Where the service runs.
#[derive(Clone, Copy, Debug, PartialEq, Eq, Structural)]
pub enum Stage {
    Local,
    Development,
    Production,
}

/// A text that names no stage.
#[derive(Clone, Copy, Debug, PartialEq, Eq, Structural)]
pub struct InvalidStage {}

impl InvalidStage {
    /// The sentence shown to the caller.
    pub fn to_string(&self) -> (text: String)
        ensures
            text@ == "Invalid stage"@,
    {
        "Invalid stage".to_owned()
    }
}

impl Default for Stage {
    fn default() -> (stage: Stage)
        ensures
            stage == Stage::Development,
    {
        Stage::Development
    }
}

impl Stage {
    /// The text that names the stage.
    pub open spec fn name(self) -> Seq<char> {
        match self {
            Stage::Local => "Local"@,
            Stage::Development => "Development"@,
            Stage::Production => "Production"@,
        }
    }

    /// The stage by its name.
    pub fn to_string(&self) -> (text: String)
        ensures
            text@ == self.name(),
    {
        match self {
            Stage::Local => "Local".to_owned(),
            Stage::Development => "Development".to_owned(),
            Stage::Production => "Production".to_owned(),
        }
    }

    /// The stage that the text names, letter for letter; an error for a text
    /// that names none.
    pub fn try_form(stage: &str) -> (found: Result<Stage, InvalidStage>)
        ensures
            match found {
                Ok(s) => stage@ == s.name(),
                Err(_) => forall|s: Stage| stage@ != s.name(),
            },
    {
        let given = stage.to_owned();
        if given == "Local".to_owned() {
            Ok(Stage::Local)
        } else if given == "Development".to_owned() {
            Ok(Stage::Development)
        } else if given == "Production".to_owned() {
            Ok(Stage::Production)
        } else {
            Err(InvalidStage {  })
        }
    }

    /// The stage that the text names, and `Development` for a text that names
    /// none.
    pub fn from_text_or_default(stage: &str) -> (found: Stage)
        ensures
            stage@ == found.name() || (found == Stage::Development && forall|s: Stage|
                stage@ != s.name()),
    {
        match Stage::try_form(stage) {
            Ok(s) => s,
            Err(_) => Stage::default(),
        }
    }
}

/// Two stages with the same name are the same stage, so a text names at most
/// one.
pub proof fn stage_names_are_distinct(a: Stage, b: Stage)
    requires
        a.name() == b.name(),
    ensures
        a == b,
{
    reveal_strlit("Local");
    reveal_strlit("Development");
    reveal_strlit("Production");
    assert("Local"@.len() == 5);
    assert("Development"@.len() == 11);
    assert("Production"@.len() == 10);
}

} // verus!
