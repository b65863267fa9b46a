//! The lifecycle status of a quest and the transitions between statuses.

use vstd::prelude::*;

verus! {

/// Where a quest stands in its lifecycle.
#[derive(Clone, Copy, Debug, PartialEq, Eq, Structural)]
pub enum QuestStatuses {
    Open,
    InJourney,
    Completed,
    Failed,
}

impl Default for QuestStatuses {
    fn default() -> (status: QuestStatuses)
        ensures
            status == QuestStatuses::Open,
    {
        QuestStatuses::Open
    }
}

impl QuestStatuses {
    /// The text under which the status is stored and shown.
    pub open spec fn name(self) -> Seq<char> {
        match self {
            QuestStatuses::Open => "Open"@,
            QuestStatuses::InJourney => "InJourney"@,
            QuestStatuses::Completed => "Completed"@,
            QuestStatuses::Failed => "Failed"@,
        }
    }

    /// A crew may be changed while the quest is `Open` or `Failed`.
    pub open spec fn roster_is_open(self) -> bool {
        self == QuestStatuses::Open || self == QuestStatuses::Failed
    }

    /// The edges of the lifecycle: a quest departs from `Open` or `Failed`,
    /// and a journey ends in `Completed` or `Failed`. Nothing leaves `Completed`.
    pub open spec fn transition_allowed(current: QuestStatuses, target: QuestStatuses) -> bool {
        match target {
            QuestStatuses::InJourney => current.roster_is_open(),
            QuestStatuses::Completed => current == QuestStatuses::InJourney,
            QuestStatuses::Failed => current == QuestStatuses::InJourney,
            QuestStatuses::Open => false,
        }
    }

    /// The status by its name.
    pub fn to_string(&self) -> (text: String)
        ensures
            text@ == self.name(),
    {
        match self {
            QuestStatuses::Open => "Open".to_owned(),
            QuestStatuses::InJourney => "InJourney".to_owned(),
            QuestStatuses::Completed => "Completed".to_owned(),
            QuestStatuses::Failed => "Failed".to_owned(),
        }
    }

    /// Reads a status back from its stored text; `None` for any other text.
    pub fn parse(text: &str) -> (status: Option<QuestStatuses>)
        ensures
            match status {
                Some(s) => text@ == s.name(),
                None => forall|s: QuestStatuses| text@ != s.name(),
            },
    {
        let given = text.to_owned();
        if given == "Open".to_owned() {
            Some(QuestStatuses::Open)
        } else if given == "InJourney".to_owned() {
            Some(QuestStatuses::InJourney)
        } else if given == "Completed".to_owned() {
            Some(QuestStatuses::Completed)
        } else if given == "Failed".to_owned() {
            Some(QuestStatuses::Failed)
        } else {
            None
        }
    }

    /// May a crew be changed in this status?
    pub fn can_join(&self) -> (open: bool)
        ensures
            open == self.roster_is_open(),
    {
        *self == QuestStatuses::Open || *self == QuestStatuses::Failed
    }

    /// Whether the lifecycle has an edge from `current` to `target`.
    pub fn can_transition(current: QuestStatuses, target: QuestStatuses) -> (allowed: bool)
        ensures
            allowed == QuestStatuses::transition_allowed(current, target),
    {
        match target {
            QuestStatuses::InJourney => current.can_join(),
            QuestStatuses::Completed => current == QuestStatuses::InJourney,
            QuestStatuses::Failed => current == QuestStatuses::InJourney,
            QuestStatuses::Open => false,
        }
    }
}

/// The statuses from which the lifecycle leads to `target` in one step. A
/// store that changes a status compares the quest's status with these at the
/// moment of the change.
pub fn sources_of(target: QuestStatuses) -> (sources: Vec<QuestStatuses>)
    ensures
        forall|current: QuestStatuses|
            sources@.contains(current) <==> QuestStatuses::transition_allowed(current, target),
        sources@.no_duplicates(),
{
    let mut sources: Vec<QuestStatuses> = Vec::new();
    if QuestStatuses::can_transition(QuestStatuses::Open, target) {
        sources.push(QuestStatuses::Open);
    }
    if QuestStatuses::can_transition(QuestStatuses::InJourney, target) {
        sources.push(QuestStatuses::InJourney);
    }
    if QuestStatuses::can_transition(QuestStatuses::Failed, target) {
        sources.push(QuestStatuses::Failed);
    }
    proof {
        assert forall|current: QuestStatuses|
            QuestStatuses::transition_allowed(current, target) implies sources@.contains(current) by {
            if current == QuestStatuses::Open {
                assert(sources@[0] == current);
            } else if current == QuestStatuses::InJourney {
                assert(sources@[0] == current);
            } else {
                assert(current == QuestStatuses::Failed);
                assert(sources@[sources@.len() - 1] == current);
            }
        }
    }
    sources
}

/// Two statuses with the same name are the same status.
pub proof fn names_are_distinct(a: QuestStatuses, b: QuestStatuses)
    requires
        a.name() == b.name(),
    ensures
        a == b,
{
    reveal_strlit("Open");
    reveal_strlit("InJourney");
    reveal_strlit("Completed");
    reveal_strlit("Failed");
    assert("Open"@.len() == 4 && "Failed"@.len() == 6);
    assert("InJourney"@.len() == 9 && "InJourney"@[0] == 'I');
    assert("Completed"@.len() == 9 && "Completed"@[0] == 'C');
}

} // verus!
