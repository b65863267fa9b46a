//! The read path: which quests a filter lets through.

use vstd::prelude::*;
use crate::board_checking_filter::BoardCheckingFilter;
use crate::quest_statuses::QuestStatuses;
use crate::quests::QuestEntity;
use crate::text::{fold_text, folded};

verus! {

/// `part` stands in `text` at place `at`, character for character.
pub open spec fn stands_at(text: Seq<char>, part: Seq<char>, at: int) -> bool {
    &&& 0 <= at
    &&& at + part.len() <= text.len()
    &&& forall|k: int| 0 <= k < part.len() ==> #[trigger] text[at + k] == part[k]
}

/// `part` stands somewhere in `text`, character for character.
pub open spec fn stands_in(text: Seq<char>, part: Seq<char>) -> bool {
    exists|at: int| stands_at(text, part, at)
}

/// `needle` stands somewhere in `name`, letter case aside: the needle
/// without its case stands in the name without its case.
pub open spec fn name_holds(name: Seq<char>, needle: Seq<char>) -> bool {
    stands_in(folded(name), folded(needle))
}

/// The filter lets the quest through: every field that is set agrees.
pub open spec fn filter_accepts(filter: BoardCheckingFilter, quest: QuestEntity) -> bool {
    &&& match filter.name {
        Some(needle) => name_holds(quest.name@, needle@),
        None => true,
    }
    &&& match filter.status {
        Some(status) => quest.status == status,
        None => true,
    }
}

/// Does `part` stand in `text` at place `at`?
fn found_at(text: &Vec<char>, part: &Vec<char>, at: usize) -> (found: bool)
    requires
        at + part@.len() <= text@.len(),
    ensures
        found == stands_at(text@, part@, at as int),
{
    let mut k: usize = 0;
    let n: usize = text.len();
    while k < part.len()
        invariant
            k <= part@.len(),
            at + part@.len() <= text@.len(),
            text@.len() == n,
            forall|j: int| 0 <= j < k ==> #[trigger] text@[at + j] == part@[j],
        decreases part@.len() - k,
    {
        if text[at + k] != part[k] {
            return false;
        }
        k += 1;
    }
    true
}

/// Does `part` stand somewhere in `text`, character for character?
pub fn found_in(text: &Vec<char>, part: &Vec<char>) -> (found: bool)
    ensures
        found == stands_in(text@, part@),
{
    if part.len() == 0 {
        proof {
            assert(stands_at(text@, part@, 0));
        }
        return true;
    }
    if part.len() > text.len() {
        return false;
    }
    let last: usize = text.len() - part.len();
    let mut at: usize = 0;
    while at <= last
        invariant
            last == text@.len() - part@.len(),
            last < usize::MAX,
            at <= last + 1,
            forall|j: int| 0 <= j < at ==> !stands_at(text@, part@, j),
        decreases last + 1 - at,
    {
        if found_at(text, part, at) {
            return true;
        }
        at += 1;
    }
    false
}

/// Does `needle` stand somewhere in `name`, letter case aside?
pub fn holds(name: &str, needle: &str) -> (found: bool)
    ensures
        found == name_holds(name@, needle@),
{
    let text = fold_text(name);
    let part = fold_text(needle);
    found_in(&text, &part)
}

/// Does the filter let the quest through? `needle` holds the filter's name
/// without its case, where the filter has one.
pub fn accepts(needle: &Option<Vec<char>>, status: Option<QuestStatuses>, quest: &QuestEntity) -> (
    through: bool)
    ensures
        through == ({
            &&& match needle {
                Some(n) => stands_in(folded(quest.name@), n@),
                None => true,
            }
            &&& match status {
                Some(s) => quest.status == s,
                None => true,
            }
        }),
{
    let name_agrees = match needle {
        Some(n) => {
            let name = fold_text(quest.name.as_str());
            found_in(&name, n)
        },
        None => true,
    };
    let status_agrees = match status {
        Some(s) => quest.status == s,
        None => true,
    };
    name_agrees && status_agrees
}

/// The quests among `quests` that the filter lets through, in their order.
pub open spec fn kept(filter: BoardCheckingFilter, quests: Seq<QuestEntity>) -> Seq<QuestEntity>
    decreases quests.len(),
{
    if quests.len() == 0 {
        Seq::empty()
    } else if filter_accepts(filter, quests.last()) {
        kept(filter, quests.drop_last()).push(quests.last())
    } else {
        kept(filter, quests.drop_last())
    }
}

/// Narrows what a store handed out to what the filter lets through, and
/// keeps the order.
pub fn matching(filter: &BoardCheckingFilter, quests: &Vec<QuestEntity>) -> (found: Vec<QuestEntity>)
    ensures
        found@ == kept(*filter, quests@),
{
    let needle: Option<Vec<char>> = match &filter.name {
        Some(name) => Some(fold_text(name.as_str())),
        None => None,
    };
    let mut found: Vec<QuestEntity> = Vec::new();
    let mut i: usize = 0;
    while i < quests.len()
        invariant
            i <= quests@.len(),
            match needle {
                Some(n) => filter.name is Some && n@ == folded(filter.name->0@),
                None => filter.name is None,
            },
            found@ == kept(*filter, quests@.take(i as int)),
        decreases quests@.len() - i,
    {
        proof {
            assert(quests@.take(i + 1).drop_last() =~= quests@.take(i as int));
            assert(quests@.take(i + 1).last() == quests@[i as int]);
        }
        if accepts(&needle, filter.status, &quests[i]) {
            found.push(quests[i].clone());
        }
        i += 1;
    }
    proof {
        assert(quests@.take(quests@.len() as int) =~= quests@);
    }
    found
}

} // verus!
