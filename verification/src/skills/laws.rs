//! Laws of skill search.

use vstd::prelude::*;

use crate::skills::loader::{matching, skill_matches};
use crate::text::{contains_seq, lowercased};
use crate::skills::types::Skill;

verus! {

/// A search gives back exactly the skills that match, in their order: each
/// result matches and is one of the skills, and each matching skill is found.
pub proof fn law_search_results(skills: Seq<Skill>, keyword: Seq<char>)
    ensures
        matching(skills, keyword).len() <= skills.len(),
        forall|i: int| 0 <= i < matching(skills, keyword).len() ==> skill_matches(#[trigger] matching(skills, keyword)[i], keyword)
            && skills.contains(matching(skills, keyword)[i]),
        forall|i: int| 0 <= i < skills.len() && skill_matches(#[trigger] skills[i], keyword) ==> matching(skills, keyword).contains(skills[i]),
    decreases skills.len(),
{
    if skills.len() > 0 {
        let init = skills.subrange(0, skills.len() - 1);
        law_search_results(init, keyword);
        let last = skills[skills.len() - 1];
        let m = matching(skills, keyword);
        let mi = matching(init, keyword);
        assert forall|i: int| 0 <= i < m.len() implies skill_matches(#[trigger] m[i], keyword) && skills.contains(m[i]) by {
            if i < mi.len() {
                assert(m[i] == mi[i]);
                let j = choose|j: int| 0 <= j < init.len() && init[j] == mi[i];
                assert(skills[j] == init[j]);
            } else {
                assert(m[i] == last);
                assert(skills[skills.len() - 1] == last);
            }
        }
        assert forall|i: int| 0 <= i < skills.len() && skill_matches(#[trigger] skills[i], keyword) implies m.contains(skills[i]) by {
            if i < init.len() {
                assert(init[i] == skills[i]);
                let j = choose|j: int| 0 <= j < mi.len() && mi[j] == init[i];
                assert(m[j] == mi[j]);
            } else {
                assert(m[m.len() - 1] == last);
            }
        }
    }
}

/// Search is by name, description or content, ignoring case: a skill whose
/// lowercased name, description or content contains the lowercased keyword is
/// among the results; and every result contains the lowercased keyword in one
/// of those three, lowercased.
pub proof fn law_search_by_name_description_or_content(skills: Seq<Skill>, keyword: Seq<char>)
    ensures
        forall|i: int| 0 <= i < skills.len()
            && (contains_seq(lowercased((#[trigger] skills[i]).skill_metadata.name@), lowercased(keyword))
                || contains_seq(lowercased(skills[i].skill_metadata.description@), lowercased(keyword))
                || contains_seq(lowercased(skills[i].content@), lowercased(keyword)))
            ==> matching(skills, keyword).contains(skills[i]),
        forall|i: int| 0 <= i < matching(skills, keyword).len() ==> {
            let sk = #[trigger] matching(skills, keyword)[i];
            contains_seq(lowercased(sk.skill_metadata.name@), lowercased(keyword))
                || contains_seq(lowercased(sk.skill_metadata.description@), lowercased(keyword))
                || contains_seq(lowercased(sk.content@), lowercased(keyword))
        },
{
    law_search_results(skills, keyword);
    assert forall|i: int| 0 <= i < skills.len()
        && (contains_seq(lowercased((#[trigger] skills[i]).skill_metadata.name@), lowercased(keyword))
            || contains_seq(lowercased(skills[i].skill_metadata.description@), lowercased(keyword))
            || contains_seq(lowercased(skills[i].content@), lowercased(keyword)))
        implies matching(skills, keyword).contains(skills[i]) by {
        assert(skill_matches(skills[i], keyword));
    }
    assert forall|i: int| 0 <= i < matching(skills, keyword).len() implies {
        let sk = #[trigger] matching(skills, keyword)[i];
        contains_seq(lowercased(sk.skill_metadata.name@), lowercased(keyword))
            || contains_seq(lowercased(sk.skill_metadata.description@), lowercased(keyword))
            || contains_seq(lowercased(sk.content@), lowercased(keyword))
    } by {
        assert(skill_matches(matching(skills, keyword)[i], keyword));
    }
}

} // verus!
