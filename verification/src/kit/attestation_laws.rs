//! What an attestation says of the lockfile that it was made from.

use vstd::prelude::*;

use crate::ir::primitives::FeatureId;
use crate::keyed;
use crate::kit::lockfile;
use crate::kit::manifest::ActionDefinitionStatic;
use crate::wire::Wire;

verus! {

/// A feature is attested just where the lockfile lists it.
pub proof fn law_features_are_the_listed_ones(features: Seq<FeatureId>, name: Seq<char>)
    ensures
        lockfile::feature_set(features).sorted(),
        lockfile::feature_set(features).has(name) <==> exists|i: int|
            0 <= i < features.len() && (#[trigger] features[i])@ == name,
    decreases features.len(),
{
    if features.len() > 0 {
        let front = features.drop_last();
        law_features_are_the_listed_ones(front, name);
        let before = lockfile::feature_set(front);
        keyed::lemma_with_sorted(before, features.last()@, ());
        keyed::law_set_and_get(before, features.last()@, (), name);
        assert forall|i: int| 0 <= i < front.len() implies front[i] == #[trigger] features[i] by {}
        if before.has(name) {
            let i = choose|i: int| 0 <= i < front.len() && (#[trigger] front[i])@ == name;
            assert(features[i]@ == name);
        }
        if features.last()@ == name {
            assert(features[features.len() - 1]@ == name);
        }
        if exists|i: int| 0 <= i < features.len() && (#[trigger] features[i])@ == name {
            let i = choose|i: int| 0 <= i < features.len() && (#[trigger] features[i])@ == name;
            if i < front.len() {
                assert(front[i]@ == name);
            }
        }
    }
}

/// An action is attested just where the lockfile lists it.
pub proof fn law_actions_are_the_listed_ones(
    actions: Seq<ActionDefinitionStatic>,
    name: Seq<char>,
)
    ensures
        lockfile::actions_by_name(actions).sorted(),
        lockfile::actions_by_name(actions).has(name) <==> exists|i: int|
            0 <= i < actions.len() && (#[trigger] actions[i]).name@ == name,
    decreases actions.len(),
{
    if actions.len() > 0 {
        let front = actions.drop_last();
        let last = actions.last();
        law_actions_are_the_listed_ones(front, name);
        let before = lockfile::actions_by_name(front);
        keyed::lemma_with_sorted(before, last.name@, last.wire_json());
        keyed::law_set_and_get(before, last.name@, last.wire_json(), name);
        assert forall|i: int| 0 <= i < front.len() implies front[i] == #[trigger] actions[i] by {}
        if before.has(name) {
            let i = choose|i: int| 0 <= i < front.len() && (#[trigger] front[i]).name@ == name;
            assert(actions[i].name@ == name);
        }
        if last.name@ == name {
            assert(actions[actions.len() - 1].name@ == name);
        }
        if exists|i: int| 0 <= i < actions.len() && (#[trigger] actions[i]).name@ == name {
            let i = choose|i: int| 0 <= i < actions.len() && (#[trigger] actions[i]).name@ == name;
            if i < front.len() {
                assert(front[i].name@ == name);
            }
        }
    }
}

/// An attested action has the form of the last one of its name in the lockfile.
pub proof fn law_attested_actions_have_their_form(
    actions: Seq<ActionDefinitionStatic>,
    i: int,
)
    requires
        0 <= i < actions.len(),
        forall|j: int| i < j < actions.len() ==> (#[trigger] actions[j]).name@ != actions[i].name@,
    ensures
        lockfile::actions_by_name(actions).get(actions[i].name@) == Some(actions[i].wire_json()),
    decreases actions.len(),
{
    let front = actions.drop_last();
    let last = actions.last();
    let before = lockfile::actions_by_name(front);
    law_actions_are_the_listed_ones(front, last.name@);
    keyed::law_set_and_get(before, last.name@, last.wire_json(), actions[i].name@);
    if i < front.len() {
        assert forall|j: int| i < j < front.len() implies (#[trigger] front[j]).name@
            != front[i].name@ by {
            assert(actions[j].name@ != actions[i].name@);
        }
        assert(actions[actions.len() - 1].name@ != actions[i].name@);
        law_attested_actions_have_their_form(front, i);
    }
}

} // verus!
