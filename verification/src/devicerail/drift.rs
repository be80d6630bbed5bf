//! What changed between a lockfile and the live world, in words.

use vstd::prelude::*;

use crate::devicerail::lock;
use crate::ir::primitives::FeatureId;
use crate::json::same_json;
use crate::kit::lockfile::{CapabilityLockfile, PeerInfo, ProtocolVersion};
use crate::kit::manifest::{ActionDefinitionStatic, PlatformKind};
use crate::sets;
use crate::sets::{left_over, TextSet};
use crate::text;
use crate::text::{concat, concat3, concat4, decimal_text, join_text, quote_texts, same_text};

verus! {

/// The name of a platform in the summary.
pub open spec fn platform_label(platform: PlatformKind) -> Seq<char> {
    match platform {
        PlatformKind::Web => "Web"@,
        PlatformKind::Android => "Android"@,
        PlatformKind::Ios => "Ios"@,
        PlatformKind::HarmonyOs => "HarmonyOs"@,
        PlatformKind::MacOs => "MacOs"@,
        PlatformKind::Windows => "Windows"@,
        PlatformKind::Linux => "Linux"@,
        PlatformKind::Rdp => "Rdp"@,
    }
}

fn label(platform: PlatformKind) -> (r: &'static str)
    ensures
        r@ == platform_label(platform),
{
    match platform {
        PlatformKind::Web => "Web",
        PlatformKind::Android => "Android",
        PlatformKind::Ios => "Ios",
        PlatformKind::HarmonyOs => "HarmonyOs",
        PlatformKind::MacOs => "MacOs",
        PlatformKind::Windows => "Windows",
        PlatformKind::Linux => "Linux",
        PlatformKind::Rdp => "Rdp",
    }
}

/// The names of actions.
pub open spec fn action_names(actions: Seq<ActionDefinitionStatic>) -> Seq<Seq<char>> {
    actions.map_values(|a: ActionDefinitionStatic| a.name@)
}

/// The texts that the first list has beyond the second, in ascending order.
pub open spec fn beyond(first: Seq<Seq<char>>, second: Seq<Seq<char>>) -> Seq<Seq<char>> {
    sets::not_in(sets::keys_of(sets::set_of(first)), sets::set_of(second))
}

/// Whether two definitions say the same.
pub open spec fn same_definition(a: ActionDefinitionStatic, b: ActionDefinitionStatic) -> bool {
    &&& a.name@ == b.name@
    &&& a.input_schema@ == b.input_schema@
    &&& match (a.output_schema, b.output_schema) {
        (Some(x), Some(y)) => x@ == y@,
        (None, None) => true,
        _ => false,
    }
    &&& a.protection == b.protection
    &&& a.synthetic == b.synthetic
}

/// The first definition with a name.
pub open spec fn defined(actions: Seq<ActionDefinitionStatic>, name: Seq<char>) -> Option<
    ActionDefinitionStatic,
>
    decreases actions.len(),
{
    if actions.len() == 0 {
        None
    } else {
        match defined(actions.drop_last(), name) {
            Some(a) => Some(a),
            None => if actions.last().name@ == name {
                Some(actions.last())
            } else {
                None
            },
        }
    }
}

/// Whether the live world defines the action otherwise.
pub open spec fn is_changed(
    action: ActionDefinitionStatic,
    live: Seq<ActionDefinitionStatic>,
) -> bool {
    defined(live, action.name@) matches Some(other) && !same_definition(other, action)
}

/// The names of the actions that the live world defines otherwise, in the
/// order of the lockfile.
pub open spec fn changed_actions(
    expected: Seq<ActionDefinitionStatic>,
    live: Seq<ActionDefinitionStatic>,
) -> Seq<Seq<char>>
    decreases expected.len(),
{
    if expected.len() == 0 {
        Seq::empty()
    } else if is_changed(expected.last(), live) {
        changed_actions(expected.drop_last(), live).push(expected.last().name@)
    } else {
        changed_actions(expected.drop_last(), live)
    }
}

/// A version as it stands in the summary.
pub open spec fn version_text(v: ProtocolVersion) -> Seq<char> {
    text::decimal(v.major as nat) + "."@ + text::decimal(v.minor as nat)
}

/// A peer as it stands in the summary.
pub open spec fn peer_text(p: PeerInfo) -> Seq<char> {
    p.name@ + "@"@ + p.version@
}

/// A note that is there on a condition.
pub open spec fn note_if(there: bool, note: Seq<char>) -> Seq<Seq<char>> {
    if there {
        seq![note]
    } else {
        Seq::empty()
    }
}

/// A note that lists texts, if there are any.
pub open spec fn list_note(label: Seq<char>, items: Seq<Seq<char>>) -> Seq<Seq<char>> {
    note_if(items.len() > 0, label + text::debug_texts(items))
}

/// The notes on what changed: protocol, server, features, platform, actions.
pub open spec fn drift_notes(e: CapabilityLockfile, l: CapabilityLockfile) -> Seq<Seq<char>> {
    let expected_features = lock::feature_texts(e.hello.features_enabled@);
    let live_features = lock::feature_texts(l.hello.features_enabled@);
    let expected_actions = action_names(e.device.actions@);
    let live_actions = action_names(l.device.actions@);
    note_if(
        e.hello.protocol_selected != l.hello.protocol_selected,
        "protocol "@ + version_text(e.hello.protocol_selected) + " -> "@ + version_text(
            l.hello.protocol_selected,
        ),
    ) + note_if(
        e.hello.server.name@ != l.hello.server.name@ || e.hello.server.version@
            != l.hello.server.version@,
        "server "@ + peer_text(e.hello.server) + " -> "@ + peer_text(l.hello.server),
    ) + list_note("features lost: "@, beyond(expected_features, live_features)) + list_note(
        "features gained: "@,
        beyond(live_features, expected_features),
    ) + note_if(
        e.device.platform != l.device.platform,
        "platform "@ + platform_label(e.device.platform) + " -> "@ + platform_label(
            l.device.platform,
        ),
    ) + list_note("actions vanished: "@, beyond(expected_actions, live_actions)) + list_note(
        "actions appeared: "@,
        beyond(live_actions, expected_actions),
    ) + list_note(
        "action definitions changed: "@,
        changed_actions(e.device.actions@, l.device.actions@),
    )
}

/// The summary of what changed.
pub open spec fn drift_text(e: CapabilityLockfile, l: CapabilityLockfile) -> Seq<char> {
    if drift_notes(e, l).len() == 0 {
        "no field-level diff detected at summary granularity"@
    } else {
        "drift: "@ + text::join(drift_notes(e, l), "; "@)
    }
}

fn names_of_features(features: &Vec<FeatureId>) -> (r: Vec<String>)
    ensures
        text::texts(r@) == lock::feature_texts(features@),
{
    let mut out: Vec<String> = Vec::new();
    let mut i: usize = 0;
    while i < features.len()
        invariant
            i <= features@.len(),
            out@.len() == i,
            forall|j: int| 0 <= j < i ==> #[trigger] out@[j]@ == features@[j]@,
        decreases features@.len() - i,
    {
        out.push(features[i].as_str().to_owned());
        i = i + 1;
    }
    assert(text::texts(out@) =~= lock::feature_texts(features@));
    out
}

fn names_of_actions(actions: &Vec<ActionDefinitionStatic>) -> (r: Vec<String>)
    ensures
        text::texts(r@) == action_names(actions@),
{
    let mut out: Vec<String> = Vec::new();
    let mut i: usize = 0;
    while i < actions.len()
        invariant
            i <= actions@.len(),
            out@.len() == i,
            forall|j: int| 0 <= j < i ==> #[trigger] out@[j]@ == actions@[j].name@,
        decreases actions@.len() - i,
    {
        out.push(actions[i].name.as_str().to_owned());
        i = i + 1;
    }
    assert(text::texts(out@) =~= action_names(actions@));
    out
}

fn members_beyond(first: &Vec<String>, second: &Vec<String>) -> (r: Vec<String>)
    ensures
        text::texts(r@) == beyond(text::texts(first@), text::texts(second@)),
{
    left_over(&TextSet::of(first).to_list(), &TextSet::of(second))
}

fn definitions_agree(a: &ActionDefinitionStatic, b: &ActionDefinitionStatic) -> (r: bool)
    ensures
        r == same_definition(*a, *b),
{
    let outputs = match (&a.output_schema, &b.output_schema) {
        (Some(x), Some(y)) => same_json(x.as_value(), y.as_value()),
        (None, None) => true,
        _ => false,
    };
    same_text(a.name.as_str(), b.name.as_str()) && same_json(
        a.input_schema.as_value(),
        b.input_schema.as_value(),
    ) && outputs && a.protection == b.protection && a.synthetic == b.synthetic
}

fn changed(action: &ActionDefinitionStatic, live: &Vec<ActionDefinitionStatic>) -> (r: bool)
    ensures
        r == is_changed(*action, live@),
{
    let mut i: usize = 0;
    while i < live.len()
        invariant
            i <= live@.len(),
            defined(live@.take(i as int), action.name@) is None,
        decreases live@.len() - i,
    {
        assert(live@.take(i + 1).drop_last() =~= live@.take(i as int));
        if same_text(live[i].name.as_str(), action.name.as_str()) {
            proof {
                lemma_defined_stays(live@, i + 1, action.name@);
            }
            return !definitions_agree(&live[i], action);
        }
        i = i + 1;
    }
    assert(live@.take(i as int) =~= live@);
    false
}

proof fn lemma_defined_stays(actions: Seq<ActionDefinitionStatic>, n: int, name: Seq<char>)
    requires
        0 <= n <= actions.len(),
        defined(actions.take(n), name) is Some,
    ensures
        defined(actions, name) == defined(actions.take(n), name),
    decreases actions.len() - n,
{
    if n < actions.len() {
        assert(actions.take(n + 1).drop_last() =~= actions.take(n));
        lemma_defined_stays(actions, n + 1, name);
    } else {
        assert(actions.take(n) =~= actions);
    }
}

fn names_of_changed(
    expected: &Vec<ActionDefinitionStatic>,
    live: &Vec<ActionDefinitionStatic>,
) -> (r: Vec<String>)
    ensures
        text::texts(r@) == changed_actions(expected@, live@),
{
    let mut out: Vec<String> = Vec::new();
    let mut i: usize = 0;
    assert(text::texts(out@) =~= Seq::<Seq<char>>::empty());
    while i < expected.len()
        invariant
            i <= expected@.len(),
            text::texts(out@) == changed_actions(expected@.take(i as int), live@),
        decreases expected@.len() - i,
    {
        assert(expected@.take(i + 1).drop_last() =~= expected@.take(i as int));
        if changed(&expected[i], live) {
            note(&mut out, expected[i].name.as_str().to_owned());
        }
        i = i + 1;
    }
    assert(expected@.take(i as int) =~= expected@);
    out
}

fn note(notes: &mut Vec<String>, text: String)
    ensures
        text::texts(final(notes)@) == text::texts(old(notes)@).push(text@),
{
    notes.push(text);
    assert(text::texts(notes@) =~= text::texts(old(notes)@).push(text@));
}

fn note_list(notes: &mut Vec<String>, label: &str, items: Vec<String>)
    ensures
        text::texts(final(notes)@) == text::texts(old(notes)@) + list_note(
            label@,
            text::texts(items@),
        ),
{
    if items.len() > 0 {
        note(notes, concat(label, quote_texts(&items).as_str()));
    }
    assert(text::texts(items@).len() == items@.len());
    assert(text::texts(notes@) =~= text::texts(old(notes)@) + list_note(
        label@,
        text::texts(items@),
    ));
}

/// Says in words what changed between the lockfile and the live world.
pub fn describe_drift(expected: &CapabilityLockfile, live: &CapabilityLockfile) -> (r: String)
    ensures
        r@ == drift_text(*expected, *live),
{
    let mut notes: Vec<String> = Vec::new();
    let ghost all = drift_notes(*expected, *live);
    assert(text::texts(notes@) =~= Seq::<Seq<char>>::empty());
    let was = expected.hello.protocol_selected;
    let is = live.hello.protocol_selected;
    if was != is {
        let from = concat3(decimal_text(was.major).as_str(), ".", decimal_text(was.minor).as_str());
        let to = concat3(decimal_text(is.major).as_str(), ".", decimal_text(is.minor).as_str());
        note(&mut notes, concat4("protocol ", from.as_str(), " -> ", to.as_str()));
    }
    let old_server = &expected.hello.server;
    let new_server = &live.hello.server;
    if !same_text(old_server.name.as_str(), new_server.name.as_str()) || !same_text(
        old_server.version.as_str(),
        new_server.version.as_str(),
    ) {
        let from = concat3(old_server.name.as_str(), "@", old_server.version.as_str());
        let to = concat3(new_server.name.as_str(), "@", new_server.version.as_str());
        note(&mut notes, concat4("server ", from.as_str(), " -> ", to.as_str()));
    }
    let expected_features = names_of_features(&expected.hello.features_enabled);
    let live_features = names_of_features(&live.hello.features_enabled);
    note_list(&mut notes, "features lost: ", members_beyond(&expected_features, &live_features));
    note_list(&mut notes, "features gained: ", members_beyond(&live_features, &expected_features));
    if expected.device.platform != live.device.platform {
        note(
            &mut notes,
            concat4(
                "platform ",
                label(expected.device.platform),
                " -> ",
                label(live.device.platform),
            ),
        );
    }
    let expected_actions = names_of_actions(&expected.device.actions);
    let live_actions = names_of_actions(&live.device.actions);
    note_list(&mut notes, "actions vanished: ", members_beyond(&expected_actions, &live_actions));
    note_list(&mut notes, "actions appeared: ", members_beyond(&live_actions, &expected_actions));
    note_list(
        &mut notes,
        "action definitions changed: ",
        names_of_changed(&expected.device.actions, &live.device.actions),
    );
    assert(text::texts(notes@) =~= all);
    assert(text::texts(notes@).len() == notes@.len());
    if notes.len() == 0 {
        "no field-level diff detected at summary granularity".to_owned()
    } else {
        concat("drift: ", join_text(&notes, "; ").as_str())
    }
}

/// The summary lists a feature or an action as lost exactly if the lockfile
/// has it and the live world has not, and as gained the other way round.
pub proof fn law_differences_are_listed(
    first: Seq<Seq<char>>,
    second: Seq<Seq<char>>,
    item: Seq<char>,
)
    ensures
        beyond(first, second).contains(item) == (first.contains(item) && !second.contains(item)),
{
    let m = sets::set_of(first);
    sets::law_set_holds_its_items(first, item);
    sets::law_set_holds_its_items(second, item);
    sets::law_left_over_texts(sets::keys_of(m), sets::set_of(second), item);
    let keys = sets::keys_of(m);
    crate::keyed::lemma_slot(m, item, 0);
    if m.has(item) {
        assert(keys[m.slot(item)] == item);
    }
    if keys.contains(item) {
        let i = choose|i: int| 0 <= i < keys.len() && keys[i] == item;
        crate::keyed::lemma_get_at(m, i);
        assert(m.entries[i].0 == item);
    }
}

/// Against itself a lockfile shows no drift.
pub proof fn law_no_drift_against_itself(l: CapabilityLockfile)
    requires
        forall|i: int, j: int|
            0 <= i < j < l.device.actions@.len() ==> (#[trigger] l.device.actions@[i]).name@ != (
            #[trigger] l.device.actions@[j]).name@,
    ensures
        drift_notes(l, l).len() == 0,
{
    let features = lock::feature_texts(l.hello.features_enabled@);
    let names = action_names(l.device.actions@);
    lemma_nothing_beyond(features);
    lemma_nothing_beyond(names);
    lemma_nothing_changed(l.device.actions@, l.device.actions@.len() as int);
    assert(l.device.actions@.take(l.device.actions@.len() as int) =~= l.device.actions@);
}

proof fn lemma_nothing_beyond(items: Seq<Seq<char>>)
    ensures
        beyond(items, items).len() == 0,
{
    if beyond(items, items).len() > 0 {
        let item = beyond(items, items)[0];
        assert(beyond(items, items).contains(item));
        law_differences_are_listed(items, items, item);
    }
}

proof fn lemma_nothing_changed(actions: Seq<ActionDefinitionStatic>, n: int)
    requires
        0 <= n <= actions.len(),
        forall|i: int, j: int|
            0 <= i < j < actions.len() ==> (#[trigger] actions[i]).name@ != (
            #[trigger] actions[j]).name@,
    ensures
        changed_actions(actions.take(n), actions).len() == 0,
    decreases n,
{
    if n > 0 {
        lemma_nothing_changed(actions, n - 1);
        assert(actions.take(n).drop_last() =~= actions.take(n - 1));
        lemma_not_defined_before(actions, n - 1, actions[n - 1].name@);
        lemma_defined_stays(actions, n, actions[n - 1].name@);
    }
}

proof fn lemma_not_defined_before(actions: Seq<ActionDefinitionStatic>, n: int, name: Seq<char>)
    requires
        0 <= n <= actions.len(),
        forall|i: int| 0 <= i < n ==> (#[trigger] actions[i]).name@ != name,
    ensures
        defined(actions.take(n), name) is None,
    decreases n,
{
    if n > 0 {
        lemma_not_defined_before(actions, n - 1, name);
        assert(actions.take(n).drop_last() =~= actions.take(n - 1));
    }
}

} // verus!
