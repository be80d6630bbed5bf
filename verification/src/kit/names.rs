//! The built-in feature ids and action names, and that they are grammatical.

use vstd::prelude::*;
use vstd::string::*;

use crate::ir::primitives;
use crate::ir::primitives::{ActionName, CharClass, FeatureId};
use crate::text;

verus! {

/// Splitting at a separator that nothing before it equals.
proof fn lemma_split_at(s: Seq<char>, at: int)
    requires
        0 <= at < s.len(),
        s[at] == '.',
        forall|i: int| 0 <= i < at ==> #[trigger] s[i] != '.',
    ensures
        text::split(s, '.') == seq![s.take(at)] + text::split(s.skip(at + 1), '.'),
{
    text::lemma_find_is(s, '.', at);
}

proof fn lemma_split_none(s: Seq<char>)
    requires
        forall|i: int| 0 <= i < s.len() ==> #[trigger] s[i] != '.',
    ensures
        text::split(s, '.') == seq![s],
{
    text::lemma_find_is(s, '.', s.len() as int);
}

proof fn lemma_version(s: Seq<char>)
    requires
        s.len() == 2,
        s[0] == 'v',
        text::is_digit(s[1]),
    ensures
        primitives::is_version(s),
        text::split(s, '.') == seq![s],
{
    lemma_split_none(s);
    assert forall|i: int| 0 <= i < s.skip(1).len() implies primitives::in_class(
        CharClass::Digit,
        #[trigger] s.skip(1)[i],
    ) by {
        assert(s.skip(1)[i] == s[1]);
    }
}

/// `word.word.vN` is a feature id.
proof fn lemma_two_words(s: Seq<char>, d1: int, d2: int)
    requires
        0 < d1,
        d1 + 1 < d2,
        s.len() == d2 + 3,
        s[d1] == '.',
        s[d2] == '.',
        s[d2 + 1] == 'v',
        text::is_digit(s[d2 + 2]),
        primitives::in_class(CharClass::Lower, s[0]),
        forall|i: int|
            0 <= i < d2 && i != d1 ==> primitives::in_class(CharClass::Alnum, #[trigger] s[i]),
    ensures
        primitives::feature_id_fault(s) is None,
{
    let rest = s.skip(d1 + 1);
    let tail = rest.skip(d2 - d1);
    lemma_split_at(s, d1);
    lemma_split_at(rest, d2 - d1 - 1);
    lemma_version(tail);
    let parts = text::split(s, '.');
    assert(parts[0] =~= s.take(d1));
    assert(parts[1] =~= rest.take(d2 - d1 - 1));
    assert(parts[2] == tail);
    assert(parts.len() == 3);
    assert forall|i: int| 0 <= i < parts[0].skip(1).len() implies primitives::in_class(
        CharClass::Alnum,
        #[trigger] parts[0].skip(1)[i],
    ) by {
        assert(parts[0].skip(1)[i] == s[i + 1]);
    }
    assert forall|i: int| 0 <= i < parts[1].len() implies primitives::in_class(
        CharClass::Alnum,
        #[trigger] parts[1][i],
    ) by {
        assert(parts[1][i] == s[d1 + 1 + i]);
    }
    assert(primitives::is_feature_word(parts[1]));
    assert forall|i: int| 1 <= i < parts.len() - 1 implies primitives::is_feature_word(
        #[trigger] parts[i],
    ) by {
        assert(i == 1);
    }
}

/// `word.word.word.vN` is a feature id.
proof fn lemma_three_words(s: Seq<char>, d1: int, d2: int, d3: int)
    requires
        0 < d1,
        d1 + 1 < d2,
        d2 + 1 < d3,
        s.len() == d3 + 3,
        s[d1] == '.',
        s[d2] == '.',
        s[d3] == '.',
        s[d3 + 1] == 'v',
        text::is_digit(s[d3 + 2]),
        primitives::in_class(CharClass::Lower, s[0]),
        forall|i: int|
            0 <= i < d3 && i != d1 && i != d2 ==> primitives::in_class(
                CharClass::Alnum,
                #[trigger] s[i],
            ),
    ensures
        primitives::feature_id_fault(s) is None,
{
    let rest = s.skip(d1 + 1);
    let more = rest.skip(d2 - d1);
    let tail = more.skip(d3 - d2);
    lemma_split_at(s, d1);
    lemma_split_at(rest, d2 - d1 - 1);
    lemma_split_at(more, d3 - d2 - 1);
    lemma_version(tail);
    let parts = text::split(s, '.');
    assert(parts[0] =~= s.take(d1));
    assert(parts[1] =~= rest.take(d2 - d1 - 1));
    assert(parts[2] =~= more.take(d3 - d2 - 1));
    assert(parts[3] == tail);
    assert(parts.len() == 4);
    assert forall|i: int| 0 <= i < parts[0].skip(1).len() implies primitives::in_class(
        CharClass::Alnum,
        #[trigger] parts[0].skip(1)[i],
    ) by {
        assert(parts[0].skip(1)[i] == s[i + 1]);
    }
    assert forall|i: int| 0 <= i < parts[1].len() implies primitives::in_class(
        CharClass::Alnum,
        #[trigger] parts[1][i],
    ) by {
        assert(parts[1][i] == s[d1 + 1 + i]);
    }
    assert forall|i: int| 0 <= i < parts[2].len() implies primitives::in_class(
        CharClass::Alnum,
        #[trigger] parts[2][i],
    ) by {
        assert(parts[2][i] == s[d2 + 1 + i]);
    }
    assert(primitives::is_feature_word(parts[1]));
    assert(primitives::is_feature_word(parts[2]));
    assert forall|i: int| 1 <= i < parts.len() - 1 implies primitives::is_feature_word(
        #[trigger] parts[i],
    ) by {
        assert(i == 1 || i == 2);
    }
}

/// A letter followed by letters, digits and underscores, not too long, is an
/// action name.
proof fn lemma_action(s: Seq<char>)
    requires
        0 < s.len() <= 256,
        primitives::in_class(CharClass::Alpha, s[0]),
        primitives::all_in(CharClass::Ident, s),
    ensures
        primitives::action_name_fault(s) is None,
{
    primitives::lemma_class_byte_len(CharClass::Ident, s);
    assert forall|i: int| 0 <= i < s.skip(1).len() implies primitives::in_class(
        CharClass::Ident,
        #[trigger] s.skip(1)[i],
    ) by {
        assert(s.skip(1)[i] == s[i + 1]);
    }
}

/// A feature id from a text that is one.
pub(crate) fn feature(id: &str) -> (r: FeatureId)
    requires
        primitives::feature_id_fault(id@) is None,
    ensures
        r@ == id@,
{
    match FeatureId::new(id) {
        Ok(feature) => feature,
        Err(_) => {
            vstd::pervasive::unreached()
        },
    }
}

/// An action name from a text that is one.
pub(crate) fn action(name: &str) -> (r: ActionName)
    requires
        primitives::action_name_fault(name@) is None,
    ensures
        r@ == name@,
{
    match ActionName::new(name) {
        Ok(action) => action,
        Err(_) => {
            vstd::pervasive::unreached()
        },
    }
}

pub(crate) proof fn lemma_device_semantic_actions_v1()
    ensures
        primitives::feature_id_fault("device.semanticActions.v1"@) is None,
{
    reveal_strlit("device.semanticActions.v1");
    let s = "device.semanticActions.v1"@;
    assert forall|i: int| 0 <= i < 22 && i != 6 implies primitives::in_class(
        CharClass::Alnum,
        #[trigger] s[i],
    ) by {
        assert(i == 0 || i == 1 || i == 2 || i == 3 || i == 4 || i == 5 || i == 7 || i == 8
            || i == 9 || i == 10 || i == 11 || i == 12 || i == 13 || i == 14 || i == 15
            || i == 16 || i == 17 || i == 18 || i == 19 || i == 20 || i == 21);
    }
    lemma_two_words(s, 6, 22);
}

pub(crate) proof fn lemma_observation_ui_snapshot_v1()
    ensures
        primitives::feature_id_fault("observation.uiSnapshot.v1"@) is None,
{
    reveal_strlit("observation.uiSnapshot.v1");
    let s = "observation.uiSnapshot.v1"@;
    assert forall|i: int| 0 <= i < 22 && i != 11 implies primitives::in_class(
        CharClass::Alnum,
        #[trigger] s[i],
    ) by {
        assert(i == 0 || i == 1 || i == 2 || i == 3 || i == 4 || i == 5 || i == 6 || i == 7
            || i == 8 || i == 9 || i == 10 || i == 12 || i == 13 || i == 14 || i == 15 || i == 16
            || i == 17 || i == 18 || i == 19 || i == 20 || i == 21);
    }
    lemma_two_words(s, 11, 22);
}

pub(crate) proof fn lemma_verdict_record_v1()
    ensures
        primitives::feature_id_fault("verdict.record.v1"@) is None,
{
    reveal_strlit("verdict.record.v1");
    let s = "verdict.record.v1"@;
    assert forall|i: int| 0 <= i < 14 && i != 7 implies primitives::in_class(
        CharClass::Alnum,
        #[trigger] s[i],
    ) by {
        assert(i == 0 || i == 1 || i == 2 || i == 3 || i == 4 || i == 5 || i == 6 || i == 8
            || i == 9 || i == 10 || i == 11 || i == 12 || i == 13);
    }
    lemma_two_words(s, 7, 14);
}

pub(crate) proof fn lemma_events_snapshot_v1()
    ensures
        primitives::feature_id_fault("events.snapshot.v1"@) is None,
{
    reveal_strlit("events.snapshot.v1");
    let s = "events.snapshot.v1"@;
    assert forall|i: int| 0 <= i < 15 && i != 6 implies primitives::in_class(
        CharClass::Alnum,
        #[trigger] s[i],
    ) by {
        assert(i == 0 || i == 1 || i == 2 || i == 3 || i == 4 || i == 5 || i == 7 || i == 8
            || i == 9 || i == 10 || i == 11 || i == 12 || i == 13 || i == 14);
    }
    lemma_two_words(s, 6, 15);
}

pub(crate) proof fn lemma_request_control_v1()
    ensures
        primitives::feature_id_fault("request.control.v1"@) is None,
{
    reveal_strlit("request.control.v1");
    let s = "request.control.v1"@;
    assert forall|i: int| 0 <= i < 15 && i != 7 implies primitives::in_class(
        CharClass::Alnum,
        #[trigger] s[i],
    ) by {
        assert(i == 0 || i == 1 || i == 2 || i == 3 || i == 4 || i == 5 || i == 6 || i == 8
            || i == 9 || i == 10 || i == 11 || i == 12 || i == 13 || i == 14);
    }
    lemma_two_words(s, 7, 15);
}

pub(crate) proof fn lemma_device_routing_v1()
    ensures
        primitives::feature_id_fault("device.routing.v1"@) is None,
{
    reveal_strlit("device.routing.v1");
    let s = "device.routing.v1"@;
    assert forall|i: int| 0 <= i < 14 && i != 6 implies primitives::in_class(
        CharClass::Alnum,
        #[trigger] s[i],
    ) by {
        assert(i == 0 || i == 1 || i == 2 || i == 3 || i == 4 || i == 5 || i == 7 || i == 8
            || i == 9 || i == 10 || i == 11 || i == 12 || i == 13);
    }
    lemma_two_words(s, 6, 14);
}

pub(crate) proof fn lemma_session_export_page_v1()
    ensures
        primitives::feature_id_fault("session.export.page.v1"@) is None,
{
    reveal_strlit("session.export.page.v1");
    let s = "session.export.page.v1"@;
    assert forall|i: int| 0 <= i < 19 && i != 7 && i != 14 implies primitives::in_class(
        CharClass::Alnum,
        #[trigger] s[i],
    ) by {
        assert(i == 0 || i == 1 || i == 2 || i == 3 || i == 4 || i == 5 || i == 6 || i == 8
            || i == 9 || i == 10 || i == 11 || i == 12 || i == 13 || i == 15 || i == 16
            || i == 17 || i == 18);
    }
    lemma_three_words(s, 7, 14, 19);
}

pub(crate) proof fn lemma_events_stream_v1()
    ensures
        primitives::feature_id_fault("events.stream.v1"@) is None,
{
    reveal_strlit("events.stream.v1");
    let s = "events.stream.v1"@;
    assert forall|i: int| 0 <= i < 13 && i != 6 implies primitives::in_class(
        CharClass::Alnum,
        #[trigger] s[i],
    ) by {
        assert(i == 0 || i == 1 || i == 2 || i == 3 || i == 4 || i == 5 || i == 7 || i == 8
            || i == 9 || i == 10 || i == 11 || i == 12);
    }
    lemma_two_words(s, 6, 13);
}

pub(crate) proof fn lemma_media_stream_v1()
    ensures
        primitives::feature_id_fault("media.stream.v1"@) is None,
{
    reveal_strlit("media.stream.v1");
    let s = "media.stream.v1"@;
    assert forall|i: int| 0 <= i < 12 && i != 5 implies primitives::in_class(
        CharClass::Alnum,
        #[trigger] s[i],
    ) by {
        assert(i == 0 || i == 1 || i == 2 || i == 3 || i == 4 || i == 6 || i == 7 || i == 8
            || i == 9 || i == 10 || i == 11);
    }
    lemma_two_words(s, 5, 12);
}

pub(crate) proof fn lemma_find_element()
    ensures
        primitives::action_name_fault("findElement"@) is None,
{
    reveal_strlit("findElement");
    let s = "findElement"@;
    assert forall|i: int| 0 <= i < 11 implies primitives::in_class(
        CharClass::Ident,
        #[trigger] s[i],
    ) by {
        assert(i == 0 || i == 1 || i == 2 || i == 3 || i == 4 || i == 5 || i == 6 || i == 7
            || i == 8 || i == 9 || i == 10);
    }
    lemma_action(s);
}

pub(crate) proof fn lemma_tap_element()
    ensures
        primitives::action_name_fault("tapElement"@) is None,
{
    reveal_strlit("tapElement");
    let s = "tapElement"@;
    assert forall|i: int| 0 <= i < 10 implies primitives::in_class(
        CharClass::Ident,
        #[trigger] s[i],
    ) by {
        assert(i == 0 || i == 1 || i == 2 || i == 3 || i == 4 || i == 5 || i == 6 || i == 7
            || i == 8 || i == 9);
    }
    lemma_action(s);
}

pub(crate) proof fn lemma_clear_element()
    ensures
        primitives::action_name_fault("clearElement"@) is None,
{
    reveal_strlit("clearElement");
    let s = "clearElement"@;
    assert forall|i: int| 0 <= i < 12 implies primitives::in_class(
        CharClass::Ident,
        #[trigger] s[i],
    ) by {
        assert(i == 0 || i == 1 || i == 2 || i == 3 || i == 4 || i == 5 || i == 6 || i == 7
            || i == 8 || i == 9 || i == 10 || i == 11);
    }
    lemma_action(s);
}

pub(crate) proof fn lemma_set_element_value()
    ensures
        primitives::action_name_fault("setElementValue"@) is None,
{
    reveal_strlit("setElementValue");
    let s = "setElementValue"@;
    assert forall|i: int| 0 <= i < 15 implies primitives::in_class(
        CharClass::Ident,
        #[trigger] s[i],
    ) by {
        assert(i == 0 || i == 1 || i == 2 || i == 3 || i == 4 || i == 5 || i == 6 || i == 7
            || i == 8 || i == 9 || i == 10 || i == 11 || i == 12 || i == 13 || i == 14);
    }
    lemma_action(s);
}

pub(crate) proof fn lemma_wait_for_element()
    ensures
        primitives::action_name_fault("waitForElement"@) is None,
{
    reveal_strlit("waitForElement");
    let s = "waitForElement"@;
    assert forall|i: int| 0 <= i < 14 implies primitives::in_class(
        CharClass::Ident,
        #[trigger] s[i],
    ) by {
        assert(i == 0 || i == 1 || i == 2 || i == 3 || i == 4 || i == 5 || i == 6 || i == 7
            || i == 8 || i == 9 || i == 10 || i == 11 || i == 12 || i == 13);
    }
    lemma_action(s);
}

pub(crate) proof fn lemma_observe()
    ensures
        primitives::action_name_fault("observe"@) is None,
{
    reveal_strlit("observe");
    let s = "observe"@;
    assert forall|i: int| 0 <= i < 7 implies primitives::in_class(
        CharClass::Ident,
        #[trigger] s[i],
    ) by {
        assert(i == 0 || i == 1 || i == 2 || i == 3 || i == 4 || i == 5 || i == 6);
    }
    lemma_action(s);
}

pub(crate) proof fn lemma_screenshot()
    ensures
        primitives::action_name_fault("screenshot"@) is None,
{
    reveal_strlit("screenshot");
    let s = "screenshot"@;
    assert forall|i: int| 0 <= i < 10 implies primitives::in_class(
        CharClass::Ident,
        #[trigger] s[i],
    ) by {
        assert(i == 0 || i == 1 || i == 2 || i == 3 || i == 4 || i == 5 || i == 6 || i == 7
            || i == 8 || i == 9);
    }
    lemma_action(s);
}

pub(crate) proof fn lemma_conformance_rogue_action()
    ensures
        primitives::action_name_fault("conformanceRogueAction"@) is None,
{
    reveal_strlit("conformanceRogueAction");
    let s = "conformanceRogueAction"@;
    assert forall|i: int| 0 <= i < 22 implies primitives::in_class(
        CharClass::Ident,
        #[trigger] s[i],
    ) by {
        assert(i == 0 || i == 1 || i == 2 || i == 3 || i == 4 || i == 5 || i == 6 || i == 7
            || i == 8 || i == 9 || i == 10 || i == 11 || i == 12 || i == 13 || i == 14 || i == 15
            || i == 16 || i == 17 || i == 18 || i == 19 || i == 20 || i == 21);
    }
    lemma_action(s);
}

pub(crate) proof fn lemma_tap()
    ensures
        primitives::action_name_fault("tap"@) is None,
{
    reveal_strlit("tap");
    let s = "tap"@;
    assert forall|i: int| 0 <= i < 3 implies primitives::in_class(
        CharClass::Ident,
        #[trigger] s[i],
    ) by {
        assert(i == 0 || i == 1 || i == 2);
    }
    lemma_action(s);
}

} // verus!
