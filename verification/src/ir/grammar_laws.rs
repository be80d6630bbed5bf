//! The grammars of ids, names, paths and hashes, told character by character.

use vstd::prelude::*;
use vstd::string::*;
use vstd::utf8::encode_utf8;

use crate::ir::hash;
use crate::ir::primitives;
use crate::ir::primitives::{CharClass, RefPath};
use crate::ir::run_path;
use crate::ir::run_path::{FrameV, PathFrame};
use crate::ir::vocab::{HandlerHook, Phase};
use crate::ir::word_laws;
use crate::json::JsonV;
use crate::text;

verus! {

/// A letter of the alphabet.
pub open spec fn letter(c: char) -> bool {
    (65 <= c as int && c as int <= 90) || (97 <= c as int && c as int <= 122)
}

/// A decimal digit.
pub open spec fn digit(c: char) -> bool {
    48 <= c as int && c as int <= 57
}

/// A digit of a digest.
pub open spec fn hex_digit(c: char) -> bool {
    digit(c) || (97 <= c as int && c as int <= 102)
}

/// What an identifier starts with.
pub open spec fn starts_word(c: char) -> bool {
    letter(c) || c == '_'
}

/// What an identifier goes on with.
pub open spec fn goes_on(c: char) -> bool {
    letter(c) || digit(c) || c == '_'
}

/// The classes of characters.
pub proof fn law_classes(c: char)
    ensures
        primitives::in_class(CharClass::IdentStart, c) <==> starts_word(c),
        primitives::in_class(CharClass::Ident, c) <==> goes_on(c),
        primitives::in_class(CharClass::Step, c) <==> goes_on(c) || c == '-',
        primitives::in_class(CharClass::Flow, c) <==> goes_on(c) || c == '-' || c == '.',
        primitives::in_class(CharClass::Alpha, c) <==> letter(c),
        primitives::in_class(CharClass::Lower, c) <==> 97 <= c as int && c as int <= 122,
        primitives::in_class(CharClass::Alnum, c) <==> letter(c) || digit(c),
        primitives::in_class(CharClass::Digit, c) <==> digit(c),
        primitives::in_class(CharClass::Hex, c) <==> hex_digit(c),
{
}

/// An identifier is a letter or an underscore, and then letters, digits and underscores.
pub open spec fn identifier(s: Seq<char>) -> bool {
    s.len() > 0 && starts_word(s[0]) && forall|i: int| 0 <= i < s.len() ==> goes_on(#[trigger] s[i])
}

/// A step segment is an identifier that may hold hyphens behind its first character.
pub open spec fn segment(s: Seq<char>) -> bool {
    s.len() > 0 && starts_word(s[0]) && forall|i: int|
        0 <= i < s.len() ==> goes_on(#[trigger] s[i]) || s[i] == '-'
}

/// Identifiers and step segments are these words and no others.
pub proof fn law_words(s: Seq<char>)
    ensures
        primitives::is_identifier(s) <==> identifier(s),
        primitives::is_step_segment(s) <==> segment(s),
{
    if s.len() > 0 {
        law_classes(s[0]);
        let rest = s.skip(1);
        assert forall|i: int| 0 <= i < s.len() implies (i == 0 || s[i] == rest[i - 1]) by {}
        if primitives::is_identifier(s) {
            assert forall|i: int| 0 <= i < s.len() implies goes_on(#[trigger] s[i]) by {
                if i > 0 {
                    assert(primitives::in_class(CharClass::Ident, rest[i - 1]));
                }
            }
        }
        if primitives::is_step_segment(s) {
            assert forall|i: int| 0 <= i < s.len() implies goes_on(#[trigger] s[i]) || s[i]
                == '-' by {
                if i > 0 {
                    assert(primitives::in_class(CharClass::Step, rest[i - 1]));
                }
            }
        }
        if identifier(s) {
            assert forall|i: int| 0 <= i < rest.len() implies primitives::in_class(
                CharClass::Ident,
                #[trigger] rest[i],
            ) by {
                assert(goes_on(s[i + 1]));
            }
        }
        if segment(s) {
            assert forall|i: int| 0 <= i < rest.len() implies primitives::in_class(
                CharClass::Step,
                #[trigger] rest[i],
            ) by {
                assert(goes_on(s[i + 1]) || s[i + 1] == '-');
            }
        }
    }
}

proof fn lemma_plain_len(s: Seq<char>)
    requires
        forall|i: int|
            0 <= i < s.len() ==> goes_on(#[trigger] s[i]) || s[i] == '-' || s[i] == '.',
    ensures
        text::byte_len(s) == s.len(),
{
    assert forall|i: int| 0 <= i < s.len() implies primitives::in_class(
        CharClass::Flow,
        #[trigger] s[i],
    ) by {
        law_classes(s[i]);
    }
    primitives::lemma_class_byte_len(CharClass::Flow, s);
}

/// Identifiers have at most 128 characters, assertion ids likewise.
pub proof fn law_identifiers_and_assertion_ids(s: Seq<char>)
    ensures
        primitives::identifier_fault(s) is None <==> s.len() <= 128 && identifier(s),
        primitives::assert_id_fault(s) is None <==> s.len() <= 128 && segment(s),
        primitives::single_name_fault(s) is None <==> identifier(s),
{
    law_words(s);
    if identifier(s) || segment(s) {
        lemma_plain_len(s);
    }
}

/// A flow id starts as an identifier does, goes on with letters, digits, underscores, dots
/// and hyphens, and has at most 256 characters.
pub proof fn law_flow_ids(s: Seq<char>)
    ensures
        primitives::flow_id_fault(s) is None <==> s.len() <= 256 && s.len() > 0 && starts_word(s[0])
            && forall|i: int|
            0 <= i < s.len() ==> goes_on(#[trigger] s[i]) || s[i] == '-' || s[i] == '.',
{
    let plain = forall|i: int|
        0 <= i < s.len() ==> goes_on(#[trigger] s[i]) || s[i] == '-' || s[i] == '.';
    if s.len() > 0 {
        law_classes(s[0]);
        let rest = s.skip(1);
        if primitives::in_class(CharClass::IdentStart, s[0]) && primitives::all_in(
            CharClass::Flow,
            rest,
        ) {
            assert forall|i: int| 0 <= i < s.len() implies goes_on(#[trigger] s[i]) || s[i] == '-'
                || s[i] == '.' by {
                if i > 0 {
                    assert(primitives::in_class(CharClass::Flow, rest[i - 1]));
                }
            }
        }
        if plain {
            assert forall|i: int| 0 <= i < rest.len() implies primitives::in_class(
                CharClass::Flow,
                #[trigger] rest[i],
            ) by {
                assert(goes_on(s[i + 1]) || s[i + 1] == '-' || s[i + 1] == '.');
            }
            lemma_plain_len(s);
        }
    }
}

/// An action name is a letter, and then letters, digits and underscores, at most 256
/// characters in all.
pub proof fn law_action_names(s: Seq<char>)
    ensures
        primitives::action_name_fault(s) is None <==> s.len() <= 256 && s.len() > 0 && letter(s[0])
            && forall|i: int| 0 <= i < s.len() ==> goes_on(#[trigger] s[i]),
{
    let plain = forall|i: int| 0 <= i < s.len() ==> goes_on(#[trigger] s[i]);
    if s.len() > 0 {
        law_classes(s[0]);
        let rest = s.skip(1);
        if primitives::in_class(CharClass::Alpha, s[0]) && primitives::all_in(
            CharClass::Ident,
            rest,
        ) {
            assert forall|i: int| 0 <= i < s.len() implies goes_on(#[trigger] s[i]) by {
                if i > 0 {
                    assert(primitives::in_class(CharClass::Ident, rest[i - 1]));
                }
            }
        }
        if plain {
            assert forall|i: int| 0 <= i < rest.len() implies primitives::in_class(
                CharClass::Ident,
                #[trigger] rest[i],
            ) by {
                assert(goes_on(s[i + 1]));
            }
            lemma_plain_len(s);
        }
    }
}

/// A hash is its scheme and 64 hexadecimal digits; its abbreviation is 8 of them.
pub proof fn law_hashes(s: Seq<char>)
    ensures
        primitives::hash_fault(s) is None <==> s.len() == 71 && s.take(7) == "sha256:"@ && forall|
            i: int,
        |
            7 <= i < 71 ==> hex_digit(#[trigger] s[i]),
        primitives::is_hash_prefix(s) <==> s.len() == 8 && forall|i: int|
            0 <= i < 8 ==> hex_digit(#[trigger] s[i]),
{
    reveal_strlit("sha256:");
    if s.len() >= 7 {
        let digits = s.skip(7);
        if primitives::all_in(CharClass::Hex, digits) {
            primitives::lemma_class_byte_len(CharClass::Hex, digits);
            assert forall|i: int| 7 <= i < s.len() implies hex_digit(#[trigger] s[i]) by {
                assert(primitives::in_class(CharClass::Hex, digits[i - 7]));
            }
        }
        if s.len() == 71 && forall|i: int| 7 <= i < 71 ==> hex_digit(#[trigger] s[i]) {
            assert forall|i: int| 0 <= i < digits.len() implies primitives::in_class(
                CharClass::Hex,
                #[trigger] digits[i],
            ) by {
                assert(hex_digit(s[i + 7]));
            }
            primitives::lemma_class_byte_len(CharClass::Hex, digits);
        }
    }
    if primitives::is_hash_prefix(s) {
        assert forall|i: int| 0 <= i < 8 implies hex_digit(#[trigger] s[i]) by {
            assert(primitives::in_class(CharClass::Hex, s[i]));
        }
    }
}

/// The pieces of a text between the occurrences of a character do not hold it, there is at
/// least one, and put together again with the character between them they are the text.
pub proof fn law_pieces_make_the_text(s: Seq<char>, c: char)
    ensures
        text::split(s, c).len() > 0,
        text::join(text::split(s, c), seq![c]) == s,
        forall|i: int|
            0 <= i < text::split(s, c).len() ==> !(#[trigger] text::split(s, c)[i]).contains(c),
    decreases s.len(),
{
    text::lemma_find(s, c);
    let at = text::find(s, c);
    if at < s.len() {
        let rest = s.skip(at + 1);
        law_pieces_make_the_text(rest, c);
        let tail = text::split(rest, c);
        let all = text::split(s, c);
        assert(all =~= seq![s.take(at)] + tail);
        assert(!s.take(at).contains(c));
        assert forall|i: int| 0 <= i < all.len() implies !(#[trigger] all[i]).contains(c) by {
            if i > 0 {
                assert(all[i] == tail[i - 1]);
            }
        }
        lemma_join_first(s.take(at), tail, seq![c]);
        assert(s.take(at) + seq![c] + rest =~= s);
    } else {
        assert(text::split(s, c) =~= seq![s]);
        if s.contains(c) {
            let i = choose|i: int| 0 <= i < s.len() && s[i] == c;
            assert(s[i] != c);
        }
    }
}

proof fn lemma_join_first(first: Seq<char>, rest: Seq<Seq<char>>, sep: Seq<char>)
    requires
        rest.len() > 0,
    ensures
        text::join(seq![first] + rest, sep) == first + sep + text::join(rest, sep),
    decreases rest.len(),
{
    let all = seq![first] + rest;
    if rest.len() == 1 {
        assert(all.drop_last() =~= seq![first]);
        assert(text::join(all.drop_last(), sep) == first);
    } else {
        assert(all.drop_last() =~= seq![first] + rest.drop_last());
        lemma_join_first(first, rest.drop_last(), sep);
        assert(text::join(all, sep) =~= first + sep + text::join(rest, sep));
    }
}

/// Whether a text is identifiers with dots between them.
pub open spec fn dotted(s: Seq<char>) -> bool {
    forall|i: int| 0 <= i < text::split(s, '.').len() ==> identifier(#[trigger] text::split(s, '.')[i])
}

/// Dotted paths are identifiers with dots between them. A step id is segments with colons
/// between them, not empty, and at most 256 bytes long.
pub proof fn law_dotted_paths_and_step_ids(s: Seq<char>)
    ensures
        primitives::is_dotted_identifiers(s) <==> dotted(s),
        primitives::step_id_fault(s) is None <==> 0 < s.len() && encode_utf8(s).len() <= 256
            && forall|i: int|
            0 <= i < text::split(s, ':').len() ==> segment(#[trigger] text::split(s, ':')[i]),
{
    let dots = text::split(s, '.');
    let colons = text::split(s, ':');
    assert forall|i: int| 0 <= i < dots.len() implies primitives::is_identifier(dots[i])
        == identifier(#[trigger] dots[i]) by {
        law_words(dots[i]);
    }
    assert forall|i: int| 0 <= i < colons.len() implies primitives::is_step_segment(colons[i])
        == segment(#[trigger] colons[i]) by {
        law_words(colons[i]);
    }
    if primitives::is_dotted_identifiers(s) {
        assert forall|i: int| 0 <= i < dots.len() implies identifier(#[trigger] dots[i]) by {
            assert(primitives::is_identifier(dots[i]));
        }
    }
    if dotted(s) {
        assert forall|i: int| 0 <= i < dots.len() implies primitives::is_identifier(
            #[trigger] dots[i],
        ) by {
            assert(identifier(dots[i]));
        }
    }
    if primitives::is_step_segments(s) {
        assert forall|i: int| 0 <= i < colons.len() implies segment(#[trigger] colons[i]) by {
            assert(primitives::is_step_segment(colons[i]));
        }
    }
    if forall|i: int| 0 <= i < colons.len() ==> segment(#[trigger] colons[i]) {
        assert forall|i: int| 0 <= i < colons.len() implies primitives::is_step_segment(
            #[trigger] colons[i],
        ) by {
            assert(segment(colons[i]));
        }
    }
}

/// Whether a text holds letters and digits only, and at least one.
pub open spec fn feature_word(s: Seq<char>) -> bool {
    s.len() > 0 && forall|i: int| 0 <= i < s.len() ==> letter(#[trigger] s[i]) || digit(s[i])
}

/// A feature id has at least two parts with dots between them. Each holds letters and digits;
/// the first starts with a small letter, and the last is a `v` and at least one digit.
#[verifier::spinoff_prover]
pub proof fn law_feature_ids(s: Seq<char>)
    ensures
        ({
            let parts = text::split(s, '.');
            let first = parts[0];
            let last = parts[parts.len() - 1];
            primitives::feature_id_fault(s) is None <==> {
                &&& parts.len() >= 2
                &&& first.len() > 0 && 97 <= first[0] as int && first[0] as int <= 122
                &&& feature_word(first)
                &&& last.len() >= 2 && last[0] == 'v' && forall|i: int|
                    1 <= i < last.len() ==> digit(#[trigger] last[i])
                &&& forall|i: int| 1 <= i < parts.len() - 1 ==> feature_word(#[trigger] parts[i])
            }
        }),
{
    let parts = text::split(s, '.');
    law_pieces_make_the_text(s, '.');
    let first = parts[0];
    let last = parts[parts.len() - 1];
    assert forall|t: Seq<char>| #[trigger] primitives::is_feature_word(t) == feature_word(t) by {
        if primitives::is_feature_word(t) {
            assert forall|i: int| 0 <= i < t.len() implies letter(#[trigger] t[i]) || digit(
                t[i],
            ) by {
                assert(primitives::in_class(CharClass::Alnum, t[i]));
            }
        }
        if feature_word(t) {
            assert forall|i: int| 0 <= i < t.len() implies primitives::in_class(
                CharClass::Alnum,
                #[trigger] t[i],
            ) by {
                assert(letter(t[i]) || digit(t[i]));
            }
        }
    }
    if first.len() > 0 && primitives::in_class(CharClass::Lower, first[0]) {
        let tail = first.skip(1);
        if primitives::all_in(CharClass::Alnum, tail) {
            assert forall|i: int| 0 <= i < first.len() implies letter(#[trigger] first[i])
                || digit(first[i]) by {
                if i > 0 {
                    assert(primitives::in_class(CharClass::Alnum, tail[i - 1]));
                }
            }
        }
        if feature_word(first) {
            assert forall|i: int| 0 <= i < tail.len() implies primitives::in_class(
                CharClass::Alnum,
                #[trigger] tail[i],
            ) by {
                assert(letter(first[i + 1]) || digit(first[i + 1]));
            }
        }
    }
    if last.len() > 1 {
        let tail = last.skip(1);
        if primitives::all_in(CharClass::Digit, tail) {
            assert forall|i: int| 1 <= i < last.len() implies digit(#[trigger] last[i]) by {
                assert(primitives::in_class(CharClass::Digit, tail[i - 1]));
            }
        }
        if forall|i: int| 1 <= i < last.len() ==> digit(#[trigger] last[i]) {
            assert forall|i: int| 0 <= i < tail.len() implies primitives::in_class(
                CharClass::Digit,
                #[trigger] tail[i],
            ) by {
                assert(digit(last[i + 1]));
            }
        }
    }
    if forall|i: int| 1 <= i < parts.len() - 1 ==> feature_word(#[trigger] parts[i]) {
        assert forall|i: int| 1 <= i < parts.len() - 1 implies primitives::is_feature_word(
            #[trigger] parts[i],
        ) by {
            assert(feature_word(parts[i]));
        }
    } else {
        let i = choose|i: int| 1 <= i < parts.len() - 1 && !feature_word(#[trigger] parts[i]);
        assert(!primitives::is_feature_word(parts[i]));
    }
}

/// A reference to a step names it by one segment, and then asks for its verdict, its output,
/// or a field of its output.
pub open spec fn asks_of_a_step(s: Seq<char>, at: int) -> bool {
    &&& 0 <= at < s.len()
    &&& segment(s.take(at))
    &&& s[at] == '.'
    &&& {
        let tail = s.skip(at + 1);
        ||| tail == "verdict"@
        ||| tail == "output"@
        ||| tail.len() >= 7 && tail.take(7) == "output."@ && dotted(tail.skip(7))
    }
}

proof fn lemma_step_refs(s: Seq<char>)
    ensures
        primitives::step_ref_fault(s) is None <==> exists|at: int| #[trigger] asks_of_a_step(s, at),
{
    reveal_strlit("output.");
    let f = text::find(s, '.');
    text::lemma_find(s, '.');
    law_words(s.take(f));
    if s.skip(f + 1).len() >= 7 {
        law_dotted_paths_and_step_ids(s.skip(f + 1).skip(7));
    }
    if primitives::step_ref_fault(s) is None {
        assert(asks_of_a_step(s, f));
    }
    if exists|at: int| #[trigger] asks_of_a_step(s, at) {
        let at = choose|at: int| #[trigger] asks_of_a_step(s, at);
        assert forall|i: int| 0 <= i < at implies #[trigger] s[i] != '.' by {
            assert(s.take(at)[i] == s[i]);
        }
        text::lemma_find_is(s, '.', at);
    }
}

/// A reference path has at most 1024 bytes and is rooted at one of five scopes: parameters
/// take a dotted path, the environment, variables and iterations one identifier, and steps a
/// step reference.
#[verifier::spinoff_prover]
pub proof fn law_reference_paths(s: Seq<char>)
    ensures
        primitives::ref_path_fault(s) is None <==> encode_utf8(s).len() <= 1024 && {
            ||| s.len() >= 7 && s.take(7) == "params."@ && dotted(s.skip(7))
            ||| s.len() >= 4 && s.take(4) == "env."@ && identifier(s.skip(4))
            ||| s.len() >= 5 && s.take(5) == "vars."@ && identifier(s.skip(5))
            ||| s.len() >= 5 && s.take(5) == "iter."@ && identifier(s.skip(5))
            ||| s.len() >= 6 && s.take(6) == "steps."@ && exists|at: int| #[trigger]
                asks_of_a_step(s.skip(6), at)
        },
{
    reveal_strlit("params.");
    reveal_strlit("env.");
    reveal_strlit("vars.");
    reveal_strlit("iter.");
    reveal_strlit("steps.");
    if s.len() >= 7 {
        law_dotted_paths_and_step_ids(s.skip(7));
        assert(s.take(7)[0] == s[0]);
    }
    if s.len() >= 4 {
        law_words(s.skip(4));
        assert(s.take(4)[0] == s[0]);
    }
    if s.len() >= 5 {
        law_words(s.skip(5));
        assert(s.take(5)[0] == s[0]);
    }
    if s.len() >= 6 {
        lemma_step_refs(s.skip(6));
        assert(s.take(6)[0] == s[0]);
    }
}

/// The step that a path refers to is what stands between the scope and the next dot; the
/// other scopes refer to none.
pub proof fn law_referenced_steps(s: Seq<char>)
    requires
        primitives::ref_path_fault(s) is None,
    ensures
        ({
            let r = RefPath::spec_referenced_step(s);
            &&& r is Some <==> s.len() >= 6 && s.take(6) == "steps."@
            &&& r matches Some(id) ==> segment(id) && id.len() + 6 < s.len() && s.take(
                6 + id.len() as int,
            ) == "steps."@ + id && s[6 + id.len() as int] == '.'
        }),
{
    reveal_strlit("params.");
    reveal_strlit("env.");
    reveal_strlit("vars.");
    reveal_strlit("iter.");
    reveal_strlit("steps.");
    if s.len() >= 6 && s.take(6) == "steps."@ {
        assert(s[0] == s.take(6)[0]);
        if s.len() >= 7 {
            assert(s.take(7)[0] == s[0]);
        }
        assert(s.take(4)[0] == s[0]);
        assert(s.take(5)[0] == s[0]);
        let rest = s.skip(6);
        let at = text::find(rest, '.');
        text::lemma_find(rest, '.');
        law_words(rest.take(at));
        assert(primitives::step_ref_fault(rest) is None);
        let id = rest.take(at);
        assert(s.take(6 + id.len() as int) =~= "steps."@ + id);
        assert(s[6 + at] == rest[at]);
    }
}

/// A pointer is empty or starts with a slash, and each tilde in it stands before a zero or a
/// one. A schema document is an object or a boolean.
pub proof fn law_pointers_and_schemas(s: Seq<char>, v: JsonV)
    ensures
        primitives::json_pointer_fault(s) is None <==> (s.len() > 0 ==> s[0] == '/') && forall|
            i: int,
        |
            0 <= i < s.len() && #[trigger] s[i] == '~' ==> i + 1 < s.len() && (s[i + 1] == '0'
                || s[i + 1] == '1'),
        primitives::is_schema_document(v) <==> v is Object || v is Bool,
{
}

/// What is said of a rejected text names its kind, the reason and the text.
pub proof fn law_rejections(kind: Seq<char>, reason: Seq<char>, value: Seq<char>)
    ensures
        primitives::rejection(kind, reason, value) == "invalid "@ + kind + ": "@ + reason + (
        " (value: "@ + text::debug_text(value) + ")"@),
{
}

/// The tags under which contents are hashed.
pub proof fn law_hash_tags(kind: Seq<char>)
    ensures
        hash::ir_tag() == "pointlock-ir/1/irHash"@,
        hash::effect_tag(kind) == "pointlock-ir/1/effectHash/"@ + kind,
        hash::judge_tag(kind) == "pointlock-ir/1/judgeHash/"@ + kind,
        crate::kit::lockfile::LOCKFILE_DIGEST_DOMAIN_TAG@ == "pointlock-lockfile/1"@,
{
    reveal_strlit("pointlock-ir/");
    reveal_strlit("/irHash");
    reveal_strlit("/effectHash/");
    reveal_strlit("/judgeHash/");
    reveal_strlit("pointlock-ir/1/irHash");
    reveal_strlit("pointlock-ir/1/effectHash/");
    reveal_strlit("pointlock-ir/1/judgeHash/");
    assert(text::decimal(1) =~= seq!['1']);
    assert(hash::tag_prefix() =~= "pointlock-ir/"@ + seq!['1']);
    assert(hash::ir_tag() =~= "pointlock-ir/1/irHash"@);
    assert(hash::tag_prefix() + "/effectHash/"@ =~= "pointlock-ir/1/effectHash/"@);
    assert(hash::tag_prefix() + "/judgeHash/"@ =~= "pointlock-ir/1/judgeHash/"@);
}

/// A hook is read from its own name and from no other, and so is a phase.
pub proof fn law_hooks_and_phases_are_read_by_name(
    name: Seq<char>,
    hook: HandlerHook,
    phase: Phase,
)
    ensures
        run_path::hook_named(name) == Some(hook) <==> name == hook.wire(),
        run_path::phase_named(name) == Some(phase) <==> name == phase.wire(),
{
    word_laws::law_handler_hook_words(hook);
    word_laws::law_phase_words(phase);
    word_laws::law_handler_hook_words(HandlerHook::OnFail);
    word_laws::law_handler_hook_words(HandlerHook::OnUnknown);
    word_laws::law_handler_hook_words(HandlerHook::OnError);
    word_laws::law_handler_hook_words(HandlerHook::OnResumeDrift);
    word_laws::law_phase_words(Phase::Preflight);
    word_laws::law_phase_words(Phase::Act);
    word_laws::law_phase_words(Phase::Observe);
    word_laws::law_phase_words(Phase::Assert);
}

/// A path starts with its flow, written as the flow id, an at sign and the start of its hash.
pub proof fn law_paths_start_with_the_flow(flow_id: Seq<char>, prefix: Seq<char>)
    ensures
        run_path::rendered(seq![FrameV::Flow { flow_id, prefix }]) == flow_id + seq!['@'] + prefix,
{
    let frames = seq![FrameV::Flow { flow_id, prefix }];
    reveal_with_fuel(run_path::render_state, 3);
    assert(frames.drop_last() =~= Seq::empty());
    assert(run_path::rendered(frames) =~= flow_id + seq!['@'] + prefix);
}

/// A frame behind others adds its own text to theirs: a step and a hook a segment, a call its
/// step and an arrow segment, an iteration its index in brackets, and an assertion its id behind
/// an exclamation mark.
#[verifier::spinoff_prover]
pub proof fn law_frames_add_their_text(
    frames: Seq<FrameV>,
    step_id: Seq<char>,
    callee: Seq<char>,
    prefix: Seq<char>,
    index: u64,
    key: Seq<char>,
    hook: HandlerHook,
)
    requires
        frames.len() > 0,
        run_path::rendered(frames).len() > 0,
    ensures
        ({
            let path = run_path::rendered(frames);
            let number = text::decimal(index as nat);
            &&& run_path::rendered(frames.push(FrameV::Step { step_id })) == path + (seq!['/']
                + step_id)
            &&& run_path::rendered(frames.push(FrameV::Assertion { assert_id: step_id })) == path + (
            seq!['!'] + step_id)
            &&& run_path::rendered(frames.push(FrameV::Iteration { index, key: None })) == path + (
            seq!['['] + number + seq![']'])
            &&& run_path::rendered(frames.push(FrameV::Iteration { index, key: Some(key) })) == path
                + (seq!['['] + number + seq![':'] + key + seq![']'])
            &&& run_path::rendered(frames.push(FrameV::Hook { hook, trigger: index })) == path + (
            "/hook:"@ + hook.wire() + seq![':'] + number)
            &&& run_path::rendered(
                frames.push(FrameV::Call { step_id: Some(step_id), callee, prefix }),
            ) == path + (seq!['/'] + step_id) + (seq!['/'] + ("call→"@ + (callee + seq!['@']
                + prefix)))
        }),
{
    let path = run_path::rendered(frames);
    let number = text::decimal(index as nat);
    let a = frames.push(FrameV::Step { step_id });
    let b = frames.push(FrameV::Assertion { assert_id: step_id });
    let c = frames.push(FrameV::Iteration { index, key: None });
    let d = frames.push(FrameV::Iteration { index, key: Some(key) });
    let e = frames.push(FrameV::Hook { hook, trigger: index });
    let f = frames.push(FrameV::Call { step_id: Some(step_id), callee, prefix });
    assert(a.drop_last() =~= frames);
    assert(b.drop_last() =~= frames);
    assert(c.drop_last() =~= frames);
    assert(d.drop_last() =~= frames);
    assert(e.drop_last() =~= frames);
    assert(f.drop_last() =~= frames);
    assert(run_path::rendered(a) =~= path + (seq!['/'] + step_id));
    assert(run_path::rendered(b) =~= path + (seq!['!'] + step_id));
    assert(run_path::rendered(c) =~= path + (seq!['['] + number + seq![']']));
    assert(run_path::rendered(d) =~= path + (seq!['['] + number + seq![':'] + key + seq![']']));
    assert(run_path::rendered(e) =~= path + ("/hook:"@ + hook.wire() + seq![':'] + number));
    assert(run_path::rendered(f) =~= path + (seq!['/'] + step_id) + (seq!['/'] + ("call→"@ + (
    callee + seq!['@'] + prefix))));
}

/// An attempt and a phase attach to the segment before them: behind a step the attempt adds its
/// number behind a hash sign, and the phase its word behind a colon.
pub proof fn law_attempts_and_phases_attach(
    frames: Seq<FrameV>,
    step_id: Seq<char>,
    n: u64,
    phase: Phase,
)
    requires
        run_path::rendered(frames).len() > 0,
    ensures
        ({
            let step = frames.push(FrameV::Step { step_id });
            let attempt = step.push(FrameV::Attempt { n });
            let path = run_path::rendered(step);
            &&& run_path::rendered(attempt) == path + (seq!['#'] + text::decimal(n as nat))
            &&& run_path::rendered(attempt.push(FrameV::Phase { phase })) == path + (seq!['#']
                + text::decimal(n as nat)) + (seq![':'] + phase.wire())
        }),
{
    let step = frames.push(FrameV::Step { step_id });
    let attempt = step.push(FrameV::Attempt { n });
    let last = attempt.push(FrameV::Phase { phase });
    assert(step.drop_last() =~= frames);
    assert(attempt.drop_last() =~= step);
    assert(last.drop_last() =~= attempt);
    let path = run_path::rendered(step);
    assert(run_path::render_state(step).pending is None);
    assert(run_path::render_state(attempt).pending is None);
    assert(run_path::rendered(attempt) =~= path + (seq!['#'] + text::decimal(n as nat)));
    assert(run_path::rendered(last) =~= path + (seq!['#'] + text::decimal(n as nat)) + (seq![':']
        + phase.wire()));
}

/// The hash that stands in before a flow is sealed has only zeros for digits.
pub proof fn law_zero_hash(i: int)
    ensures
        primitives::Hash::spec_zero().len() == 71,
        primitives::Hash::spec_zero().take(7) == "sha256:"@,
        7 <= i < 71 ==> primitives::Hash::spec_zero()[i] == '0',
{
    reveal_strlit("sha256:");
    assert(primitives::Hash::spec_zero().take(7) =~= "sha256:"@);
}

/// What the text of a path shows of a frame is all that it says, with hashes cut to their first
/// eight digits; the full hash is that of the flow.
pub proof fn law_frames_are_shown_whole(frame: PathFrame)
    ensures
        match frame {
            PathFrame::Flow { flow_id, ir_hash } => frame.shown() is Flow
                && frame.shown()->Flow_flow_id == flow_id@ && frame.shown()->Flow_prefix
                == ir_hash@.skip(7).take(8) && frame.full_hash() == Some(ir_hash@),
            PathFrame::Step { step_id } => frame.shown() is Step && frame.shown()->Step_step_id
                == step_id@ && frame.full_hash() is None,
            PathFrame::Call { step_id, callee_flow_id, callee_ir_hash } => frame.shown() is Call
                && frame.shown()->callee == callee_flow_id@ && frame.shown()->Call_prefix
                == callee_ir_hash@.skip(7).take(8) && frame.full_hash() == Some(callee_ir_hash@) && (
            frame.shown()->Call_step_id is Some <==> step_id is Some) && (step_id matches Some(id)
                ==> frame.shown()->Call_step_id == Some(id@)),
            PathFrame::Iteration { index, key } => frame.shown() is Iteration
                && frame.shown()->index == index && (frame.shown()->key is Some <==> key is Some)
                && (key matches Some(k) ==> frame.shown()->key == Some(k@)),
            PathFrame::Hook { hook, trigger } => frame.shown() == (FrameV::Hook { hook, trigger }),
            PathFrame::Attempt { n } => frame.shown() == (FrameV::Attempt { n }),
            PathFrame::Phase { phase } => frame.shown() == (FrameV::Phase { phase }),
            PathFrame::Assertion { assert_id } => frame.shown() is Assertion
                && frame.shown()->assert_id == assert_id@,
        },
{
    reveal_strlit("sha256:");
}

} // verus!
