//! What is hashed differs, so the hashes differ, up to collisions of SHA-256:
//! each law leaves out the two inputs that SHA-256 does not tell apart.

use vstd::prelude::*;
use vstd::string::*;
use vstd::utf8::*;

use crate::ir::canonical_laws;
use crate::ir::flow::FlowIR;
use crate::ir::hash;
use crate::ir::hash_laws;
use crate::ir::step::StepIR;
use crate::json::JsonV;
use crate::text;

verus! {

/// Whether two inputs are no collision: SHA-256 gives them one digest only if
/// they are the same.
pub open spec fn no_collision(a: Seq<u8>, b: Seq<u8>) -> bool {
    hash::sha256_digest(a) == hash::sha256_digest(b) ==> a == b
}

/// The bytes that are hashed for a subtree under a tag.
pub open spec fn hashed_bytes(tag: Seq<char>, subtree: JsonV) -> Seq<u8> {
    encode_utf8(hash::preimage(tag, subtree))
}

/// Bytes in hexadecimal can be told apart.
proof fn lemma_hex_tells_apart(a: Seq<u8>, b: Seq<u8>)
    requires
        text::hex(a) == text::hex(b),
    ensures
        a == b,
    decreases a.len(),
{
    text::lemma_hex_digits(a);
    text::lemma_hex_digits(b);
    if a.len() > 0 {
        let n = text::hex(a).len() as int;
        let x = text::hex(a.drop_last());
        let y = text::hex(b.drop_last());
        text::lemma_hex_digits(a.drop_last());
        text::lemma_hex_digits(b.drop_last());
        assert(text::hex(a).take(n - 2) =~= x);
        assert(text::hex(b).take(n - 2) =~= y);
        lemma_hex_tells_apart(a.drop_last(), b.drop_last());
        let p = a.last() as int;
        let q = b.last() as int;
        assert(text::hex(a)[n - 2] == text::hex_digit(p / 16));
        assert(text::hex(b)[n - 2] == text::hex_digit(q / 16));
        assert(text::hex(a)[n - 1] == text::hex_digit(p % 16));
        assert(text::hex(b)[n - 1] == text::hex_digit(q % 16));
        lemma_digit_tells_apart(p / 16, q / 16);
        lemma_digit_tells_apart(p % 16, q % 16);
        assert(a =~= a.drop_last().push(a.last()));
        assert(b =~= b.drop_last().push(b.last()));
    } else {
        assert(a =~= b);
    }
}

proof fn lemma_digit_tells_apart(p: int, q: int)
    requires
        0 <= p < 16,
        0 <= q < 16,
        text::hex_digit(p) == text::hex_digit(q),
    ensures
        p == q,
{
    assert((48 + p) as char as int == 48 + p);
    assert((48 + q) as char as int == 48 + q);
    assert((87 + p) as char as int == 87 + p);
    assert((87 + q) as char as int == 87 + q);
}

/// Under one tag, different subtrees in normal form have different hashes, up
/// to a collision.
pub proof fn law_other_contents_have_other_hashes(tag: Seq<char>, a: JsonV, b: JsonV)
    requires
        canonical_laws::normal(a),
        canonical_laws::normal(b),
        a != b,
        no_collision(hashed_bytes(tag, a), hashed_bytes(tag, b)),
    ensures
        hash::content_hash(tag, a) != hash::content_hash(tag, b),
{
    canonical_laws::law_hashed_bytes_tell_contents_apart(tag, a, b);
    let x = hash::sha256_hex(hashed_bytes(tag, a));
    let y = hash::sha256_hex(hashed_bytes(tag, b));
    if "sha256:"@ + x == "sha256:"@ + y {
        let front = "sha256:"@.len() as int;
        assert(("sha256:"@ + x).skip(front) =~= x);
        assert(("sha256:"@ + y).skip(front) =~= y);
        lemma_hex_tells_apart(
            hash::sha256_digest(hashed_bytes(tag, a)),
            hash::sha256_digest(hashed_bytes(tag, b)),
        );
    }
}

/// A change of anything but the stored hash and the source map changes the
/// flow hash, up to a collision.
pub proof fn law_other_flows_have_other_hashes(a: FlowIR, b: FlowIR, key: Seq<char>)
    requires
        canonical_laws::normal(hash_laws::ir_members(a).object()),
        canonical_laws::normal(hash_laws::ir_members(b).object()),
        hash_laws::ir_members(a).get(key) != hash_laws::ir_members(b).get(key),
        no_collision(
            hashed_bytes(hash::ir_tag(), hash_laws::ir_members(a).object()),
            hashed_bytes(hash::ir_tag(), hash_laws::ir_members(b).object()),
        ),
    ensures
        hash::ir_hash_of(a) != hash::ir_hash_of(b),
{
    hash_laws::law_ir_domain(a);
    hash_laws::law_ir_domain(b);
    law_other_contents_have_other_hashes(
        hash::ir_tag(),
        hash_laws::ir_members(a).object(),
        hash_laws::ir_members(b).object(),
    );
}

/// A change of a member that says what a step does to the world, such as an
/// argument of its action, changes the effect hash, up to a collision.
pub proof fn law_other_effects_have_other_hashes(a: StepIR, b: StepIR, key: Seq<char>)
    requires
        a.spec_kind() == b.spec_kind(),
        canonical_laws::normal(hash::effect_domain(a)),
        canonical_laws::normal(hash::effect_domain(b)),
        hash_laws::effect_members(a).get(key) != hash_laws::effect_members(b).get(key),
        no_collision(
            hashed_bytes(hash::effect_tag(a.spec_kind()), hash::effect_domain(a)),
            hashed_bytes(hash::effect_tag(b.spec_kind()), hash::effect_domain(b)),
        ),
    ensures
        hash::effect_hash_of(a) != hash::effect_hash_of(b),
{
    hash_laws::law_effect_domain(a);
    hash_laws::law_effect_domain(b);
    law_other_contents_have_other_hashes(
        hash::effect_tag(a.spec_kind()),
        hash::effect_domain(a),
        hash::effect_domain(b),
    );
}

/// A change of a member that says how a step is judged changes the judge hash,
/// up to a collision.
pub proof fn law_other_judgements_have_other_hashes(a: StepIR, b: StepIR, key: Seq<char>)
    requires
        a.spec_kind() == b.spec_kind(),
        canonical_laws::normal(hash::judge_domain(a)),
        canonical_laws::normal(hash::judge_domain(b)),
        hash_laws::judge_members(a).get(key) != hash_laws::judge_members(b).get(key),
        no_collision(
            hashed_bytes(hash::judge_tag(a.spec_kind()), hash::judge_domain(a)),
            hashed_bytes(hash::judge_tag(b.spec_kind()), hash::judge_domain(b)),
        ),
    ensures
        hash::judge_hash_of(a) != hash::judge_hash_of(b),
{
    hash_laws::law_judge_domain(a);
    hash_laws::law_judge_domain(b);
    law_other_contents_have_other_hashes(
        hash::judge_tag(a.spec_kind()),
        hash::judge_domain(a),
        hash::judge_domain(b),
    );
}

} // verus!
