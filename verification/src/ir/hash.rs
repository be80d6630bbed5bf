//! Content addressing. Every content hash is
//! `sha256(utf8(domainTag + "\n" + canonical JSON))`, written as
//! `sha256:<hex>`; the domain tag keeps the hash domains apart.

use vstd::prelude::*;
use vstd::string::*;
use vstd::utf8::*;

use crate::ir::canonical;
use crate::ir::canonical::to_canonical_json;
use crate::ir::flow;
use crate::ir::flow::{flow_map, FlowIR};
use crate::ir::primitives;
use crate::ir::primitives::{CharClass, IrVersion};
use crate::ir::step;
use crate::ir::step::{step_map, StepIR};
use crate::json::{Json, JsonMap, JsonV, Members};
use crate::text;
use crate::text::{concat, concat3, decimal_text, hex_text, same_text};

verus! {

/// The SHA-256 digest of `bytes`.
pub uninterp spec fn sha256_digest(bytes: Seq<u8>) -> Seq<u8>;

/// `Sha256::digest` of the crate `sha2`: the 32 bytes of the SHA-256 digest of
/// the data. The digest itself is only named: it depends on the data alone.
#[verifier::external_body]
pub(crate) fn sha256(data: &[u8]) -> (r: Vec<u8>)
    ensures
        r@ == sha256_digest(data@),
        r@.len() == 32,
{
    <sha2::Sha256 as sha2::Digest>::digest(data).to_vec()
}

/// The lowercase hexadecimal SHA-256 digest of `bytes`.
pub open spec fn sha256_hex(bytes: Seq<u8>) -> Seq<char> {
    text::hex(sha256_digest(bytes))
}

/// The lowercase hexadecimal SHA-256 digest of the data.
pub fn hex_sha256(data: &Vec<u8>) -> (r: String)
    ensures
        r@ == sha256_hex(data@),
        r@.len() == 64,
{
    let digest = sha256(data.as_slice());
    proof {
        text::lemma_hex_digits(digest@);
    }
    hex_text(&digest)
}

/// The prefix that all domain tags of this generation share.
pub open spec fn tag_prefix() -> Seq<char> {
    "pointlock-ir/"@ + text::decimal(IrVersion::VALUE as nat)
}

/// The domain tag of `irHash`.
pub open spec fn ir_tag() -> Seq<char> {
    tag_prefix() + "/irHash"@
}

/// The domain tag of `effectHash` for a step kind.
pub open spec fn effect_tag(kind: Seq<char>) -> Seq<char> {
    tag_prefix() + "/effectHash/"@ + kind
}

/// The domain tag of `judgeHash` for a step kind.
pub open spec fn judge_tag(kind: Seq<char>) -> Seq<char> {
    tag_prefix() + "/judgeHash/"@ + kind
}

fn tag_prefix_text() -> (r: String)
    ensures
        r@ == tag_prefix(),
{
    concat("pointlock-ir/", decimal_text(IrVersion::VALUE).as_str())
}

/// The domain tag of `irHash`: `pointlock-ir/1/irHash`.
pub fn ir_hash_domain_tag() -> (r: String)
    ensures
        r@ == ir_tag(),
{
    concat(tag_prefix_text().as_str(), "/irHash")
}

/// The domain tag of `effectHash` for a step kind:
/// `pointlock-ir/1/effectHash/<kind>`.
pub fn effect_hash_domain_tag(kind: &str) -> (r: String)
    ensures
        r@ == effect_tag(kind@),
{
    concat3(tag_prefix_text().as_str(), "/effectHash/", kind)
}

/// The domain tag of `judgeHash` for a step kind:
/// `pointlock-ir/1/judgeHash/<kind>`.
pub fn judge_hash_domain_tag(kind: &str) -> (r: String)
    ensures
        r@ == judge_tag(kind@),
{
    concat3(tag_prefix_text().as_str(), "/judgeHash/", kind)
}

/// The text that is hashed: the domain tag, a line feed, the canonical JSON.
pub open spec fn preimage(tag: Seq<char>, subtree: JsonV) -> Seq<char> {
    tag + "\n"@ + canonical::canonical(subtree)
}

/// The content hash of a subtree under a domain tag.
pub open spec fn content_hash(tag: Seq<char>, subtree: JsonV) -> Seq<char> {
    "sha256:"@ + sha256_hex(encode_utf8(preimage(tag, subtree)))
}

/// A digest in hexadecimal is a grammatical hash.
pub proof fn lemma_hash_grammatical(digits: Seq<char>)
    requires
        digits.len() == 64,
        forall|i: int| 0 <= i < 64 ==> text::is_hex_digit(#[trigger] digits[i]),
    ensures
        crate::ir::primitives::hash_fault("sha256:"@ + digits) is None,
{
    reveal_strlit("sha256:");
    let s = "sha256:"@ + digits;
    assert(s.take(7) =~= "sha256:"@);
    assert(s.skip(7) =~= digits);
    assert(primitives::all_in(CharClass::Hex, digits));
    primitives::lemma_class_byte_len(CharClass::Hex, digits);
}

/// Hashes a subtree under a domain tag:
/// `sha256(utf8(domainTag + "\n" + canonical JSON))`.
pub fn domain_hash(domain_tag: &str, subtree: &Json) -> (r: crate::ir::primitives::Hash)
    ensures
        r@ == content_hash(domain_tag@, subtree@),
{
    let text = concat3(domain_tag, "\n", to_canonical_json(subtree).as_str());
    let digest = sha256(text.as_str().as_bytes());
    proof {
        text::lemma_hex_digits(digest@);
        lemma_hash_grammatical(text::hex(digest@));
    }
    let written = concat("sha256:", hex_text(&digest).as_str());
    match crate::ir::primitives::Hash::new(written.as_str()) {
        Ok(hash) => hash,
        Err(_) => {
            assert(false);
            crate::ir::primitives::Hash::zero()
        },
    }
}

/// The members of `m` under the given keys. A key that `m` does not have stays
/// absent.
pub open spec fn project(m: Members, fields: Seq<Seq<char>>) -> Members
    decreases fields.len(),
{
    if fields.len() == 0 {
        Members::none()
    } else {
        project(m, fields.drop_last()).with_some(fields.last(), m.get(fields.last()))
    }
}

/// The members that say what a step does to the world.
pub open spec fn effect_fields(step: StepIR) -> Seq<Seq<char>> {
    match step {
        StepIR::Action(_) => seq![
            "kind"@,
            "effect"@,
            "idempotent"@,
            "binding"@,
            "outputs"@,
            "outputSchema"@,
        ],
        StepIR::Assert(_) => seq!["kind"@],
        StepIR::Call(_) => seq!["kind"@, "flowRef"@, "inputs"@],
        StepIR::Human(_) => seq![
            "kind"@,
            "mode"@,
            "prompt"@,
            "presents"@,
            "decisions"@,
            "outputSchema"@,
        ],
        StepIR::If(_) => seq!["kind"@, "cond"@],
        StepIR::Foreach(_) => seq!["kind"@, "items"@, "as"@],
        StepIR::Let(_) => seq!["kind"@, "bindings"@],
    }
}

/// The members that say how a step is judged.
pub open spec fn judge_fields(step: StepIR) -> Seq<Seq<char>> {
    match step {
        StepIR::Action(_) => seq!["preflight"@, "assertions"@],
        StepIR::Assert(_) => seq!["preflight"@, "observe"@, "assertions"@],
        _ => seq!["preflight"@],
    }
}

/// What a step does to the world.
pub open spec fn effect_domain(step: StepIR) -> JsonV {
    project(step::step_members(step), effect_fields(step)).object()
}

/// How a step is judged.
pub open spec fn judge_domain(step: StepIR) -> JsonV {
    project(step::step_members(step), judge_fields(step)).object()
}

/// How a step is judged, without its probes.
pub open spec fn judge_rest(step: StepIR) -> JsonV {
    project(
        step::step_members(step),
        judge_fields(step).filter(|f: Seq<char>| f != "preflight"@),
    ).object()
}

/// The effect hash that a step should carry.
pub open spec fn effect_hash_of(step: StepIR) -> Seq<char> {
    content_hash(effect_tag(step.spec_kind()), effect_domain(step))
}

/// The judge hash that a step should carry.
pub open spec fn judge_hash_of(step: StepIR) -> Seq<char> {
    content_hash(judge_tag(step.spec_kind()), judge_domain(step))
}

/// The hash that a flow should carry: the whole tree but for `irHash` itself
/// and `sourceMap`.
pub open spec fn ir_hash_of(flow: FlowIR) -> Seq<char> {
    content_hash(
        ir_tag(),
        flow::flow_members(flow).without("irHash"@).without("sourceMap"@).object(),
    )
}

/// A list of keys, as contracts see it.
pub open spec fn key_views(fields: Seq<&'static str>) -> Seq<Seq<char>> {
    fields.map_values(|s: &'static str| s@)
}

/// The members that say what a step does to the world.
fn effect_domain_fields(step: &StepIR) -> (r: Vec<&'static str>)
    ensures
        key_views(r@) == effect_fields(*step),
{
    let r = match step {
        StepIR::Action(_) => vec![
            "kind",
            "effect",
            "idempotent",
            "binding",
            "outputs",
            "outputSchema",
        ],
        StepIR::Assert(_) => vec!["kind"],
        StepIR::Call(_) => vec!["kind", "flowRef", "inputs"],
        StepIR::Human(_) => vec![
            "kind",
            "mode",
            "prompt",
            "presents",
            "decisions",
            "outputSchema",
        ],
        StepIR::If(_) => vec!["kind", "cond"],
        StepIR::Foreach(_) => vec!["kind", "items", "as"],
        StepIR::Let(_) => vec!["kind", "bindings"],
    };
    assert(key_views(r@) =~= effect_fields(*step));
    r
}

/// The members that say how a step is judged.
fn judge_domain_fields(step: &StepIR) -> (r: Vec<&'static str>)
    ensures
        key_views(r@) == judge_fields(*step),
{
    let r = match step {
        StepIR::Action(_) => vec!["preflight", "assertions"],
        StepIR::Assert(_) => vec!["preflight", "observe", "assertions"],
        _ => vec!["preflight"],
    };
    assert(key_views(r@) =~= judge_fields(*step));
    r
}

/// Projects a step's JSON form onto the given members.
fn step_domain_subtree(step: &StepIR, fields: &Vec<&'static str>) -> (r: Json)
    ensures
        r@ == project(step::step_members(*step), key_views(fields@)).object(),
{
    let map = step_map(step);
    let ghost keys = key_views(fields@);
    let mut domain = JsonMap::new();
    let mut i: usize = 0;
    while i < fields.len()
        invariant
            map@ == step::step_members(*step),
            keys == key_views(fields@),
            i <= fields@.len(),
            domain@ == project(map@, keys.take(i as int)),
        decreases fields@.len() - i,
    {
        assert(keys.take(i + 1).drop_last() =~= keys.take(i as int));
        assert(keys.take(i + 1).last() == fields@[i as int]@);
        let value = match map.get(fields[i]) {
            Some(v) => Some(v.clone()),
            None => None,
        };
        domain = domain.with_some(fields[i], value);
        i = i + 1;
    }
    assert(keys.take(i as int) =~= keys);
    domain.object()
}

/// Computes a step's effect hash: the hash of what the step does to the world.
/// The hashes that the step carries do not enter.
pub fn effect_hash(step: &StepIR) -> (r: crate::ir::primitives::Hash)
    ensures
        r@ == effect_hash_of(*step),
{
    let subtree = step_domain_subtree(step, &effect_domain_fields(step));
    domain_hash(effect_hash_domain_tag(step.kind()).as_str(), &subtree)
}

/// How a step is judged, without its probes: the part that judging again
/// offline evaluates.
pub fn judge_subdomain_sans_preflight(step: &StepIR) -> (r: Json)
    ensures
        r@ == judge_rest(*step),
{
    let all = judge_domain_fields(step);
    let ghost keys = key_views(all@);
    let ghost keep = |f: Seq<char>| f != "preflight"@;
    let mut fields: Vec<&'static str> = Vec::new();
    let mut i: usize = 0;
    assert(key_views(fields@) =~= keys.take(0).filter(keep)) by {
        reveal(Seq::filter);
    }
    while i < all.len()
        invariant
            keys == key_views(all@),
            keep == (|f: Seq<char>| f != "preflight"@),
            i <= all@.len(),
            key_views(fields@) == keys.take(i as int).filter(keep),
        decreases all@.len() - i,
    {
        let ghost before = fields@;
        assert(keys.take(i + 1).drop_last() =~= keys.take(i as int));
        assert(keys.take(i + 1).last() == all@[i as int]@);
        if !same_text(all[i], "preflight") {
            fields.push(all[i]);
            assert(key_views(fields@) =~= key_views(before).push(all@[i as int]@));
        }
        assert(key_views(fields@) == keys.take(i + 1).filter(keep)) by {
            reveal(Seq::filter);
        }
        i = i + 1;
    }
    assert(keys.take(i as int) =~= keys);
    step_domain_subtree(step, &fields)
}

/// Computes a step's judge hash: the hash of how the step is judged. The
/// hashes that the step carries do not enter.
pub fn judge_hash(step: &StepIR) -> (r: crate::ir::primitives::Hash)
    ensures
        r@ == judge_hash_of(*step),
{
    let subtree = step_domain_subtree(step, &judge_domain_fields(step));
    domain_hash(judge_hash_domain_tag(step.kind()).as_str(), &subtree)
}

/// Computes a flow's hash: the whole tree but for `irHash` itself and
/// `sourceMap`.
pub fn ir_hash(flow: &FlowIR) -> (r: crate::ir::primitives::Hash)
    ensures
        r@ == ir_hash_of(*flow),
{
    let subtree = flow_map(flow).without("irHash").without("sourceMap").object();
    domain_hash(ir_hash_domain_tag().as_str(), &subtree)
}

} // verus!
