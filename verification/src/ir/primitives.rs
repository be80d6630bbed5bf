//! Validated string primitives of the flow language.
//!
//! Every grammar-bearing string is a newtype whose constructor enforces its
//! grammar, so a value never holds a string outside it.

use vstd::prelude::*;
use vstd::string::*;
use vstd::utf8::*;

use crate::json;
use crate::json::{write_compact, Json, JsonV};
use crate::text;
use crate::text::{
    chars_of, concat3, concat5, find_in, has_prefix, is_word, quote_text, split_ranges, string_of,
    text_byte_len,
};

verus! {

/// Error returned when a validated primitive is constructed from a string
/// outside its grammar (or a schema document from a value that is neither an
/// object nor a boolean).
#[derive(Debug, PartialEq, Eq)]
pub struct ValidationError {
    /// The primitive type that rejected the value (e.g. `"StepId"`).
    pub kind: &'static str,
    /// Human-readable reason for the rejection.
    pub reason: &'static str,
    /// The offending input, verbatim.
    pub value: String,
}

/// The message of a rejected value.
pub open spec fn rejection(kind: Seq<char>, reason: Seq<char>, value: Seq<char>) -> Seq<char> {
    "invalid "@ + kind + ": "@ + reason + (" (value: "@ + text::debug_text(value) + ")"@)
}

impl ValidationError {
    /// Whether this is the error of `kind`, for this reason, on this value.
    pub open spec fn says(&self, kind: Seq<char>, reason: Seq<char>, value: Seq<char>) -> bool {
        self.kind@ == kind && self.reason@ == reason && self.value@ == value
    }

    /// The message of this error.
    pub open spec fn spec_message(&self) -> Seq<char> {
        rejection(self.kind@, self.reason@, self.value@)
    }

    /// The message of this error.
    pub fn message(&self) -> (r: String)
        ensures
            r@ == self.spec_message(),
    {
        let tail = concat3(" (value: ", quote_text(self.value.as_str()).as_str(), ")");
        concat5("invalid ", self.kind, ": ", self.reason, tail.as_str())
    }
}

/// The character classes of the grammars.
#[derive(Clone, Copy, PartialEq, Eq, Structural)]
pub enum CharClass {
    /// `[A-Za-z_]`
    IdentStart,
    /// `[A-Za-z0-9_]`
    Ident,
    /// `[A-Za-z0-9_-]`
    Step,
    /// `[A-Za-z0-9_.-]`
    Flow,
    /// `[A-Za-z]`
    Alpha,
    /// `[a-z]`
    Lower,
    /// `[A-Za-z0-9]`
    Alnum,
    /// `[0-9]`
    Digit,
    /// `[0-9a-f]`
    Hex,
}

/// Whether `c` is an ASCII lowercase letter.
pub open spec fn is_lower(c: char) -> bool {
    'a' <= c && c <= 'z'
}

/// Whether `c` is an ASCII letter.
pub open spec fn is_alpha(c: char) -> bool {
    is_lower(c) || ('A' <= c && c <= 'Z')
}

/// Whether `c` belongs to the class.
pub open spec fn in_class(class: CharClass, c: char) -> bool {
    match class {
        CharClass::IdentStart => is_alpha(c) || c == '_',
        CharClass::Ident => is_alpha(c) || text::is_digit(c) || c == '_',
        CharClass::Step => is_alpha(c) || text::is_digit(c) || c == '_' || c == '-',
        CharClass::Flow => is_alpha(c) || text::is_digit(c) || c == '_' || c == '.' || c == '-',
        CharClass::Alpha => is_alpha(c),
        CharClass::Lower => is_lower(c),
        CharClass::Alnum => is_alpha(c) || text::is_digit(c),
        CharClass::Digit => text::is_digit(c),
        CharClass::Hex => text::is_hex_digit(c),
    }
}

/// Whether all of `s` belongs to the class.
pub open spec fn all_in(class: CharClass, s: Seq<char>) -> bool {
    forall|i: int| 0 <= i < s.len() ==> in_class(class, #[trigger] s[i])
}

/// Whether `s` is a character of `first` followed by characters of `rest`.
pub open spec fn is_word_of(first: CharClass, rest: CharClass, s: Seq<char>) -> bool {
    s.len() > 0 && in_class(first, s[0]) && all_in(rest, s.skip(1))
}

/// `[A-Za-z_][A-Za-z0-9_]*`
pub open spec fn is_identifier(s: Seq<char>) -> bool {
    is_word_of(CharClass::IdentStart, CharClass::Ident, s)
}

/// `[A-Za-z_][A-Za-z0-9_-]*`: one author-level step-id segment.
pub open spec fn is_step_segment(s: Seq<char>) -> bool {
    is_word_of(CharClass::IdentStart, CharClass::Step, s)
}

/// `Ident('.'Ident)*`: a dotted identifier path with at least one segment.
pub open spec fn is_dotted_identifiers(s: Seq<char>) -> bool {
    forall|i: int| 0 <= i < text::split(s, '.').len() ==> is_identifier(#[trigger] text::split(s, '.')[i])
}

/// Whether every `:`-separated piece is a step-id segment.
pub open spec fn is_step_segments(s: Seq<char>) -> bool {
    forall|i: int| 0 <= i < text::split(s, ':').len() ==> is_step_segment(#[trigger] text::split(s, ':')[i])
}

/// Whether the character belongs to the class.
pub fn class_has(class: CharClass, c: char) -> (r: bool)
    ensures
        r == in_class(class, c),
{
    let lower = 'a' <= c && c <= 'z';
    let alpha = lower || ('A' <= c && c <= 'Z');
    let digit = '0' <= c && c <= '9';
    match class {
        CharClass::IdentStart => alpha || c == '_',
        CharClass::Ident => alpha || digit || c == '_',
        CharClass::Step => alpha || digit || c == '_' || c == '-',
        CharClass::Flow => alpha || digit || c == '_' || c == '.' || c == '-',
        CharClass::Alpha => alpha,
        CharClass::Lower => lower,
        CharClass::Alnum => alpha || digit,
        CharClass::Digit => digit,
        CharClass::Hex => digit || ('a' <= c && c <= 'f'),
    }
}

/// Whether all characters of `from..to` belong to the class.
pub fn all_have(class: CharClass, chars: &Vec<char>, from: usize, to: usize) -> (r: bool)
    requires
        from <= to <= chars@.len(),
    ensures
        r == all_in(class, chars@.subrange(from as int, to as int)),
{
    let ghost s = chars@.subrange(from as int, to as int);
    let mut i: usize = from;
    while i < to
        invariant
            from <= i <= to <= chars@.len(),
            s == chars@.subrange(from as int, to as int),
            forall|j: int| 0 <= j < i - from ==> in_class(class, #[trigger] s[j]),
        decreases to - i,
    {
        assert(s[i - from] == chars@[i as int]);
        if !class_has(class, chars[i]) {
            return false;
        }
        i = i + 1;
    }
    true
}

/// Whether `from..to` is a character of `first` followed by characters of `rest`.
pub fn word_of(
    first: CharClass,
    rest: CharClass,
    chars: &Vec<char>,
    from: usize,
    to: usize,
) -> (r: bool)
    requires
        from <= to <= chars@.len(),
    ensures
        r == is_word_of(first, rest, chars@.subrange(from as int, to as int)),
{
    let ghost s = chars@.subrange(from as int, to as int);
    if from == to {
        return false;
    }
    assert(s.skip(1) =~= chars@.subrange(from + 1, to as int));
    class_has(first, chars[from]) && all_have(rest, chars, from + 1, to)
}

fn dotted_identifiers(chars: &Vec<char>, from: usize, to: usize) -> (r: bool)
    requires
        from <= to <= chars@.len(),
    ensures
        r == is_dotted_identifiers(chars@.subrange(from as int, to as int)),
{
    let parts = split_ranges(chars, from, to, '.');
    let ghost pieces = text::split(chars@.subrange(from as int, to as int), '.');
    let mut i: usize = 0;
    while i < parts.len()
        invariant
            i <= parts@.len(),
            parts@.len() == pieces.len(),
            forall|j: int|
                0 <= j < parts@.len() ==> (#[trigger] parts@[j]).0 <= parts@[j].1 <= chars@.len()
                    && chars@.subrange(parts@[j].0 as int, parts@[j].1 as int) == pieces[j],
            pieces == text::split(chars@.subrange(from as int, to as int), '.'),
            forall|j: int| 0 <= j < i ==> is_identifier(#[trigger] pieces[j]),
        decreases parts@.len() - i,
    {
        let (a, b) = parts[i];
        if !word_of(CharClass::IdentStart, CharClass::Ident, chars, a, b) {
            assert(!is_identifier(pieces[i as int]));
            return false;
        }
        i = i + 1;
    }
    true
}

fn step_segments(chars: &Vec<char>, from: usize, to: usize) -> (r: bool)
    requires
        from <= to <= chars@.len(),
    ensures
        r == is_step_segments(chars@.subrange(from as int, to as int)),
{
    let parts = split_ranges(chars, from, to, ':');
    let ghost pieces = text::split(chars@.subrange(from as int, to as int), ':');
    let mut i: usize = 0;
    while i < parts.len()
        invariant
            i <= parts@.len(),
            parts@.len() == pieces.len(),
            forall|j: int|
                0 <= j < parts@.len() ==> (#[trigger] parts@[j]).0 <= parts@[j].1 <= chars@.len()
                    && chars@.subrange(parts@[j].0 as int, parts@[j].1 as int) == pieces[j],
            pieces == text::split(chars@.subrange(from as int, to as int), ':'),
            forall|j: int| 0 <= j < i ==> is_step_segment(#[trigger] pieces[j]),
        decreases parts@.len() - i,
    {
        let (a, b) = parts[i];
        if !word_of(CharClass::IdentStart, CharClass::Step, chars, a, b) {
            assert(!is_step_segment(pieces[i as int]));
            return false;
        }
        i = i + 1;
    }
    true
}

/// Text of characters of these classes is ASCII, one byte for each character.
pub proof fn lemma_class_byte_len(class: CharClass, s: Seq<char>)
    requires
        all_in(class, s),
    ensures
        text::byte_len(s) == s.len(),
{
    assert forall|i: int| 0 <= i < s.len() implies (#[trigger] s[i] as nat) < 128 by {
        assert(in_class(class, s[i]));
    }
    is_ascii_chars_encode_utf8(s);
}

/// Whether `s` is the abbreviation of a digest: 8 lowercase hex digits.
pub open spec fn is_hash_prefix(s: Seq<char>) -> bool {
    s.len() == 8 && all_in(CharClass::Hex, s)
}

/// Why `s` is no `Hash`, if it is none.
pub open spec fn hash_fault(s: Seq<char>) -> Option<Seq<char>> {
    if !text::starts_with(s, "sha256:"@) {
        Some("must start with 'sha256:'"@)
    } else if text::byte_len(s.skip("sha256:"@.len() as int)) != 64 {
        Some("hex digest must be exactly 64 characters"@)
    } else if !all_in(CharClass::Hex, s.skip("sha256:"@.len() as int)) {
        Some("hex digest must be lowercase [0-9a-f]"@)
    } else {
        None
    }
}

/// Content hash in canonical form `sha256:<64 lowercase hex>`.
#[derive(Debug, PartialEq, Eq, PartialOrd, Ord, Hash)]
pub struct Hash(String);

impl Hash {
    /// The underlying text.
    pub closed spec fn view(&self) -> Seq<char> {
        self.0@
    }

    #[verifier::type_invariant]
    spec fn grammatical(self) -> bool {
        hash_fault(self.0@) is None
    }

    fn fault(s: &str) -> (r: Option<&'static str>)
        ensures
            r is Some <==> hash_fault(s@) is Some,
            r matches Some(reason) ==> hash_fault(s@) == Some(reason@),
    {
        proof {
            reveal_strlit("sha256:");
        }
        let chars = chars_of(s);
        let n = chars.len();
        assert(chars@.subrange(0, n as int) =~= s@);
        if !has_prefix(&chars, 0, n, "sha256:") {
            return Some("must start with 'sha256:'");
        }
        let ghost digest = s@.skip(7);
        assert(chars@.subrange(7, n as int) =~= digest);
        if text_byte_len(string_of(&chars, 7, n).as_str()) != 64 {
            return Some("hex digest must be exactly 64 characters");
        }
        if !all_have(CharClass::Hex, &chars, 7, n) {
            return Some("hex digest must be lowercase [0-9a-f]");
        }
        None
    }

    /// Validates `value` against the grammar.
    pub fn new(value: &str) -> (r: Result<Self, ValidationError>)
        ensures
            match r {
                Ok(id) => hash_fault(value@) is None && id@ == value@,
                Err(e) => hash_fault(value@) is Some && e.says(
                    "Hash"@,
                    hash_fault(value@)->0,
                    value@,
                ),
            },
    {
        match Self::fault(value) {
            None => Ok(Hash(value.to_owned())),
            Some(reason) => Err(
                ValidationError { kind: "Hash", reason, value: value.to_owned() },
            ),
        }
    }

    /// Borrows the underlying text.
    pub fn as_str(&self) -> (r: &str)
        ensures
            r@ == self@,
            hash_fault(r@) is None,
    {
        proof {
            use_type_invariant(self);
        }
        self.0.as_str()
    }

    /// Gives up the underlying text.
    pub fn into_string(self) -> (r: String)
        ensures
            r@ == self@,
            hash_fault(r@) is None,
    {
        proof {
            use_type_invariant(&self);
        }
        self.0
    }

    /// The hash whose digits are all zero, a stand-in before sealing.
    pub open spec fn spec_zero() -> Seq<char> {
        "sha256:"@ + Seq::new(64, |i: int| '0')
    }

    /// The hash whose digits are all zero, a stand-in before sealing.
    pub fn zero() -> (r: Self)
        ensures
            r@ == Self::spec_zero(),
    {
        let mut text = "sha256:".to_owned();
        let mut i: usize = 0;
        while i < 64
            invariant
                i <= 64,
                text@ == "sha256:"@ + Seq::new(i as nat, |j: int| '0'),
            decreases 64 - i,
        {
            text.push('0');
            i = i + 1;
            assert(text@ =~= "sha256:"@ + Seq::new(i as nat, |j: int| '0'));
        }
        proof {
            reveal_strlit("sha256:");
            let digits = Seq::new(64, |j: int| '0');
            assert(text@.take(7) =~= "sha256:"@);
            assert(text@.skip(7) =~= digits);
            lemma_class_byte_len(CharClass::Hex, digits);
        }
        Hash(text)
    }

    /// The 64 hexadecimal digits of the digest.
    pub open spec fn spec_hex(&self) -> Seq<char> {
        self@.skip("sha256:"@.len() as int)
    }

    /// The 64 lowercase hex digits of the digest, without the `sha256:` prefix.
    pub fn hex(&self) -> (r: String)
        ensures
            r@ == self.spec_hex(),
            r@.len() == 64,
            all_in(CharClass::Hex, r@),
            self@ == "sha256:"@ + r@,
    {
        proof {
            use_type_invariant(self);
            reveal_strlit("sha256:");
            lemma_class_byte_len(CharClass::Hex, self@.skip(7));
        }
        let chars = chars_of(self.0.as_str());
        assert(chars@.subrange(7, chars@.len() as int) =~= self@.skip(7));
        assert(self@ =~= "sha256:"@ + self@.skip(7));
        string_of(&chars, 7, chars.len())
    }

    /// The first 8 hex digits of the digest, the abbreviation that rendered
    /// run paths use.
    pub fn hex_prefix8(&self) -> (r: String)
        ensures
            r@ == self.spec_hex().take(8),
            is_hash_prefix(r@),
    {
        let digest = chars_of(self.hex().as_str());
        assert(digest@.subrange(0, 8) =~= self.spec_hex().take(8));
        assert forall|i: int| 0 <= i < 8 implies in_class(
            CharClass::Hex,
            #[trigger] digest@.subrange(0, 8)[i],
        ) by {
            assert(in_class(CharClass::Hex, digest@[i]));
        }
        string_of(&digest, 0, 8)
    }
}

impl Clone for Hash {
    fn clone(&self) -> (r: Self)
        ensures
            r@ == self@,
    {
        proof {
            use_type_invariant(self);
        }
        Hash(self.0.clone())
    }
}

/// Why `s` is no `FlowId`, if it is none.
pub open spec fn flow_id_fault(s: Seq<char>) -> Option<Seq<char>> {
    if text::byte_len(s) > 256 {
        Some("exceeds 256 characters"@)
    } else if !(s.len() > 0 && in_class(CharClass::IdentStart, s[0])) {
        Some("must start with [A-Za-z_]"@)
    } else if !all_in(CharClass::Flow, s.skip(1)) {
        Some("allowed characters after the first are [A-Za-z0-9_.-]"@)
    } else {
        None
    }
}

/// Flow identifier: `[A-Za-z_][A-Za-z0-9_.-]*`, at most 256 characters.
#[derive(Debug, PartialEq, Eq, PartialOrd, Ord, Hash)]
pub struct FlowId(String);

impl FlowId {
    /// The underlying text.
    pub closed spec fn view(&self) -> Seq<char> {
        self.0@
    }

    #[verifier::type_invariant]
    spec fn grammatical(self) -> bool {
        flow_id_fault(self.0@) is None
    }

    fn fault(s: &str) -> (r: Option<&'static str>)
        ensures
            r is Some <==> flow_id_fault(s@) is Some,
            r matches Some(reason) ==> flow_id_fault(s@) == Some(reason@),
    {
        if text_byte_len(s) > 256 {
            return Some("exceeds 256 characters");
        }
        let chars = chars_of(s);
        if chars.len() == 0 || !class_has(CharClass::IdentStart, chars[0]) {
            return Some("must start with [A-Za-z_]");
        }
        assert(s@.skip(1) =~= chars@.subrange(1, chars@.len() as int));
        if !all_have(CharClass::Flow, &chars, 1, chars.len()) {
            return Some("allowed characters after the first are [A-Za-z0-9_.-]");
        }
        None
    }

    /// Validates `value` against the grammar.
    pub fn new(value: &str) -> (r: Result<Self, ValidationError>)
        ensures
            match r {
                Ok(id) => flow_id_fault(value@) is None && id@ == value@,
                Err(e) => flow_id_fault(value@) is Some && e.says(
                    "FlowId"@,
                    flow_id_fault(value@)->0,
                    value@,
                ),
            },
    {
        match Self::fault(value) {
            None => Ok(FlowId(value.to_owned())),
            Some(reason) => Err(
                ValidationError { kind: "FlowId", reason, value: value.to_owned() },
            ),
        }
    }

    /// Borrows the underlying text.
    pub fn as_str(&self) -> (r: &str)
        ensures
            r@ == self@,
            flow_id_fault(r@) is None,
    {
        proof {
            use_type_invariant(self);
        }
        self.0.as_str()
    }

    /// Gives up the underlying text.
    pub fn into_string(self) -> (r: String)
        ensures
            r@ == self@,
            flow_id_fault(r@) is None,
    {
        proof {
            use_type_invariant(&self);
        }
        self.0
    }
}

impl Clone for FlowId {
    fn clone(&self) -> (r: Self)
        ensures
            r@ == self@,
    {
        proof {
            use_type_invariant(self);
        }
        FlowId(self.0.clone())
    }
}

/// Why `s` is no `StepId`, if it is none.
pub open spec fn step_id_fault(s: Seq<char>) -> Option<Seq<char>> {
    if text::byte_len(s) > 256 {
        Some("exceeds 256 characters"@)
    } else if s.len() == 0 {
        Some("must not be empty"@)
    } else if !is_step_segments(s) {
        Some("each ':'-separated segment must match [A-Za-z_][A-Za-z0-9_-]*"@)
    } else {
        None
    }
}

/// Step identifier, at most 256 characters.
///
/// Author-written ids are a single segment `[A-Za-z_][A-Za-z0-9_-]*`. Further
/// `:`-separated segments are reserved for synthesized ids (such as
/// `flow:onUnknown:escalate`), which never appear in reference paths.
#[derive(Debug, PartialEq, Eq, PartialOrd, Ord, Hash)]
pub struct StepId(String);

impl StepId {
    /// The underlying text.
    pub closed spec fn view(&self) -> Seq<char> {
        self.0@
    }

    #[verifier::type_invariant]
    spec fn grammatical(self) -> bool {
        step_id_fault(self.0@) is None
    }

    fn fault(s: &str) -> (r: Option<&'static str>)
        ensures
            r is Some <==> step_id_fault(s@) is Some,
            r matches Some(reason) ==> step_id_fault(s@) == Some(reason@),
    {
        if text_byte_len(s) > 256 {
            return Some("exceeds 256 characters");
        }
        let chars = chars_of(s);
        if chars.len() == 0 {
            return Some("must not be empty");
        }
        assert(chars@.subrange(0, chars@.len() as int) =~= s@);
        if !step_segments(&chars, 0, chars.len()) {
            return Some("each ':'-separated segment must match [A-Za-z_][A-Za-z0-9_-]*");
        }
        None
    }

    /// Validates `value` against the grammar.
    pub fn new(value: &str) -> (r: Result<Self, ValidationError>)
        ensures
            match r {
                Ok(id) => step_id_fault(value@) is None && id@ == value@,
                Err(e) => step_id_fault(value@) is Some && e.says(
                    "StepId"@,
                    step_id_fault(value@)->0,
                    value@,
                ),
            },
    {
        match Self::fault(value) {
            None => Ok(StepId(value.to_owned())),
            Some(reason) => Err(
                ValidationError { kind: "StepId", reason, value: value.to_owned() },
            ),
        }
    }

    /// Borrows the underlying text.
    pub fn as_str(&self) -> (r: &str)
        ensures
            r@ == self@,
            step_id_fault(r@) is None,
    {
        proof {
            use_type_invariant(self);
        }
        self.0.as_str()
    }

    /// Gives up the underlying text.
    pub fn into_string(self) -> (r: String)
        ensures
            r@ == self@,
            step_id_fault(r@) is None,
    {
        proof {
            use_type_invariant(&self);
        }
        self.0
    }

    /// Whether this id has a `:`-separated segment, which only synthesized
    /// ids have (macro hygiene prefixes, handler-embedded steps).
    pub fn is_synthesized(&self) -> (r: bool)
        ensures
            r == self@.contains(':'),
    {
        let chars = chars_of(self.0.as_str());
        let at = find_in(&chars, 0, chars.len(), ':');
        proof {
            if at < chars@.len() {
                assert(self@[at as int] == ':');
            }
        }
        at < chars.len()
    }
}

impl Clone for StepId {
    fn clone(&self) -> (r: Self)
        ensures
            r@ == self@,
    {
        proof {
            use_type_invariant(self);
        }
        StepId(self.0.clone())
    }
}

/// Why `s` is no `Identifier`, if it is none.
pub open spec fn identifier_fault(s: Seq<char>) -> Option<Seq<char>> {
    if text::byte_len(s) > 128 {
        Some("exceeds 128 characters"@)
    } else if !is_identifier(s) {
        Some("must match [A-Za-z_][A-Za-z0-9_]*"@)
    } else {
        None
    }
}

/// Plain identifier: `[A-Za-z_][A-Za-z0-9_]*`, at most 128 characters.
#[derive(Debug, PartialEq, Eq, PartialOrd, Ord, Hash)]
pub struct Identifier(String);

impl Identifier {
    /// The underlying text.
    pub closed spec fn view(&self) -> Seq<char> {
        self.0@
    }

    #[verifier::type_invariant]
    spec fn grammatical(self) -> bool {
        identifier_fault(self.0@) is None
    }

    fn fault(s: &str) -> (r: Option<&'static str>)
        ensures
            r is Some <==> identifier_fault(s@) is Some,
            r matches Some(reason) ==> identifier_fault(s@) == Some(reason@),
    {
        if text_byte_len(s) > 128 {
            return Some("exceeds 128 characters");
        }
        let chars = chars_of(s);
        assert(chars@.subrange(0, chars@.len() as int) =~= s@);
        if !word_of(CharClass::IdentStart, CharClass::Ident, &chars, 0, chars.len()) {
            return Some("must match [A-Za-z_][A-Za-z0-9_]*");
        }
        None
    }

    /// Validates `value` against the grammar.
    pub fn new(value: &str) -> (r: Result<Self, ValidationError>)
        ensures
            match r {
                Ok(id) => identifier_fault(value@) is None && id@ == value@,
                Err(e) => identifier_fault(value@) is Some && e.says(
                    "Identifier"@,
                    identifier_fault(value@)->0,
                    value@,
                ),
            },
    {
        match Self::fault(value) {
            None => Ok(Identifier(value.to_owned())),
            Some(reason) => Err(
                ValidationError { kind: "Identifier", reason, value: value.to_owned() },
            ),
        }
    }

    /// Borrows the underlying text.
    pub fn as_str(&self) -> (r: &str)
        ensures
            r@ == self@,
            identifier_fault(r@) is None,
    {
        proof {
            use_type_invariant(self);
        }
        self.0.as_str()
    }

    /// Gives up the underlying text.
    pub fn into_string(self) -> (r: String)
        ensures
            r@ == self@,
            identifier_fault(r@) is None,
    {
        proof {
            use_type_invariant(&self);
        }
        self.0
    }
}

impl Clone for Identifier {
    fn clone(&self) -> (r: Self)
        ensures
            r@ == self@,
    {
        proof {
            use_type_invariant(self);
        }
        Identifier(self.0.clone())
    }
}

/// Whether `s` is a version segment: `v` and digits.
pub open spec fn is_version(s: Seq<char>) -> bool {
    s.len() > 1 && s[0] == 'v' && all_in(CharClass::Digit, s.skip(1))
}

/// Whether `s` is a middle segment: non-empty and alphanumeric.
pub open spec fn is_feature_word(s: Seq<char>) -> bool {
    s.len() > 0 && all_in(CharClass::Alnum, s)
}

/// Why `s` is no `FeatureId`, if it is none.
pub open spec fn feature_id_fault(s: Seq<char>) -> Option<Seq<char>> {
    let parts = text::split(s, '.');
    let first = parts[0];
    let last = parts[parts.len() - 1];
    if parts.len() < 2 {
        Some("must have at least two '.'-separated segments ending in vN"@)
    } else if !(first.len() > 0 && in_class(CharClass::Lower, first[0])) {
        Some("first segment must start with a lowercase letter"@)
    } else if !all_in(CharClass::Alnum, first.skip(1)) {
        Some("first segment must be alphanumeric"@)
    } else if !is_version(last) {
        Some("last segment must be 'v' followed by digits"@)
    } else if exists|i: int|
        1 <= i < parts.len() - 1 && !is_feature_word(#[trigger] parts[i]) {
        Some("middle segments must be non-empty alphanumeric"@)
    } else {
        None
    }
}

/// Feature id such as `device.semanticActions.v1`:
/// `[a-z][a-zA-Z0-9]*(\.[a-zA-Z0-9]+)*\.v[0-9]+`.
#[derive(Debug, PartialEq, Eq, PartialOrd, Ord, Hash)]
pub struct FeatureId(String);

impl FeatureId {
    /// The underlying text.
    pub closed spec fn view(&self) -> Seq<char> {
        self.0@
    }

    #[verifier::type_invariant]
    spec fn grammatical(self) -> bool {
        feature_id_fault(self.0@) is None
    }

    fn fault(s: &str) -> (r: Option<&'static str>)
        ensures
            r is Some <==> feature_id_fault(s@) is Some,
            r matches Some(reason) ==> feature_id_fault(s@) == Some(reason@),
    {
        let chars = chars_of(s);
        let n = chars.len();
        assert(chars@.subrange(0, n as int) =~= s@);
        let parts = split_ranges(&chars, 0, n, '.');
        let ghost pieces = text::split(s@, '.');
        if parts.len() < 2 {
            return Some("must have at least two '.'-separated segments ending in vN");
        }
        let (a, b) = parts[0];
        assert(chars@.subrange(a as int, b as int) == pieces[0]);
        if a == b || !class_has(CharClass::Lower, chars[a]) {
            return Some("first segment must start with a lowercase letter");
        }
        assert(pieces[0].skip(1) =~= chars@.subrange(a + 1, b as int));
        if !all_have(CharClass::Alnum, &chars, a + 1, b) {
            return Some("first segment must be alphanumeric");
        }
        let (c, d) = parts[parts.len() - 1];
        let ghost last = pieces[pieces.len() - 1];
        assert(chars@.subrange(c as int, d as int) == last);
        if c == d || chars[c] != 'v' {
            return Some("last segment must be 'v' followed by digits");
        }
        assert(last.skip(1) =~= chars@.subrange(c + 1, d as int));
        if c + 1 == d || !all_have(CharClass::Digit, &chars, c + 1, d) {
            return Some("last segment must be 'v' followed by digits");
        }
        let mut i: usize = 1;
        while i < parts.len() - 1
            invariant
                1 <= i <= parts@.len() - 1,
                parts@.len() == pieces.len(),
                pieces == text::split(s@, '.'),
                forall|j: int|
                    0 <= j < parts@.len() ==> (#[trigger] parts@[j]).0 <= parts@[j].1
                        <= chars@.len() && chars@.subrange(
                        parts@[j].0 as int,
                        parts@[j].1 as int,
                    ) == pieces[j],
                feature_id_fault(s@) is Some ==> feature_id_fault(s@) == Some(
                    "middle segments must be non-empty alphanumeric"@,
                ),
                feature_id_fault(s@) is Some <==> exists|j: int|
                    1 <= j < pieces.len() - 1 && !is_feature_word(#[trigger] pieces[j]),
                forall|j: int| 1 <= j < i ==> is_feature_word(#[trigger] pieces[j]),
            decreases parts@.len() - i,
        {
            let (e, f) = parts[i];
            assert(chars@.subrange(e as int, f as int) == pieces[i as int]);
            if e == f || !all_have(CharClass::Alnum, &chars, e, f) {
                assert(!is_feature_word(pieces[i as int]));
                return Some("middle segments must be non-empty alphanumeric");
            }
            i = i + 1;
        }
        None
    }

    /// Validates `value` against the grammar.
    pub fn new(value: &str) -> (r: Result<Self, ValidationError>)
        ensures
            match r {
                Ok(id) => feature_id_fault(value@) is None && id@ == value@,
                Err(e) => feature_id_fault(value@) is Some && e.says(
                    "FeatureId"@,
                    feature_id_fault(value@)->0,
                    value@,
                ),
            },
    {
        match Self::fault(value) {
            None => Ok(FeatureId(value.to_owned())),
            Some(reason) => Err(
                ValidationError { kind: "FeatureId", reason, value: value.to_owned() },
            ),
        }
    }

    /// Borrows the underlying text.
    pub fn as_str(&self) -> (r: &str)
        ensures
            r@ == self@,
            feature_id_fault(r@) is None,
    {
        proof {
            use_type_invariant(self);
        }
        self.0.as_str()
    }

    /// Gives up the underlying text.
    pub fn into_string(self) -> (r: String)
        ensures
            r@ == self@,
            feature_id_fault(r@) is None,
    {
        proof {
            use_type_invariant(&self);
        }
        self.0
    }
}

impl Clone for FeatureId {
    fn clone(&self) -> (r: Self)
        ensures
            r@ == self@,
    {
        proof {
            use_type_invariant(self);
        }
        FeatureId(self.0.clone())
    }
}

/// Why `s` is no `ActionName`, if it is none.
pub open spec fn action_name_fault(s: Seq<char>) -> Option<Seq<char>> {
    if text::byte_len(s) > 256 {
        Some("exceeds 256 characters"@)
    } else if !(s.len() > 0 && in_class(CharClass::Alpha, s[0])) {
        Some("must start with [A-Za-z]"@)
    } else if !all_in(CharClass::Ident, s.skip(1)) {
        Some("allowed characters after the first are [A-Za-z0-9_]"@)
    } else {
        None
    }
}

/// Provider-native action name such as `tapElement`: `[A-Za-z][A-Za-z0-9_]*`,
/// at most 256 characters.
#[derive(Debug, PartialEq, Eq, PartialOrd, Ord, Hash)]
pub struct ActionName(String);

impl ActionName {
    /// The underlying text.
    pub closed spec fn view(&self) -> Seq<char> {
        self.0@
    }

    #[verifier::type_invariant]
    spec fn grammatical(self) -> bool {
        action_name_fault(self.0@) is None
    }

    fn fault(s: &str) -> (r: Option<&'static str>)
        ensures
            r is Some <==> action_name_fault(s@) is Some,
            r matches Some(reason) ==> action_name_fault(s@) == Some(reason@),
    {
        if text_byte_len(s) > 256 {
            return Some("exceeds 256 characters");
        }
        let chars = chars_of(s);
        if chars.len() == 0 || !class_has(CharClass::Alpha, chars[0]) {
            return Some("must start with [A-Za-z]");
        }
        assert(s@.skip(1) =~= chars@.subrange(1, chars@.len() as int));
        if !all_have(CharClass::Ident, &chars, 1, chars.len()) {
            return Some("allowed characters after the first are [A-Za-z0-9_]");
        }
        None
    }

    /// Validates `value` against the grammar.
    pub fn new(value: &str) -> (r: Result<Self, ValidationError>)
        ensures
            match r {
                Ok(id) => action_name_fault(value@) is None && id@ == value@,
                Err(e) => action_name_fault(value@) is Some && e.says(
                    "ActionName"@,
                    action_name_fault(value@)->0,
                    value@,
                ),
            },
    {
        match Self::fault(value) {
            None => Ok(ActionName(value.to_owned())),
            Some(reason) => Err(
                ValidationError { kind: "ActionName", reason, value: value.to_owned() },
            ),
        }
    }

    /// Borrows the underlying text.
    pub fn as_str(&self) -> (r: &str)
        ensures
            r@ == self@,
            action_name_fault(r@) is None,
    {
        proof {
            use_type_invariant(self);
        }
        self.0.as_str()
    }

    /// Gives up the underlying text.
    pub fn into_string(self) -> (r: String)
        ensures
            r@ == self@,
            action_name_fault(r@) is None,
    {
        proof {
            use_type_invariant(&self);
        }
        self.0
    }
}

impl Clone for ActionName {
    fn clone(&self) -> (r: Self)
        ensures
            r@ == self@,
    {
        proof {
            use_type_invariant(self);
        }
        ActionName(self.0.clone())
    }
}

/// Why `s` is no `AssertId`, if it is none.
pub open spec fn assert_id_fault(s: Seq<char>) -> Option<Seq<char>> {
    if text::byte_len(s) > 128 {
        Some("exceeds 128 characters"@)
    } else if !is_step_segment(s) {
        Some("must match [A-Za-z_][A-Za-z0-9_-]*"@)
    } else {
        None
    }
}

/// Assertion identifier: `[A-Za-z_][A-Za-z0-9_-]*`, at most 128 characters.
#[derive(Debug, PartialEq, Eq, PartialOrd, Ord, Hash)]
pub struct AssertId(String);

impl AssertId {
    /// The underlying text.
    pub closed spec fn view(&self) -> Seq<char> {
        self.0@
    }

    #[verifier::type_invariant]
    spec fn grammatical(self) -> bool {
        assert_id_fault(self.0@) is None
    }

    fn fault(s: &str) -> (r: Option<&'static str>)
        ensures
            r is Some <==> assert_id_fault(s@) is Some,
            r matches Some(reason) ==> assert_id_fault(s@) == Some(reason@),
    {
        if text_byte_len(s) > 128 {
            return Some("exceeds 128 characters");
        }
        let chars = chars_of(s);
        assert(chars@.subrange(0, chars@.len() as int) =~= s@);
        if !word_of(CharClass::IdentStart, CharClass::Step, &chars, 0, chars.len()) {
            return Some("must match [A-Za-z_][A-Za-z0-9_-]*");
        }
        None
    }

    /// Validates `value` against the grammar.
    pub fn new(value: &str) -> (r: Result<Self, ValidationError>)
        ensures
            match r {
                Ok(id) => assert_id_fault(value@) is None && id@ == value@,
                Err(e) => assert_id_fault(value@) is Some && e.says(
                    "AssertId"@,
                    assert_id_fault(value@)->0,
                    value@,
                ),
            },
    {
        match Self::fault(value) {
            None => Ok(AssertId(value.to_owned())),
            Some(reason) => Err(
                ValidationError { kind: "AssertId", reason, value: value.to_owned() },
            ),
        }
    }

    /// Borrows the underlying text.
    pub fn as_str(&self) -> (r: &str)
        ensures
            r@ == self@,
            assert_id_fault(r@) is None,
    {
        proof {
            use_type_invariant(self);
        }
        self.0.as_str()
    }

    /// Gives up the underlying text.
    pub fn into_string(self) -> (r: String)
        ensures
            r@ == self@,
            assert_id_fault(r@) is None,
    {
        proof {
            use_type_invariant(&self);
        }
        self.0
    }
}

impl Clone for AssertId {
    fn clone(&self) -> (r: Self)
        ensures
            r@ == self@,
    {
        proof {
            use_type_invariant(self);
        }
        AssertId(self.0.clone())
    }
}

/// Why what follows `env.`, `vars.` or `iter.` is not one identifier.
pub open spec fn single_name_fault(s: Seq<char>) -> Option<Seq<char>> {
    if is_identifier(s) {
        None
    } else {
        Some("env./vars./iter. take exactly one identifier"@)
    }
}

/// Why `s`, which follows `steps.`, is no step reference.
pub open spec fn step_ref_fault(s: Seq<char>) -> Option<Seq<char>> {
    let at = text::find(s, '.');
    let tail = s.skip(at + 1);
    if at >= s.len() {
        Some("steps.<id> must be followed by .output or .verdict"@)
    } else if !is_step_segment(s.take(at)) {
        Some(
            "step id segment must match [A-Za-z_][A-Za-z0-9_-]* (synthesized ':' ids are not referenceable)"@,
        )
    } else if tail == "verdict"@ || tail == "output"@ {
        None
    } else if text::starts_with(tail, "output."@) {
        if is_dotted_identifiers(tail.skip("output."@.len() as int)) {
            None
        } else {
            Some("output field access takes a dotted identifier path"@)
        }
    } else {
        Some("steps.<id> supports only .verdict and .output(.field)*"@)
    }
}

fn single_name(chars: &Vec<char>, from: usize) -> (r: Option<&'static str>)
    requires
        from <= chars@.len(),
    ensures
        r is Some <==> single_name_fault(chars@.skip(from as int)) is Some,
        r matches Some(reason) ==> single_name_fault(chars@.skip(from as int)) == Some(reason@),
{
    assert(chars@.subrange(from as int, chars@.len() as int) =~= chars@.skip(from as int));
    if word_of(CharClass::IdentStart, CharClass::Ident, chars, from, chars.len()) {
        None
    } else {
        Some("env./vars./iter. take exactly one identifier")
    }
}

fn step_ref(chars: &Vec<char>, from: usize) -> (r: Option<&'static str>)
    requires
        from <= chars@.len(),
    ensures
        r is Some <==> step_ref_fault(chars@.skip(from as int)) is Some,
        r matches Some(reason) ==> step_ref_fault(chars@.skip(from as int)) == Some(reason@),
{
    let n = chars.len();
    let ghost s = chars@.skip(from as int);
    assert(chars@.subrange(from as int, n as int) =~= s);
    let dot = find_in(chars, from, n, '.');
    if dot == n {
        return Some("steps.<id> must be followed by .output or .verdict");
    }
    assert(s.take(dot - from) =~= chars@.subrange(from as int, dot as int));
    if !word_of(CharClass::IdentStart, CharClass::Step, chars, from, dot) {
        return Some(
            "step id segment must match [A-Za-z_][A-Za-z0-9_-]* (synthesized ':' ids are not referenceable)",
        );
    }
    let ghost tail = s.skip(dot - from + 1);
    assert(tail =~= chars@.subrange(dot + 1, n as int));
    if is_word(chars, dot + 1, n, "verdict") || is_word(chars, dot + 1, n, "output") {
        return None;
    }
    if has_prefix(chars, dot + 1, n, "output.") {
        proof {
            reveal_strlit("output.");
        }
        assert(tail.skip(7) =~= chars@.subrange(dot + 8, n as int));
        return if dotted_identifiers(chars, dot + 8, n) {
            None
        } else {
            Some("output field access takes a dotted identifier path")
        };
    }
    Some("steps.<id> supports only .verdict and .output(.field)*")
}

/// Why `s` is no `RefPath`, if it is none.
pub open spec fn ref_path_fault(s: Seq<char>) -> Option<Seq<char>> {
    if text::byte_len(s) > 1024 {
        Some("exceeds 1024 characters"@)
    } else if text::starts_with(s, "params."@) {
        if is_dotted_identifiers(s.skip("params."@.len() as int)) {
            None
        } else {
            Some("params.* takes a dotted identifier path"@)
        }
    } else if text::starts_with(s, "env."@) {
        single_name_fault(s.skip("env."@.len() as int))
    } else if text::starts_with(s, "vars."@) {
        single_name_fault(s.skip("vars."@.len() as int))
    } else if text::starts_with(s, "iter."@) {
        single_name_fault(s.skip("iter."@.len() as int))
    } else if text::starts_with(s, "steps."@) {
        step_ref_fault(s.skip("steps."@.len() as int))
    } else {
        Some(
            "scope root must be one of params/env/vars/iter/steps ('secrets' is reserved for v0.2)"@,
        )
    }
}

/// Reference path of the expression grammar, at most 1024 characters:
///
/// ```ebnf
/// RefPath ::= 'params.' Ident ('.' Ident)*
///           | 'env.'    Ident
///           | 'vars.'   Ident
///           | 'iter.'   Ident
///           | 'steps.'  StepIdRef '.' 'output' ('.' Ident)*
///           | 'steps.'  StepIdRef '.' 'verdict'
/// ```
///
/// `StepIdRef` has no `:`: synthesized step ids can never be referenced.
#[derive(Debug, PartialEq, Eq, PartialOrd, Ord, Hash)]
pub struct RefPath(String);

impl RefPath {
    /// The underlying text.
    pub closed spec fn view(&self) -> Seq<char> {
        self.0@
    }

    #[verifier::type_invariant]
    spec fn grammatical(self) -> bool {
        ref_path_fault(self.0@) is None
    }

    fn fault(s: &str) -> (r: Option<&'static str>)
        ensures
            r is Some <==> ref_path_fault(s@) is Some,
            r matches Some(reason) ==> ref_path_fault(s@) == Some(reason@),
    {
        if text_byte_len(s) > 1024 {
            return Some("exceeds 1024 characters");
        }
        let chars = chars_of(s);
        let n = chars.len();
        assert(chars@.subrange(0, n as int) =~= s@);
        proof {
            reveal_strlit("params.");
            reveal_strlit("env.");
            reveal_strlit("vars.");
            reveal_strlit("iter.");
            reveal_strlit("steps.");
        }
        if has_prefix(&chars, 0, n, "params.") {
            assert(s@.skip(7) =~= chars@.subrange(7, n as int));
            return if dotted_identifiers(&chars, 7, n) {
                None
            } else {
                Some("params.* takes a dotted identifier path")
            };
        }
        if has_prefix(&chars, 0, n, "env.") {
            return single_name(&chars, 4);
        }
        if has_prefix(&chars, 0, n, "vars.") {
            return single_name(&chars, 5);
        }
        if has_prefix(&chars, 0, n, "iter.") {
            return single_name(&chars, 5);
        }
        if has_prefix(&chars, 0, n, "steps.") {
            return step_ref(&chars, 6);
        }
        Some(
            "scope root must be one of params/env/vars/iter/steps ('secrets' is reserved for v0.2)",
        )
    }

    /// Validates `value` against the grammar.
    pub fn new(value: &str) -> (r: Result<Self, ValidationError>)
        ensures
            match r {
                Ok(id) => ref_path_fault(value@) is None && id@ == value@,
                Err(e) => ref_path_fault(value@) is Some && e.says(
                    "RefPath"@,
                    ref_path_fault(value@)->0,
                    value@,
                ),
            },
    {
        match Self::fault(value) {
            None => Ok(RefPath(value.to_owned())),
            Some(reason) => Err(
                ValidationError { kind: "RefPath", reason, value: value.to_owned() },
            ),
        }
    }

    /// Borrows the underlying text.
    pub fn as_str(&self) -> (r: &str)
        ensures
            r@ == self@,
            ref_path_fault(r@) is None,
    {
        proof {
            use_type_invariant(self);
        }
        self.0.as_str()
    }

    /// Gives up the underlying text.
    pub fn into_string(self) -> (r: String)
        ensures
            r@ == self@,
            ref_path_fault(r@) is None,
    {
        proof {
            use_type_invariant(&self);
        }
        self.0
    }

    /// The step that a path under `steps.` refers to.
    pub open spec fn spec_referenced_step(s: Seq<char>) -> Option<Seq<char>> {
        if text::starts_with(s, "steps."@) {
            let rest = s.skip("steps."@.len() as int);
            Some(rest.take(text::find(rest, '.')))
        } else {
            None
        }
    }

    /// The referenced upstream step id when this path is rooted at `steps.`;
    /// `None` for the other scope roots.
    pub fn referenced_step(&self) -> (r: Option<String>)
        ensures
            r is Some <==> Self::spec_referenced_step(self@) is Some,
            r matches Some(id) ==> Self::spec_referenced_step(self@) == Some(id@)
                && is_step_segment(id@),
    {
        proof {
            use_type_invariant(self);
            reveal_strlit("params.");
            reveal_strlit("env.");
            reveal_strlit("vars.");
            reveal_strlit("iter.");
            reveal_strlit("steps.");
        }
        let chars = chars_of(self.0.as_str());
        let n = chars.len();
        assert(chars@.subrange(0, n as int) =~= self@);
        if !has_prefix(&chars, 0, n, "steps.") {
            return None;
        }
        let ghost rest = self@.skip(6);
        assert(rest =~= chars@.subrange(6, n as int));
        let dot = find_in(&chars, 6, n, '.');
        assert(rest.take(dot - 6) =~= chars@.subrange(6, dot as int));
        proof {
            assert(self@[0] == self@.take(6)[0]);
            assert(text::starts_with(self@, "params."@) ==> self@[0] == self@.take(7)[0]);
            assert(text::starts_with(self@, "env."@) ==> self@[0] == self@.take(4)[0]);
            assert(text::starts_with(self@, "vars."@) ==> self@[0] == self@.take(5)[0]);
            assert(text::starts_with(self@, "iter."@) ==> self@[0] == self@.take(5)[0]);
            assert(step_ref_fault(rest) is None);
        }
        Some(string_of(&chars, 6, dot))
    }

    /// The scope root of the path: what stands before the first dot.
    pub fn scope_root(&self) -> (r: String)
        ensures
            r@ == self@.take(text::find(self@, '.')),
    {
        let chars = chars_of(self.0.as_str());
        let n = chars.len();
        assert(chars@.subrange(0, n as int) =~= self@);
        let dot = find_in(&chars, 0, n, '.');
        assert(self@.take(dot as int) =~= chars@.subrange(0, dot as int));
        string_of(&chars, 0, dot)
    }
}

impl Clone for RefPath {
    fn clone(&self) -> (r: Self)
        ensures
            r@ == self@,
    {
        proof {
            use_type_invariant(self);
        }
        RefPath(self.0.clone())
    }
}

/// Whether the tilde at `i` is followed by `0` or `1`.
pub open spec fn tilde_ok(s: Seq<char>, i: int) -> bool {
    i + 1 < s.len() && (s[i + 1] == '0' || s[i + 1] == '1')
}

/// Why `s` is no `JsonPointer`, if it is none.
pub open spec fn json_pointer_fault(s: Seq<char>) -> Option<Seq<char>> {
    if s.len() > 0 && s[0] != '/' {
        Some("non-empty pointer must start with '/'"@)
    } else if exists|i: int| 0 <= i < s.len() && #[trigger] s[i] == '~' && !tilde_ok(s, i) {
        Some("'~' must be followed by '0' or '1'"@)
    } else {
        None
    }
}

/// RFC 6901 JSON Pointer into a flow document; empty for the whole document.
#[derive(Debug, PartialEq, Eq, PartialOrd, Ord, Hash)]
pub struct JsonPointer(String);

impl JsonPointer {
    /// The underlying text.
    pub closed spec fn view(&self) -> Seq<char> {
        self.0@
    }

    #[verifier::type_invariant]
    spec fn grammatical(self) -> bool {
        json_pointer_fault(self.0@) is None
    }

    fn fault(s: &str) -> (r: Option<&'static str>)
        ensures
            r is Some <==> json_pointer_fault(s@) is Some,
            r matches Some(reason) ==> json_pointer_fault(s@) == Some(reason@),
    {
        let chars = chars_of(s);
        if chars.len() > 0 && chars[0] != '/' {
            return Some("non-empty pointer must start with '/'");
        }
        let mut i: usize = 0;
        while i < chars.len()
            invariant
                i <= chars@.len(),
                chars@ == s@,
                !(s@.len() > 0 && s@[0] != '/'),
                forall|j: int| 0 <= j < i && #[trigger] s@[j] == '~' ==> tilde_ok(s@, j),
            decreases chars@.len() - i,
        {
            if chars[i] == '~' {
                let escaped = i + 1 < chars.len() && (chars[i + 1] == '0' || chars[i + 1] == '1');
                if !escaped {
                    assert(s@[i as int] == '~' && !tilde_ok(s@, i as int));
                    return Some("'~' must be followed by '0' or '1'");
                }
            }
            i = i + 1;
        }
        None
    }

    /// Validates `value` against the grammar.
    pub fn new(value: &str) -> (r: Result<Self, ValidationError>)
        ensures
            match r {
                Ok(id) => json_pointer_fault(value@) is None && id@ == value@,
                Err(e) => json_pointer_fault(value@) is Some && e.says(
                    "JsonPointer"@,
                    json_pointer_fault(value@)->0,
                    value@,
                ),
            },
    {
        match Self::fault(value) {
            None => Ok(JsonPointer(value.to_owned())),
            Some(reason) => Err(
                ValidationError { kind: "JsonPointer", reason, value: value.to_owned() },
            ),
        }
    }

    /// Borrows the underlying text.
    pub fn as_str(&self) -> (r: &str)
        ensures
            r@ == self@,
            json_pointer_fault(r@) is None,
    {
        proof {
            use_type_invariant(self);
        }
        self.0.as_str()
    }

    /// Gives up the underlying text.
    pub fn into_string(self) -> (r: String)
        ensures
            r@ == self@,
            json_pointer_fault(r@) is None,
    {
        proof {
            use_type_invariant(&self);
        }
        self.0
    }
}

impl Clone for JsonPointer {
    fn clone(&self) -> (r: Self)
        ensures
            r@ == self@,
    {
        proof {
            use_type_invariant(self);
        }
        JsonPointer(self.0.clone())
    }
}

/// `onMissingInput: "unknown"`: an assertion whose input is missing yields
/// `unknown`, never a guess.
#[derive(Debug, Default, Clone, Copy, PartialEq, Eq, PartialOrd, Ord, Hash)]
pub enum OnMissingInput {
    /// The only admissible value.
    #[default]
    Value,
}

impl OnMissingInput {
    /// The wire spelling.
    pub fn wire_name(self) -> (r: &'static str)
        ensures
            r@ == "unknown"@,
    {
        "unknown"
    }
}

/// `onTimeout: "unknown"`: a human step that times out never defaults to pass
/// or fail.
#[derive(Debug, Default, Clone, Copy, PartialEq, Eq, PartialOrd, Ord, Hash)]
pub enum OnTimeout {
    /// The only admissible value.
    #[default]
    Value,
}

impl OnTimeout {
    /// The wire spelling.
    pub fn wire_name(self) -> (r: &'static str)
        ensures
            r@ == "unknown"@,
    {
        "unknown"
    }
}

/// `protection: "standard"`: protected actions are rejected at bind.
#[derive(Debug, Default, Clone, Copy, PartialEq, Eq, PartialOrd, Ord, Hash)]
pub enum Protection {
    /// The only admissible value.
    #[default]
    Value,
}

impl Protection {
    /// The wire spelling.
    pub fn wire_name(self) -> (r: &'static str)
        ensures
            r@ == "standard"@,
    {
        "standard"
    }
}

/// `provider.name: "devicerail"`: the only provider.
#[derive(Debug, Default, Clone, Copy, PartialEq, Eq, PartialOrd, Ord, Hash)]
pub enum ProviderName {
    /// The only admissible value.
    #[default]
    Value,
}

impl ProviderName {
    /// The wire spelling.
    pub fn wire_name(self) -> (r: &'static str)
        ensures
            r@ == "devicerail"@,
    {
        "devicerail"
    }
}

/// The generation number of the flow language, pinned to the integer 1.
#[derive(Debug, Clone, Copy, Default, PartialEq, Eq, PartialOrd, Ord, Hash)]
pub struct IrVersion;

impl IrVersion {
    /// The numeric value of this version marker.
    pub const VALUE: u64 = 1;

    /// The version marker of a number; only one number has one.
    pub fn from_number(value: u64) -> (r: Option<IrVersion>)
        ensures
            r is Some <==> value == IrVersion::VALUE,
    {
        if value == IrVersion::VALUE {
            Some(IrVersion)
        } else {
            None
        }
    }
}

/// Whether a JSON value can be a schema document: an object or a boolean.
pub open spec fn is_schema_document(v: JsonV) -> bool {
    v is Object || v is Bool
}

/// An embedded JSON Schema document: an object or a boolean. Its inner
/// grammar is left to the meta-schema.
#[derive(Debug, PartialEq, Eq)]
pub struct JsonSchemaDocument(Json);

impl JsonSchemaDocument {
    /// The underlying value.
    pub closed spec fn view(&self) -> JsonV {
        self.0@
    }

    #[verifier::type_invariant]
    spec fn document(self) -> bool {
        is_schema_document(self.0@)
    }

    /// Validates that `value` is an object or a boolean and wraps it.
    pub fn new(value: Json) -> (r: Result<Self, ValidationError>)
        ensures
            match r {
                Ok(doc) => is_schema_document(value@) && doc@ == value@,
                Err(e) => !is_schema_document(value@) && e.says(
                    "JsonSchemaDocument"@,
                    "a JSON Schema document must be an object or a boolean"@,
                    json::compact(value@),
                ),
            },
    {
        match value {
            Json::Object(_) | Json::Bool(_) => Ok(JsonSchemaDocument(value)),
            _ => Err(
                ValidationError {
                    kind: "JsonSchemaDocument",
                    reason: "a JSON Schema document must be an object or a boolean",
                    value: write_compact(&value),
                },
            ),
        }
    }

    /// Borrows the underlying value.
    pub fn as_value(&self) -> (r: &Json)
        ensures
            r@ == self@,
            is_schema_document(r@),
    {
        proof {
            use_type_invariant(self);
        }
        &self.0
    }

    /// Gives up the underlying value.
    pub fn into_value(self) -> (r: Json)
        ensures
            r@ == self@,
            is_schema_document(r@),
    {
        proof {
            use_type_invariant(&self);
        }
        self.0
    }
}

impl Clone for JsonSchemaDocument {
    fn clone(&self) -> (r: Self)
        ensures
            r@ == self@,
    {
        proof {
            use_type_invariant(self);
        }
        JsonSchemaDocument(self.0.clone())
    }
}

} // verus!
