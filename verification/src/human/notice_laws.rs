//! What a notification says and how it is signed.

use vstd::prelude::*;
use vstd::string::*;
use vstd::utf8::encode_utf8;

use crate::human::webhook;
use crate::json;
use crate::json::JsonV;
use crate::keyed;
use crate::text;

verus! {

proof fn lemma_envelope_keys()
    ensures
        keyed::key_code("runId"@) == 5114073100,
        keyed::key_code("entries"@) == 7101101115,
        keyed::key_code("storeDir"@) == 8115105114,
        keyed::key_code("respondHint"@) == 11114105116,
        keyed::key_code("pointlockWebhook"@) == 16112104107,
{
    reveal_strlit("runId");
    reveal_strlit("entries");
    reveal_strlit("storeDir");
    reveal_strlit("respondHint");
    reveal_strlit("pointlockWebhook");
}

/// A notification names its version, the run, the store, how to answer, and holds the entries
/// in order; and nothing else.
pub proof fn law_notifications_hold_the_entries(
    entries: Seq<JsonV>,
    store_dir: Seq<char>,
    run_id: Seq<char>,
)
    ensures
        ({
            let r = webhook::envelope(entries, store_dir, run_id);
            &&& r is Object
            &&& r.member("pointlockWebhook"@) == Some(json::uint(1))
            &&& r.member("runId"@) == Some(JsonV::Text(run_id))
            &&& r.member("storeDir"@) == Some(JsonV::Text(store_dir))
            &&& r.member("respondHint"@) == Some(
                JsonV::Text(
                    "pointlock resume "@ + run_id + " --store "@ + store_dir
                        + " (responses go through pointlock-human-cli; this webhook never collects)"@,
                ),
            )
            &&& r.member("entries"@) == Some(JsonV::Array(entries))
            &&& forall|key: Seq<char>| #[trigger]
                r.member(key) is Some ==> key == "pointlockWebhook"@ || key == "runId"@ || key
                    == "storeDir"@ || key == "respondHint"@ || key == "entries"@
        }),
{
    broadcast use keyed::lemma_get_after_with, keyed::lemma_sorted_after_with;

    lemma_envelope_keys();
}

/// Notifications are told apart by the run, the store and the entries.
pub proof fn law_other_runs_have_other_notifications(
    entries: Seq<JsonV>,
    store_dir: Seq<char>,
    run_id: Seq<char>,
    other_entries: Seq<JsonV>,
    other_dir: Seq<char>,
    other_id: Seq<char>,
)
    requires
        webhook::envelope(entries, store_dir, run_id) == webhook::envelope(
            other_entries,
            other_dir,
            other_id,
        ),
    ensures
        entries == other_entries,
        store_dir == other_dir,
        run_id == other_id,
{
    law_notifications_hold_the_entries(entries, store_dir, run_id);
    law_notifications_hold_the_entries(other_entries, other_dir, other_id);
    let r = webhook::envelope(entries, store_dir, run_id);
    assert(r.member("runId"@) == Some(JsonV::Text(other_id)));
    assert(r.member("storeDir"@) == Some(JsonV::Text(other_dir)));
    assert(r.member("entries"@) == Some(JsonV::Array(other_entries)));
}

/// The value of a hexadecimal digit.
pub open spec fn digit_value(c: char) -> int {
    if '0' <= c && c <= '9' {
        c as int - '0' as int
    } else {
        c as int - 'a' as int + 10
    }
}

/// A signature starts with its scheme. Behind it stand two digits for each byte of the keyed
/// digest of the body's bytes under the secret's bytes, the higher one first.
pub proof fn law_signatures_spell_the_digest(body: Seq<char>, secret: Seq<char>, i: int)
    requires
        0 <= i < webhook::hmac_sha256_digest(encode_utf8(secret), encode_utf8(body)).len(),
    ensures
        ({
            let s = webhook::signature(body, secret);
            let digest = webhook::hmac_sha256_digest(encode_utf8(secret), encode_utf8(body));
            &&& s.len() == 7 + 2 * digest.len()
            &&& s.take(7) == "sha256="@
            &&& digit_value(s[7 + 2 * i]) * 16 + digit_value(s[8 + 2 * i]) == digest[i] as int
        }),
{
    reveal_strlit("sha256=");
    let digest = webhook::hmac_sha256_digest(encode_utf8(secret), encode_utf8(body));
    let s = webhook::signature(body, secret);
    lemma_hex_value(digest, i);
    text::lemma_hex_digits(digest);
    assert(s.take(7) =~= "sha256="@);
    assert(s[7 + 2 * i] == text::hex(digest)[2 * i]);
    assert(s[8 + 2 * i] == text::hex(digest)[2 * i + 1]);
}

/// Bytes in hexadecimal have two digits each, the higher one first.
pub proof fn lemma_hex_value(bytes: Seq<u8>, i: int)
    requires
        0 <= i < bytes.len(),
    ensures
        text::hex(bytes).len() == 2 * bytes.len(),
        digit_value(text::hex(bytes)[2 * i]) * 16 + digit_value(text::hex(bytes)[2 * i + 1])
            == bytes[i] as int,
    decreases bytes.len(),
{
    text::lemma_hex_digits(bytes);
    let front = bytes.drop_last();
    text::lemma_hex_digits(front);
    if i < front.len() {
        lemma_hex_value(front, i);
        assert(text::hex(bytes)[2 * i] == text::hex(front)[2 * i]);
        assert(text::hex(bytes)[2 * i + 1] == text::hex(front)[2 * i + 1]);
    } else {
        let b = bytes.last() as int;
        lemma_digit_value(b / 16);
        lemma_digit_value(b % 16);
        assert(text::hex(bytes)[2 * i] == text::hex_digit(b / 16));
        assert(text::hex(bytes)[2 * i + 1] == text::hex_digit(b % 16));
    }
}

proof fn lemma_digit_value(n: int)
    requires
        0 <= n < 16,
    ensures
        digit_value(text::hex_digit(n)) == n,
{
    assert((48 + n) as char as int == 48 + n);
    assert((87 + n) as char as int == 87 + n);
}

} // verus!
