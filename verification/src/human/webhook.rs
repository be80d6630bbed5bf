//! The webhook notification: its body and the signature of the body.
//!
//! A webhook only notifies. Answers never come back this way.

use vstd::prelude::*;
use vstd::utf8::*;

use crate::json;
use crate::json::{write_compact, Json, JsonMap, JsonV, Members};
use crate::text;
use crate::text::{concat, concat5, hex_text};

verus! {

/// The HTTP header that carries the signature.
pub const SIGNATURE_HEADER: &'static str = "X-Pointlock-Signature";

/// The HMAC-SHA256 of `body` under `key`.
pub uninterp spec fn hmac_sha256_digest(key: Seq<u8>, body: Seq<u8>) -> Seq<u8>;

/// `Hmac<Sha256>` of `hmac`: the 32 bytes of the HMAC-SHA256 of the body under
/// the key, which may have any length. The code itself is only named: it
/// depends on the key and the body alone.
#[verifier::external_body]
fn hmac_sha256(key: &[u8], body: &[u8]) -> (r: Vec<u8>)
    ensures
        r@ == hmac_sha256_digest(key@, body@),
        r@.len() == 32,
{
    let mut mac = <hmac::Hmac<sha2::Sha256> as hmac::Mac>::new_from_slice(key).expect(
        "HMAC accepts any key length",
    );
    hmac::Mac::update(&mut mac, body);
    hmac::Mac::finalize(mac).into_bytes().to_vec()
}

/// A notification that is ready to be sent.
#[derive(Debug, PartialEq, Eq)]
pub struct WebhookNotification {
    /// The JSON body.
    pub body: String,
    /// The value of the signature header, where there is a secret.
    pub signature: Option<String>,
}

/// The signature of a body under a secret, over the exact bytes of both.
pub open spec fn signature(body: Seq<char>, secret: Seq<char>) -> Seq<char> {
    "sha256="@ + text::hex(hmac_sha256_digest(encode_utf8(secret), encode_utf8(body)))
}

/// The signature of a body under a secret.
pub fn signature_for(body: &str, secret: &str) -> (r: String)
    ensures
        r@ == signature(body@, secret@),
{
    let digest = hmac_sha256(secret.as_bytes(), body.as_bytes());
    signature_text(&digest)
}

/// The text of a signature with these bytes.
pub fn signature_text(digest: &Vec<u8>) -> (r: String)
    ensures
        r@ == "sha256="@ + text::hex(digest@),
{
    concat("sha256=", hex_text(digest).as_str())
}

/// How to answer, for the receiver of a notification.
pub open spec fn respond_hint(store_dir: Seq<char>, run_id: Seq<char>) -> Seq<char> {
    "pointlock resume "@ + run_id + " --store "@ + store_dir
        + " (responses go through pointlock-human-cli; this webhook never collects)"@
}

/// The body of a notification: a versioned envelope around the entries.
pub open spec fn envelope(entries: Seq<JsonV>, store_dir: Seq<char>, run_id: Seq<char>) -> JsonV {
    Members::none()
        .with("pointlockWebhook"@, json::uint(1))
        .with("runId"@, JsonV::Text(run_id))
        .with("storeDir"@, JsonV::Text(store_dir))
        .with("respondHint"@, JsonV::Text(respond_hint(store_dir, run_id)))
        .with("entries"@, JsonV::Array(entries))
        .object()
}

/// The notification for the pending requests of a run, given by the JSON forms
/// of their inbox entries. With a secret, it is signed.
pub fn build_notification(
    entries: Vec<Json>,
    store_dir: &str,
    run_id: &str,
    secret: Option<&str>,
) -> (r: WebhookNotification)
    ensures
        r.body@ == json::compact(envelope(json::json_views(entries@), store_dir@, run_id@)),
        match secret {
            Some(s) => r.signature matches Some(t) && t@ == signature(r.body@, s@),
            None => r.signature is None,
        },
{
    let hint = concat5(
        "pointlock resume ",
        run_id,
        " --store ",
        store_dir,
        " (responses go through pointlock-human-cli; this webhook never collects)",
    );
    let message = JsonMap::new()
        .with("pointlockWebhook", Json::uint(1))
        .with("runId", Json::text(run_id))
        .with("storeDir", Json::text(store_dir))
        .with("respondHint", Json::text(hint.as_str()))
        .with("entries", Json::array(entries))
        .object();
    let body = write_compact(&message);
    let signature = match secret {
        Some(secret) => Some(signature_for(body.as_str(), secret)),
        None => None,
    };
    WebhookNotification { body, signature }
}

/// A signature has its prefix and 64 lowercase hexadecimal digits.
pub proof fn law_signatures_are_hexadecimal(digest: Seq<u8>)
    requires
        digest.len() == 32,
    ensures
        text::hex(digest).len() == 64,
        forall|i: int| 0 <= i < 64 ==> text::is_hex_digit(#[trigger] text::hex(digest)[i]),
{
    text::lemma_hex_digits(digest);
}

} // verus!
