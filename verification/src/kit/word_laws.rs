//! The words of the provider contract tell their values apart.

use vstd::prelude::*;
use vstd::string::*;

use crate::json::JsonV;
use crate::keyed;
use crate::kit::error::RetryableSource;
use crate::kit::manifest::{ActionProtection, ChannelRole, PlatformKind};
use crate::kit::spi::{ObserveWant, SessionOutcome};
use crate::told::Told;
use crate::wire::Wire;

verus! {

proof fn lemma_platform_kind_words()
    ensures
        keyed::key_code("ios"@) == 3105115115,
        keyed::key_code("rdp"@) == 3114112112,
        keyed::key_code("web"@) == 3119098098,
        keyed::key_code("linux"@) == 5108117120,
        keyed::key_code("macOs"@) == 5109079115,
        keyed::key_code("android"@) == 7097105100,
        keyed::key_code("windows"@) == 7119119115,
        keyed::key_code("harmonyOs"@) == 9104121115,
{
    reveal_strlit("ios");
    reveal_strlit("rdp");
    reveal_strlit("web");
    reveal_strlit("linux");
    reveal_strlit("macOs");
    reveal_strlit("android");
    reveal_strlit("windows");
    reveal_strlit("harmonyOs");
}

/// Each word of [`PlatformKind`] spells one value, and each value is spelled by its own
/// word.
pub proof fn law_platform_kind_words(v: PlatformKind)
    ensures
        v.wire_json() == JsonV::Text(v.wire()),
        v.wire() == "android"@ <==> v == PlatformKind::Android,
        v.wire() == "ios"@ <==> v == PlatformKind::Ios,
        v.wire() == "web"@ <==> v == PlatformKind::Web,
        v.wire() == "harmonyOs"@ <==> v == PlatformKind::HarmonyOs,
        v.wire() == "macOs"@ <==> v == PlatformKind::MacOs,
        v.wire() == "windows"@ <==> v == PlatformKind::Windows,
        v.wire() == "linux"@ <==> v == PlatformKind::Linux,
        v.wire() == "rdp"@ <==> v == PlatformKind::Rdp,
{
    lemma_platform_kind_words();
}

impl Told for PlatformKind {
    open spec fn ordered(&self) -> bool {
        true
    }

    open spec fn same(&self, other: &Self) -> bool {
        *self == *other
    }

    proof fn told(a: &Self, b: &Self) {
        law_platform_kind_words(*a);
        law_platform_kind_words(*b);
        assert(a.wire() == b.wire());
        match *a {
            PlatformKind::Android => assert(*b == PlatformKind::Android),
            PlatformKind::Ios => assert(*b == PlatformKind::Ios),
            PlatformKind::Web => assert(*b == PlatformKind::Web),
            PlatformKind::HarmonyOs => assert(*b == PlatformKind::HarmonyOs),
            PlatformKind::MacOs => assert(*b == PlatformKind::MacOs),
            PlatformKind::Windows => assert(*b == PlatformKind::Windows),
            PlatformKind::Linux => assert(*b == PlatformKind::Linux),
            PlatformKind::Rdp => assert(*b == PlatformKind::Rdp),
        }
    }
}

proof fn lemma_action_protection_words()
    ensures
        keyed::key_code("standard"@) == 8115114100,
        keyed::key_code("protected"@) == 9112116100,
{
    reveal_strlit("standard");
    reveal_strlit("protected");
}

/// Each word of [`ActionProtection`] spells one value, and each value is spelled by its own
/// word.
pub proof fn law_action_protection_words(v: ActionProtection)
    ensures
        v.wire_json() == JsonV::Text(v.wire()),
        v.wire() == "standard"@ <==> v == ActionProtection::Standard,
        v.wire() == "protected"@ <==> v == ActionProtection::Protected,
{
    lemma_action_protection_words();
}

impl Told for ActionProtection {
    open spec fn ordered(&self) -> bool {
        true
    }

    open spec fn same(&self, other: &Self) -> bool {
        *self == *other
    }

    proof fn told(a: &Self, b: &Self) {
        law_action_protection_words(*a);
        law_action_protection_words(*b);
        assert(a.wire() == b.wire());
    }
}

proof fn lemma_channel_role_words()
    ensures
        keyed::key_code("act"@) == 3097116116,
        keyed::key_code("both"@) == 4098104104,
        keyed::key_code("verify"@) == 6118102121,
{
    reveal_strlit("act");
    reveal_strlit("both");
    reveal_strlit("verify");
}

/// Each word of [`ChannelRole`] spells one value, and each value is spelled by its own
/// word.
pub proof fn law_channel_role_words(v: ChannelRole)
    ensures
        v.wire_json() == JsonV::Text(v.wire()),
        v.wire() == "act"@ <==> v == ChannelRole::Act,
        v.wire() == "verify"@ <==> v == ChannelRole::Verify,
        v.wire() == "both"@ <==> v == ChannelRole::Both,
{
    lemma_channel_role_words();
}

impl Told for ChannelRole {
    open spec fn ordered(&self) -> bool {
        true
    }

    open spec fn same(&self, other: &Self) -> bool {
        *self == *other
    }

    proof fn told(a: &Self, b: &Self) {
        law_channel_role_words(*a);
        law_channel_role_words(*b);
        assert(a.wire() == b.wire());
    }
}

proof fn lemma_retryable_source_words()
    ensures
        keyed::key_code("daemon"@) == 6100111110,
        keyed::key_code("classifier"@) == 10099105114,
{
    reveal_strlit("daemon");
    reveal_strlit("classifier");
}

/// Each word of [`RetryableSource`] spells one value, and each value is spelled by its own
/// word.
pub proof fn law_retryable_source_words(v: RetryableSource)
    ensures
        v.wire_json() == JsonV::Text(v.wire()),
        v.wire() == "daemon"@ <==> v == RetryableSource::Daemon,
        v.wire() == "classifier"@ <==> v == RetryableSource::Classifier,
{
    lemma_retryable_source_words();
}

impl Told for RetryableSource {
    open spec fn ordered(&self) -> bool {
        true
    }

    open spec fn same(&self, other: &Self) -> bool {
        *self == *other
    }

    proof fn told(a: &Self, b: &Self) {
        law_retryable_source_words(*a);
        law_retryable_source_words(*b);
        assert(a.wire() == b.wire());
    }
}

proof fn lemma_observe_want_words()
    ensures
        keyed::key_code("screenshot"@) == 10115104116,
        keyed::key_code("uiSnapshot"@) == 10117104116,
{
    reveal_strlit("screenshot");
    reveal_strlit("uiSnapshot");
}

/// Each word of [`ObserveWant`] spells one value, and each value is spelled by its own
/// word.
pub proof fn law_observe_want_words(v: ObserveWant)
    ensures
        v.wire_json() == JsonV::Text(v.wire()),
        v.wire() == "screenshot"@ <==> v == ObserveWant::Screenshot,
        v.wire() == "uiSnapshot"@ <==> v == ObserveWant::UiSnapshot,
{
    lemma_observe_want_words();
}

impl Told for ObserveWant {
    open spec fn ordered(&self) -> bool {
        true
    }

    open spec fn same(&self, other: &Self) -> bool {
        *self == *other
    }

    proof fn told(a: &Self, b: &Self) {
        law_observe_want_words(*a);
        law_observe_want_words(*b);
        assert(a.wire() == b.wire());
    }
}

proof fn lemma_session_outcome_words()
    ensures
        keyed::key_code("failed"@) == 6102101100,
        keyed::key_code("shutdown"@) == 8115119110,
        keyed::key_code("cancelled"@) == 9099108100,
        keyed::key_code("completed"@) == 9099116100,
{
    reveal_strlit("failed");
    reveal_strlit("shutdown");
    reveal_strlit("cancelled");
    reveal_strlit("completed");
}

/// Each word of [`SessionOutcome`] spells one value, and each value is spelled by its own
/// word.
pub proof fn law_session_outcome_words(v: SessionOutcome)
    ensures
        v.wire_json() == JsonV::Text(v.wire()),
        v.wire() == "completed"@ <==> v == SessionOutcome::Completed,
        v.wire() == "failed"@ <==> v == SessionOutcome::Failed,
        v.wire() == "cancelled"@ <==> v == SessionOutcome::Cancelled,
        v.wire() == "shutdown"@ <==> v == SessionOutcome::Shutdown,
{
    lemma_session_outcome_words();
}

impl Told for SessionOutcome {
    open spec fn ordered(&self) -> bool {
        true
    }

    open spec fn same(&self, other: &Self) -> bool {
        *self == *other
    }

    proof fn told(a: &Self, b: &Self) {
        law_session_outcome_words(*a);
        law_session_outcome_words(*b);
        assert(a.wire() == b.wire());
    }
}

} // verus!
