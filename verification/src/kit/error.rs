//! The error that provider methods throw.
//!
//! A terminal outcome other than success is an ordinary value. This error says
//! that no terminal outcome could be had at all.

use vstd::prelude::*;

use crate::ir::runtime::ErrorInfo;
use crate::ir::vocab::ErrorClass;
use crate::json::{Json, JsonMap, JsonV, Members};
use crate::text;
use crate::text::concat4;
use crate::wire;
use crate::wire::{duplicate_some, some_json, Duplicate, Wire};

verus! {

/// Where a judgement on retryability came from.
#[derive(Debug, Clone, Copy, PartialEq, Eq, PartialOrd, Ord, Hash, Structural)]
pub enum RetryableSource {
    /// The daemon declared it.
    Daemon,
    /// The classifier assigned it as a fallback.
    Classifier,
}

impl RetryableSource {
    /// The wire spelling.
    pub open spec fn wire(self) -> Seq<char> {
        match self {
            RetryableSource::Daemon => "daemon"@,
            RetryableSource::Classifier => "classifier"@,
        }
    }

    /// The wire spelling.
    pub fn wire_name(self) -> (r: &'static str)
        ensures
            r@ == self.wire(),
    {
        match self {
            RetryableSource::Daemon => "daemon",
            RetryableSource::Classifier => "classifier",
        }
    }
}

impl Wire for RetryableSource {
    open spec fn wire_json(&self) -> JsonV {
        JsonV::Text(self.wire())
    }

    fn to_json(&self) -> (r: Json) {
        Json::text(self.wire_name())
    }
}

impl Duplicate for RetryableSource {
    fn duplicate(&self) -> (r: Self) {
        *self
    }
}

/// What went wrong: the fact from the wire beside the conclusion.
#[derive(Debug, PartialEq, Eq)]
pub struct ProviderError {
    /// The conclusion.
    pub error_class: ErrorClass,
    /// Human-readable message.
    pub message: String,
    /// The error that the daemon sent.
    pub wire: Option<Box<ErrorInfo>>,
    /// Error code of the client.
    pub client_code: Option<String>,
    /// Where the judgement on retryability came from.
    pub retryable_source: RetryableSource,
}

impl Wire for ProviderError {
    open spec fn wire_json(&self) -> JsonV {
        Members::none()
            .with("errorClass"@, self.error_class.wire_json())
            .with("message"@, self.message.wire_json())
            .with_some("wire"@, wire::wire_some(self.wire))
            .with_some("clientCode"@, wire::wire_some(self.client_code))
            .with("retryableSource"@, self.retryable_source.wire_json())
            .object()
    }

    fn to_json(&self) -> (r: Json) {
        JsonMap::new()
            .with("errorClass", self.error_class.to_json())
            .with("message", self.message.to_json())
            .with_some("wire", some_json(&self.wire))
            .with_some("clientCode", some_json(&self.client_code))
            .with("retryableSource", self.retryable_source.to_json())
            .object()
    }
}

/// ProviderError, as contracts see it.
pub struct ProviderErrorV {
    /// The conclusion.
    pub error_class: ErrorClass,
    /// Human-readable message.
    pub message: Seq<char>,
    /// The error that the daemon sent.
    pub wire: Option<JsonV>,
    /// Error code of the client.
    pub client_code: Option<Seq<char>>,
    /// Where the judgement on retryability came from.
    pub retryable_source: RetryableSource,
}

impl ProviderError {
    /// The value, as contracts see it.
    pub open spec fn view(&self) -> ProviderErrorV {
        ProviderErrorV {
            error_class: self.error_class,
            message: self.message@,
            wire: wire::wire_some(self.wire),
            client_code: text::opt_text(self.client_code),
            retryable_source: self.retryable_source,
        }
    }
}

impl Duplicate for ProviderError {
    fn duplicate(&self) -> (r: Self)
        ensures
            r@ == self@,
    {
        ProviderError {
            error_class: self.error_class,
            message: self.message.duplicate(),
            wire: duplicate_some(&self.wire),
            client_code: duplicate_some(&self.client_code),
            retryable_source: self.retryable_source,
        }
    }
}

impl Clone for ProviderError {
    fn clone(&self) -> (r: Self)
        ensures
            r@ == self@,
            r.wire_json() == self.wire_json(),
    {
        self.duplicate()
    }
}

impl ProviderErrorV {
    /// A conclusion of the classifier, without anything from the wire.
    pub open spec fn concluded(error_class: ErrorClass, message: Seq<char>) -> ProviderErrorV {
        ProviderErrorV {
            error_class,
            message,
            wire: None,
            client_code: None,
            retryable_source: RetryableSource::Classifier,
        }
    }

    /// The text of the error.
    pub open spec fn text(self) -> Seq<char> {
        "provider error ["@ + self.error_class.wire() + "]: "@ + self.message
    }
}

impl ProviderError {
    /// An error with neither a wire error nor a client code.
    pub fn new(error_class: ErrorClass, message: String, retryable_source: RetryableSource) -> (r: Self)
        ensures
            r == (ProviderError {
                error_class,
                message,
                wire: None,
                client_code: None,
                retryable_source,
            }),
    {
        ProviderError { error_class, message, wire: None, client_code: None, retryable_source }
    }

    /// A conclusion of the classifier, without anything from the wire.
    pub fn concluded(error_class: ErrorClass, message: String) -> (r: Self)
        ensures
            r@ == ProviderErrorV::concluded(error_class, message@),
    {
        ProviderError::new(error_class, message, RetryableSource::Classifier)
    }

    /// Attaches the error that the daemon sent.
    pub fn with_wire(self, wire: ErrorInfo) -> (r: Self)
        ensures
            r == (ProviderError { wire: Some(Box::new(wire)), ..self }),
    {
        ProviderError { wire: Some(Box::new(wire)), ..self }
    }

    /// Attaches an error code of the client.
    pub fn with_client_code(self, client_code: String) -> (r: Self)
        ensures
            r == (ProviderError { client_code: Some(client_code), ..self }),
    {
        ProviderError { client_code: Some(client_code), ..self }
    }

    /// The text of the error, with the class in its wire spelling.
    pub fn describe(&self) -> (r: String)
        ensures
            r@ == self@.text(),
    {
        concat4("provider error [", self.error_class.wire_name(), "]: ", self.message.as_str())
    }
}

} // verus!
