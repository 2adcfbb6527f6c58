//! The envelopes in which the provider wraps its answers.

use crate::record::{DNSRecord, DNSRecordView};
use vstd::prelude::*;

verus! {

/// A message that the provider attaches to an answer.
///
/// `kind` is the field that travels as `type`.
#[derive(Debug, PartialEq, Eq)]
pub struct CfMessage {
    pub code: i32,
    pub message: String,
    pub kind: Option<String>,
}

/// What a [`CfMessage`] holds, as text and numbers.
pub struct CfMessageView {
    pub code: int,
    pub message: Seq<char>,
    pub kind: Option<Seq<char>>,
}

impl View for CfMessage {
    type V = CfMessageView;

    open spec fn view(&self) -> CfMessageView {
        CfMessageView {
            code: self.code as int,
            message: self.message@,
            kind: self.kind.deep_view(),
        }
    }
}

impl DeepView for CfMessage {
    type V = CfMessageView;

    open spec fn deep_view(&self) -> CfMessageView {
        self@
    }
}

/// The answer to the token check.
#[derive(Debug, PartialEq, Eq)]
pub struct AuthResponse {
    pub success: bool,
    pub errors: Vec<String>,
    pub messages: Vec<CfMessage>,
}

/// What an [`AuthResponse`] holds.
pub struct AuthResponseView {
    pub success: bool,
    pub errors: Seq<Seq<char>>,
    pub messages: Seq<CfMessageView>,
}

impl View for AuthResponse {
    type V = AuthResponseView;

    open spec fn view(&self) -> AuthResponseView {
        AuthResponseView {
            success: self.success,
            errors: self.errors.deep_view(),
            messages: self.messages.deep_view(),
        }
    }
}

impl DeepView for AuthResponse {
    type V = AuthResponseView;

    open spec fn deep_view(&self) -> AuthResponseView {
        self@
    }
}

/// The answer to the listing of a zone's records.
#[derive(Debug, PartialEq, Eq)]
pub struct ZoneInfo {
    pub success: bool,
    pub errors: Vec<String>,
    pub messages: Vec<CfMessage>,
    pub result: Vec<DNSRecord>,
}

/// What a [`ZoneInfo`] holds.
pub struct ZoneInfoView {
    pub success: bool,
    pub errors: Seq<Seq<char>>,
    pub messages: Seq<CfMessageView>,
    pub result: Seq<DNSRecordView>,
}

impl View for ZoneInfo {
    type V = ZoneInfoView;

    open spec fn view(&self) -> ZoneInfoView {
        ZoneInfoView {
            success: self.success,
            errors: self.errors.deep_view(),
            messages: self.messages.deep_view(),
            result: self.result.deep_view(),
        }
    }
}

impl DeepView for ZoneInfo {
    type V = ZoneInfoView;

    open spec fn deep_view(&self) -> ZoneInfoView {
        self@
    }
}

/// The answer to the update of one record.
#[derive(Debug, PartialEq, Eq)]
pub struct ZoneInfoResponse {
    pub success: bool,
    pub errors: Vec<String>,
    pub messages: Vec<CfMessage>,
    pub result: DNSRecord,
}

/// What a [`ZoneInfoResponse`] holds.
pub struct ZoneInfoResponseView {
    pub success: bool,
    pub errors: Seq<Seq<char>>,
    pub messages: Seq<CfMessageView>,
    pub result: DNSRecordView,
}

impl View for ZoneInfoResponse {
    type V = ZoneInfoResponseView;

    open spec fn view(&self) -> ZoneInfoResponseView {
        ZoneInfoResponseView {
            success: self.success,
            errors: self.errors.deep_view(),
            messages: self.messages.deep_view(),
            result: self.result@,
        }
    }
}

impl DeepView for ZoneInfoResponse {
    type V = ZoneInfoResponseView;

    open spec fn deep_view(&self) -> ZoneInfoResponseView {
        self@
    }
}

} // verus!
