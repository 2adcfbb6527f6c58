//! What can go wrong in a run, and the line that says so.

use vstd::prelude::*;

verus! {

/// Text of [`Failure::NoMessages`].
pub const NO_MESSAGES_TEXT: &'static str = "the token check answered without a message";

/// Text of [`Failure::MissingOrigin`].
pub const MISSING_ORIGIN_TEXT: &'static str = "the address reply has no entry named origin";

/// Text of [`Failure::MissingCredential`].
pub const MISSING_CREDENTIAL_TEXT: &'static str = "no credential for an authenticated call";

/// Text of [`Failure::UnexpectedReply`].
pub const UNEXPECTED_REPLY_TEXT: &'static str = "the reply does not answer the call that was made";

/// A reason for which a step of the run did not succeed.
#[derive(Debug, PartialEq, Eq)]
pub enum Failure {
    /// The answer to the token check carries an empty list of messages, so
    /// there is no first message to judge the credential by.
    NoMessages,
    /// The answer of the address service has no entry named `origin`.
    MissingOrigin,
    /// A call that must be authenticated was asked for without a credential.
    MissingCredential,
    /// A reply of another kind than that of the call that was outstanding.
    UnexpectedReply,
    /// The call failed on the way or its answer could not be read; the text
    /// is the one that the transport gave.
    Transport(String),
}

/// What a [`Failure`] holds, as text.
pub enum FailureView {
    NoMessages,
    MissingOrigin,
    MissingCredential,
    UnexpectedReply,
    Transport(Seq<char>),
}

impl View for Failure {
    type V = FailureView;

    open spec fn view(&self) -> FailureView {
        match self {
            Failure::NoMessages => FailureView::NoMessages,
            Failure::MissingOrigin => FailureView::MissingOrigin,
            Failure::MissingCredential => FailureView::MissingCredential,
            Failure::UnexpectedReply => FailureView::UnexpectedReply,
            Failure::Transport(text) => FailureView::Transport(text@),
        }
    }
}

impl FailureView {
    /// The line that describes the failure.
    pub open spec fn message(self) -> Seq<char> {
        match self {
            FailureView::NoMessages => NO_MESSAGES_TEXT@,
            FailureView::MissingOrigin => MISSING_ORIGIN_TEXT@,
            FailureView::MissingCredential => MISSING_CREDENTIAL_TEXT@,
            FailureView::UnexpectedReply => UNEXPECTED_REPLY_TEXT@,
            FailureView::Transport(text) => text,
        }
    }
}

impl Failure {
    /// The line that describes the failure: a fixed text for each kind, and
    /// for a transport failure the transport's own words.
    pub fn message(&self) -> (res: String)
        ensures
            res@ == self@.message(),
    {
        match self {
            Failure::NoMessages => NO_MESSAGES_TEXT.to_owned(),
            Failure::MissingOrigin => MISSING_ORIGIN_TEXT.to_owned(),
            Failure::MissingCredential => MISSING_CREDENTIAL_TEXT.to_owned(),
            Failure::UnexpectedReply => UNEXPECTED_REPLY_TEXT.to_owned(),
            Failure::Transport(text) => text.clone(),
        }
    }
}

} // verus!
