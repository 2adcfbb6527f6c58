//! One check-and-update cycle as a sequence of calls and replies.
//!
//! A [`Run`] never sends anything.  It names the next call, waits for the
//! reply to be handed in, and says what to print.  The order is: check the
//! token, list the zone's records, and then, for each record that bears the
//! target's name, ask for the public address and write the record back where
//! its content differs.

use crate::auth::check_auth;
use crate::envelope::{
    AuthResponse, AuthResponseView, ZoneInfo, ZoneInfoResponse, ZoneInfoResponseView, ZoneInfoView,
};
use crate::failure::{Failure, FailureView};
use crate::ip::get_current_ip;
use crate::model::{failure_of, on_stderr, on_stdout, take_up, RunView};
use crate::record::{DNSRecord, DNSRecordView};
use crate::request::{
    check_auth_request, check_auth_request_view, get_current_ip_request,
    get_current_ip_request_view, get_zone_request, get_zone_request_view, set_zone_ip_request,
    set_zone_ip_request_view, HttpRequest, HttpRequestView,
};
use crate::settings::{Settings, SettingsView};
use crate::update::set_zone_ip;
use crate::zone::{is_target, lemma_selected_named, select_targets};
use vstd::prelude::*;
use vstd::string::StringExecFns;

verus! {

/// The line that reports a refused credential.
pub const NOT_AUTHORIZED_LINE: &'static str = "not authorized";

/// What precedes the reason where the token check itself failed.
pub const NOT_AUTHORIZED_PREFIX: &'static str = "not authorized: ";

/// The line that reports a record that was written.
pub const UPDATED_LINE: &'static str = "updated true";

/// The line that reports a record that needed no write.
pub const UNCHANGED_LINE: &'static str = "updated false";

/// A call that the run asks its driver to make.
#[derive(Debug, PartialEq, Eq)]
pub enum Call {
    /// Check the token.
    VerifyToken,
    /// List the address records of the zone.
    ListRecords,
    /// Ask the address service for the public address.
    ResolveIp,
    /// Write this record back to the provider.
    UpdateRecord(DNSRecord),
}

/// What a [`Call`] holds.
pub enum CallView {
    VerifyToken,
    ListRecords,
    ResolveIp,
    UpdateRecord(DNSRecordView),
}

impl View for Call {
    type V = CallView;

    open spec fn view(&self) -> CallView {
        match self {
            Call::VerifyToken => CallView::VerifyToken,
            Call::ListRecords => CallView::ListRecords,
            Call::ResolveIp => CallView::ResolveIp,
            Call::UpdateRecord(dns) => CallView::UpdateRecord(dns@),
        }
    }
}

impl DeepView for Call {
    type V = CallView;

    open spec fn deep_view(&self) -> CallView {
        self@
    }
}

/// Whether a call presents the credential.  All do but the question for
/// the public address.
pub open spec fn authenticated(call: CallView) -> bool {
    !(call is ResolveIp)
}

/// The request that makes a call, or the failure to describe one: a call
/// that presents the credential cannot be described without it.
pub open spec fn request_of(
    call: CallView,
    settings: SettingsView,
    credential: Option<Seq<char>>,
) -> Result<HttpRequestView, FailureView> {
    match call {
        CallView::ResolveIp => Ok(get_current_ip_request_view(settings)),
        _ => match credential {
            None => Err(FailureView::MissingCredential),
            Some(token) => Ok(
                match call {
                    CallView::VerifyToken => check_auth_request_view(settings, token),
                    CallView::ListRecords => get_zone_request_view(settings, token),
                    CallView::UpdateRecord(dns) => set_zone_ip_request_view(settings, token, dns),
                    CallView::ResolveIp => get_current_ip_request_view(settings),
                },
            ),
        },
    }
}

impl Call {
    /// Whether the call presents the credential, so that the credential has
    /// to be at hand before the call is described.
    pub fn needs_credential(&self) -> (res: bool)
        ensures
            res == authenticated(self@),
    {
        match self {
            Call::ResolveIp => false,
            _ => true,
        }
    }

    /// Describes the request that makes the call.
    ///
    /// Fails with [`Failure::MissingCredential`] exactly where the call
    /// presents the credential and `credential` is `None`.  The question for
    /// the public address ignores the credential.
    pub fn request(&self, settings: &Settings, credential: &Option<String>) -> (res: Result<
        HttpRequest,
        Failure,
    >)
        ensures
            match res {
                Ok(request) => request_of(self@, settings@, credential.deep_view()) == Ok::<
                    HttpRequestView,
                    FailureView,
                >(request@),
                Err(failure) => request_of(self@, settings@, credential.deep_view()) == Err::<
                    HttpRequestView,
                    FailureView,
                >(failure@),
            },
    {
        match self {
            Call::VerifyToken => check_auth_request(settings, credential),
            Call::ListRecords => get_zone_request(settings, credential),
            Call::ResolveIp => Ok(get_current_ip_request(settings)),
            Call::UpdateRecord(dns) => set_zone_ip_request(settings, credential, dns),
        }
    }
}

/// What came back from a call.
#[derive(Debug, PartialEq, Eq)]
pub enum Reply {
    /// The answer to the token check.
    Auth(AuthResponse),
    /// The answer to the listing of the zone.
    Zone(ZoneInfo),
    /// The entries of the address service's answer, each a name and its value.
    Ip(Vec<(String, String)>),
    /// The answer to the update of a record.
    Update(ZoneInfoResponse),
    /// The call failed on the way or its answer could not be read; the text
    /// is the transport's.
    Failed(String),
}

/// What a [`Reply`] holds.
pub enum ReplyView {
    Auth(AuthResponseView),
    Zone(ZoneInfoView),
    Ip(Seq<(Seq<char>, Seq<char>)>),
    Update(ZoneInfoResponseView),
    Failed(Seq<char>),
}

impl View for Reply {
    type V = ReplyView;

    open spec fn view(&self) -> ReplyView {
        match self {
            Reply::Auth(status) => ReplyView::Auth(status@),
            Reply::Zone(zone) => ReplyView::Zone(zone@),
            Reply::Ip(entries) => ReplyView::Ip(entries.deep_view()),
            Reply::Update(answer) => ReplyView::Update(answer@),
            Reply::Failed(text) => ReplyView::Failed(text@),
        }
    }
}

/// Where a line is printed.
#[derive(Clone, Copy, Debug, PartialEq, Eq, Structural)]
pub enum Stream {
    Stdout,
    Stderr,
}

/// A line for the driver to print.
#[derive(Debug, PartialEq, Eq)]
pub struct Notice {
    pub stream: Stream,
    pub line: String,
}

/// What a [`Notice`] holds.
pub struct NoticeView {
    pub stream: Stream,
    pub line: Seq<char>,
}

impl View for Notice {
    type V = NoticeView;

    open spec fn view(&self) -> NoticeView {
        NoticeView { stream: self.stream, line: self.line@ }
    }
}

impl DeepView for Notice {
    type V = NoticeView;

    open spec fn deep_view(&self) -> NoticeView {
        self@
    }
}

/// What the driver does after a reply: print the notice, if there is one,
/// then make the call, or stop where there is none.
#[derive(Debug, PartialEq, Eq)]
pub struct Step {
    pub notice: Option<Notice>,
    pub call: Option<Call>,
}

/// What a [`Step`] holds.
pub struct StepView {
    pub notice: Option<NoticeView>,
    pub call: Option<CallView>,
}

impl View for Step {
    type V = StepView;

    open spec fn view(&self) -> StepView {
        StepView { notice: self.notice.deep_view(), call: self.call.deep_view() }
    }
}

/// The call that a run is waiting on.
#[derive(Debug, PartialEq, Eq)]
pub enum Phase {
    /// The token check is out.
    Verifying,
    /// The listing of the zone is out.
    Listing,
    /// The question for the address is out, on behalf of this record.
    Resolving(DNSRecord),
    /// The update of a record is out.
    Updating,
    /// Nothing is out and nothing will be.
    Finished,
}

/// What a [`Phase`] holds.
pub enum PhaseView {
    Verifying,
    Listing,
    Resolving(DNSRecordView),
    Updating,
    Finished,
}

impl View for Phase {
    type V = PhaseView;

    open spec fn view(&self) -> PhaseView {
        match self {
            Phase::Verifying => PhaseView::Verifying,
            Phase::Listing => PhaseView::Listing,
            Phase::Resolving(dns) => PhaseView::Resolving(dns@),
            Phase::Updating => PhaseView::Updating,
            Phase::Finished => PhaseView::Finished,
        }
    }
}

/// A cycle in progress.
///
/// Every record that a run holds bears the target's name: none other is ever
/// taken up, whatever the listing held.
#[derive(Debug)]
pub struct Run {
    settings: Settings,
    phase: Phase,
    waiting: Vec<DNSRecord>,
}

impl View for Run {
    type V = RunView;

    closed spec fn view(&self) -> RunView {
        RunView {
            settings: self.settings@,
            phase: self.phase@,
            waiting: self.waiting.deep_view(),
        }
    }
}

/// Makes a notice for the standard output.
fn stdout_notice(line: &str) -> (res: Notice)
    ensures
        res@ == on_stdout(line@),
{
    Notice { stream: Stream::Stdout, line: line.to_owned() }
}

/// Makes a notice for the standard error.
fn stderr_notice(line: String) -> (res: Notice)
    ensures
        res@ == on_stderr(line@),
{
    Notice { stream: Stream::Stderr, line }
}

/// Tells why a reply that is not the awaited answer counts as a failure.
fn reply_failure(reply: Reply) -> (res: Failure)
    ensures
        res@ == failure_of(reply@),
{
    match reply {
        Reply::Failed(text) => Failure::Transport(text),
        _ => Failure::UnexpectedReply,
    }
}

impl Run {
    #[verifier::type_invariant]
    spec fn inv(self) -> bool {
        self@.well_formed()
    }

    /// Begins a cycle.  The first call is the token check, and nothing is
    /// printed before it.
    pub fn start(settings: Settings) -> (res: (Run, Step))
        ensures
            res.0@ == RunView::initial(settings@),
            res.0@.well_formed(),
            res.1@ == (StepView { notice: None, call: Some(CallView::VerifyToken) }),
    {
        let run = Run { settings, phase: Phase::Verifying, waiting: Vec::new() };
        assert(run.waiting.deep_view() =~= Seq::empty());
        (run, Step { notice: None, call: Some(Call::VerifyToken) })
    }

    /// The settings that the run was started with.
    pub fn settings(&self) -> (res: &Settings)
        ensures
            res@ == self@.settings,
    {
        &self.settings
    }

    /// The record on whose behalf the address is being asked for, if the run
    /// is at that point.  It bears the target's name.
    pub fn reconciling(&self) -> (res: Option<&DNSRecord>)
        ensures
            match res {
                Some(dns) => self@.phase == PhaseView::Resolving(dns@) && is_target(
                    dns@,
                    self@.settings.target_name,
                ),
                None => !(self@.phase is Resolving),
            },
    {
        proof {
            use_type_invariant(self);
        }
        match &self.phase {
            Phase::Resolving(dns) => {
                assert(self@.pending()[0] == dns@);
                Some(dns)
            },
            _ => None,
        }
    }

    /// Whether the run has ended: nothing is out and no call will follow.
    pub fn is_finished(&self) -> (res: bool)
        ensures
            res == (self@.phase == PhaseView::Finished),
    {
        match self.phase {
            Phase::Finished => true,
            _ => false,
        }
    }

    /// Turns to the next waiting record, or finishes where none waits.
    fn take_up(settings: Settings, waiting: Vec<DNSRecord>, notice: Option<Notice>) -> (res: (
        Run,
        Step,
    ))
        requires
            forall|i: int|
                0 <= i < waiting.len() ==> is_target(#[trigger] waiting[i]@, settings@.target_name),
        ensures
            (res.0@, res.1@) == take_up(settings@, waiting.deep_view(), notice.deep_view()),
            res.0@.well_formed(),
    {
        let mut waiting = waiting;
        let ghost before = waiting.deep_view();
        if waiting.len() == 0 {
            let run = Run { settings, phase: Phase::Finished, waiting };
            (run, Step { notice, call: None })
        } else {
            let dns = waiting.remove(0);
            assert(waiting.deep_view() =~= before.drop_first());
            assert(dns@ == before.first());
            let ghost then = RunView {
                settings: settings@,
                phase: PhaseView::Resolving(dns@),
                waiting: waiting.deep_view(),
            };
            assert(then.pending() =~= before);
            let run = Run { settings, phase: Phase::Resolving(dns), waiting };
            (run, Step { notice, call: Some(Call::ResolveIp) })
        }
    }

    /// Takes the reply to the call that is out and says what follows.
    ///
    /// While the token check is out, a refused credential is reported and the
    /// listing follows all the same; a check that failed, or an answer
    /// without a message, is reported and ends the run.  While the listing is
    /// out, the records that bear the target's name are taken up in their
    /// order and no others; a failure is reported and ends the run.  For each
    /// record taken up the address is asked for anew: the record is written
    /// back where its content differs and reported as unchanged where it
    /// does not, and a failure is reported and the next record taken up.  The
    /// answer to an update is not looked into: any answer counts as written.
    /// A reply of another kind than the awaited one counts as a failure of
    /// the call that is out.  After the end every reply is ignored.
    pub fn advance(self, reply: Reply) -> (res: (Run, Step))
        ensures
            (res.0@, res.1@) == self@.next(reply@),
            self@.well_formed(),
            res.0@.well_formed(),
            res.1@.call matches Some(CallView::UpdateRecord(dns)) ==> is_target(
                dns,
                self@.settings.target_name,
            ),
    {
        proof {
            use_type_invariant(&self);
        }
        let ghost old_view = self@;
        let Run { settings, phase, waiting } = self;
        assert forall|i: int| 0 <= i < waiting.len() implies is_target(
            #[trigger] waiting[i]@,
            settings@.target_name,
        ) by {
            let shift: int = if old_view.phase is Resolving { 1 } else { 0 };
            assert(old_view.pending()[i + shift] == waiting.deep_view()[i]);
        }
        match phase {
            Phase::Verifying => {
                let verdict = match reply {
                    Reply::Auth(status) => check_auth(&status),
                    other => Err(reply_failure(other)),
                };
                match verdict {
                    Ok(refused) => {
                        let notice = if refused {
                            Some(stdout_notice(NOT_AUTHORIZED_LINE))
                        } else {
                            None
                        };
                        let run = Run { settings, phase: Phase::Listing, waiting };
                        assert(run@.pending() == old_view.pending());
                        (run, Step { notice, call: Some(Call::ListRecords) })
                    },
                    Err(failure) => {
                        let line = NOT_AUTHORIZED_PREFIX.to_owned().concat(
                            failure.message().as_str(),
                        );
                        let run = Run { settings, phase: Phase::Finished, waiting };
                        assert(run@.pending() == old_view.pending());
                        (run, Step { notice: Some(stderr_notice(line)), call: None })
                    },
                }
            },
            Phase::Listing => match reply {
                Reply::Zone(zone) => {
                    let chosen = select_targets(&zone.result, &settings.target_name);
                    assert forall|i: int| 0 <= i < chosen.len() implies is_target(
                        #[trigger] chosen[i]@,
                        settings@.target_name,
                    ) by {
                        lemma_selected_named(zone.result.deep_view(), settings@.target_name);
                        assert(chosen[i]@ == chosen.deep_view()[i]);
                    }
                    Run::take_up(settings, chosen, None)
                },
                other => {
                    let line = reply_failure(other).message();
                    let run = Run { settings, phase: Phase::Finished, waiting };
                    assert(run@.pending() == old_view.pending());
                    (run, Step { notice: Some(stderr_notice(line)), call: None })
                },
            },
            Phase::Resolving(dns) => {
                let address = match reply {
                    Reply::Ip(entries) => get_current_ip(&entries),
                    other => Err(reply_failure(other)),
                };
                assert(is_target(dns@, settings@.target_name)) by {
                    assert(old_view.pending()[0] == dns@);
                }
                match address {
                    Ok(ip) => match set_zone_ip(dns, ip) {
                        Some(written) => {
                            let run = Run { settings, phase: Phase::Updating, waiting };
                            (run, Step { notice: None, call: Some(Call::UpdateRecord(written)) })
                        },
                        None => Run::take_up(
                            settings,
                            waiting,
                            Some(stdout_notice(UNCHANGED_LINE)),
                        ),
                    },
                    Err(failure) => Run::take_up(
                        settings,
                        waiting,
                        Some(stderr_notice(failure.message())),
                    ),
                }
            },
            Phase::Updating => match reply {
                Reply::Update(_) => Run::take_up(
                    settings,
                    waiting,
                    Some(stdout_notice(UPDATED_LINE)),
                ),
                other => Run::take_up(
                    settings,
                    waiting,
                    Some(stderr_notice(reply_failure(other).message())),
                ),
            },
            Phase::Finished => {
                let run = Run { settings, phase: Phase::Finished, waiting };
                assert(run@.pending() == old_view.pending());
                (run, Step { notice: None, call: None })
            },
        }
    }
}

} // verus!
