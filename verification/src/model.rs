//! The cycle as a transition system: its states, and what follows each reply.
//!
//! [`RunView::next`] is what a run does, said over plain values; the lemmas
//! below it say what holds of every run.

use crate::auth::auth_verdict;
use crate::envelope::ZoneInfoView;
use crate::failure::FailureView;
use crate::ip::origin_of;
use crate::record::DNSRecordView;
use crate::run::{
    CallView, NoticeView, PhaseView, ReplyView, StepView, Stream, NOT_AUTHORIZED_LINE,
    NOT_AUTHORIZED_PREFIX, UNCHANGED_LINE, UPDATED_LINE,
};
use crate::settings::SettingsView;
use crate::update::reconciled;
use crate::zone::{is_target, lemma_selected_named, selected};
use vstd::prelude::*;

verus! {

/// The state of a run: its settings, the call it is waiting on, and the
/// records that are still to be reconciled, in the order of the listing.
pub struct RunView {
    pub settings: SettingsView,
    pub phase: PhaseView,
    pub waiting: Seq<DNSRecordView>,
}

impl RunView {
    /// The state in which a run starts: the token check is out and no record
    /// is known yet.
    pub open spec fn initial(settings: SettingsView) -> RunView {
        RunView { settings, phase: PhaseView::Verifying, waiting: Seq::empty() }
    }

    /// The records that the run has taken up and not yet dealt with: the one
    /// it is resolving the address for, then those that wait.
    pub open spec fn pending(self) -> Seq<DNSRecordView> {
        match self.phase {
            PhaseView::Resolving(dns) => seq![dns] + self.waiting,
            _ => self.waiting,
        }
    }

    /// Every record that the run has taken up bears the target's name.
    pub open spec fn well_formed(self) -> bool {
        forall|i: int|
            0 <= i < self.pending().len() ==> is_target(
                #[trigger] self.pending()[i],
                self.settings.target_name,
            )
    }

    /// The run with nothing out any more.
    pub open spec fn finished(self) -> RunView {
        RunView { phase: PhaseView::Finished, ..self }
    }

    /// An upper bound on the replies that a run takes for the records it has
    /// taken up: two for each that waits, two for one whose address is asked
    /// for, and one for one that is being written.
    pub open spec fn work_left(self) -> nat {
        match self.phase {
            PhaseView::Resolving(_) => 2 * self.waiting.len() + 2,
            PhaseView::Updating => 2 * self.waiting.len() + 1,
            _ => 2 * self.waiting.len(),
        }
    }

    /// The state after `reply` and what the driver is to do next.
    pub open spec fn next(self, reply: ReplyView) -> (RunView, StepView) {
        match self.phase {
            PhaseView::Verifying => match verdict_of(reply) {
                Ok(refused) => (
                    RunView { phase: PhaseView::Listing, ..self },
                    StepView {
                        notice: if refused {
                            Some(on_stdout(NOT_AUTHORIZED_LINE@))
                        } else {
                            None
                        },
                        call: Some(CallView::ListRecords),
                    },
                ),
                Err(failure) => (
                    self.finished(),
                    StepView {
                        notice: Some(on_stderr(NOT_AUTHORIZED_PREFIX@ + failure.message())),
                        call: None,
                    },
                ),
            },
            PhaseView::Listing => match reply {
                ReplyView::Zone(zone) => take_up(
                    self.settings,
                    selected(zone.result, self.settings.target_name),
                    None,
                ),
                _ => (
                    self.finished(),
                    StepView { notice: Some(on_stderr(failure_of(reply).message())), call: None },
                ),
            },
            PhaseView::Resolving(dns) => match address_of(reply) {
                Ok(ip) => match reconciled(dns, ip) {
                    Some(written) => (
                        RunView { phase: PhaseView::Updating, ..self },
                        StepView { notice: None, call: Some(CallView::UpdateRecord(written)) },
                    ),
                    None => take_up(self.settings, self.waiting, Some(on_stdout(UNCHANGED_LINE@))),
                },
                Err(failure) => take_up(
                    self.settings,
                    self.waiting,
                    Some(on_stderr(failure.message())),
                ),
            },
            PhaseView::Updating => match reply {
                ReplyView::Update(_) => take_up(
                    self.settings,
                    self.waiting,
                    Some(on_stdout(UPDATED_LINE@)),
                ),
                _ => take_up(
                    self.settings,
                    self.waiting,
                    Some(on_stderr(failure_of(reply).message())),
                ),
            },
            PhaseView::Finished => (self, StepView { notice: None, call: None }),
        }
    }
}

/// Turns to the first of the waiting records, or finishes where none waits.
/// The notice is the one that closes the work on the record before.
pub open spec fn take_up(
    settings: SettingsView,
    waiting: Seq<DNSRecordView>,
    notice: Option<NoticeView>,
) -> (RunView, StepView) {
    if waiting.len() == 0 {
        (
            RunView { settings, phase: PhaseView::Finished, waiting },
            StepView { notice, call: None },
        )
    } else {
        (
            RunView {
                settings,
                phase: PhaseView::Resolving(waiting.first()),
                waiting: waiting.drop_first(),
            },
            StepView { notice, call: Some(CallView::ResolveIp) },
        )
    }
}

/// A line for the standard output.
pub open spec fn on_stdout(line: Seq<char>) -> NoticeView {
    NoticeView { stream: Stream::Stdout, line }
}

/// A line for the standard error.
pub open spec fn on_stderr(line: Seq<char>) -> NoticeView {
    NoticeView { stream: Stream::Stderr, line }
}

/// Why a reply that is not the awaited answer counts as a failure: with the
/// transport's words where the call failed, and as an unexpected reply where
/// it answers another call.
pub open spec fn failure_of(reply: ReplyView) -> FailureView {
    match reply {
        ReplyView::Failed(text) => FailureView::Transport(text),
        _ => FailureView::UnexpectedReply,
    }
}

/// What a reply says of the credential while the token check is out.
pub open spec fn verdict_of(reply: ReplyView) -> Result<bool, FailureView> {
    match reply {
        ReplyView::Auth(status) => auth_verdict(status),
        _ => Err(failure_of(reply)),
    }
}

/// The public address that a reply gives while the question for it is out.
pub open spec fn address_of(reply: ReplyView) -> Result<Seq<char>, FailureView> {
    match reply {
        ReplyView::Ip(entries) => match origin_of(entries) {
            Some(ip) => Ok(ip),
            None => Err(FailureView::MissingOrigin),
        },
        _ => Err(failure_of(reply)),
    }
}

/// Only records that bear the target's name are ever reconciled.  Of a run
/// that holds no other record, the next state holds no other either, the
/// record whose address is asked for bears the name, and so does a record
/// that is to be written.
pub proof fn lemma_only_targets_reconciled(run: RunView, reply: ReplyView)
    requires
        run.well_formed(),
    ensures
        run.next(reply).0.well_formed(),
        run.next(reply).0.phase matches PhaseView::Resolving(dns) ==> is_target(
            dns,
            run.settings.target_name,
        ),
        run.next(reply).1.call matches Some(CallView::UpdateRecord(dns)) ==> is_target(
            dns,
            run.settings.target_name,
        ),
        run.next(reply).0.settings == run.settings,
{
    let (after, step) = run.next(reply);
    let target = run.settings.target_name;
    let kept: Seq<DNSRecordView> = match (run.phase, reply) {
        (PhaseView::Listing, ReplyView::Zone(zone)) => selected(zone.result, target),
        _ => run.waiting,
    };
    assert forall|i: int| 0 <= i < kept.len() implies is_target(#[trigger] kept[i], target) by {
        match (run.phase, reply) {
            (PhaseView::Listing, ReplyView::Zone(zone)) => {
                lemma_selected_named(zone.result, target);
            },
            (PhaseView::Resolving(_), _) => {
                assert(run.pending()[i + 1] == kept[i]);
            },
            _ => {
                assert(run.pending()[i] == kept[i]);
            },
        }
    }
    lemma_take_up_keeps(run.settings, kept, step.notice);
    assert(after.pending() == kept);
    if let PhaseView::Resolving(dns) = after.phase {
        assert(after.pending()[0] == dns);
    }
    if let PhaseView::Resolving(dns) = run.phase {
        assert(run.pending()[0] == dns);
    }
}

/// Taking up a record neither adds nor changes one: the records taken up
/// afterwards are the ones that waited, in their order.
pub proof fn lemma_take_up_keeps(
    settings: SettingsView,
    waiting: Seq<DNSRecordView>,
    notice: Option<NoticeView>,
)
    ensures
        take_up(settings, waiting, notice).0.pending() == waiting,
        take_up(settings, waiting, notice).0.settings == settings,
        take_up(settings, waiting, notice).1.notice == notice,
{
    assert(take_up(settings, waiting, notice).0.pending() =~= waiting);
}

/// The answer to the listing decides which records are reconciled: exactly
/// those that it lists under the target's name, in its order.
pub proof fn lemma_listing_takes_up_selected(run: RunView, zone: ZoneInfoView)
    requires
        run.phase is Listing,
    ensures
        run.next(ReplyView::Zone(zone)).0.pending() == selected(
            zone.result,
            run.settings.target_name,
        ),
{
    lemma_take_up_keeps(run.settings, selected(zone.result, run.settings.target_name), None);
}

/// Once the listing is in, no record is added or changed: after each reply
/// the records taken up are those from before, less the first where the work
/// on it has gone on.
pub proof fn lemma_records_only_leave(run: RunView, reply: ReplyView)
    requires
        !(run.phase is Listing),
    ensures
        run.next(reply).0.pending() == run.pending() || (run.pending().len() > 0
            && run.next(reply).0.pending() == run.pending().drop_first()),
{
    let step = run.next(reply).1;
    match run.phase {
        PhaseView::Resolving(_) => {
            assert(run.pending().drop_first() =~= run.waiting);
            lemma_take_up_keeps(run.settings, run.waiting, step.notice);
        },
        PhaseView::Updating => {
            lemma_take_up_keeps(run.settings, run.waiting, step.notice);
        },
        _ => {},
    }
}

/// A record is written only where its content differs from the address, and
/// what is written is the record of the listing with the address as its
/// content: every other field travels back as it came.
pub proof fn lemma_update_changes_content_only(run: RunView, reply: ReplyView)
    requires
        run.next(reply).1.call matches Some(CallView::UpdateRecord(_)),
    ensures
        run.phase matches PhaseView::Resolving(dns) && address_of(reply) matches Ok(ip) && ip
            != dns.content && run.next(reply).1.call == Some(
            CallView::UpdateRecord(dns.with_content(ip)),
        ),
{
}

/// Reconciling twice with one address writes at most once.  Where the first
/// pass over a record asked for a write, a second pass over the record as
/// written, with the same reply of the address service, asks for none and
/// reports the record as unchanged.
pub proof fn lemma_second_pass_writes_nothing(
    run: RunView,
    reply: ReplyView,
    written: DNSRecordView,
)
    requires
        run.phase is Resolving,
        run.next(reply).1.call == Some(CallView::UpdateRecord(written)),
    ensures
        !((RunView { phase: PhaseView::Resolving(written), ..run }).next(reply).1.call matches Some(
            CallView::UpdateRecord(_),
        )),
        (RunView { phase: PhaseView::Resolving(written), ..run }).next(reply).1.notice == Some(
            on_stdout(UNCHANGED_LINE@),
        ),
{
}

/// The call that a step names is the one that the next state waits on, and a
/// step names no call exactly where the run has ended.  The token check is
/// never made a second time, and the zone is listed only after it.
pub proof fn lemma_call_matches_phase(run: RunView, reply: ReplyView)
    ensures
        match run.next(reply).0.phase {
            PhaseView::Verifying => false,
            PhaseView::Listing => run.phase is Verifying && run.next(reply).1.call == Some(
                CallView::ListRecords,
            ),
            PhaseView::Resolving(_) => run.next(reply).1.call == Some(CallView::ResolveIp),
            PhaseView::Updating => run.next(reply).1.call matches Some(CallView::UpdateRecord(_)),
            PhaseView::Finished => run.next(reply).1.call is None,
        },
{
}

/// A run ends.  Once the listing is in, each reply leaves less work than
/// there was, so that the run has ended after at most two replies for each
/// record taken up.
pub proof fn lemma_work_decreases(run: RunView, reply: ReplyView)
    requires
        run.phase is Resolving || run.phase is Updating,
    ensures
        run.next(reply).0.work_left() < run.work_left(),
        run.next(reply).0.work_left() == 0 ==> run.next(reply).0.phase is Finished,
{
}

} // verus!
