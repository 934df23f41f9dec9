//! The consent bridge: turns the platform's callback-driven consent flow
//! into one answer per request. The platform's work (reading the status,
//! presenting the dialog and waiting on its completion signal) is done by
//! the caller; the bridge decides, event by event, what comes next.
use vstd::prelude::*;
use crate::error::Error;
use crate::models::PermissionType;
use crate::platform::{consent_required, Platform};
use crate::status::{missing_facility_error, missing_facility_message, PermissionStatus};

verus! {

/// Where a request stands.
#[derive(Clone, Copy, Debug, PartialEq, Eq, Structural)]
pub enum ConsentPhase {
    /// The current status is to be read.
    Querying,
    /// The dialog was presented; its completion signal is awaited.
    Awaiting,
    /// The completion signal was dropped; the status is to be read again.
    Requerying,
    /// The request is answered.
    Resolved(bool),
    /// The native facility could not be found.
    Unavailable,
}

/// What the platform reported.
#[derive(Clone, Copy, Debug, PartialEq, Eq, Structural)]
pub enum ConsentEvent {
    /// The status was read.
    Status(PermissionStatus),
    /// The native facility could not be found.
    FacilityMissing,
    /// The completion signal fired with the user's answer.
    Answered(bool),
    /// The completion signal was torn down without firing.
    SignalDropped,
}

/// What the caller is to do next.
#[derive(Clone, Copy, Debug, PartialEq, Eq, Structural)]
pub enum ConsentAction {
    /// Read the current status and report `Status` or `FacilityMissing`.
    QueryStatus,
    /// Present the consent dialog, then wait on its completion signal and
    /// report `Answered` or `SignalDropped`.
    PresentDialog,
    /// Keep waiting on the completion signal of the dialog already shown.
    AwaitAnswer,
    /// The request is answered with this value.
    Finish(bool),
    /// The request failed: the native facility is missing.
    Fail,
}

/// The phase that `ev` moves `phase` to. An event that does not fit the
/// phase leaves it as it is.
pub open spec fn step(phase: ConsentPhase, ev: ConsentEvent) -> ConsentPhase {
    match (phase, ev) {
        (ConsentPhase::Querying, ConsentEvent::Status(s)) => {
            if s is Undetermined {
                ConsentPhase::Awaiting
            } else {
                ConsentPhase::Resolved(s is Authorized)
            }
        },
        (ConsentPhase::Requerying, ConsentEvent::Status(s)) => ConsentPhase::Resolved(
            s is Authorized,
        ),
        (ConsentPhase::Querying, ConsentEvent::FacilityMissing) => ConsentPhase::Unavailable,
        (ConsentPhase::Requerying, ConsentEvent::FacilityMissing) => ConsentPhase::Unavailable,
        (ConsentPhase::Awaiting, ConsentEvent::Answered(g)) => ConsentPhase::Resolved(g),
        (ConsentPhase::Awaiting, ConsentEvent::SignalDropped) => ConsentPhase::Requerying,
        _ => phase,
    }
}

/// Whether taking `ev` in `phase` presents the consent dialog: only when
/// the first status read finds the permission undetermined.
pub open spec fn opens_dialog(phase: ConsentPhase, ev: ConsentEvent) -> bool {
    phase is Querying && ev == ConsentEvent::Status(PermissionStatus::Undetermined)
}

/// The action that stands while the bridge is in `phase`.
pub open spec fn action_of(phase: ConsentPhase) -> ConsentAction {
    match phase {
        ConsentPhase::Querying => ConsentAction::QueryStatus,
        ConsentPhase::Requerying => ConsentAction::QueryStatus,
        ConsentPhase::Awaiting => ConsentAction::AwaitAnswer,
        ConsentPhase::Resolved(g) => ConsentAction::Finish(g),
        ConsentPhase::Unavailable => ConsentAction::Fail,
    }
}

/// The action that follows taking `ev` in `phase`.
pub open spec fn action_after(phase: ConsentPhase, ev: ConsentEvent) -> ConsentAction {
    if opens_dialog(phase, ev) {
        ConsentAction::PresentDialog
    } else {
        action_of(step(phase, ev))
    }
}

/// The phase in which a request for `kind` on `p` begins.
pub open spec fn initial_phase(p: Platform, kind: PermissionType) -> ConsentPhase {
    if consent_required(p, kind) {
        ConsentPhase::Querying
    } else {
        ConsentPhase::Resolved(true)
    }
}

/// The phase reached from `phase` after `events`, in order.
pub open spec fn run(phase: ConsentPhase, events: Seq<ConsentEvent>) -> ConsentPhase
    decreases events.len(),
{
    if events.len() == 0 {
        phase
    } else {
        run(step(phase, events[0]), events.drop_first())
    }
}

/// How many dialogs are presented on the way from `phase` through `events`.
pub open spec fn dialogs_in_run(phase: ConsentPhase, events: Seq<ConsentEvent>) -> nat
    decreases events.len(),
{
    if events.len() == 0 {
        0
    } else {
        (if opens_dialog(phase, events[0]) {
            1nat
        } else {
            0nat
        }) + dialogs_in_run(step(phase, events[0]), events.drop_first())
    }
}

/// The answer of one permission request, in progress.
#[derive(Debug)]
pub struct ConsentBridge {
    phase: ConsentPhase,
    dialogs: u8,
}

impl ConsentBridge {
    pub closed spec fn spec_phase(&self) -> ConsentPhase {
        self.phase
    }

    /// How many consent dialogs this request has presented.
    pub closed spec fn spec_dialogs(&self) -> nat {
        self.dialogs as nat
    }

    /// At most one dialog, and none before the first status read.
    pub closed spec fn wf(&self) -> bool {
        &&& self.dialogs <= 1
        &&& self.phase is Querying ==> self.dialogs == 0
    }

    /// Begins a request for `kind` on `p`. Where the platform asks no
    /// consent for it, the request is answered at once with `true`.
    pub fn start(p: Platform, kind: PermissionType) -> (r: ConsentBridge)
        ensures
            r.wf(),
            r.spec_phase() == initial_phase(p, kind),
            r.spec_dialogs() == 0,
    {
        let phase = if p.requires_consent(kind) {
            ConsentPhase::Querying
        } else {
            ConsentPhase::Resolved(true)
        };
        ConsentBridge { phase, dialogs: 0 }
    }

    pub fn phase(&self) -> (r: ConsentPhase)
        ensures
            r == self.spec_phase(),
    {
        self.phase
    }

    pub fn dialogs_presented(&self) -> (r: u8)
        ensures
            r as nat == self.spec_dialogs(),
    {
        self.dialogs
    }

    /// The action that stands now.
    pub fn action(&self) -> (r: ConsentAction)
        ensures
            r == action_of(self.spec_phase()),
    {
        match self.phase {
            ConsentPhase::Querying => ConsentAction::QueryStatus,
            ConsentPhase::Requerying => ConsentAction::QueryStatus,
            ConsentPhase::Awaiting => ConsentAction::AwaitAnswer,
            ConsentPhase::Resolved(g) => ConsentAction::Finish(g),
            ConsentPhase::Unavailable => ConsentAction::Fail,
        }
    }

    /// Takes what the platform reported and says what to do next.
    pub fn advance(&mut self, ev: ConsentEvent) -> (r: ConsentAction)
        requires
            old(self).wf(),
        ensures
            final(self).wf(),
            final(self).spec_phase() == step(old(self).spec_phase(), ev),
            final(self).spec_dialogs() == old(self).spec_dialogs() + (if opens_dialog(
                old(self).spec_phase(),
                ev,
            ) {
                1nat
            } else {
                0nat
            }),
            r == action_after(old(self).spec_phase(), ev),
    {
        let opens = match (self.phase, ev) {
            (ConsentPhase::Querying, ConsentEvent::Status(PermissionStatus::Undetermined)) => true,
            _ => false,
        };
        let next = match (self.phase, ev) {
            (ConsentPhase::Querying, ConsentEvent::Status(s)) => {
                if s.is_terminal() {
                    ConsentPhase::Resolved(s.granted())
                } else {
                    ConsentPhase::Awaiting
                }
            },
            (ConsentPhase::Requerying, ConsentEvent::Status(s)) => ConsentPhase::Resolved(
                s.granted(),
            ),
            (ConsentPhase::Querying, ConsentEvent::FacilityMissing) => ConsentPhase::Unavailable,
            (ConsentPhase::Requerying, ConsentEvent::FacilityMissing) => ConsentPhase::Unavailable,
            (ConsentPhase::Awaiting, ConsentEvent::Answered(g)) => ConsentPhase::Resolved(g),
            (ConsentPhase::Awaiting, ConsentEvent::SignalDropped) => ConsentPhase::Requerying,
            _ => self.phase,
        };
        self.phase = next;
        if opens {
            self.dialogs = self.dialogs + 1;
            ConsentAction::PresentDialog
        } else {
            self.action()
        }
    }

    /// The answer, once there is one: the user's decision, or the error of a
    /// missing native facility.
    pub fn outcome(&self) -> (r: Option<Result<bool, Error>>)
        ensures
            r is None <==> !(self.spec_phase() is Resolved || self.spec_phase() is Unavailable),
            self.spec_phase() matches ConsentPhase::Resolved(g) ==> r == Some(
                Ok::<bool, Error>(g),
            ),
            self.spec_phase() is Unavailable ==> r matches Some(Err(_)),
            r matches Some(Err(e)) ==> e.kind is PlatformUnavailable && e.message@
                == missing_facility_message(),
    {
        match self.phase {
            ConsentPhase::Resolved(g) => Some(Ok(g)),
            ConsentPhase::Unavailable => Some(Err(missing_facility_error())),
            _ => None,
        }
    }
}

/// No event leads back to the first status read, and no dialog is presented
/// once it is behind.
pub proof fn lemma_no_dialog_after_first_read(phase: ConsentPhase, events: Seq<ConsentEvent>)
    requires
        !(phase is Querying),
    ensures
        dialogs_in_run(phase, events) == 0,
        !(run(phase, events) is Querying),
    decreases events.len(),
{
    if events.len() > 0 {
        lemma_no_dialog_after_first_read(step(phase, events[0]), events.drop_first());
    }
}

/// A request presents the consent dialog at most once, whatever the platform
/// reports.
pub proof fn lemma_at_most_one_dialog(p: Platform, kind: PermissionType, events: Seq<ConsentEvent>)
    ensures
        dialogs_in_run(initial_phase(p, kind), events) <= 1,
{
    lemma_dialogs_from_first_read(events);
    if !consent_required(p, kind) {
        lemma_no_dialog_after_first_read(initial_phase(p, kind), events);
    }
}

proof fn lemma_dialogs_from_first_read(events: Seq<ConsentEvent>)
    ensures
        dialogs_in_run(ConsentPhase::Querying, events) <= 1,
    decreases events.len(),
{
    if events.len() > 0 {
        let next = step(ConsentPhase::Querying, events[0]);
        if next is Querying {
            lemma_dialogs_from_first_read(events.drop_first());
        } else {
            lemma_no_dialog_after_first_read(next, events.drop_first());
        }
    }
}

/// Once a request is answered or has failed, nothing changes its outcome.
pub proof fn lemma_settled_is_final(phase: ConsentPhase, events: Seq<ConsentEvent>)
    requires
        phase is Resolved || phase is Unavailable,
    ensures
        run(phase, events) == phase,
        dialogs_in_run(phase, events) == 0,
    decreases events.len(),
{
    if events.len() > 0 {
        lemma_settled_is_final(phase, events.drop_first());
    }
}

/// Where the platform already holds a terminal status (the user answered
/// before, or access is restricted), a request answers with that status and
/// presents no dialog, whatever is reported afterwards. So a request that
/// was denied is denied again on every later request, without a second
/// dialog.
pub proof fn lemma_terminal_status_answers_without_dialog(
    s: PermissionStatus,
    later: Seq<ConsentEvent>,
)
    requires
        s.spec_is_terminal(),
    ensures
        run(ConsentPhase::Querying, seq![ConsentEvent::Status(s)] + later)
            == ConsentPhase::Resolved(s.spec_granted()),
        dialogs_in_run(ConsentPhase::Querying, seq![ConsentEvent::Status(s)] + later) == 0,
{
    let events = seq![ConsentEvent::Status(s)] + later;
    assert(events[0] == ConsentEvent::Status(s));
    assert(events.drop_first() =~= later);
    lemma_settled_is_final(ConsentPhase::Resolved(s.spec_granted()), later);
}

/// A request for an undetermined permission presents exactly one dialog and
/// answers with what the user chose.
pub proof fn lemma_undetermined_answers_with_choice(granted: bool, later: Seq<ConsentEvent>)
    ensures
        ({
            let events = seq![
                ConsentEvent::Status(PermissionStatus::Undetermined),
                ConsentEvent::Answered(granted),
            ] + later;
            &&& run(ConsentPhase::Querying, events) == ConsentPhase::Resolved(granted)
            &&& dialogs_in_run(ConsentPhase::Querying, events) == 1
        }),
{
    let events = seq![
        ConsentEvent::Status(PermissionStatus::Undetermined),
        ConsentEvent::Answered(granted),
    ] + later;
    assert(events[0] == ConsentEvent::Status(PermissionStatus::Undetermined));
    let rest = events.drop_first();
    assert(rest[0] == ConsentEvent::Answered(granted));
    assert(rest.drop_first() =~= later);
    lemma_settled_is_final(ConsentPhase::Resolved(granted), later);
    assert(run(ConsentPhase::Awaiting, rest) == run(ConsentPhase::Resolved(granted), later));
    assert(dialogs_in_run(ConsentPhase::Awaiting, rest) == 0);
    assert(run(ConsentPhase::Querying, events) == run(ConsentPhase::Awaiting, rest));
    assert(dialogs_in_run(ConsentPhase::Querying, events) == 1 + dialogs_in_run(
        ConsentPhase::Awaiting,
        rest,
    ));
}

/// A dropped completion signal is not a failure: the status is read again
/// and answers the request.
pub proof fn lemma_dropped_signal_requeries(s: PermissionStatus, later: Seq<ConsentEvent>)
    ensures
        ({
            let events = seq![
                ConsentEvent::Status(PermissionStatus::Undetermined),
                ConsentEvent::SignalDropped,
                ConsentEvent::Status(s),
            ] + later;
            run(ConsentPhase::Querying, events) == ConsentPhase::Resolved(s.spec_granted())
        }),
{
    let events = seq![
        ConsentEvent::Status(PermissionStatus::Undetermined),
        ConsentEvent::SignalDropped,
        ConsentEvent::Status(s),
    ] + later;
    let r1 = events.drop_first();
    let r2 = r1.drop_first();
    assert(events[0] == ConsentEvent::Status(PermissionStatus::Undetermined));
    assert(r1[0] == ConsentEvent::SignalDropped);
    assert(r2[0] == ConsentEvent::Status(s));
    assert(r2.drop_first() =~= later);
    lemma_settled_is_final(ConsentPhase::Resolved(s.spec_granted()), later);
    assert(run(ConsentPhase::Requerying, r2) == run(
        ConsentPhase::Resolved(s.spec_granted()),
        later,
    ));
    assert(run(ConsentPhase::Awaiting, r1) == run(ConsentPhase::Requerying, r2));
    assert(run(ConsentPhase::Querying, events) == run(ConsentPhase::Awaiting, r1));
}

/// What a platform reports during one request when its status is `s` and
/// the user, if asked, chooses `choice`: the status, then the answer to the
/// dialog where the status is undetermined.
pub open spec fn platform_events(s: PermissionStatus, choice: bool) -> Seq<ConsentEvent> {
    if s is Undetermined {
        seq![ConsentEvent::Status(s), ConsentEvent::Answered(choice)]
    } else {
        seq![ConsentEvent::Status(s)]
    }
}

/// The platform's status after such a request: the user's choice where it
/// was undetermined, else as it was.
pub open spec fn status_after(s: PermissionStatus, choice: bool) -> PermissionStatus {
    if s is Undetermined {
        if choice {
            PermissionStatus::Authorized
        } else {
            PermissionStatus::Denied
        }
    } else {
        s
    }
}

/// How many dialogs a sequence of requests in one process presents, when
/// the platform starts at status `s` and the user, each time a request
/// could ask, would choose the next of `choices`.
pub open spec fn dialogs_over_requests(s: PermissionStatus, choices: Seq<bool>) -> nat
    decreases choices.len(),
{
    if choices.len() == 0 {
        0
    } else {
        dialogs_in_run(ConsentPhase::Querying, platform_events(s, choices[0]))
            + dialogs_over_requests(status_after(s, choices[0]), choices.drop_first())
    }
}

/// Every request in such a sequence that finds a terminal status answers
/// with it and presents no dialog.
pub proof fn lemma_requests_after_terminal_status(s: PermissionStatus, choices: Seq<bool>)
    requires
        s.spec_is_terminal(),
    ensures
        dialogs_over_requests(s, choices) == 0,
        forall|choice: bool|
            run(ConsentPhase::Querying, #[trigger] platform_events(s, choice))
                == ConsentPhase::Resolved(s.spec_granted()),
    decreases choices.len(),
{
    let events = seq![ConsentEvent::Status(s)];
    lemma_terminal_status_answers_without_dialog(s, Seq::empty());
    assert(seq![ConsentEvent::Status(s)] + Seq::<ConsentEvent>::empty() =~= events);
    if choices.len() > 0 {
        lemma_requests_after_terminal_status(s, choices.drop_first());
    }
}

/// However many requests a process makes, the consent dialog is presented
/// at most once; and once a request was denied, every later one is denied
/// without a dialog.
pub proof fn lemma_one_dialog_per_process(s: PermissionStatus, choices: Seq<bool>)
    ensures
        dialogs_over_requests(s, choices) <= 1,
        choices.len() > 0 && run(ConsentPhase::Querying, platform_events(s, choices[0]))
            == ConsentPhase::Resolved(false) ==> forall|choice: bool|
            run(
                ConsentPhase::Querying,
                #[trigger] platform_events(status_after(s, choices[0]), choice),
            ) == ConsentPhase::Resolved(false),
{
    if s.spec_is_terminal() {
        lemma_requests_after_terminal_status(s, choices);
    } else if choices.len() > 0 {
        let choice = choices[0];
        lemma_undetermined_answers_with_choice(choice, Seq::empty());
        assert(seq![
            ConsentEvent::Status(PermissionStatus::Undetermined),
            ConsentEvent::Answered(choice),
        ] + Seq::<ConsentEvent>::empty() =~= platform_events(s, choice));
        lemma_requests_after_terminal_status(status_after(s, choice), choices.drop_first());
    }
}

} // verus!
