//! The bootstrap wizard: create the participant context (with its inline
//! key), activate it, publish its DID. The wizard advances on each step's
//! success -- never on a "Next" click -- driven by the panels' success
//! notifications.

use vstd::prelude::*;
use crate::text::clone_option_string;

verus! {

/// The wizard's steps, in order.
#[derive(Clone, Copy, Debug, PartialEq, Eq, Structural)]
pub enum WizardStep {
    CreateContext,
    Activate,
    PublishDid,
    Done,
}

/// How the progress stepper marks a step.
#[derive(Clone, Copy, Debug, PartialEq, Eq, Structural)]
pub enum StepStatus {
    /// An earlier, finished step.
    Success,
    /// The current step.
    Info,
    /// A later step.
    Pending,
}

/// The position of a step in the wizard.
pub open spec fn step_rank(step: WizardStep) -> nat {
    match step {
        WizardStep::CreateContext => 0,
        WizardStep::Activate => 1,
        WizardStep::PublishDid => 2,
        WizardStep::Done => 3,
    }
}

/// How the stepper marks `step` while `current` is the current step.
pub open spec fn status_of(step: WizardStep, current: WizardStep) -> StepStatus {
    if step_rank(step) < step_rank(current) {
        StepStatus::Success
    } else if step == current {
        StepStatus::Info
    } else {
        StepStatus::Pending
    }
}

/// Which step the wizard opens on: a caller that already has a participant
/// context skips creating one.
pub fn initial_step(participant_context_id: Option<&str>) -> (res: WizardStep)
    ensures
        res == if participant_context_id is Some {
            WizardStep::Activate
        } else {
            WizardStep::CreateContext
        },
{
    match participant_context_id {
        Some(_) => WizardStep::Activate,
        None => WizardStep::CreateContext,
    }
}

/// The position of a step in the wizard.
pub fn step_index(step: WizardStep) -> (res: u8)
    ensures
        res == step_rank(step),
{
    match step {
        WizardStep::CreateContext => 0,
        WizardStep::Activate => 1,
        WizardStep::PublishDid => 2,
        WizardStep::Done => 3,
    }
}

/// How the stepper marks `step`: earlier steps succeeded, the current one is
/// highlighted, later ones are pending.
pub fn step_status(step: WizardStep, current: WizardStep) -> (res: StepStatus)
    ensures
        res == status_of(step, current),
{
    if step_index(step) < step_index(current) {
        StepStatus::Success
    } else if step == current {
        StepStatus::Info
    } else {
        StepStatus::Pending
    }
}

/// Exactly the current step is highlighted, and a step is marked finished
/// exactly when it comes before the current one.
pub proof fn lemma_status_marks_position(step: WizardStep, current: WizardStep)
    ensures
        (status_of(step, current) == StepStatus::Info) == (step == current),
        (status_of(step, current) == StepStatus::Success) == (step_rank(step) < step_rank(current)),
        (status_of(step, current) == StepStatus::Pending) == (step_rank(step) > step_rank(current)),
{
}

/// What the wizard is given by its owner.
#[derive(Clone, Debug, PartialEq, Eq)]
pub struct IdentityBootstrapWizardProps {
    /// The page's own origin, e.g. `https://issuer-admin.ds-labs.org`.
    pub endpoint: String,
    pub bearer_token: Option<String>,
    /// An existing, incompletely bootstrapped context to resume; `None` lets
    /// the first step create one.
    pub participant_context_id: Option<String>,
}

/// The wizard's own state.
#[derive(Clone, Debug, PartialEq, Eq)]
pub struct WizardState {
    pub current_step: WizardStep,
    /// The participant context being bootstrapped, once known.
    pub participant_id: Option<String>,
}

/// The success notifications of the panels the wizard shows.
#[derive(Clone, Debug, PartialEq, Eq)]
pub enum WizardEvent {
    /// The create panel created a context with this ID.
    Created(String),
    /// The manage panel activated the context.
    Activated,
    /// The publish panel observed the DID as published.
    Published,
}

/// What the wizard shows below its stepper.
#[derive(Clone, Debug, PartialEq, Eq)]
pub enum WizardBody {
    /// The create form.
    CreateContext,
    /// The manage panel of this context, to activate it.
    Activate(String),
    /// The publish panel of this context.
    PublishDid(String),
    /// The activate step with no context to activate.
    NoContextToActivate,
    /// The publish step with no context to publish a DID for.
    NoContextToPublish,
    /// The success message and the key-management panel for this context.
    Done(String),
}

/// Past the first step, the wizard always knows which context it works on.
pub open spec fn wizard_consistent(state: WizardState) -> bool {
    state.current_step != WizardStep::CreateContext ==> state.participant_id is Some
}

/// The event is one that the panel shown at `step` can send.
pub open spec fn event_of_step(step: WizardStep, event: WizardEvent) -> bool {
    match event {
        WizardEvent::Created(_) => step == WizardStep::CreateContext,
        WizardEvent::Activated => step == WizardStep::Activate,
        WizardEvent::Published => step == WizardStep::PublishDid,
    }
}

/// The wizard's state when it is mounted: it opens on `initial_step` and
/// remembers the context it was given.
pub fn wizard_start(props: &IdentityBootstrapWizardProps) -> (res: WizardState)
    ensures
        res.current_step == if props.participant_context_id is Some {
            WizardStep::Activate
        } else {
            WizardStep::CreateContext
        },
        res.participant_id == props.participant_context_id,
        wizard_consistent(res),
{
    let current_step = match &props.participant_context_id {
        Some(id) => initial_step(Some(id.as_str())),
        None => initial_step(None),
    };
    WizardState { current_step, participant_id: clone_option_string(&props.participant_context_id) }
}

/// One step of the wizard: the next state, and the context ID to report as
/// bootstrapped when the wizard reaches `Done` knowing one.
///
/// Each event that the shown panel sends moves the wizard exactly one step
/// forward and keeps it consistent.
pub fn identity_bootstrap_wizard(state: WizardState, event: WizardEvent) -> (res: (
    WizardState,
    Option<String>,
))
    ensures
        match event {
            WizardEvent::Created(id) => res.0 == (WizardState {
                current_step: WizardStep::Activate,
                participant_id: Some(id),
            }) && res.1 is None,
            WizardEvent::Activated => res.0 == (WizardState {
                current_step: WizardStep::PublishDid,
                ..state
            }) && res.1 is None,
            WizardEvent::Published => res.0 == (WizardState { current_step: WizardStep::Done, ..state })
                && res.1 == state.participant_id,
        },
        res.0 == wizard_after(state, event),
        wizard_consistent(state) && event_of_step(state.current_step, event) ==> {
            &&& wizard_consistent(res.0)
            &&& step_rank(res.0.current_step) == step_rank(state.current_step) + 1
        },
{
    match event {
        WizardEvent::Created(id) => (
            WizardState { current_step: WizardStep::Activate, participant_id: Some(id) },
            None,
        ),
        WizardEvent::Activated => (WizardState { current_step: WizardStep::PublishDid, ..state }, None),
        WizardEvent::Published => {
            let bootstrapped = clone_option_string(&state.participant_id);
            (WizardState { current_step: WizardStep::Done, ..state }, bootstrapped)
        },
    }
}

/// What the wizard shows for its current step. In a consistent state it is
/// never one of the "no participant context" alerts.
pub fn wizard_body(state: &WizardState) -> (res: WizardBody)
    ensures
        match state.current_step {
            WizardStep::CreateContext => res == WizardBody::CreateContext,
            WizardStep::Activate => res == match state.participant_id {
                Some(id) => WizardBody::Activate(id),
                None => WizardBody::NoContextToActivate,
            },
            WizardStep::PublishDid => res == match state.participant_id {
                Some(id) => WizardBody::PublishDid(id),
                None => WizardBody::NoContextToPublish,
            },
            WizardStep::Done => res matches WizardBody::Done(id) && id@ == match state.participant_id {
                Some(known) => known@,
                None => Seq::<char>::empty(),
            },
        },
        wizard_consistent(*state) ==> !(res is NoContextToActivate) && !(res is NoContextToPublish),
{
    match state.current_step {
        WizardStep::CreateContext => WizardBody::CreateContext,
        WizardStep::Activate => match &state.participant_id {
            Some(id) => WizardBody::Activate(id.clone()),
            None => WizardBody::NoContextToActivate,
        },
        WizardStep::PublishDid => match &state.participant_id {
            Some(id) => WizardBody::PublishDid(id.clone()),
            None => WizardBody::NoContextToPublish,
        },
        WizardStep::Done => match &state.participant_id {
            Some(id) => WizardBody::Done(id.clone()),
            None => WizardBody::Done(String::new()),
        },
    }
}

/// The wizard's state after the events `events`, from `start`.
pub open spec fn wizard_run(start: WizardState, events: Seq<WizardEvent>) -> WizardState
    decreases events.len(),
{
    if events.len() == 0 {
        start
    } else {
        wizard_after(wizard_run(start, events.drop_last()), events.last())
    }
}

/// The wizard's state after `event` (the state part of `identity_bootstrap_wizard`).
pub open spec fn wizard_after(state: WizardState, event: WizardEvent) -> WizardState {
    match event {
        WizardEvent::Created(id) => WizardState { current_step: WizardStep::Activate, participant_id: Some(id) },
        WizardEvent::Activated => WizardState { current_step: WizardStep::PublishDid, ..state },
        WizardEvent::Published => WizardState { current_step: WizardStep::Done, ..state },
    }
}

/// Each event of the run was sent by the panel shown at that point.
pub open spec fn run_follows_panels(start: WizardState, events: Seq<WizardEvent>) -> bool {
    forall|i: int|
        0 <= i < events.len() ==> event_of_step(
            #[trigger] wizard_run(start, events.take(i)).current_step,
            events[i],
        )
}

/// A run of the wizard that follows its panels stays consistent and moves
/// one step per event; in particular it never shows a "no participant
/// context" alert, and the `Published` notification always names a context.
pub proof fn lemma_wizard_run_consistent(start: WizardState, events: Seq<WizardEvent>)
    requires
        wizard_consistent(start),
        run_follows_panels(start, events),
    ensures
        wizard_consistent(wizard_run(start, events)),
        step_rank(wizard_run(start, events).current_step) == step_rank(start.current_step) + events.len(),
    decreases events.len(),
{
    if events.len() > 0 {
        let prefix = events.drop_last();
        assert forall|i: int| 0 <= i < prefix.len() implies event_of_step(
            #[trigger] wizard_run(start, prefix.take(i)).current_step,
            prefix[i],
        ) by {
            assert(prefix.take(i) =~= events.take(i));
            assert(event_of_step(wizard_run(start, events.take(i)).current_step, events[i]));
        }
        lemma_wizard_run_consistent(start, prefix);
        let k = (events.len() - 1) as int;
        assert(events.take(k) =~= prefix);
        assert(event_of_step(wizard_run(start, events.take(k)).current_step, events[k]));
    }
}

} // verus!
