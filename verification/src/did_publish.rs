//! Publishing a participant context's `did:web` DID: deriving the DID,
//! reading the identity-api's DID state, and the decisions of the publish
//! panel (which call to make, what to show, when to report "published").
//!
//! The panel is a state machine: the embedding UI performs each returned
//! command (an identity-api call, or notifying its owner) and feeds the
//! outcome back in as the next event.

use vstd::prelude::*;
use vstd::string::*;
use crate::client_error::{ClientError, client_error_ok, describe_error, error_message};
use crate::text::{
    all_white_space, ascii_lower_code, concat_strs, eq_ignore_ascii_case, lemma_trim_ignores_surrounding_white_space,
    str_eq_ignore_ascii_case, trim, trim_str,
};

verus! {

/// The DID of a `did:web` participant: `did:web:` followed by its ID.
pub open spec fn did_web(participant_id: Seq<char>) -> Seq<char> {
    "did:web:"@ + participant_id
}

/// Whether an identity-api DID state means "live and resolvable": the state
/// name, without surrounding whitespace, is `published` in any ASCII case.
pub open spec fn published_state(state: Seq<char>) -> bool {
    eq_ignore_ascii_case(trim(state), "published"@)
}

/// The DID a `did:web` participant resolves to, derived from the
/// `participantId` chosen when its context was created. Every DID-management
/// call wants this full method string, while the context itself only holds
/// the bare ID.
pub fn did_from_participant_id(participant_id: &str) -> (res: String)
    ensures
        res@ == did_web(participant_id@),
{
    concat_strs("did:web:", participant_id)
}

/// Whether a DID-state answer means "live and resolvable", compared
/// case-insensitively after trimming (the identity-api answers with the bare
/// enum name `PUBLISHED`).
pub fn is_published(state: &str) -> (res: bool)
    ensures
        res == published_state(state@),
{
    str_eq_ignore_ascii_case(trim_str(state), "published")
}

/// What the publish panel is given by its owner.
#[derive(Clone, Debug, PartialEq, Eq)]
pub struct DidPublishPanelProps {
    /// The page's own origin, e.g. `https://issuer-admin.ds-labs.org`.
    pub endpoint: String,
    /// The bearer token the identity-api calls are made with, if any.
    pub bearer_token: Option<String>,
    pub participant_context_id: String,
    /// The `participantId` the context was created with; the DID is derived
    /// from it.
    pub participant_id: String,
}

/// Where the panel's knowledge of the DID state stands.
#[derive(Clone, Debug, PartialEq, Eq)]
pub enum DidStateLoad {
    Loading,
    Loaded(String),
    Error(String),
}

/// The publish panel's own state.
#[derive(Clone, Debug, PartialEq, Eq)]
pub struct DidPanelState {
    pub state_load: DidStateLoad,
    /// Bumped after each successful publish/unpublish to reload the state.
    pub reload: u32,
    /// A publish or unpublish call is in flight.
    pub acting: bool,
    /// The message of the last failed publish/unpublish call.
    pub action_error: Option<String>,
}

/// The two things the panel's single action button can do.
#[derive(Clone, Copy, Debug, PartialEq, Eq)]
pub enum DidAction {
    Publish,
    Unpublish,
}

/// What happens to the panel.
#[derive(Debug, PartialEq, Eq)]
pub enum DidPanelEvent {
    /// The panel was mounted, or its participant context or DID changed.
    Refresh,
    /// The DID-state call answered.
    StateLoaded(Result<String, ClientError>),
    /// The action button was clicked.
    ActionClicked(DidAction),
    /// A publish/unpublish call answered; `reload` is the value the panel
    /// had when the call was made.
    ActionFinished { reload: u32, result: Result<(), ClientError> },
}

/// What the panel asks its owner to do.
#[derive(Clone, Debug, PartialEq, Eq)]
pub enum DidPanelCommand {
    /// Ask for the DID's state (`get_did_state`).
    FetchState { participant_context_id: String, did: String },
    /// Publish or unpublish the DID, remembering the current `reload`.
    Run { action: DidAction, participant_context_id: String, did: String, reload: u32 },
    /// Tell the owner the DID is now observed as published.
    NotifyPublished,
}

/// The DID is observed as published.
pub open spec fn did_live(load: DidStateLoad) -> bool {
    load matches DidStateLoad::Loaded(state) && published_state(state@)
}

/// The state a freshly mounted panel starts in.
pub fn did_panel_initial() -> (res: DidPanelState)
    ensures
        res == (DidPanelState { state_load: DidStateLoad::Loading, reload: 0, acting: false, action_error: None }),
{
    DidPanelState { state_load: DidStateLoad::Loading, reload: 0, acting: false, action_error: None }
}

/// The event can be handled without overflowing the reload counter.
pub open spec fn did_event_ok(event: DidPanelEvent) -> bool {
    match event {
        DidPanelEvent::StateLoaded(Err(e)) => client_error_ok(e),
        DidPanelEvent::ActionFinished { reload, result } => reload < u32::MAX && (result matches Err(
            e,
        ) ==> client_error_ok(e)),
        _ => true,
    }
}

/// The panel fetches the DID state of `props`' context and DID.
pub open spec fn fetches_state_of(props: DidPublishPanelProps, command: Option<DidPanelCommand>) -> bool {
    command matches Some(DidPanelCommand::FetchState { participant_context_id, did })
        && participant_context_id == props.participant_context_id
        && did@ == did_web(props.participant_id@)
}

/// One step of the publish panel: the next state and the command to carry out.
///
/// - `Refresh` starts loading the DID state.
/// - A loaded state is shown; the owner is notified exactly when the DID
///   turns from not-observed-published to observed-published.
/// - A failed load shows the error.
/// - A click clears the last error, marks the panel busy and runs the action.
/// - A finished action clears the busy mark; success bumps `reload` (and, if
///   that changes it, reloads the state), failure shows the error.
pub fn did_publish_panel(props: &DidPublishPanelProps, state: DidPanelState, event: DidPanelEvent) -> (res: (
    DidPanelState,
    Option<DidPanelCommand>,
))
    requires
        did_event_ok(event),
    ensures
        match event {
            DidPanelEvent::Refresh => {
                &&& res.0 == (DidPanelState { state_load: DidStateLoad::Loading, ..state })
                &&& fetches_state_of(*props, res.1)
            },
            DidPanelEvent::StateLoaded(Ok(loaded)) => {
                &&& res.0 == (DidPanelState { state_load: DidStateLoad::Loaded(loaded), ..state })
                &&& res.1 == if !did_live(state.state_load) && published_state(loaded@) {
                    Some(DidPanelCommand::NotifyPublished)
                } else {
                    None
                }
            },
            DidPanelEvent::StateLoaded(Err(e)) => {
                &&& res.0.state_load matches DidStateLoad::Error(message) && message@ == error_message(e)
                &&& res.0.reload == state.reload
                &&& res.0.acting == state.acting
                &&& res.0.action_error == state.action_error
                &&& res.1 is None
            },
            DidPanelEvent::ActionClicked(action) => {
                &&& res.0 == (DidPanelState { acting: true, action_error: None, ..state })
                &&& res.1 matches Some(DidPanelCommand::Run { action: a, participant_context_id, did, reload })
                    && a == action && participant_context_id == props.participant_context_id
                    && did@ == did_web(props.participant_id@) && reload == state.reload
            },
            DidPanelEvent::ActionFinished { reload, result: Ok(()) } => {
                &&& res.0.acting == false
                &&& res.0.action_error == state.action_error
                &&& res.0.reload == reload + 1
                &&& if reload + 1 != state.reload {
                    res.0.state_load == DidStateLoad::Loading && fetches_state_of(*props, res.1)
                } else {
                    res.0.state_load == state.state_load && res.1 is None
                }
            },
            DidPanelEvent::ActionFinished { reload, result: Err(e) } => {
                &&& res.0.state_load == state.state_load
                &&& res.0.reload == state.reload
                &&& res.0.acting == false
                &&& res.0.action_error matches Some(message) && message@ == error_message(e)
                &&& res.1 is None
            },
        },
{
    match event {
        DidPanelEvent::Refresh => {
            let did = did_from_participant_id(props.participant_id.as_str());
            (
                DidPanelState { state_load: DidStateLoad::Loading, ..state },
                Some(
                    DidPanelCommand::FetchState {
                        participant_context_id: props.participant_context_id.clone(),
                        did,
                    },
                ),
            )
        },
        DidPanelEvent::StateLoaded(Ok(loaded)) => {
            let was_live = match &state.state_load {
                DidStateLoad::Loaded(previous) => is_published(previous.as_str()),
                _ => false,
            };
            let now_live = is_published(loaded.as_str());
            let command = if !was_live && now_live {
                Some(DidPanelCommand::NotifyPublished)
            } else {
                None
            };
            (DidPanelState { state_load: DidStateLoad::Loaded(loaded), ..state }, command)
        },
        DidPanelEvent::StateLoaded(Err(e)) => {
            let message = describe_error(e);
            (DidPanelState { state_load: DidStateLoad::Error(message), ..state }, None)
        },
        DidPanelEvent::ActionClicked(action) => {
            let did = did_from_participant_id(props.participant_id.as_str());
            let reload = state.reload;
            (
                DidPanelState { acting: true, action_error: None, ..state },
                Some(
                    DidPanelCommand::Run {
                        action,
                        participant_context_id: props.participant_context_id.clone(),
                        did,
                        reload,
                    },
                ),
            )
        },
        DidPanelEvent::ActionFinished { reload, result: Ok(()) } => {
            let next_reload = reload + 1;
            if next_reload != state.reload {
                let did = did_from_participant_id(props.participant_id.as_str());
                (
                    DidPanelState {
                        state_load: DidStateLoad::Loading,
                        reload: next_reload,
                        acting: false,
                        action_error: state.action_error,
                    },
                    Some(
                        DidPanelCommand::FetchState {
                            participant_context_id: props.participant_context_id.clone(),
                            did,
                        },
                    ),
                )
            } else {
                (DidPanelState { reload: next_reload, acting: false, ..state }, None)
            }
        },
        DidPanelEvent::ActionFinished { reload: _, result: Err(e) } => {
            let message = describe_error(e);
            (DidPanelState { acting: false, action_error: Some(message), ..state }, None)
        },
    }
}

/// The action the panel's button offers: none until the state is loaded,
/// then unpublish for a published DID and publish otherwise.
pub fn offered_did_action(state: &DidPanelState) -> (res: Option<DidAction>)
    ensures
        res == match state.state_load {
            DidStateLoad::Loaded(s) => Some(
                if published_state(s@) {
                    DidAction::Unpublish
                } else {
                    DidAction::Publish
                },
            ),
            _ => None,
        },
{
    match &state.state_load {
        DidStateLoad::Loaded(s) => {
            if is_published(s.as_str()) {
                Some(DidAction::Unpublish)
            } else {
                Some(DidAction::Publish)
            }
        },
        _ => None,
    }
}

/// The label of the action button.
pub fn did_action_label(action: DidAction) -> (res: &'static str)
    ensures
        res@ == match action {
            DidAction::Publish => "Publish DID"@,
            DidAction::Unpublish => "Unpublish"@,
        },
{
    match action {
        DidAction::Publish => "Publish DID",
        DidAction::Unpublish => "Unpublish",
    }
}

/// Different participant IDs give different DIDs.
pub proof fn lemma_did_web_injective(a: Seq<char>, b: Seq<char>)
    requires
        did_web(a) == did_web(b),
    ensures
        a == b,
{
    let prefix = "did:web:"@;
    assert(did_web(a).subrange(prefix.len() as int, did_web(a).len() as int) =~= a);
    assert(did_web(b).subrange(prefix.len() as int, did_web(b).len() as int) =~= b);
}

/// Whitespace around a DID-state answer does not change whether it reads as
/// published.
pub proof fn lemma_published_ignores_padding(pre: Seq<char>, state: Seq<char>, post: Seq<char>)
    requires
        all_white_space(pre),
        all_white_space(post),
    ensures
        published_state(pre + state + post) == published_state(state),
{
    lemma_trim_ignores_surrounding_white_space(pre, state, post);
}

/// The DID of a participant is always the `did:web` method: its first eight
/// characters are `did:web:` and the rest is the participant ID unchanged,
/// whatever the ID's length or content.
pub proof fn lemma_did_is_did_web_then_participant_id(participant_id: Seq<char>)
    ensures
        did_web(participant_id).len() == participant_id.len() + 8,
        did_web(participant_id).subrange(0, 8) == seq!['d', 'i', 'd', ':', 'w', 'e', 'b', ':'],
        did_web(participant_id).subrange(8, did_web(participant_id).len() as int) == participant_id,
{
    reveal_strlit("did:web:");
    assert(did_web(participant_id).subrange(0, 8) =~= seq!['d', 'i', 'd', ':', 'w', 'e', 'b', ':']);
    assert(did_web(participant_id).subrange(8, did_web(participant_id).len() as int) =~= participant_id);
}

/// `c` is the letter `lower` or its upper-case form `upper`.
pub open spec fn is_letter_either_case(c: char, lower: char, upper: char) -> bool {
    c == lower || c == upper
}

proof fn lemma_fold_matches_letter(c: char, lower: char, upper: char)
    requires
        0x61 <= (lower as u32) <= 0x7A,
        upper as u32 == (lower as u32) - 0x20,
    ensures
        (ascii_lower_code(c) == ascii_lower_code(lower)) == is_letter_either_case(c, lower, upper),
{
    let n = c as u32;
    if n == lower as u32 {
        assert(c == lower);
    }
    if n == upper as u32 {
        assert(c == upper);
    }
}

/// A DID state reads as published exactly when, without its surrounding
/// whitespace, it is the nine letters `published`, each in either case.
/// Every other name -- `GENERATED`, `INITIAL`, `UNPUBLISHED`, ... -- reads
/// as not published.
pub proof fn lemma_published_exactly_the_name(state: Seq<char>)
    ensures
        published_state(state) == {
            let t = trim(state);
            &&& t.len() == 9
            &&& is_letter_either_case(t[0], 'p', 'P')
            &&& is_letter_either_case(t[1], 'u', 'U')
            &&& is_letter_either_case(t[2], 'b', 'B')
            &&& is_letter_either_case(t[3], 'l', 'L')
            &&& is_letter_either_case(t[4], 'i', 'I')
            &&& is_letter_either_case(t[5], 's', 'S')
            &&& is_letter_either_case(t[6], 'h', 'H')
            &&& is_letter_either_case(t[7], 'e', 'E')
            &&& is_letter_either_case(t[8], 'd', 'D')
        },
{
    reveal_strlit("published");
    let t = trim(state);
    let name = "published"@;
    assert(name =~= seq!['p', 'u', 'b', 'l', 'i', 's', 'h', 'e', 'd']);
    if t.len() == 9 {
        lemma_fold_matches_letter(t[0], 'p', 'P');
        lemma_fold_matches_letter(t[1], 'u', 'U');
        lemma_fold_matches_letter(t[2], 'b', 'B');
        lemma_fold_matches_letter(t[3], 'l', 'L');
        lemma_fold_matches_letter(t[4], 'i', 'I');
        lemma_fold_matches_letter(t[5], 's', 'S');
        lemma_fold_matches_letter(t[6], 'h', 'H');
        lemma_fold_matches_letter(t[7], 'e', 'E');
        lemma_fold_matches_letter(t[8], 'd', 'D');
        if published_state(state) {
            assert(ascii_lower_code(t[0]) == ascii_lower_code(name[0]));
            assert(ascii_lower_code(t[1]) == ascii_lower_code(name[1]));
            assert(ascii_lower_code(t[2]) == ascii_lower_code(name[2]));
            assert(ascii_lower_code(t[3]) == ascii_lower_code(name[3]));
            assert(ascii_lower_code(t[4]) == ascii_lower_code(name[4]));
            assert(ascii_lower_code(t[5]) == ascii_lower_code(name[5]));
            assert(ascii_lower_code(t[6]) == ascii_lower_code(name[6]));
            assert(ascii_lower_code(t[7]) == ascii_lower_code(name[7]));
            assert(ascii_lower_code(t[8]) == ascii_lower_code(name[8]));
        }
    }
}

} // verus!
