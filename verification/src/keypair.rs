//! A participant context's keys after bootstrap: building the request body
//! for a new generated key, naming key states, and the decisions of the
//! key-management panel (list / add / activate / rotate / revoke).
//!
//! The panel is a state machine: the embedding UI performs each returned
//! command (an identity-api call) and feeds the outcome back in as the next
//! event.

use vstd::prelude::*;
use vstd::string::*;
use crate::client_error::{ClientError, client_error_ok, describe_error, error_message};
use crate::text::{
    all_white_space, concat_strs, lemma_trim_ignores_surrounding_white_space, trim, trim_str,
};

verus! {

/// The parameters of a server-side key generation.
#[derive(Clone, Debug, PartialEq, Eq)]
pub struct KeyGeneratorParams {
    pub algorithm: String,
}

/// The body of a `PUT .../keypairs` request. A key is either generated by
/// the server (`key_generator_params`) or supplied as a JWK or PEM.
#[derive(Clone, Debug, PartialEq, Eq)]
pub struct KeyDescriptor {
    pub key_id: Option<String>,
    pub key_generator_params: Option<KeyGeneratorParams>,
    /// A supplied public key as JWK JSON text.
    pub public_key_jwk: Option<String>,
    /// A supplied public key in PEM.
    pub public_key_pem: Option<String>,
}

/// Why the add-key form is refused, if it is: a blank key ID first, then a
/// blank algorithm (both judged after trimming).
pub open spec fn key_form_error(key_id: Seq<char>, algorithm: Seq<char>) -> Option<Seq<char>> {
    if trim(key_id).len() == 0 {
        Some("Key ID is required."@)
    } else if trim(algorithm).len() == 0 {
        Some("Algorithm is required."@)
    } else {
        None
    }
}

/// The descriptor is the one for a server-generated key with these trimmed
/// key ID and algorithm.
pub open spec fn generated_key(descriptor: KeyDescriptor, key_id: Seq<char>, algorithm: Seq<char>) -> bool {
    &&& descriptor.key_id matches Some(k) && k@ == trim(key_id)
    &&& descriptor.key_generator_params matches Some(p) && p.algorithm@ == trim(algorithm)
    &&& descriptor.public_key_jwk is None
    &&& descriptor.public_key_pem is None
}

/// Whitespace typed around the form's fields changes neither whether the
/// form is refused nor the key it asks for.
pub proof fn lemma_key_form_ignores_padding(
    key_id: Seq<char>,
    algorithm: Seq<char>,
    pre: Seq<char>,
    post: Seq<char>,
    descriptor: KeyDescriptor,
)
    requires
        all_white_space(pre),
        all_white_space(post),
    ensures
        key_form_error(pre + key_id + post, pre + algorithm + post) == key_form_error(key_id, algorithm),
        generated_key(descriptor, pre + key_id + post, pre + algorithm + post) == generated_key(
            descriptor,
            key_id,
            algorithm,
        ),
{
    lemma_trim_ignores_surrounding_white_space(pre, key_id, post);
    lemma_trim_ignores_surrounding_white_space(pre, algorithm, post);
}

/// Builds the request body for a new server-generated key from form input.
/// Both fields are trimmed; the key ID is checked first.
pub fn build_key_descriptor(key_id: &str, algorithm: &str) -> (res: Result<KeyDescriptor, String>)
    ensures
        match key_form_error(key_id@, algorithm@) {
            Some(message) => res matches Err(e) && e@ == message,
            None => res matches Ok(descriptor) && generated_key(descriptor, key_id@, algorithm@),
        },
{
    let key_id = trim_str(key_id);
    if key_id.is_empty() {
        return Err(String::from_str("Key ID is required."));
    }
    let algorithm = trim_str(algorithm);
    if algorithm.is_empty() {
        return Err(String::from_str("Algorithm is required."));
    }
    Ok(
        KeyDescriptor {
            key_id: Some(key_id.to_owned()),
            key_generator_params: Some(KeyGeneratorParams { algorithm: algorithm.to_owned() }),
            public_key_jwk: None,
            public_key_pem: None,
        },
    )
}

/// The name of a key-pair state code.
pub open spec fn state_name(state: i32) -> Seq<char> {
    if state == 100 {
        "Created"@
    } else if state == 200 {
        "Activated"@
    } else if state == 300 {
        "Rotated"@
    } else if state == 400 {
        "Revoked"@
    } else {
        "Unknown"@
    }
}

/// The name of a key-pair state code; codes other than the four known ones
/// are `Unknown`.
pub fn state_label(state: i32) -> (res: &'static str)
    ensures
        res@ == state_name(state),
{
    match state {
        100 => "Created",
        200 => "Activated",
        300 => "Rotated",
        400 => "Revoked",
        _ => "Unknown",
    }
}

/// One key pair as the panel lists it.
#[derive(Clone, Debug, PartialEq, Eq)]
pub struct KeyPairRow {
    /// The key pair resource's ID, which the key actions take.
    pub id: String,
    pub key_id: String,
    pub state: i32,
    pub default_pair: bool,
}

/// What the key panel is given by its owner.
#[derive(Clone, Debug, PartialEq, Eq)]
pub struct KeypairLifecyclePanelProps {
    /// The page's own origin, e.g. `https://issuer-admin.ds-labs.org`.
    pub endpoint: String,
    pub bearer_token: Option<String>,
    pub participant_context_id: String,
}

/// Where the panel's key list stands.
#[derive(Clone, Debug, PartialEq, Eq)]
pub enum KeypairLoad {
    Loading,
    Loaded(Vec<KeyPairRow>),
    Error(String),
}

/// The key panel's own state.
#[derive(Clone, Debug, PartialEq, Eq)]
pub struct KeypairPanelState {
    pub load_state: KeypairLoad,
    /// Bumped after each successful change to reload the list.
    pub reload: u32,
    /// The message of the last failed action or form check.
    pub action_error: Option<String>,
    pub show_add_modal: bool,
    pub form_key_id: String,
    pub form_algorithm: String,
    /// An add-keypair call is in flight.
    pub submitting: bool,
}

/// What happens to the key panel.
#[derive(Debug, PartialEq, Eq)]
pub enum KeypairPanelEvent {
    /// The panel was mounted, or its participant context changed.
    Refresh,
    /// The list call answered.
    KeypairsLoaded(Result<Vec<KeyPairRow>, ClientError>),
    OpenAddModal,
    CloseAddModal,
    KeyIdChanged(String),
    AlgorithmChanged(String),
    /// The add form was submitted.
    SubmitNewKeypair,
    /// The add call answered; `reload` is the value the panel had when the
    /// call was made.
    AddFinished { reload: u32, result: Result<(), ClientError> },
    ActivateClicked(String),
    RotateClicked(String),
    /// Revoke was clicked and the user answered the confirmation.
    RevokeClicked { key_pair_id: String, confirmed: bool },
    /// An activate, rotate or revoke call answered.
    KeyActionFinished { reload: u32, result: Result<(), ClientError> },
}

/// What the key panel asks its owner to do; each call carries the panel's
/// `reload` at the time it was asked for.
#[derive(Clone, Debug, PartialEq, Eq)]
pub enum KeypairPanelCommand {
    ListKeypairs { participant_context_id: String },
    AddKeypair { participant_context_id: String, descriptor: KeyDescriptor, make_default: bool, reload: u32 },
    ActivateKeypair { participant_context_id: String, key_pair_id: String, reload: u32 },
    /// Rotate without supplying a replacement key, retiring the old key at once.
    RotateKeypair { participant_context_id: String, key_pair_id: String, duration: u64, reload: u32 },
    RevokeKeypair { participant_context_id: String, key_pair_id: String, reload: u32 },
}

/// The state a freshly mounted key panel starts in.
pub fn keypair_panel_initial() -> (res: KeypairPanelState)
    ensures
        res.load_state == KeypairLoad::Loading,
        res.reload == 0,
        res.action_error is None,
        !res.show_add_modal,
        res.form_key_id@ == Seq::<char>::empty(),
        res.form_algorithm@ == "EC"@,
        !res.submitting,
{
    KeypairPanelState {
        load_state: KeypairLoad::Loading,
        reload: 0,
        action_error: None,
        show_add_modal: false,
        form_key_id: String::new(),
        form_algorithm: String::from_str("EC"),
        submitting: false,
    }
}

/// The event can be handled without overflowing the reload counter.
pub open spec fn keypair_event_ok(event: KeypairPanelEvent) -> bool {
    match event {
        KeypairPanelEvent::KeypairsLoaded(Err(e)) => client_error_ok(e),
        KeypairPanelEvent::AddFinished { reload, result } => reload < u32::MAX && (result matches Err(
            e,
        ) ==> client_error_ok(e)),
        KeypairPanelEvent::KeyActionFinished { reload, result } => reload < u32::MAX && (
        result matches Err(e) ==> client_error_ok(e)),
        _ => true,
    }
}

/// The command lists the keys of `props`' context.
pub open spec fn lists_keypairs_of(props: KeypairLifecyclePanelProps, command: Option<KeypairPanelCommand>) -> bool {
    command == Some(
        KeypairPanelCommand::ListKeypairs { participant_context_id: props.participant_context_id },
    )
}

/// After a successful change made at `reload`: the counter becomes
/// `reload + 1`, and if that changes it the list is reloaded.
pub open spec fn bumped(
    props: KeypairLifecyclePanelProps,
    before: KeypairPanelState,
    reload: u32,
    after: KeypairPanelState,
    command: Option<KeypairPanelCommand>,
) -> bool {
    &&& after.reload == reload + 1
    &&& if reload + 1 != before.reload {
        after.load_state == KeypairLoad::Loading && lists_keypairs_of(props, command)
    } else {
        after.load_state == before.load_state && command is None
    }
}

fn bump_reload(props: &KeypairLifecyclePanelProps, state: KeypairPanelState, reload: u32) -> (res: (
    KeypairPanelState,
    Option<KeypairPanelCommand>,
))
    requires
        reload < u32::MAX,
    ensures
        bumped(*props, state, reload, res.0, res.1),
        res.0.action_error == state.action_error,
        res.0.show_add_modal == state.show_add_modal,
        res.0.form_key_id == state.form_key_id,
        res.0.form_algorithm == state.form_algorithm,
        res.0.submitting == state.submitting,
{
    let next = reload + 1;
    if next != state.reload {
        (
            KeypairPanelState { load_state: KeypairLoad::Loading, reload: next, ..state },
            Some(
                KeypairPanelCommand::ListKeypairs {
                    participant_context_id: props.participant_context_id.clone(),
                },
            ),
        )
    } else {
        (KeypairPanelState { reload: next, ..state }, None)
    }
}

/// One step of the key panel: the next state and the command to carry out.
///
/// - `Refresh` starts loading the list; a failed load shows the error.
/// - Opening the add form clears its key ID and the last error.
/// - Submitting checks the form with `build_key_descriptor`: a refused form
///   shows its message, an accepted one is sent as a non-default key.
/// - Activate and rotate are sent at once; revoke only when confirmed.
/// - A successful change reloads the list; a failed one shows the error.
pub fn keypair_lifecycle_panel(
    props: &KeypairLifecyclePanelProps,
    state: KeypairPanelState,
    event: KeypairPanelEvent,
) -> (res: (KeypairPanelState, Option<KeypairPanelCommand>))
    requires
        keypair_event_ok(event),
    ensures
        match event {
            KeypairPanelEvent::Refresh => res.0 == (KeypairPanelState {
                load_state: KeypairLoad::Loading,
                ..state
            }) && lists_keypairs_of(*props, res.1),
            KeypairPanelEvent::KeypairsLoaded(Ok(rows)) => res.0 == (KeypairPanelState {
                load_state: KeypairLoad::Loaded(rows),
                ..state
            }) && res.1 is None,
            KeypairPanelEvent::KeypairsLoaded(Err(e)) => {
                &&& res.0.load_state matches KeypairLoad::Error(message) && message@ == error_message(e)
                &&& res.0 == (KeypairPanelState { load_state: res.0.load_state, ..state })
                &&& res.1 is None
            },
            KeypairPanelEvent::OpenAddModal => {
                &&& res.0.form_key_id@ == Seq::<char>::empty()
                &&& res.0 == (KeypairPanelState {
                    form_key_id: res.0.form_key_id,
                    action_error: None,
                    show_add_modal: true,
                    ..state
                })
                &&& res.1 is None
            },
            KeypairPanelEvent::CloseAddModal => res.0 == (KeypairPanelState {
                show_add_modal: false,
                ..state
            }) && res.1 is None,
            KeypairPanelEvent::KeyIdChanged(value) => res.0 == (KeypairPanelState {
                form_key_id: value,
                ..state
            }) && res.1 is None,
            KeypairPanelEvent::AlgorithmChanged(value) => res.0 == (KeypairPanelState {
                form_algorithm: value,
                ..state
            }) && res.1 is None,
            KeypairPanelEvent::SubmitNewKeypair => match key_form_error(state.form_key_id@, state.form_algorithm@) {
                Some(refusal) => {
                    &&& res.0.action_error matches Some(message) && message@ == refusal
                    &&& res.0 == (KeypairPanelState { action_error: res.0.action_error, ..state })
                    &&& res.1 is None
                },
                None => {
                    &&& res.0 == (KeypairPanelState { action_error: None, submitting: true, ..state })
                    &&& res.1 matches Some(
                        KeypairPanelCommand::AddKeypair {
                            participant_context_id,
                            descriptor,
                            make_default,
                            reload,
                        },
                    )
                    &&& participant_context_id == props.participant_context_id
                    &&& generated_key(descriptor, state.form_key_id@, state.form_algorithm@)
                    &&& !make_default
                    &&& reload == state.reload
                },
            },
            KeypairPanelEvent::AddFinished { reload, result: Ok(()) } => {
                &&& bumped(*props, state, reload, res.0, res.1)
                &&& res.0 == (KeypairPanelState {
                    load_state: res.0.load_state,
                    reload: res.0.reload,
                    submitting: false,
                    show_add_modal: false,
                    ..state
                })
            },
            KeypairPanelEvent::AddFinished { reload, result: Err(e) } => {
                &&& res.0.action_error matches Some(message) && message@ == error_message(e)
                &&& res.0 == (KeypairPanelState {
                    action_error: res.0.action_error,
                    submitting: false,
                    ..state
                })
                &&& res.1 is None
            },
            KeypairPanelEvent::ActivateClicked(key_pair_id) => res.0 == state && res.1 == Some(
                KeypairPanelCommand::ActivateKeypair {
                    participant_context_id: props.participant_context_id,
                    key_pair_id,
                    reload: state.reload,
                },
            ),
            KeypairPanelEvent::RotateClicked(key_pair_id) => res.0 == state && res.1 == Some(
                KeypairPanelCommand::RotateKeypair {
                    participant_context_id: props.participant_context_id,
                    key_pair_id,
                    duration: 0,
                    reload: state.reload,
                },
            ),
            KeypairPanelEvent::RevokeClicked { key_pair_id, confirmed } => res.0 == state && res.1
                == if confirmed {
                Some(
                    KeypairPanelCommand::RevokeKeypair {
                        participant_context_id: props.participant_context_id,
                        key_pair_id,
                        reload: state.reload,
                    },
                )
            } else {
                None
            },
            KeypairPanelEvent::KeyActionFinished { reload, result: Ok(()) } => {
                &&& bumped(*props, state, reload, res.0, res.1)
                &&& res.0 == (KeypairPanelState {
                    load_state: res.0.load_state,
                    reload: res.0.reload,
                    ..state
                })
            },
            KeypairPanelEvent::KeyActionFinished { reload, result: Err(e) } => {
                &&& res.0.action_error matches Some(message) && message@ == error_message(e)
                &&& res.0 == (KeypairPanelState { action_error: res.0.action_error, ..state })
                &&& res.1 is None
            },
        },
{
    match event {
        KeypairPanelEvent::Refresh => (
            KeypairPanelState { load_state: KeypairLoad::Loading, ..state },
            Some(
                KeypairPanelCommand::ListKeypairs {
                    participant_context_id: props.participant_context_id.clone(),
                },
            ),
        ),
        KeypairPanelEvent::KeypairsLoaded(Ok(rows)) => (
            KeypairPanelState { load_state: KeypairLoad::Loaded(rows), ..state },
            None,
        ),
        KeypairPanelEvent::KeypairsLoaded(Err(e)) => {
            let message = describe_error(e);
            (KeypairPanelState { load_state: KeypairLoad::Error(message), ..state }, None)
        },
        KeypairPanelEvent::OpenAddModal => (
            KeypairPanelState {
                form_key_id: String::new(),
                action_error: None,
                show_add_modal: true,
                ..state
            },
            None,
        ),
        KeypairPanelEvent::CloseAddModal => (KeypairPanelState { show_add_modal: false, ..state }, None),
        KeypairPanelEvent::KeyIdChanged(value) => (KeypairPanelState { form_key_id: value, ..state }, None),
        KeypairPanelEvent::AlgorithmChanged(value) => (
            KeypairPanelState { form_algorithm: value, ..state },
            None,
        ),
        KeypairPanelEvent::SubmitNewKeypair => {
            match build_key_descriptor(state.form_key_id.as_str(), state.form_algorithm.as_str()) {
                Ok(descriptor) => {
                    let reload = state.reload;
                    (
                        KeypairPanelState { action_error: None, submitting: true, ..state },
                        Some(
                            KeypairPanelCommand::AddKeypair {
                                participant_context_id: props.participant_context_id.clone(),
                                descriptor,
                                make_default: false,
                                reload,
                            },
                        ),
                    )
                },
                Err(message) => (KeypairPanelState { action_error: Some(message), ..state }, None),
            }
        },
        KeypairPanelEvent::AddFinished { reload, result: Ok(()) } => {
            let closed = KeypairPanelState { submitting: false, show_add_modal: false, ..state };
            bump_reload(props, closed, reload)
        },
        KeypairPanelEvent::AddFinished { reload: _, result: Err(e) } => {
            let message = describe_error(e);
            (KeypairPanelState { action_error: Some(message), submitting: false, ..state }, None)
        },
        KeypairPanelEvent::ActivateClicked(key_pair_id) => {
            let command = KeypairPanelCommand::ActivateKeypair {
                participant_context_id: props.participant_context_id.clone(),
                key_pair_id,
                reload: state.reload,
            };
            (state, Some(command))
        },
        KeypairPanelEvent::RotateClicked(key_pair_id) => {
            let command = KeypairPanelCommand::RotateKeypair {
                participant_context_id: props.participant_context_id.clone(),
                key_pair_id,
                duration: 0,
                reload: state.reload,
            };
            (state, Some(command))
        },
        KeypairPanelEvent::RevokeClicked { key_pair_id, confirmed } => {
            if confirmed {
                let command = KeypairPanelCommand::RevokeKeypair {
                    participant_context_id: props.participant_context_id.clone(),
                    key_pair_id,
                    reload: state.reload,
                };
                (state, Some(command))
            } else {
                (state, None)
            }
        },
        KeypairPanelEvent::KeyActionFinished { reload, result: Ok(()) } => bump_reload(
            props,
            state,
            reload,
        ),
        KeypairPanelEvent::KeyActionFinished { reload: _, result: Err(e) } => {
            let message = describe_error(e);
            (KeypairPanelState { action_error: Some(message), ..state }, None)
        },
    }
}

/// The question asked before revoking a key pair.
pub fn revoke_prompt(key_pair_id: &str) -> (res: String)
    ensures
        res@ == "Revoke keypair \""@ + key_pair_id@ + "\"? Anything it signed becomes untrustworthy."@,
{
    let mut prompt = concat_strs("Revoke keypair \"", key_pair_id);
    prompt.append("\"? Anything it signed becomes untrustworthy.");
    prompt
}

/// The "Default" column of a key pair row.
pub fn default_pair_label(default_pair: bool) -> (res: &'static str)
    ensures
        res@ == if default_pair { "yes"@ } else { "no"@ },
{
    if default_pair {
        "yes"
    } else {
        "no"
    }
}

/// The label of the add form's submit button.
pub fn add_button_label(submitting: bool) -> (res: &'static str)
    ensures
        res@ == if submitting { "Adding..."@ } else { "Add"@ },
{
    if submitting {
        "Adding..."
    } else {
        "Add"
    }
}

/// The add-key form is refused only for a blank key ID or a blank
/// algorithm (after trimming), the key ID being checked first; any other
/// algorithm name is accepted as it is, and the descriptor it asks for
/// carries exactly the trimmed key ID and algorithm and no supplied key.
pub proof fn lemma_key_form_refuses_only_blanks(key_id: Seq<char>, algorithm: Seq<char>, descriptor: KeyDescriptor)
    ensures
        (key_form_error(key_id, algorithm) is None) == (trim(key_id).len() > 0 && trim(algorithm).len() > 0),
        trim(key_id).len() == 0 ==> key_form_error(key_id, algorithm) == Some("Key ID is required."@),
        trim(key_id).len() > 0 && trim(algorithm).len() == 0 ==> key_form_error(key_id, algorithm) == Some(
            "Algorithm is required."@,
        ),
        generated_key(descriptor, key_id, algorithm) ==> {
            &&& descriptor.key_id matches Some(k) && k@ == trim(key_id)
            &&& descriptor.key_generator_params matches Some(p) && p.algorithm@ == trim(algorithm)
            &&& descriptor.public_key_jwk is None
            &&& descriptor.public_key_pem is None
        },
{
}

} // verus!
