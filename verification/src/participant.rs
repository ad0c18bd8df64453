//! Creating and managing a participant context: the participant's role, the
//! checks on the create form, the `POST .../participants` request body, and
//! the decisions of the create and manage panels.
//!
//! The panels are state machines: the embedding UI performs each returned
//! command (an identity-api call, or notifying its owner) and feeds the
//! outcome back in as the next event.

use vstd::prelude::*;
use vstd::string::*;
use crate::client_error::{ClientError, client_error_ok, describe_error, error_message};
use crate::text::{
    all_white_space, clone_option_string, concat_strs, decimal, lemma_trim_ignores_surrounding_white_space,
    push_decimal, str_eq, str_starts_with, trim, trim_str,
};

verus! {

/// The role a participant context is bootstrapped for. It only decides the
/// context's `roles` entry.
#[derive(Clone, Copy, Debug, PartialEq, Eq, Structural)]
pub enum ParticipantRole {
    Authority,
    Connector,
}

/// The lowercase name of a role, as it appears in the request's `roles`.
pub open spec fn role_name(role: ParticipantRole) -> Seq<char> {
    match role {
        ParticipantRole::Authority => "authority"@,
        ParticipantRole::Connector => "connector"@,
    }
}

/// The role with this name, if any.
pub open spec fn role_named(name: Seq<char>) -> Option<ParticipantRole> {
    if name == "authority"@ {
        Some(ParticipantRole::Authority)
    } else if name == "connector"@ {
        Some(ParticipantRole::Connector)
    } else {
        None
    }
}

impl ParticipantRole {
    /// The lowercase name of the role.
    pub fn role_label(self) -> (res: &'static str)
        ensures
            res@ == role_name(self),
    {
        match self {
            ParticipantRole::Authority => "authority",
            ParticipantRole::Connector => "connector",
        }
    }

    /// The role with this exact lowercase name.
    pub fn parse(value: &str) -> (res: Result<ParticipantRole, ()>)
        ensures
            res == match role_named(value@) {
                Some(role) => Ok(role),
                None => Err::<ParticipantRole, ()>(()),
            },
    {
        if str_eq(value, "authority") {
            Ok(ParticipantRole::Authority)
        } else if str_eq(value, "connector") {
            Ok(ParticipantRole::Connector)
        } else {
            Err(())
        }
    }
}

impl Default for ParticipantRole {
    /// A new context is for the authority unless chosen otherwise.
    fn default() -> (res: ParticipantRole)
        ensures
            res == ParticipantRole::Authority,
    {
        ParticipantRole::Authority
    }
}

impl std::str::FromStr for ParticipantRole {
    type Err = ();

    fn from_str(value: &str) -> (res: Result<ParticipantRole, ()>)
        ensures
            res == match role_named(value@) {
                Some(role) => Ok(role),
                None => Err::<ParticipantRole, ()>(()),
            },
    {
        ParticipantRole::parse(value)
    }
}

/// A role's name reads back as that role, and no other name reads as it.
pub proof fn lemma_role_name_round_trip(role: ParticipantRole, name: Seq<char>)
    ensures
        role_named(role_name(role)) == Some(role),
        role_named(name) == Some(role) ==> name == role_name(role),
{
    reveal_strlit("authority");
    reveal_strlit("connector");
    assert("authority"@[0] != "connector"@[0]);
}


/// Why the create form is refused, if it is: checks run in order on the
/// trimmed participant ID, service endpoint type and service endpoint URL;
/// the URL must start with `https://` or `http://`.
pub open spec fn participant_form_error(
    participant_id: Seq<char>,
    service_endpoint_type: Seq<char>,
    service_endpoint_url: Seq<char>,
) -> Option<Seq<char>> {
    let url = trim(service_endpoint_url);
    if trim(participant_id).len() == 0 {
        Some("Participant ID is required."@)
    } else if trim(service_endpoint_type).len() == 0 {
        Some("Service endpoint type is required."@)
    } else if url.len() == 0 {
        Some("Service endpoint URL is required."@)
    } else if !("https://"@.is_prefix_of(url) || "http://"@.is_prefix_of(url)) {
        Some("Service endpoint URL must be an absolute http(s) URL."@)
    } else {
        None
    }
}

/// Checks the create form; `None` when it is accepted.
pub fn check_participant_form(
    participant_id: &str,
    service_endpoint_type: &str,
    service_endpoint_url: &str,
) -> (res: Option<String>)
    ensures
        match participant_form_error(participant_id@, service_endpoint_type@, service_endpoint_url@) {
            Some(message) => res matches Some(m) && m@ == message,
            None => res is None,
        },
{
    if trim_str(participant_id).is_empty() {
        return Some(String::from_str("Participant ID is required."));
    }
    if trim_str(service_endpoint_type).is_empty() {
        return Some(String::from_str("Service endpoint type is required."));
    }
    let url = trim_str(service_endpoint_url);
    if url.is_empty() {
        return Some(String::from_str("Service endpoint URL is required."));
    }
    if !(str_starts_with(url, "https://") || str_starts_with(url, "http://")) {
        return Some(String::from_str("Service endpoint URL must be an absolute http(s) URL."));
    }
    None
}


/// One service endpoint of a participant context.
#[derive(Clone, Debug, PartialEq, Eq)]
pub struct ServiceEndpoint {
    pub id: String,
    /// The identity service type's name (e.g. `CredentialService`).
    pub service_type: String,
    pub service_endpoint: String,
}

/// The signing key a new participant context is created with, generated by
/// the server.
#[derive(Clone, Debug, PartialEq, Eq)]
pub struct InlineKey {
    pub key_id: String,
    pub private_key_alias: String,
    pub algorithm: String,
}

/// The body of a `POST .../participants` request.
#[derive(Clone, Debug, PartialEq, Eq)]
pub struct ParticipantContext {
    pub participant_id: String,
    /// The bare participant ID (the identity-api's own `did` field).
    pub did: String,
    pub participant_context_id: String,
    pub key: InlineKey,
    pub active: bool,
    pub service_endpoints: Vec<ServiceEndpoint>,
    pub roles: Vec<String>,
}

/// The ID of the inline key of a context: `<id>#key-1`.
pub open spec fn first_key_id(id: Seq<char>) -> Seq<char> {
    id + "#key-1"@
}

/// The context is the one the create form asks for with `service_id` as its
/// service endpoint's ID: the trimmed participant ID is also its DID and its
/// context ID, it starts inactive, its inline key is an EC key
/// `<participant id>#key-1`, it has exactly that one service endpoint (the
/// trimmed type and URL) and the role's name as its only role.
pub open spec fn requested_context(
    context: ParticipantContext,
    participant_id: Seq<char>,
    role: ParticipantRole,
    service_endpoint_type: Seq<char>,
    service_endpoint_url: Seq<char>,
    service_id: Seq<char>,
) -> bool {
    let id = trim(participant_id);
    &&& context.participant_id@ == id
    &&& context.did@ == id
    &&& context.participant_context_id@ == id
    &&& context.key.key_id@ == first_key_id(id)
    &&& context.key.private_key_alias@ == first_key_id(id)
    &&& context.key.algorithm@ == "EC"@
    &&& !context.active
    &&& context.service_endpoints@.len() == 1
    &&& context.service_endpoints@[0].id@ == service_id
    &&& context.service_endpoints@[0].service_type@ == trim(service_endpoint_type)
    &&& context.service_endpoints@[0].service_endpoint@ == trim(service_endpoint_url)
    &&& context.roles@.len() == 1
    &&& context.roles@[0]@ == role_name(role)
}

/// Builds the request body for the create form with `service_id` as the
/// service endpoint's ID. The participant context ID is deliberately the
/// participant ID, so a consumer only ever holds one identifier.
pub fn participant_context_with_service_id(
    participant_id: &str,
    role: ParticipantRole,
    service_endpoint_type: &str,
    service_endpoint_url: &str,
    service_id: String,
) -> (res: Result<ParticipantContext, String>)
    ensures
        match participant_form_error(participant_id@, service_endpoint_type@, service_endpoint_url@) {
            Some(message) => res matches Err(e) && e@ == message,
            None => res matches Ok(context) && requested_context(
                context,
                participant_id@,
                role,
                service_endpoint_type@,
                service_endpoint_url@,
                service_id@,
            ),
        },
{
    if let Some(message) = check_participant_form(participant_id, service_endpoint_type, service_endpoint_url) {
        return Err(message);
    }
    let id = trim_str(participant_id);
    let endpoint = ServiceEndpoint {
        id: service_id,
        service_type: trim_str(service_endpoint_type).to_owned(),
        service_endpoint: trim_str(service_endpoint_url).to_owned(),
    };
    let mut service_endpoints = Vec::new();
    service_endpoints.push(endpoint);
    let mut roles = Vec::new();
    roles.push(String::from_str(role.role_label()));
    let key = InlineKey {
        key_id: concat_strs(id, "#key-1"),
        private_key_alias: concat_strs(id, "#key-1"),
        algorithm: String::from_str("EC"),
    };
    Ok(
        ParticipantContext {
            participant_id: id.to_owned(),
            did: id.to_owned(),
            participant_context_id: id.to_owned(),
            key,
            active: false,
            service_endpoints,
            roles,
        },
    )
}

/// Whitespace typed around the create form's fields changes neither whether
/// the form is refused (nor why) nor the context it asks for.
pub proof fn lemma_participant_form_ignores_padding(
    participant_id: Seq<char>,
    role: ParticipantRole,
    service_endpoint_type: Seq<char>,
    service_endpoint_url: Seq<char>,
    service_id: Seq<char>,
    pre: Seq<char>,
    post: Seq<char>,
    context: ParticipantContext,
)
    requires
        all_white_space(pre),
        all_white_space(post),
    ensures
        participant_form_error(
            pre + participant_id + post,
            pre + service_endpoint_type + post,
            pre + service_endpoint_url + post,
        ) == participant_form_error(participant_id, service_endpoint_type, service_endpoint_url),
        requested_context(
            context,
            pre + participant_id + post,
            role,
            pre + service_endpoint_type + post,
            pre + service_endpoint_url + post,
            service_id,
        ) == requested_context(
            context,
            participant_id,
            role,
            service_endpoint_type,
            service_endpoint_url,
            service_id,
        ),
{
    lemma_trim_ignores_surrounding_white_space(pre, participant_id, post);
    lemma_trim_ignores_surrounding_white_space(pre, service_endpoint_type, post);
    lemma_trim_ignores_surrounding_white_space(pre, service_endpoint_url, post);
}

/// A lowercase hexadecimal digit.
pub open spec fn is_lower_hex_digit(c: char) -> bool {
    ('0' <= c <= '9') || ('a' <= c <= 'f')
}

/// The hyphenated lowercase text form of a UUID: 36 characters, hyphens at
/// positions 8, 13, 18 and 23, lowercase hex digits elsewhere.
pub open spec fn is_hyphenated_uuid(s: Seq<char>) -> bool {
    &&& s.len() == 36
    &&& forall|i: int|
        0 <= i < 36 ==> if i == 8 || i == 13 || i == 18 || i == 23 {
            #[trigger] s[i] == '-'
        } else {
            is_lower_hex_digit(s[i])
        }
}

/// The text of a random (version 4, RFC 4122 variant) UUID: hyphenated
/// lowercase, with the version digit `4` at position 14 and a variant digit
/// `8`, `9`, `a` or `b` at position 19.
pub open spec fn is_uuid_v4_text(s: Seq<char>) -> bool {
    &&& is_hyphenated_uuid(s)
    &&& s[14] == '4'
    &&& (s[19] == '8' || s[19] == '9' || s[19] == 'a' || s[19] == 'b')
}

/// A fresh random (version 4) UUID as text.
///
/// Calls `uuid::Uuid::new_v4` and `to_string`. The value is random; the
/// contract claims only its shape: `uuid`'s `Display` is the hyphenated
/// lowercase format, and `new_v4` fixes the version and variant bits.
#[verifier::external_body]
fn random_uuid_text() -> (res: String)
    ensures
        is_uuid_v4_text(res@),
{
    uuid::Uuid::new_v4().to_string()
}

/// Builds the `POST .../participants` request body from the create form. A
/// refused form gives its message; an accepted one gives the context of
/// `requested_context` whose service endpoint has a fresh random version-4
/// UUID as ID.
pub fn build_participant_context(
    participant_id: &str,
    role: ParticipantRole,
    service_endpoint_type: &str,
    service_endpoint_url: &str,
) -> (res: Result<ParticipantContext, String>)
    ensures
        match participant_form_error(participant_id@, service_endpoint_type@, service_endpoint_url@) {
            Some(message) => res matches Err(e) && e@ == message,
            None => res matches Ok(context) && context.service_endpoints@.len() == 1 && {
                let service_id = context.service_endpoints@[0].id@;
                &&& is_uuid_v4_text(service_id)
                &&& requested_context(
                    context,
                    participant_id@,
                    role,
                    service_endpoint_type@,
                    service_endpoint_url@,
                    service_id,
                )
            },
        },
{
    if let Some(message) = check_participant_form(participant_id, service_endpoint_type, service_endpoint_url) {
        return Err(message);
    }
    let service_id = random_uuid_text();
    participant_context_with_service_id(
        participant_id,
        role,
        service_endpoint_type,
        service_endpoint_url,
        service_id,
    )
}


/// What the participant-context panel is given by its owner.
#[derive(Clone, Debug, PartialEq, Eq)]
pub struct ParticipantContextPanelProps {
    /// The page's own origin, e.g. `https://issuer-admin.ds-labs.org`.
    pub endpoint: String,
    pub bearer_token: Option<String>,
    /// `None` shows the create form; `Some(id)` manages that existing context.
    pub participant_context_id: Option<String>,
}

/// What the create form is given.
#[derive(Clone, Debug, PartialEq, Eq)]
pub struct CreatePanelProps {
    pub endpoint: String,
    pub bearer_token: Option<String>,
}

impl CreatePanelProps {
    /// The create form's part of the panel's props.
    pub fn from(props: &ParticipantContextPanelProps) -> (res: CreatePanelProps)
        ensures
            res.endpoint == props.endpoint,
            res.bearer_token == props.bearer_token,
    {
        CreatePanelProps {
            endpoint: props.endpoint.clone(),
            bearer_token: clone_option_string(&props.bearer_token),
        }
    }
}

/// What the manage panel is given.
#[derive(Clone, Debug, PartialEq, Eq)]
pub struct ManagePanelProps {
    pub endpoint: String,
    pub bearer_token: Option<String>,
    pub participant_context_id: String,
}

/// Which of its two modes the participant-context panel shows.
#[derive(Clone, Debug, PartialEq, Eq)]
pub enum ParticipantPanelMode {
    Create(CreatePanelProps),
    Manage(ManagePanelProps),
}

/// The panel's mode: the create form without a context ID, the manage
/// panel of the given context otherwise.
pub fn participant_context_panel(props: &ParticipantContextPanelProps) -> (res: ParticipantPanelMode)
    ensures
        match props.participant_context_id {
            None => res == ParticipantPanelMode::Create(
                CreatePanelProps { endpoint: props.endpoint, bearer_token: props.bearer_token },
            ),
            Some(id) => res == ParticipantPanelMode::Manage(
                ManagePanelProps {
                    endpoint: props.endpoint,
                    bearer_token: props.bearer_token,
                    participant_context_id: id,
                },
            ),
        },
{
    match &props.participant_context_id {
        None => ParticipantPanelMode::Create(CreatePanelProps::from(props)),
        Some(id) => ParticipantPanelMode::Manage(
            ManagePanelProps {
                endpoint: props.endpoint.clone(),
                bearer_token: clone_option_string(&props.bearer_token),
                participant_context_id: id.clone(),
            },
        ),
    }
}

/// The create form's own state.
#[derive(Clone, Debug, PartialEq, Eq)]
pub struct CreatePanelState {
    pub participant_id: String,
    pub role: ParticipantRole,
    pub service_endpoint_type: String,
    pub service_endpoint_url: String,
    /// The message of the refused form or failed create call.
    pub error: Option<String>,
    /// A create call is in flight.
    pub submitting: bool,
}

/// What happens to the create form.
#[derive(Debug, PartialEq, Eq)]
pub enum CreatePanelEvent {
    ParticipantIdChanged(String),
    /// The role select changed; `None` is an unreadable choice and is ignored.
    RoleChanged(Option<ParticipantRole>),
    ServiceEndpointTypeChanged(String),
    ServiceEndpointUrlChanged(String),
    /// The form was submitted.
    Submit,
    /// The create call answered for the context the form named `created_id`.
    CreateFinished { created_id: String, result: Result<(), ClientError> },
}

/// What the create form asks its owner to do.
#[derive(Clone, Debug, PartialEq, Eq)]
pub enum CreatePanelCommand {
    /// Send the create call; on success report `created_id`.
    CreateParticipant { body: ParticipantContext, created_id: String },
    /// Tell the owner a context was created with this ID.
    NotifyCreated(String),
}

/// The create form when it is first shown: empty fields, the authority
/// role and the `CredentialService` endpoint type.
pub fn create_panel_initial() -> (res: CreatePanelState)
    ensures
        res.participant_id@ == Seq::<char>::empty(),
        res.role == ParticipantRole::Authority,
        res.service_endpoint_type@ == "CredentialService"@,
        res.service_endpoint_url@ == Seq::<char>::empty(),
        res.error is None,
        !res.submitting,
{
    CreatePanelState {
        participant_id: String::new(),
        role: ParticipantRole::Authority,
        service_endpoint_type: String::from_str("CredentialService"),
        service_endpoint_url: String::new(),
        error: None,
        submitting: false,
    }
}

/// The event can be handled.
pub open spec fn create_event_ok(event: CreatePanelEvent) -> bool {
    event matches CreatePanelEvent::CreateFinished { result: Err(e), .. } ==> client_error_ok(e)
}

/// One step of the create form: the next state and the command to carry out.
///
/// Field edits are stored. Submitting checks the form with
/// `build_participant_context`: a refused form shows its message, an
/// accepted one clears the message, marks the form busy and sends the body,
/// to report the new context's ID (the trimmed participant ID) once created. A finished call clears
/// the busy mark and either reports the new context or shows the error.
pub fn create_panel(state: CreatePanelState, event: CreatePanelEvent) -> (res: (
    CreatePanelState,
    Option<CreatePanelCommand>,
))
    requires
        create_event_ok(event),
    ensures
        match event {
            CreatePanelEvent::ParticipantIdChanged(value) => res.0 == (CreatePanelState {
                participant_id: value,
                ..state
            }) && res.1 is None,
            CreatePanelEvent::RoleChanged(choice) => res.0 == (match choice {
                Some(role) => CreatePanelState { role, ..state },
                None => state,
            }) && res.1 is None,
            CreatePanelEvent::ServiceEndpointTypeChanged(value) => res.0 == (CreatePanelState {
                service_endpoint_type: value,
                ..state
            }) && res.1 is None,
            CreatePanelEvent::ServiceEndpointUrlChanged(value) => res.0 == (CreatePanelState {
                service_endpoint_url: value,
                ..state
            }) && res.1 is None,
            CreatePanelEvent::Submit => match participant_form_error(
                state.participant_id@,
                state.service_endpoint_type@,
                state.service_endpoint_url@,
            ) {
                Some(refusal) => {
                    &&& res.0.error matches Some(message) && message@ == refusal
                    &&& res.0 == (CreatePanelState { error: res.0.error, ..state })
                    &&& res.1 is None
                },
                None => {
                    &&& res.0 == (CreatePanelState { error: None, submitting: true, ..state })
                    &&& res.1 matches Some(CreatePanelCommand::CreateParticipant { body, created_id })
                    &&& created_id@ == trim(state.participant_id@)
                    &&& body.service_endpoints@.len() == 1
                    &&& is_uuid_v4_text(body.service_endpoints@[0].id@)
                    &&& requested_context(
                        body,
                        state.participant_id@,
                        state.role,
                        state.service_endpoint_type@,
                        state.service_endpoint_url@,
                        body.service_endpoints@[0].id@,
                    )
                },
            },
            CreatePanelEvent::CreateFinished { created_id, result: Ok(()) } => res.0 == (CreatePanelState {
                submitting: false,
                ..state
            }) && res.1 == Some(CreatePanelCommand::NotifyCreated(created_id)),
            CreatePanelEvent::CreateFinished { created_id, result: Err(e) } => {
                &&& res.0.error matches Some(message) && message@ == error_message(e)
                &&& res.0 == (CreatePanelState { error: res.0.error, submitting: false, ..state })
                &&& res.1 is None
            },
        },
{
    match event {
        CreatePanelEvent::ParticipantIdChanged(value) => (
            CreatePanelState { participant_id: value, ..state },
            None,
        ),
        CreatePanelEvent::RoleChanged(choice) => match choice {
            Some(role) => (CreatePanelState { role, ..state }, None),
            None => (state, None),
        },
        CreatePanelEvent::ServiceEndpointTypeChanged(value) => (
            CreatePanelState { service_endpoint_type: value, ..state },
            None,
        ),
        CreatePanelEvent::ServiceEndpointUrlChanged(value) => (
            CreatePanelState { service_endpoint_url: value, ..state },
            None,
        ),
        CreatePanelEvent::Submit => {
            match build_participant_context(
                state.participant_id.as_str(),
                state.role,
                state.service_endpoint_type.as_str(),
                state.service_endpoint_url.as_str(),
            ) {
                Ok(body) => {
                    let created_id = body.participant_context_id.clone();
                    (
                        CreatePanelState { error: None, submitting: true, ..state },
                        Some(CreatePanelCommand::CreateParticipant { body, created_id }),
                    )
                },
                Err(message) => (CreatePanelState { error: Some(message), ..state }, None),
            }
        },
        CreatePanelEvent::CreateFinished { created_id, result: Ok(()) } => (
            CreatePanelState { submitting: false, ..state },
            Some(CreatePanelCommand::NotifyCreated(created_id)),
        ),
        CreatePanelEvent::CreateFinished { created_id: _, result: Err(e) } => {
            let message = describe_error(e);
            (CreatePanelState { error: Some(message), submitting: false, ..state }, None)
        },
    }
}

/// The helper text under the participant ID field: the DID it will resolve
/// as, with an ellipsis while the field is empty.
pub fn participant_id_hint(participant_id: &str) -> (res: String)
    ensures
        res@ == "Resolves as did:web:"@ + if participant_id@.len() == 0 {
            "\u{2026}"@
        } else {
            participant_id@
        },
{
    if participant_id.is_empty() {
        concat_strs("Resolves as did:web:", "\u{2026}")
    } else {
        concat_strs("Resolves as did:web:", participant_id)
    }
}

/// The label of the create form's submit button.
pub fn create_button_label(submitting: bool) -> (res: &'static str)
    ensures
        res@ == if submitting { "Creating..."@ } else { "Create context"@ },
{
    if submitting {
        "Creating..."
    } else {
        "Create context"
    }
}

/// What the manage panel shows of a loaded participant context.
#[derive(Clone, Debug, PartialEq, Eq)]
pub struct ParticipantSummary {
    pub participant_context_id: String,
    /// Where the context's `did:web` document resolves.
    pub did_url: String,
    pub state: u16,
}

/// Where the manage panel's knowledge of the context stands.
#[derive(Clone, Debug, PartialEq, Eq)]
pub enum ParticipantLoad {
    Loading,
    Loaded(ParticipantSummary),
    Error(String),
}

/// The manage panel's own state.
#[derive(Clone, Debug, PartialEq, Eq)]
pub struct ManagePanelState {
    pub load_state: ParticipantLoad,
    /// Bumped after each successful (de)activation to reload the context.
    pub reload: u32,
    /// The message of the last failed action.
    pub action_error: Option<String>,
    /// An action call is in flight.
    pub acting: bool,
}

/// What happens to the manage panel.
#[derive(Debug, PartialEq, Eq)]
pub enum ManagePanelEvent {
    /// The panel was mounted, or its participant context changed.
    Refresh,
    /// The participant call answered.
    ParticipantLoaded(Result<ParticipantSummary, ClientError>),
    /// Activate (`true`) or Deactivate (`false`) was clicked.
    SetActiveClicked(bool),
    /// The (de)activation call answered; `reload` is the value the panel had
    /// when it was made.
    SetActiveFinished { is_active: bool, reload: u32, result: Result<(), ClientError> },
    DeleteClicked,
    DeleteFinished(Result<(), ClientError>),
}

/// What the manage panel asks its owner to do.
#[derive(Clone, Debug, PartialEq, Eq)]
pub enum ManagePanelCommand {
    FetchParticipant { participant_context_id: String },
    SetActive { participant_context_id: String, is_active: bool, reload: u32 },
    DeleteParticipant { participant_context_id: String },
    /// Tell the owner the context was activated.
    NotifyActivated,
    /// Tell the owner the context was deleted.
    NotifyDeleted,
}

/// The manage panel when it is first shown.
pub fn manage_panel_initial() -> (res: ManagePanelState)
    ensures
        res == (ManagePanelState {
            load_state: ParticipantLoad::Loading,
            reload: 0,
            action_error: None,
            acting: false,
        }),
{
    ManagePanelState { load_state: ParticipantLoad::Loading, reload: 0, action_error: None, acting: false }
}

/// The event can be handled without overflowing the reload counter.
pub open spec fn manage_event_ok(event: ManagePanelEvent) -> bool {
    match event {
        ManagePanelEvent::ParticipantLoaded(Err(e)) => client_error_ok(e),
        ManagePanelEvent::SetActiveFinished { reload, result, .. } => reload < u32::MAX && (
        result matches Err(e) ==> client_error_ok(e)),
        ManagePanelEvent::DeleteFinished(Err(e)) => client_error_ok(e),
        _ => true,
    }
}

/// One step of the manage panel: the next state and the commands to carry
/// out, in order.
///
/// - `Refresh` starts loading the context; a failed load shows the error.
/// - A click clears the last error, marks the panel busy and sends the call.
/// - A successful (de)activation bumps `reload` (reloading the context if
///   that changes it) and, for an activation, reports it; a successful delete
///   reports it; a failure shows the error. Either way the busy mark clears.
pub fn manage_panel(props: &ManagePanelProps, state: ManagePanelState, event: ManagePanelEvent) -> (res: (
    ManagePanelState,
    Vec<ManagePanelCommand>,
))
    requires
        manage_event_ok(event),
    ensures
        match event {
            ManagePanelEvent::Refresh => res.0 == (ManagePanelState {
                load_state: ParticipantLoad::Loading,
                ..state
            }) && res.1@ == seq![
                ManagePanelCommand::FetchParticipant {
                    participant_context_id: props.participant_context_id,
                },
            ],
            ManagePanelEvent::ParticipantLoaded(Ok(summary)) => res.0 == (ManagePanelState {
                load_state: ParticipantLoad::Loaded(summary),
                ..state
            }) && res.1@.len() == 0,
            ManagePanelEvent::ParticipantLoaded(Err(e)) => {
                &&& res.0.load_state matches ParticipantLoad::Error(message) && message@ == error_message(e)
                &&& res.0 == (ManagePanelState { load_state: res.0.load_state, ..state })
                &&& res.1@.len() == 0
            },
            ManagePanelEvent::SetActiveClicked(is_active) => res.0 == (ManagePanelState {
                acting: true,
                action_error: None,
                ..state
            }) && res.1@ == seq![
                ManagePanelCommand::SetActive {
                    participant_context_id: props.participant_context_id,
                    is_active,
                    reload: state.reload,
                },
            ],
            ManagePanelEvent::SetActiveFinished { is_active, reload, result: Ok(()) } => {
                let refetch = reload + 1 != state.reload;
                let fetch = if refetch {
                    seq![
                        ManagePanelCommand::FetchParticipant {
                            participant_context_id: props.participant_context_id,
                        },
                    ]
                } else {
                    Seq::<ManagePanelCommand>::empty()
                };
                let notify = if is_active {
                    seq![ManagePanelCommand::NotifyActivated]
                } else {
                    Seq::<ManagePanelCommand>::empty()
                };
                &&& res.0 == (ManagePanelState {
                    load_state: if refetch {
                        ParticipantLoad::Loading
                    } else {
                        state.load_state
                    },
                    reload: (reload + 1) as u32,
                    acting: false,
                    ..state
                })
                &&& res.1@ == fetch + notify
            },
            ManagePanelEvent::SetActiveFinished { result: Err(e), .. } => {
                &&& res.0.action_error matches Some(message) && message@ == error_message(e)
                &&& res.0 == (ManagePanelState { action_error: res.0.action_error, acting: false, ..state })
                &&& res.1@.len() == 0
            },
            ManagePanelEvent::DeleteClicked => res.0 == (ManagePanelState {
                acting: true,
                action_error: None,
                ..state
            }) && res.1@ == seq![
                ManagePanelCommand::DeleteParticipant {
                    participant_context_id: props.participant_context_id,
                },
            ],
            ManagePanelEvent::DeleteFinished(Ok(())) => res.0 == (ManagePanelState {
                acting: false,
                ..state
            }) && res.1@ == seq![ManagePanelCommand::NotifyDeleted],
            ManagePanelEvent::DeleteFinished(Err(e)) => {
                &&& res.0.action_error matches Some(message) && message@ == error_message(e)
                &&& res.0 == (ManagePanelState { action_error: res.0.action_error, acting: false, ..state })
                &&& res.1@.len() == 0
            },
        },
{
    let mut commands: Vec<ManagePanelCommand> = Vec::new();
    match event {
        ManagePanelEvent::Refresh => {
            commands.push(
                ManagePanelCommand::FetchParticipant {
                    participant_context_id: props.participant_context_id.clone(),
                },
            );
            (ManagePanelState { load_state: ParticipantLoad::Loading, ..state }, commands)
        },
        ManagePanelEvent::ParticipantLoaded(Ok(summary)) => (
            ManagePanelState { load_state: ParticipantLoad::Loaded(summary), ..state },
            commands,
        ),
        ManagePanelEvent::ParticipantLoaded(Err(e)) => {
            let message = describe_error(e);
            (ManagePanelState { load_state: ParticipantLoad::Error(message), ..state }, commands)
        },
        ManagePanelEvent::SetActiveClicked(is_active) => {
            commands.push(
                ManagePanelCommand::SetActive {
                    participant_context_id: props.participant_context_id.clone(),
                    is_active,
                    reload: state.reload,
                },
            );
            (ManagePanelState { acting: true, action_error: None, ..state }, commands)
        },
        ManagePanelEvent::SetActiveFinished { is_active, reload, result: Ok(()) } => {
            let next = reload + 1;
            let load_state = if next != state.reload {
                commands.push(
                    ManagePanelCommand::FetchParticipant {
                        participant_context_id: props.participant_context_id.clone(),
                    },
                );
                ParticipantLoad::Loading
            } else {
                state.load_state
            };
            if is_active {
                commands.push(ManagePanelCommand::NotifyActivated);
            }
            (ManagePanelState { load_state, reload: next, acting: false, action_error: state.action_error }, commands)
        },
        ManagePanelEvent::SetActiveFinished { result: Err(e), .. } => {
            let message = describe_error(e);
            (ManagePanelState { action_error: Some(message), acting: false, ..state }, commands)
        },
        ManagePanelEvent::DeleteClicked => {
            commands.push(
                ManagePanelCommand::DeleteParticipant {
                    participant_context_id: props.participant_context_id.clone(),
                },
            );
            (ManagePanelState { acting: true, action_error: None, ..state }, commands)
        },
        ManagePanelEvent::DeleteFinished(Ok(())) => {
            commands.push(ManagePanelCommand::NotifyDeleted);
            (ManagePanelState { acting: false, ..state }, commands)
        },
        ManagePanelEvent::DeleteFinished(Err(e)) => {
            let message = describe_error(e);
            (ManagePanelState { action_error: Some(message), acting: false, ..state }, commands)
        },
    }
}

/// The manage panel's line about a loaded context:
/// `did: <did url> · state code: <state>`.
pub fn participant_detail(summary: &ParticipantSummary) -> (res: String)
    ensures
        res@ == "did: "@ + summary.did_url@ + " \u{b7} state code: "@ + decimal(summary.state as nat),
{
    let mut line = concat_strs("did: ", summary.did_url.as_str());
    line.append(" \u{b7} state code: ");
    push_decimal(&mut line, summary.state as u64);
    line
}

/// The URL prefix `https://`.
pub open spec fn https_scheme() -> Seq<char> {
    seq!['h', 't', 't', 'p', 's', ':', '/', '/']
}

/// The URL prefix `http://`.
pub open spec fn http_scheme() -> Seq<char> {
    seq!['h', 't', 't', 'p', ':', '/', '/']
}

/// The create form is accepted exactly when, after trimming, the participant
/// ID and the service endpoint type are not blank and the service endpoint
/// URL begins with `https://` or `http://`. A form whose ID and type are
/// filled in but whose URL has any other beginning (`ftp://`, no scheme,
/// upper-case `HTTPS://`, ...) is refused with the http(s) message.
pub proof fn lemma_create_form_accepts_only_http_urls(
    participant_id: Seq<char>,
    service_endpoint_type: Seq<char>,
    service_endpoint_url: Seq<char>,
)
    ensures
        (participant_form_error(participant_id, service_endpoint_type, service_endpoint_url) is None) == {
            &&& trim(participant_id).len() > 0
            &&& trim(service_endpoint_type).len() > 0
            &&& (https_scheme().is_prefix_of(trim(service_endpoint_url)) || http_scheme().is_prefix_of(
                trim(service_endpoint_url),
            ))
        },
        trim(participant_id).len() > 0 && trim(service_endpoint_type).len() > 0 && trim(
            service_endpoint_url,
        ).len() > 0 && !(https_scheme().is_prefix_of(trim(service_endpoint_url))
            || http_scheme().is_prefix_of(trim(service_endpoint_url))) ==> participant_form_error(
            participant_id,
            service_endpoint_type,
            service_endpoint_url,
        ) == Some("Service endpoint URL must be an absolute http(s) URL."@),
{
    reveal_strlit("https://");
    reveal_strlit("http://");
    assert("https://"@ =~= https_scheme());
    assert("http://"@ =~= http_scheme());
}

/// Whatever the role, the context an accepted create form asks for starts
/// inactive (activation is a separate step), uses the trimmed participant ID
/// as its DID and context ID, and carries the role's name as its only role.
pub proof fn lemma_created_context_starts_inactive(
    context: ParticipantContext,
    participant_id: Seq<char>,
    role: ParticipantRole,
    service_endpoint_type: Seq<char>,
    service_endpoint_url: Seq<char>,
    service_id: Seq<char>,
)
    requires
        requested_context(
            context,
            participant_id,
            role,
            service_endpoint_type,
            service_endpoint_url,
            service_id,
        ),
    ensures
        context.active == false,
        context.participant_context_id@ == trim(participant_id),
        context.did@ == context.participant_id@,
        context.participant_id@ == context.participant_context_id@,
        context.roles@.len() == 1,
        role_named(context.roles@[0]@) == Some(role),
{
    lemma_role_name_round_trip(role, context.roles@[0]@);
}

} // verus!
