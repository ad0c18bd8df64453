use ds_identity_bootstrap::client_error::{describe_error, ClientError};
use ds_identity_bootstrap::participant::{
    create_button_label, create_panel, create_panel_initial, manage_panel, manage_panel_initial,
    participant_context_with_service_id, participant_detail, participant_id_hint, CreatePanelCommand,
    CreatePanelEvent, ManagePanelCommand, ManagePanelEvent, ManagePanelProps, ParticipantLoad,
    ParticipantPanelMode, ParticipantSummary,
};
use ds_identity_bootstrap::{
    build_participant_context, participant_context_panel, ParticipantContextPanelProps, ParticipantRole,
};
use std::str::FromStr;

#[test]
fn rejects_a_blank_participant_id() {
    let result = build_participant_context("  ", ParticipantRole::Authority, "CredentialService", "https://example.com");
    assert_eq!(result.unwrap_err(), "Participant ID is required.");
}

#[test]
fn rejects_a_blank_service_endpoint_type() {
    let result = build_participant_context("did.example.com", ParticipantRole::Authority, "  ", "https://example.com");
    assert_eq!(result.unwrap_err(), "Service endpoint type is required.");
}

#[test]
fn rejects_a_blank_service_endpoint_url() {
    let result = build_participant_context("did.example.com", ParticipantRole::Authority, "CredentialService", "  ");
    assert_eq!(result.unwrap_err(), "Service endpoint URL is required.");
}

#[test]
fn rejects_a_non_absolute_service_endpoint_url() {
    let result = build_participant_context(
        "did.example.com",
        ParticipantRole::Authority,
        "CredentialService",
        "example.com/sts",
    );
    assert_eq!(
        result.unwrap_err(),
        "Service endpoint URL must be an absolute http(s) URL."
    );
}

#[test]
fn builds_the_exact_shape_the_mockup_shows_for_a_valid_authority_submission() {
    let context = build_participant_context(
        "did.ds-labs.org",
        ParticipantRole::Authority,
        "CredentialService",
        "https://did.ds-labs.org/api/sts",
    )
    .expect("valid input should build a ParticipantContext");

    assert_eq!(context.participant_id, "did.ds-labs.org");
    assert_eq!(context.participant_context_id, "did.ds-labs.org");
    assert_eq!(context.active, false);
    assert_eq!(context.roles, vec!["authority".to_string()]);
    assert_eq!(
        context.service_endpoints[0].service_endpoint,
        "https://did.ds-labs.org/api/sts"
    );
    assert_eq!(context.service_endpoints[0].service_type, "CredentialService");
    assert_eq!(context.key.algorithm, "EC");
    assert_eq!(context.key.key_id, "did.ds-labs.org#key-1");
}

#[test]
fn connector_role_serializes_as_connector() {
    let context = build_participant_context(
        "connector-1.example.com",
        ParticipantRole::Connector,
        "CredentialService",
        "https://connector-1.example.com/sts",
    )
    .expect("valid input should build a ParticipantContext");

    assert_eq!(context.roles, vec!["connector".to_string()]);
}

#[test]
fn service_endpoint_ids_are_fresh_hyphenated_uuids() {
    let first = build_participant_context("p", ParticipantRole::Authority, "T", "http://x").unwrap();
    let second = build_participant_context("p", ParticipantRole::Authority, "T", "http://x").unwrap();
    let id = &first.service_endpoints[0].id;
    assert_eq!(id.chars().count(), 36);
    for (i, c) in id.chars().enumerate() {
        if i == 8 || i == 13 || i == 18 || i == 23 {
            assert_eq!(c, '-');
        } else {
            assert!(c.is_ascii_digit() || ('a'..='f').contains(&c));
        }
    }
    assert_eq!(id.chars().nth(14), Some('4'));
    assert!(matches!(id.chars().nth(19), Some('8' | '9' | 'a' | 'b')));
    assert_ne!(first.service_endpoints[0].id, second.service_endpoints[0].id);
    assert_eq!(first.service_endpoints.len(), 1);
}

#[test]
fn participant_context_trims_its_inputs() {
    let context = participant_context_with_service_id(
        "  did.example.com \n",
        ParticipantRole::Connector,
        " DataService ",
        "\thttp://example.com/dsp ",
        "svc-1".to_string(),
    )
    .unwrap();
    assert_eq!(context.participant_id, "did.example.com");
    assert_eq!(context.did, "did.example.com");
    assert_eq!(context.key.private_key_alias, "did.example.com#key-1");
    assert_eq!(context.service_endpoints[0].id, "svc-1");
    assert_eq!(context.service_endpoints[0].service_type, "DataService");
    assert_eq!(context.service_endpoints[0].service_endpoint, "http://example.com/dsp");
    // `HTTPS://` is not an accepted scheme prefix: the check is case-sensitive.
    assert_eq!(
        participant_context_with_service_id("p", ParticipantRole::Authority, "T", "HTTPS://x", "s".to_string())
            .unwrap_err(),
        "Service endpoint URL must be an absolute http(s) URL."
    );
}

#[test]
fn roles_round_trip_through_their_names() {
    assert_eq!(ParticipantRole::Authority.role_label(), "authority");
    assert_eq!(ParticipantRole::Connector.role_label(), "connector");
    assert_eq!(ParticipantRole::from_str("authority"), Ok(ParticipantRole::Authority));
    assert_eq!(ParticipantRole::from_str("connector"), Ok(ParticipantRole::Connector));
    assert_eq!(ParticipantRole::from_str("Authority"), Err(()));
    assert_eq!(ParticipantRole::parse(""), Err(()));
    assert_eq!(ParticipantRole::default(), ParticipantRole::Authority);
}

#[test]
fn describes_transport_and_status_failures() {
    assert_eq!(describe_error(ClientError::Transport("dns error".to_string())), "dns error");
    assert_eq!(
        describe_error(ClientError::Status(404)),
        "identity-api responded with 404 Not Found"
    );
    assert_eq!(
        describe_error(ClientError::Status(599)),
        "identity-api responded with 599 <unknown status code>"
    );
}

#[test]
fn panel_mode_follows_the_context_id() {
    let props = ParticipantContextPanelProps {
        endpoint: "https://e".to_string(),
        bearer_token: None,
        participant_context_id: None,
    };
    assert!(matches!(participant_context_panel(&props), ParticipantPanelMode::Create(_)));
    let props = ParticipantContextPanelProps { participant_context_id: Some("ctx".to_string()), ..props };
    match participant_context_panel(&props) {
        ParticipantPanelMode::Manage(manage) => assert_eq!(manage.participant_context_id, "ctx"),
        other => panic!("expected the manage panel, got {:?}", other),
    }
}

#[test]
fn create_panel_submits_and_reports_the_typed_id() {
    let state = create_panel_initial();
    assert_eq!(state.service_endpoint_type, "CredentialService");
    assert_eq!(state.role, ParticipantRole::Authority);
    let (state, command) = create_panel(state, CreatePanelEvent::Submit);
    assert_eq!(command, None);
    assert_eq!(state.error, Some("Participant ID is required.".to_string()));
    let (state, _) = create_panel(state, CreatePanelEvent::ParticipantIdChanged(" did.example.com ".to_string()));
    let (state, _) = create_panel(state, CreatePanelEvent::RoleChanged(Some(ParticipantRole::Connector)));
    let (state, _) = create_panel(state, CreatePanelEvent::RoleChanged(None));
    assert_eq!(state.role, ParticipantRole::Connector);
    let (state, _) =
        create_panel(state, CreatePanelEvent::ServiceEndpointUrlChanged("https://example.com/sts".to_string()));
    let (state, command) = create_panel(state, CreatePanelEvent::Submit);
    assert!(state.submitting);
    assert_eq!(state.error, None);
    match command {
        Some(CreatePanelCommand::CreateParticipant { body, created_id }) => {
            assert_eq!(created_id, "did.example.com");
            assert_eq!(created_id, body.participant_context_id);
            assert_eq!(body.participant_id, "did.example.com");
            assert_eq!(body.roles, vec!["connector".to_string()]);
        }
        other => panic!("expected a create command, got {:?}", other),
    }
    let (state, command) = create_panel(
        state,
        CreatePanelEvent::CreateFinished { created_id: "x".to_string(), result: Ok(()) },
    );
    assert!(!state.submitting);
    assert_eq!(command, Some(CreatePanelCommand::NotifyCreated("x".to_string())));
    let (state, command) = create_panel(
        state,
        CreatePanelEvent::CreateFinished { created_id: "x".to_string(), result: Err(ClientError::Status(409)) },
    );
    assert_eq!(command, None);
    assert_eq!(state.error, Some("identity-api responded with 409 Conflict".to_string()));
}

#[test]
fn create_panel_texts() {
    assert_eq!(participant_id_hint(""), "Resolves as did:web:\u{2026}");
    assert_eq!(participant_id_hint("did.example.com"), "Resolves as did:web:did.example.com");
    assert_eq!(create_button_label(true), "Creating...");
    assert_eq!(create_button_label(false), "Create context");
}

#[test]
fn manage_panel_activation_reloads_and_reports() {
    let props = ManagePanelProps {
        endpoint: "https://e".to_string(),
        bearer_token: None,
        participant_context_id: "ctx".to_string(),
    };
    let (state, commands) = manage_panel(&props, manage_panel_initial(), ManagePanelEvent::Refresh);
    assert_eq!(
        commands,
        vec![ManagePanelCommand::FetchParticipant { participant_context_id: "ctx".to_string() }]
    );
    let summary = ParticipantSummary {
        participant_context_id: "ctx".to_string(),
        did_url: "https://example.com/.well-known/did.json".to_string(),
        state: 300,
    };
    let (state, commands) = manage_panel(&props, state, ManagePanelEvent::ParticipantLoaded(Ok(summary.clone())));
    assert!(commands.is_empty());
    assert_eq!(state.load_state, ParticipantLoad::Loaded(summary));
    let (state, commands) = manage_panel(&props, state, ManagePanelEvent::SetActiveClicked(true));
    assert!(state.acting);
    assert_eq!(
        commands,
        vec![ManagePanelCommand::SetActive { participant_context_id: "ctx".to_string(), is_active: true, reload: 0 }]
    );
    let (state, commands) = manage_panel(
        &props,
        state,
        ManagePanelEvent::SetActiveFinished { is_active: true, reload: 0, result: Ok(()) },
    );
    assert!(!state.acting);
    assert_eq!(state.reload, 1);
    assert_eq!(
        commands,
        vec![
            ManagePanelCommand::FetchParticipant { participant_context_id: "ctx".to_string() },
            ManagePanelCommand::NotifyActivated,
        ]
    );
    let (state, commands) = manage_panel(
        &props,
        state,
        ManagePanelEvent::SetActiveFinished { is_active: false, reload: 1, result: Ok(()) },
    );
    assert_eq!(state.reload, 2);
    assert_eq!(
        commands,
        vec![ManagePanelCommand::FetchParticipant { participant_context_id: "ctx".to_string() }]
    );
    let (state, commands) = manage_panel(&props, state, ManagePanelEvent::DeleteClicked);
    assert_eq!(
        commands,
        vec![ManagePanelCommand::DeleteParticipant { participant_context_id: "ctx".to_string() }]
    );
    let (state, commands) = manage_panel(
        &props,
        state,
        ManagePanelEvent::DeleteFinished(Err(ClientError::Transport("reset".to_string()))),
    );
    assert!(commands.is_empty());
    assert_eq!(state.action_error, Some("reset".to_string()));
    let (_, commands) = manage_panel(&props, state, ManagePanelEvent::DeleteFinished(Ok(())));
    assert_eq!(commands, vec![ManagePanelCommand::NotifyDeleted]);
}

#[test]
fn participant_detail_renders_the_state_code_in_decimal() {
    let summary = ParticipantSummary {
        participant_context_id: "ctx".to_string(),
        did_url: "https://example.com/.well-known/did.json".to_string(),
        state: 300,
    };
    assert_eq!(
        participant_detail(&summary),
        "did: https://example.com/.well-known/did.json \u{b7} state code: 300"
    );
    let zero = ParticipantSummary { state: 0, ..summary.clone() };
    assert!(participant_detail(&zero).ends_with("state code: 0"));
    let max = ParticipantSummary { state: 65535, ..summary };
    assert!(participant_detail(&max).ends_with("state code: 65535"));
}
