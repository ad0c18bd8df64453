use ds_identity_bootstrap::client_error::ClientError;
use ds_identity_bootstrap::did_publish::{
    did_action_label, did_panel_initial, offered_did_action, DidAction, DidPanelCommand, DidPanelEvent,
    DidPanelState, DidStateLoad,
};
use ds_identity_bootstrap::{did_from_participant_id, did_publish_panel, is_published, DidPublishPanelProps};

#[test]
fn derives_the_did_web_string_from_a_plain_host() {
    assert_eq!(did_from_participant_id("did.ds-labs.org"), "did:web:did.ds-labs.org");
}

#[test]
fn derives_the_did_web_string_for_a_path_style_participant_id() {
    assert_eq!(
        did_from_participant_id("example.com:user:alice"),
        "did:web:example.com:user:alice"
    );
}

#[test]
fn is_published_matches_the_real_state_name_case_insensitively() {
    assert!(is_published("PUBLISHED"));
    assert!(is_published("published"));
    assert!(is_published("  PUBLISHED  "));
}

#[test]
fn is_published_rejects_every_other_state() {
    assert!(!is_published("UNPUBLISHED"));
    assert!(!is_published("NOT_PUBLISHED"));
    assert!(!is_published(""));
}

#[test]
fn is_published_trims_unicode_whitespace_and_mixed_case() {
    assert!(is_published("\t\u{3000}PuBlIsHeD\n\u{a0}"));
    assert!(!is_published("PUBLISHED."));
    assert!(!is_published("PUB LISHED"));
    // Only ASCII letters fold: a dotless `i` does not match `i`.
    assert!(!is_published("publ\u{131}shed"));
}

#[test]
fn did_of_an_empty_participant_id_is_the_bare_method() {
    assert_eq!(did_from_participant_id(""), "did:web:");
}

fn props() -> DidPublishPanelProps {
    DidPublishPanelProps {
        endpoint: "https://issuer-admin.example".to_string(),
        bearer_token: Some("token".to_string()),
        participant_context_id: "ctx-1".to_string(),
        participant_id: "did.example.com".to_string(),
    }
}

#[test]
fn did_panel_refresh_fetches_the_state_of_the_derived_did() {
    let (state, command) = did_publish_panel(&props(), did_panel_initial(), DidPanelEvent::Refresh);
    assert_eq!(state.state_load, DidStateLoad::Loading);
    assert_eq!(
        command,
        Some(DidPanelCommand::FetchState {
            participant_context_id: "ctx-1".to_string(),
            did: "did:web:did.example.com".to_string(),
        })
    );
}

#[test]
fn did_panel_notifies_once_when_the_did_is_first_seen_published() {
    let start = did_panel_initial();
    let (state, command) = did_publish_panel(
        &props(),
        start,
        DidPanelEvent::StateLoaded(Ok("PUBLISHED".to_string())),
    );
    assert_eq!(command, Some(DidPanelCommand::NotifyPublished));
    assert_eq!(offered_did_action(&state), Some(DidAction::Unpublish));
    // A second answer that is still published does not notify again.
    let (_, again) = did_publish_panel(
        &props(),
        state,
        DidPanelEvent::StateLoaded(Ok("published".to_string())),
    );
    assert_eq!(again, None);
}

#[test]
fn did_panel_offers_publish_for_an_unpublished_did() {
    let (state, command) = did_publish_panel(
        &props(),
        did_panel_initial(),
        DidPanelEvent::StateLoaded(Ok("UNPUBLISHED".to_string())),
    );
    assert_eq!(command, None);
    assert_eq!(offered_did_action(&state), Some(DidAction::Publish));
    assert_eq!(did_action_label(DidAction::Publish), "Publish DID");
    assert_eq!(did_action_label(DidAction::Unpublish), "Unpublish");
    assert_eq!(offered_did_action(&did_panel_initial()), None);
}

#[test]
fn did_panel_shows_a_failed_state_load() {
    let (state, command) = did_publish_panel(
        &props(),
        did_panel_initial(),
        DidPanelEvent::StateLoaded(Err(ClientError::Status(404))),
    );
    assert_eq!(command, None);
    assert_eq!(
        state.state_load,
        DidStateLoad::Error("identity-api responded with 404 Not Found".to_string())
    );
}

#[test]
fn did_panel_publish_round_trip_reloads_the_state() {
    let loaded = DidPanelState {
        state_load: DidStateLoad::Loaded("UNPUBLISHED".to_string()),
        reload: 4,
        acting: false,
        action_error: Some("old failure".to_string()),
    };
    let (busy, command) = did_publish_panel(&props(), loaded, DidPanelEvent::ActionClicked(DidAction::Publish));
    assert!(busy.acting);
    assert_eq!(busy.action_error, None);
    assert_eq!(
        command,
        Some(DidPanelCommand::Run {
            action: DidAction::Publish,
            participant_context_id: "ctx-1".to_string(),
            did: "did:web:did.example.com".to_string(),
            reload: 4,
        })
    );
    let (done, command) = did_publish_panel(
        &props(),
        busy,
        DidPanelEvent::ActionFinished { reload: 4, result: Ok(()) },
    );
    assert!(!done.acting);
    assert_eq!(done.reload, 5);
    assert_eq!(done.state_load, DidStateLoad::Loading);
    assert!(matches!(command, Some(DidPanelCommand::FetchState { .. })));
}

#[test]
fn did_panel_shows_a_failed_action() {
    let busy = DidPanelState {
        state_load: DidStateLoad::Loaded("UNPUBLISHED".to_string()),
        reload: 0,
        acting: true,
        action_error: None,
    };
    let (state, command) = did_publish_panel(
        &props(),
        busy,
        DidPanelEvent::ActionFinished {
            reload: 0,
            result: Err(ClientError::Transport("connection refused".to_string())),
        },
    );
    assert_eq!(command, None);
    assert!(!state.acting);
    assert_eq!(state.reload, 0);
    assert_eq!(state.action_error, Some("connection refused".to_string()));
}

#[test]
fn did_panel_does_not_reload_when_the_counter_is_unchanged() {
    let state = DidPanelState {
        state_load: DidStateLoad::Loaded("PUBLISHED".to_string()),
        reload: 3,
        acting: true,
        action_error: None,
    };
    let (next, command) = did_publish_panel(
        &props(),
        state,
        DidPanelEvent::ActionFinished { reload: 2, result: Ok(()) },
    );
    assert_eq!(command, None);
    assert_eq!(next.reload, 3);
    assert_eq!(next.state_load, DidStateLoad::Loaded("PUBLISHED".to_string()));
}
