use ds_identity_bootstrap::wizard::{
    step_index, step_status, wizard_body, wizard_start, StepStatus, WizardBody, WizardEvent, WizardState,
};
use ds_identity_bootstrap::{identity_bootstrap_wizard, initial_step, IdentityBootstrapWizardProps, WizardStep};

#[test]
fn starts_at_create_context_with_no_existing_id() {
    assert_eq!(initial_step(None), WizardStep::CreateContext);
}

#[test]
fn skips_straight_to_activate_when_an_id_is_already_known() {
    assert_eq!(initial_step(Some("did.ds-labs.org")), WizardStep::Activate);
}

#[test]
fn step_status_marks_earlier_steps_success_current_info_and_later_pending() {
    let current = WizardStep::Activate;
    assert!(matches!(
        step_status(WizardStep::CreateContext, current),
        StepStatus::Success
    ));
    assert!(matches!(
        step_status(WizardStep::Activate, current),
        StepStatus::Info
    ));
    assert!(matches!(
        step_status(WizardStep::PublishDid, current),
        StepStatus::Pending
    ));
}

#[test]
fn step_indices_follow_the_wizard_order() {
    assert_eq!(step_index(WizardStep::CreateContext), 0);
    assert_eq!(step_index(WizardStep::Activate), 1);
    assert_eq!(step_index(WizardStep::PublishDid), 2);
    assert_eq!(step_index(WizardStep::Done), 3);
    assert_eq!(step_status(WizardStep::PublishDid, WizardStep::Done), StepStatus::Success);
    assert_eq!(step_status(WizardStep::CreateContext, WizardStep::CreateContext), StepStatus::Info);
}

fn props(id: Option<&str>) -> IdentityBootstrapWizardProps {
    IdentityBootstrapWizardProps {
        endpoint: "https://issuer-admin.example".to_string(),
        bearer_token: None,
        participant_context_id: id.map(|s| s.to_string()),
    }
}

#[test]
fn wizard_runs_create_activate_publish_and_reports_the_context() {
    let start = wizard_start(&props(None));
    assert_eq!(start.current_step, WizardStep::CreateContext);
    assert_eq!(wizard_body(&start), WizardBody::CreateContext);

    let (created, report) =
        identity_bootstrap_wizard(start, WizardEvent::Created("did.example.com".to_string()));
    assert_eq!(report, None);
    assert_eq!(created.current_step, WizardStep::Activate);
    assert_eq!(wizard_body(&created), WizardBody::Activate("did.example.com".to_string()));

    let (activated, report) = identity_bootstrap_wizard(created, WizardEvent::Activated);
    assert_eq!(report, None);
    assert_eq!(wizard_body(&activated), WizardBody::PublishDid("did.example.com".to_string()));

    let (done, report) = identity_bootstrap_wizard(activated, WizardEvent::Published);
    assert_eq!(report, Some("did.example.com".to_string()));
    assert_eq!(done.current_step, WizardStep::Done);
    assert_eq!(wizard_body(&done), WizardBody::Done("did.example.com".to_string()));
}

#[test]
fn wizard_resumes_a_known_context_at_activate() {
    let start = wizard_start(&props(Some("ctx-7")));
    assert_eq!(start.current_step, WizardStep::Activate);
    assert_eq!(start.participant_id, Some("ctx-7".to_string()));
    assert_eq!(wizard_body(&start), WizardBody::Activate("ctx-7".to_string()));
}

#[test]
fn wizard_guards_steps_without_a_context() {
    let no_context = WizardState { current_step: WizardStep::Activate, participant_id: None };
    assert_eq!(wizard_body(&no_context), WizardBody::NoContextToActivate);
    let no_context = WizardState { current_step: WizardStep::PublishDid, participant_id: None };
    assert_eq!(wizard_body(&no_context), WizardBody::NoContextToPublish);
    let (done, report) = identity_bootstrap_wizard(no_context, WizardEvent::Published);
    assert_eq!(report, None);
    assert_eq!(wizard_body(&done), WizardBody::Done(String::new()));
}
