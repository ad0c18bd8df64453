//! Verified decision logic for bootstrapping a DCP identity on an EDC
//! IdentityHub: request bodies, input validation, and the state machines
//! behind the participant-context, DID-publish and keypair panels and the
//! bootstrap wizard that composes them.

pub mod text;
pub mod client_error;
pub mod did_publish;
pub mod wizard;
pub mod keypair;
pub mod participant;

pub use did_publish::{did_from_participant_id, did_publish_panel, is_published, DidPublishPanelProps};
pub use keypair::{build_key_descriptor, keypair_lifecycle_panel, KeypairLifecyclePanelProps};
pub use participant::{
    build_participant_context, participant_context_panel, ParticipantContextPanelProps, ParticipantRole,
};
pub use wizard::{identity_bootstrap_wizard, initial_step, IdentityBootstrapWizardProps, WizardStep};
