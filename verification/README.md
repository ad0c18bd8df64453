# ds_identity_bootstrap

Verified decision logic for bootstrapping a DCP identity on an EDC
IdentityHub (`identity-api`): create a participant context, activate it,
publish its `did:web` DID, and manage its keys afterwards.

- `src/` -- the library, verified with Verus:
  - `text.rs`: Unicode whitespace trimming, ASCII case-insensitive
    comparison, prefix tests, decimal rendering.
  - `client_error.rs`: failed identity-api calls and their messages.
  - `did_publish.rs`: DID derivation, "published" detection, the publish
    panel's state machine.
  - `participant.rs`: roles, the create-form checks and request body, the
    create and manage panels' state machines.
  - `keypair.rs`: the add-key request body, key state names, the key
    panel's state machine.
  - `wizard.rs`: the three-step bootstrap wizard and its consistency.
- `app/` -- the Yew components: they render the library's state, perform
  the identity-api calls it asks for and feed the answers back.
- `tests/` -- tests of the library.
