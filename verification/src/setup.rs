use vstd::prelude::*;

use crate::client::{Client, ClientView};
use crate::config::{
    build_config, spec_config_err, spec_config_ok, spec_opt_value, spec_prefs_wf, Value,
};
use crate::error::Error;

verus! {

/// How one setup call relates the session state before it to the state
/// after it, and to its result. Setup is the only transition of the session
/// state machine: it rejects an already-initialized session untouched,
/// commits a well-formed configuration and flips the setup flag, and leaves
/// the state untouched when the preferences are rejected.
pub open spec fn spec_setup_transition(
    pre: ClientView,
    post: ClientView,
    prefs: Option<Value>,
    r: Result<(), Error>,
) -> bool {
    if pre.did_setup {
        &&& r matches Err(e) && e is AlreadySetup
        &&& post == pre
    } else if spec_prefs_wf(prefs) {
        &&& r is Ok
        &&& post.did_setup
        &&& spec_config_ok(prefs, post.notes_dir)
    } else {
        &&& r matches Err(e) && spec_config_err(prefs, e)
        &&& post == pre
    }
}

/// The one-time setup operation: reject a second call, build the strict
/// configuration from the host's preferences, and only then commit it and
/// mark the session initialized. A failure leaves the session exactly as it
/// was.
pub fn setup(client: &mut Client, preferences: Option<&Value>) -> (r: Result<(), Error>)
    ensures
        spec_setup_transition(old(client)@, final(client)@, spec_opt_value(preferences), r),
{
    if client.already_setup() {
        return Err(Error::AlreadySetup);
    }
    let config = match build_config(preferences) {
        Ok(c) => c,
        Err(e) => {
            return Err(e);
        },
    };
    client.set_config(config);
    client.did_setup();
    Ok(())
}

/// The once-only law: when setup has succeeded once, a second setup call
/// fails with `AlreadySetup` and leaves the session state, configuration
/// included, exactly as the first call left it.
pub proof fn lemma_setup_idempotence(
    s0: ClientView,
    s1: ClientView,
    s2: ClientView,
    p1: Option<Value>,
    p2: Option<Value>,
    r1: Result<(), Error>,
    r2: Result<(), Error>,
)
    requires
        !s0.did_setup,
        spec_setup_transition(s0, s1, p1, r1),
        r1 is Ok,
        spec_setup_transition(s1, s2, p2, r2),
    ensures
        r2 matches Err(e) && e is AlreadySetup,
        s2 == s1,
{
    assert(s1.did_setup);
}

} // verus!
