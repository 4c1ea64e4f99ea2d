//! The closed set of scenes the client can show.

use vstd::prelude::*;

verus! {

/// One scene of the client. `Main` is the welcome menu; `Quit` is terminal:
/// once reached, the event loop ends and control returns to the host.
#[derive(Clone, Copy, Debug, PartialEq, Eq, Structural)]
pub enum Scene {
    Main,
    SignIn,
    SignUp,
    AfterSignIn,
    Profile,
    Quit,
}

} // verus!
