//! What the operator configures: the shared secret and the texts that stand
//! for "open" and "closed".

use vstd::prelude::*;

verus! {

/// The secret that authorizes a client to change the status.
pub struct ApiKey(pub String);

impl View for ApiKey {
    type V = Seq<char>;

    open spec fn view(&self) -> Seq<char> {
        self.0@
    }
}

/// How one kind of status page shows the two states.
pub struct StatusDisplay {
    pub open: String,
    pub closed: String,
}

impl StatusDisplay {
    /// The text for a state.
    pub open spec fn shown(&self, is_open: bool) -> Seq<char> {
        if is_open {
            self.open@
        } else {
            self.closed@
        }
    }
}

/// The texts of the plain-text and of the HTML status page.
pub struct StatusDisplayTypes {
    pub text: StatusDisplay,
    pub html: StatusDisplay,
}

} // verus!
