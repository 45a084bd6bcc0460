//! The four logical script execution contexts and their host integer ids.

use vstd::prelude::*;

verus! {

/// Host ABI constant for the server script context.
pub const SCRIPT_CONTEXT_SERVER: i32 = 0;

/// Host ABI constant for the client script context.
pub const SCRIPT_CONTEXT_CLIENT: i32 = 1;

/// Host ABI constant for the UI script context.
pub const SCRIPT_CONTEXT_UI: i32 = 2;

/// A logical execution context for script-callable functions.
#[derive(Debug, Clone, Copy, PartialEq, Eq, Structural)]
pub enum ScriptVmType {
    Server,
    Client,
    Ui,
    UiClient,
}

impl ScriptVmType {
    /// The host integer identifier of this context. `UiClient` collapses onto
    /// the same constant as `Ui`; that mapping is kept on purpose (see
    /// [`lemma_ui_and_ui_client_share_constant`]).
    pub open spec fn spec_to_int(self) -> i32 {
        match self {
            ScriptVmType::Server => SCRIPT_CONTEXT_SERVER,
            ScriptVmType::Client => SCRIPT_CONTEXT_CLIENT,
            ScriptVmType::Ui => SCRIPT_CONTEXT_UI,
            ScriptVmType::UiClient => SCRIPT_CONTEXT_UI,
        }
    }

    /// Converts this context to the integer the host ABI defines for it.
    pub fn to_int(&self) -> (r: i32)
        ensures
            r == self.spec_to_int(),
    {
        match self {
            ScriptVmType::Server => SCRIPT_CONTEXT_SERVER,
            ScriptVmType::Client => SCRIPT_CONTEXT_CLIENT,
            ScriptVmType::Ui => SCRIPT_CONTEXT_UI,
            ScriptVmType::UiClient => SCRIPT_CONTEXT_UI,
        }
    }

    /// The display form of this context: its variant name in parentheses.
    pub fn display_str(&self) -> (r: &'static str)
        ensures
            self is Server ==> r@ == "(Server)"@,
            self is Client ==> r@ == "(Client)"@,
            self is Ui ==> r@ == "(Ui)"@,
            self is UiClient ==> r@ == "(UiClient)"@,
    {
        match self {
            ScriptVmType::Server => "(Server)",
            ScriptVmType::Client => "(Client)",
            ScriptVmType::Ui => "(Ui)",
            ScriptVmType::UiClient => "(UiClient)",
        }
    }
}

/// `Ui` and `UiClient` convert to one and the same host constant. Whether
/// that collapse is intended by the host ABI is an open question; the mapping
/// is preserved here and stated so that any future change is deliberate.
pub proof fn lemma_ui_and_ui_client_share_constant()
    ensures
        ScriptVmType::Ui.spec_to_int() == ScriptVmType::UiClient.spec_to_int(),
{
}

} // verus!
