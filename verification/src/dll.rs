use vstd::prelude::*;

verus! {

/// The `DllMain` reason code for the process loading the library.
pub const DLL_PROCESS_ATTACH: u32 = 1;

/// The `DllMain` reason code for the process unloading the library.
pub const DLL_PROCESS_DETACH: u32 = 0;

/// What the library's entry point does for a reason code.
#[derive(PartialEq, Eq, Debug, Clone, Copy, Structural)]
pub enum DllEntryAction {
    /// Set the plugin up.
    Init,
    /// Tear the plugin down.
    Free,
    /// Nothing (thread attach and detach).
    Ignore,
}

pub open spec fn dll_entry_action_of(call_reason: u32) -> DllEntryAction {
    if call_reason == DLL_PROCESS_ATTACH {
        DllEntryAction::Init
    } else if call_reason == DLL_PROCESS_DETACH {
        DllEntryAction::Free
    } else {
        DllEntryAction::Ignore
    }
}

/// What the entry point does for `call_reason`; it reports success in
/// every case.
pub fn dll_entry_action(call_reason: u32) -> (action: DllEntryAction)
    ensures
        action == dll_entry_action_of(call_reason),
{
    if call_reason == DLL_PROCESS_ATTACH {
        DllEntryAction::Init
    } else if call_reason == DLL_PROCESS_DETACH {
        DllEntryAction::Free
    } else {
        DllEntryAction::Ignore
    }
}

} // verus!
