use vstd::prelude::*;

verus! {

/// The plugin object handed to the game's plugin host.
pub struct MyLuaHooksPlugin {}

/// The name under which the plugin registers with its host.
pub open spec fn plugin_name() -> Seq<char> {
    "LuaHooksPlugin"@
}

impl MyLuaHooksPlugin {
    pub fn new() -> (plugin: MyLuaHooksPlugin) {
        MyLuaHooksPlugin {}
    }

    /// The name the plugin reports to its host.
    pub fn name(&self) -> (name: &'static str)
        ensures
            name@ == plugin_name(),
    {
        "LuaHooksPlugin"
    }
}

} // verus!
