use vstd::prelude::*;

verus! {

/// A Rust function the loader exposes to Lua as a global.
#[derive(PartialEq, Eq, Debug, Clone, Copy, Structural)]
pub enum ApiFunction {
    /// Replaces the game's own `print`; prints each argument with its type.
    PrintDebug,
    /// The print function for plugins.
    PrintApi,
    /// Sets or clears the game's solo-racer byte.
    Solo,
    /// Forwards events to the host.
    Notify,
    /// Sets the frame rate target.
    SetFps,
}

/// The global name under which each function is registered.
pub open spec fn global_name_of(f: ApiFunction) -> Seq<char> {
    match f {
        ApiFunction::PrintDebug => "print"@,
        ApiFunction::PrintApi => "print_api"@,
        ApiFunction::Solo => "solo"@,
        ApiFunction::Notify => "notify"@,
        ApiFunction::SetFps => "set_fps"@,
    }
}

impl ApiFunction {
    /// The Lua global this function is registered under.
    pub fn global_name(&self) -> (name: &'static str)
        ensures
            name@ == global_name_of(*self),
    {
        match self {
            ApiFunction::PrintDebug => "print",
            ApiFunction::PrintApi => "print_api",
            ApiFunction::Solo => "solo",
            ApiFunction::Notify => "notify",
            ApiFunction::SetFps => "set_fps",
        }
    }
}

/// No two functions are registered under the same global name.
pub proof fn lemma_global_names_distinct(f: ApiFunction, g: ApiFunction)
    requires
        f != g,
    ensures
        global_name_of(f) != global_name_of(g),
{
    reveal_strlit("print");
    reveal_strlit("print_api");
    reveal_strlit("solo");
    reveal_strlit("notify");
    reveal_strlit("set_fps");
    assert(global_name_of(f).len() != global_name_of(g).len() || global_name_of(f)[0]
        != global_name_of(g)[0] || global_name_of(f)[1] != global_name_of(g)[1]);
}

/// A plugin script run once, in the first Lua state the loader sees.
#[derive(PartialEq, Eq, Debug, Clone, Copy, Structural)]
pub enum InitScript {
    /// The compiled entry script.
    Compiled,
    /// The source entry script.
    Source,
}

pub open spec fn script_path_of(s: InitScript) -> Seq<char> {
    match s {
        InitScript::Compiled => "amax/init.luac"@,
        InitScript::Source => "amax/init.lua"@,
    }
}

impl InitScript {
    /// The file the script is run from, relative to the game's directory.
    pub fn path(&self) -> (p: &'static str)
        ensures
            p@ == script_path_of(*self),
    {
        match self {
            InitScript::Compiled => "amax/init.luac",
            InitScript::Source => "amax/init.lua",
        }
    }
}

/// One step the hooked `luaL_loadbuffer` takes, in the Lua state it was
/// called with.
#[derive(PartialEq, Eq, Debug, Clone, Copy, Structural)]
pub enum LoaderAction {
    /// Push the function and set it as the global of its name.
    RegisterGlobal(ApiFunction),
    /// Open Lua's `package` library.
    OpenPackageLib,
    /// Open Lua's `string` library.
    OpenStringLib,
    /// Run a script file (`luaL_dofile`).
    RunFile(InitScript),
    /// Load the chunk with the game's own `luaL_loadbuffer`, saved when the
    /// inline hook was installed, and return its result.
    CallOriginal,
    /// Load the chunk with Lua's `luaL_loadbuffer` and return its result.
    CallLoadBuffer,
}

/// The script run in the first Lua state when the plugins are freed.
pub open spec fn free_plugins_script() -> Seq<char> {
    "BlurAPI.free_plugins()"@
}

/// The text of the script run when the plugins are freed.
pub fn free_plugins_script_text() -> (s: &'static str)
    ensures
        s@ == free_plugins_script(),
{
    "BlurAPI.free_plugins()"
}

/// The globals every call registers, in order.
pub open spec fn registrations() -> Seq<LoaderAction> {
    seq![
        LoaderAction::RegisterGlobal(ApiFunction::PrintDebug),
        LoaderAction::RegisterGlobal(ApiFunction::PrintApi),
        LoaderAction::RegisterGlobal(ApiFunction::Solo),
        LoaderAction::RegisterGlobal(ApiFunction::Notify),
        LoaderAction::RegisterGlobal(ApiFunction::SetFps),
    ]
}

/// What the first call does besides: open two libraries and run the entry
/// scripts, the compiled one first.
pub open spec fn first_call_setup() -> Seq<LoaderAction> {
    seq![
        LoaderAction::OpenPackageLib,
        LoaderAction::OpenStringLib,
        LoaderAction::RunFile(InitScript::Compiled),
        LoaderAction::RunFile(InitScript::Source),
    ]
}

/// The steps of one call of the hooked `luaL_loadbuffer`, given the first
/// Lua state seen so far and whether the game's original function was saved.
pub open spec fn loadbuffer_plan(first: Option<usize>, has_original: bool) -> Seq<LoaderAction> {
    registrations() + (if first is None {
        first_call_setup()
    } else {
        Seq::empty()
    }) + seq![
        if has_original {
            LoaderAction::CallOriginal
        } else {
            LoaderAction::CallLoadBuffer
        },
    ]
}

/// The first Lua state seen after a call with `state`.
pub open spec fn first_after_call(first: Option<usize>, state: usize) -> Option<usize> {
    if first is None {
        Some(state)
    } else {
        first
    }
}

/// The first Lua state seen after calls with `states`, in order.
pub open spec fn first_after_calls(first: Option<usize>, states: Seq<usize>) -> Option<usize>
    decreases states.len(),
{
    if states.len() == 0 {
        first
    } else {
        first_after_call(first_after_calls(first, states.drop_last()), states.last())
    }
}

/// What the hooked `luaL_loadbuffer` remembers between calls: the first Lua
/// state (by address) it was called with, the one the plugins run in.
pub struct LoaderState {
    first_state: Option<usize>,
}

impl View for LoaderState {
    type V = Option<usize>;

    closed spec fn view(&self) -> Option<usize> {
        self.first_state
    }
}

impl LoaderState {
    /// The state before any call.
    pub fn new() -> (s: LoaderState)
        ensures
            s@ is None,
    {
        LoaderState { first_state: None }
    }

    /// The first Lua state seen so far.
    pub fn first_state(&self) -> (s: Option<usize>)
        ensures
            s == self@,
    {
        self.first_state
    }

    /// The steps of a call of the hooked `luaL_loadbuffer` in the Lua state at
    /// address `state`: register the functions, and on the first call only
    /// open the libraries and run the entry scripts; then load the chunk.
    pub fn on_loadbuffer(&mut self, state: usize, has_original: bool) -> (actions: Vec<LoaderAction>)
        ensures
            actions@ == loadbuffer_plan(old(self)@, has_original),
            final(self)@ == first_after_call(old(self)@, state),
    {
        let mut actions: Vec<LoaderAction> = Vec::new();
        actions.push(LoaderAction::RegisterGlobal(ApiFunction::PrintDebug));
        actions.push(LoaderAction::RegisterGlobal(ApiFunction::PrintApi));
        actions.push(LoaderAction::RegisterGlobal(ApiFunction::Solo));
        actions.push(LoaderAction::RegisterGlobal(ApiFunction::Notify));
        actions.push(LoaderAction::RegisterGlobal(ApiFunction::SetFps));
        if self.first_state.is_none() {
            actions.push(LoaderAction::OpenPackageLib);
            actions.push(LoaderAction::OpenStringLib);
            actions.push(LoaderAction::RunFile(InitScript::Compiled));
            actions.push(LoaderAction::RunFile(InitScript::Source));
            self.first_state = Some(state);
        }
        if has_original {
            actions.push(LoaderAction::CallOriginal);
        } else {
            actions.push(LoaderAction::CallLoadBuffer);
        }
        assert(actions@ =~= loadbuffer_plan(old(self)@, has_original));
        actions
    }

    /// The Lua state in which the plugins are freed (by running
    /// `free_plugins_script()`), if the loader has seen one.
    pub fn free_plugins_target(&self) -> (target: Option<usize>)
        ensures
            target == self@,
    {
        self.first_state
    }
}

/// Over any sequence of calls from the start, the plugins' state is the
/// state of the first call, and only the first call runs the entry scripts.
pub proof fn lemma_setup_runs_once(states: Seq<usize>)
    requires
        states.len() > 0,
    ensures
        first_after_calls(None, states) == Some(states[0]),
        loadbuffer_plan(first_after_calls(None, states.take(0)), true) == registrations()
            + first_call_setup() + seq![LoaderAction::CallOriginal],
        forall|k: int, has_original: bool|
            0 < k < states.len() ==> !(#[trigger] loadbuffer_plan(
                first_after_calls(None, states.take(k)),
                has_original,
            ).contains(LoaderAction::RunFile(InitScript::Compiled))),
        forall|k: int, has_original: bool|
            0 < k < states.len() ==> #[trigger] loadbuffer_plan(
                first_after_calls(None, states.take(k)),
                has_original,
            ) == registrations() + seq![
                if has_original {
                    LoaderAction::CallOriginal
                } else {
                    LoaderAction::CallLoadBuffer
                },
            ],
{
    assert(states.take(0) =~= Seq::<usize>::empty());
    assert(states.take(states.len() as int) =~= states);
    lemma_first_after_prefix(states, states.len() as int);
    assert forall|k: int, has_original: bool| 0 < k < states.len() implies #[trigger] loadbuffer_plan(
        first_after_calls(None, states.take(k)),
        has_original,
    ) == registrations() + seq![
        if has_original {
            LoaderAction::CallOriginal
        } else {
            LoaderAction::CallLoadBuffer
        },
    ] by {
        lemma_first_after_prefix(states, k);
        assert(registrations() + Seq::<LoaderAction>::empty() =~= registrations());
    }
    assert forall|k: int, has_original: bool| 0 < k < states.len() implies !(#[trigger] loadbuffer_plan(
        first_after_calls(None, states.take(k)),
        has_original,
    ).contains(LoaderAction::RunFile(InitScript::Compiled))) by {
        lemma_first_after_prefix(states, k);
        let p = loadbuffer_plan(first_after_calls(None, states.take(k)), has_original);
        assert(registrations() + Seq::<LoaderAction>::empty() =~= registrations());
        if p.contains(LoaderAction::RunFile(InitScript::Compiled)) {
            let j = choose|j: int| 0 <= j < p.len() && p[j] == LoaderAction::RunFile(InitScript::Compiled);
            assert(p.len() == 6);
        }
    }
}

/// The first call of the hooked loader (no Lua state seen yet), with or
/// without the game's original function saved, registers the five
/// functions, then opens the `package` and `string` libraries, runs the
/// compiled and then the source entry script, and then loads the chunk. A
/// later call does the same but for the setup: the first call's steps are
/// the later call's, with the four setup steps put before the load.
pub proof fn lemma_first_call_sets_up(has_original: bool, seen: usize)
    ensures
        ({
            let p = loadbuffer_plan(None, has_original);
            &&& p.len() == 10
            &&& forall|i: int| 0 <= i < 5 ==> (#[trigger] p[i] is RegisterGlobal)
            &&& p[5] == LoaderAction::OpenPackageLib
            &&& p[6] == LoaderAction::OpenStringLib
            &&& p[7] == LoaderAction::RunFile(InitScript::Compiled)
            &&& p[8] == LoaderAction::RunFile(InitScript::Source)
            &&& p[9] == (if has_original {
                LoaderAction::CallOriginal
            } else {
                LoaderAction::CallLoadBuffer
            })
        }),
        ({
            let first = loadbuffer_plan(None, has_original);
            let later = loadbuffer_plan(Some(seen), has_original);
            &&& later.len() == 6
            &&& first == later.subrange(0, 5) + first_call_setup() + later.subrange(5, 6)
        }),
{
    let first = loadbuffer_plan(None, has_original);
    let later = loadbuffer_plan(Some(seen), has_original);
    assert(later =~= registrations() + seq![
        if has_original {
            LoaderAction::CallOriginal
        } else {
            LoaderAction::CallLoadBuffer
        },
    ]);
    assert(first =~= later.subrange(0, 5) + first_call_setup() + later.subrange(5, 6));
}

/// After the first `k` calls (`k > 0`), the plugins' state is that of the first call.
proof fn lemma_first_after_prefix(states: Seq<usize>, k: int)
    requires
        0 < k <= states.len(),
    ensures
        first_after_calls(None, states.take(k)) == Some(states[0]),
    decreases k,
{
    let p = states.take(k);
    if k == 1 {
        assert(p.drop_last() =~= Seq::<usize>::empty());
        assert(first_after_calls(None, p.drop_last()) == None::<usize>);
        assert(p.last() == states[0]);
    } else {
        lemma_first_after_prefix(states, k - 1);
        assert(p.drop_last() =~= states.take(k - 1));
    }
}

} // verus!
