use vstd::prelude::*;

verus! {

/// What the library needs to know of a Lua number argument.
///
/// Lua numbers are doubles; the caller reads the double from the Lua stack
/// and records here the facts that the library's decisions depend on.
pub struct LuaNumber {
    /// The number as Rust's `Display` writes an `f64` (`{}`).
    pub text: String,
    /// `f64::is_finite` of the number.
    pub finite: bool,
    /// Whether the number is below `0.0` (so `-0.0` is not negative).
    pub negative: bool,
    /// `Some(n as i64)` when `f64::is_normal` holds of the number, else `None`.
    pub normal_int: Option<i64>,
}

impl LuaNumber {
    /// The facts agree with one another as they do of a double: a normal
    /// number is finite, and its integer part (`n as i64`, which rounds
    /// toward zero) is negative only if the number is, and positive only if
    /// it is not.
    pub open spec fn wf(&self) -> bool {
        &&& self.normal_int is Some ==> self.finite
        &&& self.normal_int matches Some(code) ==> (code < 0 ==> self.negative) && (code > 0
            ==> !self.negative)
    }

    /// Whether the facts agree with one another (see `wf`).
    pub fn is_consistent(&self) -> (ok: bool)
        ensures
            ok == self.wf(),
    {
        match self.normal_int {
            Some(code) => self.finite && (code >= 0 || self.negative) && (code <= 0 || !self.negative),
            None => true,
        }
    }
}

/// One argument on the Lua stack of a call into an exposed function,
/// by the type code that `lua_type` reports for it.
pub enum LuaArg {
    /// `LUA_TNONE`: no value at that index.
    NoValue,
    /// `LUA_TNIL`.
    Nil,
    /// `LUA_TBOOLEAN`, with the truth value `lua_toboolean` gives.
    Boolean(bool),
    /// `LUA_TLIGHTUSERDATA`.
    LightUserData,
    /// `LUA_TNUMBER`, with what `lua_tonumber` gives.
    Number(LuaNumber),
    /// `LUA_TSTRING`, with the text `lua_tostring` gives.
    Str(String),
    /// `LUA_TTABLE`, with the integer that `lua_gettable` returns for it.
    Table(i32),
    /// `LUA_TFUNCTION`.
    Function,
    /// `LUA_TUSERDATA`.
    UserData,
    /// `LUA_TTHREAD`.
    Thread,
    /// Any other type code, with the name `luaL_typename` gives for it.
    Other(String),
}

} // verus!
