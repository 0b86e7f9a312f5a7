[package]
name = "lua_hooks"
version = "0.1.0"
edition = "2021"
publish = false

[dependencies]
colored = "2"
cstr = "0.2"
log = "0.4"
log-panics = "2"
minhook-sys = "0.1"
mlua-sys = { version = "0.6", features = ["lua51", "module"] }
simplelog = "0.12"
windows = { version = "0.58", features = ["Win32_Foundation", "Win32_System_Memory", "Win32_System_LibraryLoader", "Win32_System_SystemServices"] }
