use lua_hooks::dll::{dll_entry_action, DllEntryAction};
use lua_hooks::fps::{fps_requests, FpsRequest};
use lua_hooks::loader::{ApiFunction, InitScript, LoaderAction, LoaderState, free_plugins_script_text};
use lua_hooks::lua_value::{LuaArg, LuaNumber};
use lua_hooks::notify::{notify_events, notify_outcome, notify_would_panic, Notification, NotifyEnd};
use lua_hooks::patch::{loadbuffer_call_patch, loadbuffer_fn_addr, le_bytes_of, solo_racer_patch, BytePatch};
use lua_hooks::plugin::MyLuaHooksPlugin;
use lua_hooks::printing::{api_piece_text, debug_piece_text, format_api_line, format_debug_line};
use lua_hooks::solo::solo_writes;

fn num(v: f64) -> LuaArg {
    LuaArg::Number(LuaNumber {
        text: format!("{}", v),
        finite: v.is_finite(),
        negative: v < 0.0,
        normal_int: if v.is_normal() { Some(v as i64) } else { None },
    })
}

#[test]
fn plugin_reports_its_name() {
    let plugin = MyLuaHooksPlugin::new();
    assert_eq!(plugin.name(), "LuaHooksPlugin");
}

#[test]
fn api_line_joins_pieces_with_comma() {
    let args = vec![
        LuaArg::Nil,
        LuaArg::Boolean(true),
        LuaArg::Boolean(false),
        num(1.5),
        LuaArg::Str("hi".to_string()),
        LuaArg::Table(7),
        LuaArg::NoValue,
        LuaArg::LightUserData,
        LuaArg::Function,
        LuaArg::UserData,
        LuaArg::Thread,
        LuaArg::Other("proto".to_string()),
    ];
    assert_eq!(
        format_api_line(&args),
        "nil, true, false, 1.5, hi, table (@7), None, LIGHTUSERDATA, function, USERDATA, THREAD, (proto)"
    );
}

#[test]
fn api_line_of_no_arguments_is_empty() {
    assert_eq!(format_api_line(&vec![]), "");
    assert_eq!(format_debug_line(&vec![]), "");
}

#[test]
fn api_line_puts_no_separator_after_empty_text() {
    let args = vec![LuaArg::Str(String::new()), LuaArg::Nil, LuaArg::Str(String::new()), LuaArg::Nil];
    assert_eq!(format_api_line(&args), "nil, , nil");
}

#[test]
fn debug_line_names_types() {
    let args = vec![
        LuaArg::NoValue,
        LuaArg::Nil,
        LuaArg::Boolean(true),
        LuaArg::Boolean(false),
        LuaArg::LightUserData,
        num(3.0),
        LuaArg::Str(String::new()),
        LuaArg::Table(-2),
        LuaArg::Function,
        LuaArg::UserData,
        LuaArg::Thread,
        LuaArg::Other("proto".to_string()),
    ];
    assert_eq!(
        format_debug_line(&args),
        "(LUA_TNONE), (LUA_TNIL), (LUA_TBOOLEAN) = true, (LUA_TBOOLEAN) = false, (LUA_TLIGHTUSERDATA), (LUA_TNUMBER) = 3, (LUA_TSTRING) = , (LUA_TTABLE) = -2, (LUA_TFUNCTION), (LUA_TUSERDATA), (LUA_TTHREAD), (proto)"
    );
}

#[test]
fn table_integers_print_in_decimal() {
    assert_eq!(api_piece_text(&LuaArg::Table(0)), "table (@0)");
    assert_eq!(api_piece_text(&LuaArg::Table(-305)), "table (@-305)");
    assert_eq!(api_piece_text(&LuaArg::Table(i32::MAX)), format!("table (@{})", i32::MAX));
    assert_eq!(debug_piece_text(&LuaArg::Table(i32::MIN)), format!("(LUA_TTABLE) = {}", i32::MIN));
    for t in [1, 9, 10, 99, 100, 12345, -1, -10, -99999] {
        assert_eq!(debug_piece_text(&LuaArg::Table(t)), format!("(LUA_TTABLE) = {}", t));
    }
}

#[test]
fn fps_requests_follow_argument_types() {
    let args = vec![
        LuaArg::Boolean(false),
        LuaArg::Boolean(true),
        num(60.0),
        num(-5.0),
        num(f64::NAN),
        num(f64::INFINITY),
        LuaArg::Nil,
        LuaArg::Str("30".to_string()),
        num(0.0),
    ];
    assert_eq!(
        fps_requests(&args, true),
        vec![FpsRequest::Zero, FpsRequest::Value(2), FpsRequest::Zero, FpsRequest::Value(8)]
    );
}

#[test]
fn fps_requests_need_the_host() {
    let args = vec![LuaArg::Boolean(false), num(60.0)];
    assert_eq!(fps_requests(&args, false), vec![]);
}

#[test]
fn solo_writes_each_boolean_in_order() {
    let args = vec![LuaArg::Boolean(true), LuaArg::Nil, num(1.0), LuaArg::Boolean(false)];
    assert_eq!(solo_writes(&args), vec![true, false]);
    assert_eq!(solo_writes(&vec![num(1.0)]), vec![]);
}

#[test]
fn solo_racer_byte_address_and_value() {
    assert_eq!(solo_racer_patch(0x400000, true), BytePatch { addr: 0x1225800, value: 1 });
    assert_eq!(solo_racer_patch(0x400000, false), BytePatch { addr: 0x1225800, value: 0 });
    assert_eq!(solo_racer_patch(0xFFFF_0000, true).addr, 0xFFFF_0000u32.wrapping_add(0xE25800));
}

#[test]
fn call_patch_redirects_the_call_to_the_hook() {
    let p = loadbuffer_call_patch(0x400000, 0x1000_0000);
    assert_eq!(p.call_site, 0xD66DB9);
    assert_eq!(p.operand_addr, 0xD66DBA);
    assert_eq!(p.protect_len, 5);
    assert_eq!(p.displacement, 0x1000_0000 - 0xD66DBE);
    assert_eq!(p.operand_bytes, (0x1000_0000u32 - 0xD66DBE).to_le_bytes());
    assert_eq!(p.call_site.wrapping_add(5).wrapping_add(u32::from_le_bytes(p.operand_bytes)), 0x1000_0000);
}

#[test]
fn call_patch_backwards_and_around_the_top() {
    for (base, hook) in [(0x7000_0000u32, 0x1000u32), (0xFFFF_FFF0, 0x20), (0, 0), (0x400000, 0xD66DBE)] {
        let p = loadbuffer_call_patch(base, hook);
        assert_eq!(p.call_site, base.wrapping_add(0x966DB9));
        assert_eq!(p.operand_addr, p.call_site.wrapping_add(1));
        assert_eq!(p.call_site.wrapping_add(5).wrapping_add(p.displacement), hook);
        assert_eq!(u32::from_le_bytes(p.operand_bytes), p.displacement);
    }
    assert_eq!(loadbuffer_call_patch(0x400000, 0xD66DBE).displacement, 0);
}

#[test]
fn le_bytes_are_least_significant_first() {
    assert_eq!(le_bytes_of(0x1234_5678), [0x78, 0x56, 0x34, 0x12]);
    assert_eq!(le_bytes_of(u32::MAX), [0xFF; 4]);
}

#[test]
fn loadbuffer_function_address() {
    assert_eq!(loadbuffer_fn_addr(0x400000), 0xAE41F0);
}

#[test]
fn notify_sends_known_codes_and_stops_at_unknown() {
    let args = vec![num(1.0), num(2.0), num(3.0), num(0.5), LuaArg::Other("x".to_string()), num(7.0), LuaArg::Nil];
    assert!(!notify_would_panic(&args, true));
    assert_eq!(
        notify_events(&args, true),
        vec![
            Notification::LoginStart,
            Notification::LoginEnd { success: true },
            Notification::Screen { name: String::new() },
            Notification::Nothing,
        ]
    );
}

#[test]
fn notify_skips_numbers_that_are_not_normal() {
    let args = vec![num(0.0), num(f64::NAN), num(f64::INFINITY), num(1.0)];
    assert_eq!(notify_events(&args, true), vec![Notification::LoginStart]);
}

#[test]
fn notify_panics_on_unhandled_types() {
    for arg in [LuaArg::Nil, LuaArg::NoValue, LuaArg::Boolean(true), LuaArg::Str("a".to_string()), LuaArg::Table(1), LuaArg::Function] {
        assert!(notify_would_panic(&vec![arg], true));
    }
    // Without the host nothing stops early, so a later unhandled type is reached.
    assert!(notify_would_panic(&vec![num(9.0), LuaArg::Nil], false));
    assert!(!notify_would_panic(&vec![num(9.0), LuaArg::Nil], true));
}

#[test]
fn notify_without_host_sends_nothing() {
    let args = vec![num(1.0), num(9.0), num(2.0)];
    assert_eq!(notify_events(&args, false), vec![]);
}

#[test]
fn first_loadbuffer_call_sets_up_plugins_once() {
    let mut state = LoaderState::new();
    assert_eq!(state.free_plugins_target(), None);
    let regs = vec![
        LoaderAction::RegisterGlobal(ApiFunction::PrintDebug),
        LoaderAction::RegisterGlobal(ApiFunction::PrintApi),
        LoaderAction::RegisterGlobal(ApiFunction::Solo),
        LoaderAction::RegisterGlobal(ApiFunction::Notify),
        LoaderAction::RegisterGlobal(ApiFunction::SetFps),
    ];
    let mut first = regs.clone();
    first.extend([
        LoaderAction::OpenPackageLib,
        LoaderAction::OpenStringLib,
        LoaderAction::RunFile(InitScript::Compiled),
        LoaderAction::RunFile(InitScript::Source),
        LoaderAction::CallOriginal,
    ]);
    assert_eq!(state.on_loadbuffer(0x1000, true), first);
    assert_eq!(state.first_state(), Some(0x1000));
    let mut later = regs.clone();
    later.push(LoaderAction::CallLoadBuffer);
    assert_eq!(state.on_loadbuffer(0x2000, false), later);
    assert_eq!(state.free_plugins_target(), Some(0x1000));
}

#[test]
fn global_names_and_script_paths() {
    assert_eq!(ApiFunction::PrintDebug.global_name(), "print");
    assert_eq!(ApiFunction::PrintApi.global_name(), "print_api");
    assert_eq!(ApiFunction::Solo.global_name(), "solo");
    assert_eq!(ApiFunction::Notify.global_name(), "notify");
    assert_eq!(ApiFunction::SetFps.global_name(), "set_fps");
    assert_eq!(InitScript::Compiled.path(), "amax/init.luac");
    assert_eq!(InitScript::Source.path(), "amax/init.lua");
    assert_eq!(free_plugins_script_text(), "BlurAPI.free_plugins()");
}

#[test]
fn dll_entry_reasons() {
    assert_eq!(dll_entry_action(1), DllEntryAction::Init);
    assert_eq!(dll_entry_action(0), DllEntryAction::Free);
    assert_eq!(dll_entry_action(2), DllEntryAction::Ignore);
    assert_eq!(dll_entry_action(3), DllEntryAction::Ignore);
}

#[test]
fn notify_sends_events_before_an_unhandled_argument() {
    let (events, end) = notify_outcome(&vec![num(1.0), LuaArg::Boolean(true)], true);
    assert_eq!(events, vec![Notification::LoginStart]);
    assert_eq!(end, NotifyEnd::Panics { index: 1 });
}

#[test]
fn notify_reports_the_unknown_code_it_stops_at() {
    let (events, end) = notify_outcome(&vec![num(2.0), num(7.0), LuaArg::Nil], true);
    assert_eq!(events, vec![Notification::LoginEnd { success: true }]);
    assert_eq!(end, NotifyEnd::Stopped { index: 1, code: 7 });
    let (events, end) = notify_outcome(&vec![num(7.0), LuaArg::Other("x".to_string())], false);
    assert_eq!(events, vec![]);
    assert_eq!(end, NotifyEnd::Completed);
}

#[test]
fn number_facts_agree() {
    for v in [0.0, -0.0, 0.5, -0.5, 3.0, -3.0, f64::NAN, f64::INFINITY, f64::NEG_INFINITY, 1e-310] {
        match num(v) {
            LuaArg::Number(n) => assert!(n.is_consistent()),
            _ => unreachable!(),
        }
    }
    let bad = LuaNumber { text: "1".to_string(), finite: true, negative: true, normal_int: Some(1) };
    assert!(!bad.is_consistent());
    let bad = LuaNumber { text: "inf".to_string(), finite: false, negative: false, normal_int: Some(1) };
    assert!(!bad.is_consistent());
}
