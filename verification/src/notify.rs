use vstd::prelude::*;
use crate::lua_value::LuaArg;

verus! {

/// An event that `notify` forwards to the host.
#[derive(PartialEq, Eq, Debug)]
pub enum Notification {
    Nothing,
    LoginStart,
    LoginEnd { success: bool },
    Screen { name: String },
}

/// How a call of `notify` ends, after the events it sends.
#[derive(PartialEq, Eq, Debug, Clone, Copy, Structural)]
pub enum NotifyEnd {
    /// Every argument was handled; the call returns normally.
    Completed,
    /// The number at `index` (0-based) has the code `code`, which is not a
    /// known event; with the host's API there, the call warns of it and
    /// returns normally without looking at the arguments after it.
    Stopped { index: usize, code: i64 },
    /// The argument at `index` has a type `notify` does not handle yet; the
    /// call does not return normally (it panics) there.
    Panics { index: usize },
}

/// Whether `code` is one of the event codes `notify` knows: 0 to 3.
pub open spec fn known_code(code: i64) -> bool {
    0 <= code <= 3
}

/// The event `notify` sends for a known code: 0 is `Nothing`, 1 is
/// `LoginStart`, 2 is a successful `LoginEnd`, 3 is `Screen` with an empty name.
pub open spec fn is_notification_for(n: Notification, code: i64) -> bool {
    match n {
        Notification::Nothing => code == 0,
        Notification::LoginStart => code == 1,
        Notification::LoginEnd { success } => code == 2 && success,
        Notification::Screen { name } => code == 3 && name@.len() == 0,
    }
}

/// How `notify`, handling its arguments from position `i` on, ends. Numbers
/// that are zero, subnormal, infinite or NaN are skipped; a number with an
/// unknown code stops the call while the host's API is there; a type with
/// no name of its own is skipped; every other type makes the call panic.
pub open spec fn notify_end_from(args: Seq<LuaArg>, api_present: bool, i: int) -> NotifyEnd
    decreases args.len() - i,
{
    if i < 0 || i >= args.len() {
        NotifyEnd::Completed
    } else {
        match args[i] {
            LuaArg::Number(n) => match n.normal_int {
                Some(code) => if api_present && !known_code(code) {
                    NotifyEnd::Stopped { index: i as usize, code }
                } else {
                    notify_end_from(args, api_present, i + 1)
                },
                None => notify_end_from(args, api_present, i + 1),
            },
            LuaArg::Other(_) => notify_end_from(args, api_present, i + 1),
            _ => NotifyEnd::Panics { index: i as usize },
        }
    }
}

/// The codes of the events `notify` sends, in order, handling its arguments
/// from position `i` on: those of the normal numbers with a known code, up
/// to where the call ends; none when the host's API is not there.
pub open spec fn notify_codes_from(args: Seq<LuaArg>, api_present: bool, i: int) -> Seq<i64>
    decreases args.len() - i,
{
    if i < 0 || i >= args.len() {
        Seq::empty()
    } else {
        match args[i] {
            LuaArg::Number(n) => match n.normal_int {
                Some(code) => if !api_present {
                    notify_codes_from(args, api_present, i + 1)
                } else if known_code(code) {
                    seq![code] + notify_codes_from(args, api_present, i + 1)
                } else {
                    Seq::empty()
                },
                None => notify_codes_from(args, api_present, i + 1),
            },
            LuaArg::Other(_) => notify_codes_from(args, api_present, i + 1),
            _ => Seq::empty(),
        }
    }
}

/// How a call of `notify` with the arguments `args` ends.
pub open spec fn notify_end(args: Seq<LuaArg>, api_present: bool) -> NotifyEnd {
    notify_end_from(args, api_present, 0)
}

/// `notify` returns normally on these arguments.
pub open spec fn notify_accepts(args: Seq<LuaArg>, api_present: bool) -> bool {
    !(notify_end(args, api_present) is Panics)
}

/// The codes of the events `notify` sends for the arguments `args`, in
/// order; where it panics, those it sends before it does.
pub open spec fn notify_codes(args: Seq<LuaArg>, api_present: bool) -> Seq<i64> {
    notify_codes_from(args, api_present, 0)
}

/// Without the host's API, `notify` sends nothing.
pub proof fn lemma_no_events_without_host(args: Seq<LuaArg>, i: int)
    ensures
        notify_codes_from(args, false, i).len() == 0,
    decreases args.len() - i,
{
    if 0 <= i < args.len() {
        lemma_no_events_without_host(args, i + 1);
    }
}

/// An argument that `notify`, with the host's API there, handles and goes
/// on past: a number that is not normal, a number with a known code, or a
/// type with no name of its own.
pub open spec fn passes_on(arg: LuaArg) -> bool {
    match arg {
        LuaArg::Number(n) => match n.normal_int {
            Some(code) => 0 <= code <= 3,
            None => true,
        },
        LuaArg::Other(_) => true,
        _ => false,
    }
}

proof fn lemma_stops_from(args: Seq<LuaArg>, j: int, code: i64, i: int)
    requires
        0 <= i <= j < args.len(),
        args[j] matches LuaArg::Number(n) && n.normal_int == Some(code),
        !(0 <= code <= 3),
        forall|m: int| 0 <= m < j ==> passes_on(#[trigger] args[m]),
    ensures
        notify_end_from(args, true, i) == (NotifyEnd::Stopped { index: j as usize, code }),
        notify_codes_from(args, true, i) == notify_codes_from(args.take(j), true, i),
    decreases j - i,
{
    if i < j {
        lemma_stops_from(args, j, code, i + 1);
        assert(passes_on(args[i]));
        assert(args.take(j)[i] == args[i]);
    } else {
        assert(notify_codes_from(args.take(j), true, i) =~= Seq::<i64>::empty());
    }
}

/// With the host's API there, the first normal number whose code is not
/// 0 to 3 (a negative code too) ends the call: the call ends stopped at its
/// position with its code, and the events sent are only those for the
/// arguments before it.
pub proof fn lemma_unknown_code_stops(args: Seq<LuaArg>, j: int, code: i64)
    requires
        0 <= j < args.len(),
        args[j] matches LuaArg::Number(n) && n.normal_int == Some(code),
        !(0 <= code <= 3),
        forall|m: int| 0 <= m < j ==> passes_on(#[trigger] args[m]),
    ensures
        notify_end(args, true) == (NotifyEnd::Stopped { index: j as usize, code }),
        notify_codes(args, true) == notify_codes(args.take(j), true),
{
    lemma_stops_from(args, j, code, 0);
}

proof fn lemma_codes_known_from(args: Seq<LuaArg>, api_present: bool, i: int)
    ensures
        forall|k: int|
            0 <= k < notify_codes_from(args, api_present, i).len() ==> 0 <= #[trigger] notify_codes_from(
                args,
                api_present,
                i,
            )[k] <= 3,
    decreases args.len() - i,
{
    if 0 <= i < args.len() {
        lemma_codes_known_from(args, api_present, i + 1);
        let rest = notify_codes_from(args, api_present, i + 1);
        let codes = notify_codes_from(args, api_present, i);
        assert forall|k: int| 0 <= k < codes.len() implies 0 <= #[trigger] codes[k] <= 3 by {
            if let LuaArg::Number(n) = args[i] {
                if let Some(code) = n.normal_int {
                    if api_present && 0 <= code <= 3 {
                        assert(codes == seq![code] + rest);
                        if k > 0 {
                            assert(codes[k] == rest[k - 1]);
                        }
                    }
                }
            }
        }
    }
}

/// Every event `notify` sends has a code from 0 to 3.
pub proof fn lemma_sent_codes_known(args: Seq<LuaArg>, api_present: bool)
    ensures
        forall|k: int|
            0 <= k < notify_codes(args, api_present).len() ==> 0 <= #[trigger] notify_codes(
                args,
                api_present,
            )[k] <= 3,
{
    lemma_codes_known_from(args, api_present, 0);
}

fn notification_for(code: i64) -> (n: Notification)
    requires
        known_code(code),
    ensures
        is_notification_for(n, code),
{
    if code == 0 {
        Notification::Nothing
    } else if code == 1 {
        Notification::LoginStart
    } else if code == 2 {
        Notification::LoginEnd { success: true }
    } else {
        Notification::Screen { name: String::new() }
    }
}

/// What `notify` does for its Lua arguments: the events it sends to the
/// host, in order, and how the call ends after them. Where it panics, the
/// events are those it sends before it panics.
pub fn notify_outcome(args: &Vec<LuaArg>, api_present: bool) -> (outcome: (
    Vec<Notification>,
    NotifyEnd,
))
    ensures
        outcome.1 == notify_end(args@, api_present),
        outcome.0@.len() == notify_codes(args@, api_present).len(),
        forall|k: int|
            0 <= k < outcome.0@.len() ==> is_notification_for(
                #[trigger] outcome.0@[k],
                notify_codes(args@, api_present)[k],
            ),
        !api_present ==> outcome.0@.len() == 0,
{
    proof {
        lemma_no_events_without_host(args@, 0);
    }
    let mut events: Vec<Notification> = Vec::new();
    let ghost sent: Seq<i64> = Seq::empty();
    let n = args.len();
    let mut i: usize = 0;
    while i < n
        invariant
            n == args@.len(),
            i <= n,
            notify_end(args@, api_present) == notify_end_from(args@, api_present, i as int),
            notify_codes(args@, api_present) == sent + notify_codes_from(
                args@,
                api_present,
                i as int,
            ),
            events@.len() == sent.len(),
            !api_present ==> sent.len() == 0,
            forall|k: int| 0 <= k < events@.len() ==> is_notification_for(#[trigger] events@[k], sent[k]),
        decreases n - i,
    {
        let ghost rest = notify_codes_from(args@, api_present, i + 1);
        match &args[i] {
            LuaArg::Number(num) => {
                if let Some(code) = num.normal_int {
                    if api_present {
                        if 0 <= code && code <= 3 {
                            events.push(notification_for(code));
                            proof {
                                assert(sent + (seq![code] + rest) =~= sent.push(code) + rest);
                                sent = sent.push(code);
                            }
                        } else {
                            assert(sent + Seq::<i64>::empty() =~= sent);
                            return (events, NotifyEnd::Stopped { index: i, code });
                        }
                    }
                }
            },
            LuaArg::Other(_) => {},
            _ => {
                assert(sent + Seq::<i64>::empty() =~= sent);
                return (events, NotifyEnd::Panics { index: i });
            },
        }
        i = i + 1;
    }
    assert(sent + Seq::<i64>::empty() =~= sent);
    (events, NotifyEnd::Completed)
}

/// Whether `notify` would not return normally on these arguments.
pub fn notify_would_panic(args: &Vec<LuaArg>, api_present: bool) -> (panics: bool)
    ensures
        panics == !notify_accepts(args@, api_present),
{
    let (_, end) = notify_outcome(args, api_present);
    match end {
        NotifyEnd::Panics { .. } => true,
        _ => false,
    }
}

/// Decides the events `notify` sends to the host for its Lua arguments, on
/// arguments on which it returns normally.
pub fn notify_events(args: &Vec<LuaArg>, api_present: bool) -> (events: Vec<Notification>)
    requires
        notify_accepts(args@, api_present),
    ensures
        events@.len() == notify_codes(args@, api_present).len(),
        forall|k: int|
            0 <= k < events@.len() ==> is_notification_for(
                #[trigger] events@[k],
                notify_codes(args@, api_present)[k],
            ),
        !api_present ==> events@.len() == 0,
{
    let (events, _) = notify_outcome(args, api_present);
    events
}

} // verus!
