use vstd::prelude::*;
use crate::lua_value::LuaArg;

verus! {

/// One call that `set_fps` makes on the host's API.
#[derive(PartialEq, Eq, Debug, Clone, Copy, Structural)]
pub enum FpsRequest {
    /// Set the frame rate target to `0.0` (from `false`, or a negative number).
    Zero,
    /// Set the frame rate target to the number at this position of the
    /// argument list (0-based; Lua's stack index is one more).
    Value(usize),
}

/// What `set_fps` asks of the host for one argument at position `i`:
/// `false` turns the limit off (target `0.0`), `true` does nothing, a
/// non-finite number is skipped, a negative one becomes `0.0`, any other
/// number is the new target; every other type is ignored.
pub open spec fn fps_request_of(arg: LuaArg, i: int) -> Option<FpsRequest> {
    match arg {
        LuaArg::Boolean(b) => if b { None } else { Some(FpsRequest::Zero) },
        LuaArg::Number(n) => if !n.finite {
            None
        } else if n.negative {
            Some(FpsRequest::Zero)
        } else {
            Some(FpsRequest::Value(i as usize))
        },
        _ => None,
    }
}

pub open spec fn option_seq<T>(o: Option<T>) -> Seq<T> {
    match o {
        Some(x) => seq![x],
        None => Seq::empty(),
    }
}

/// The requests for the arguments, in order of the arguments.
pub open spec fn fps_requests_of(args: Seq<LuaArg>) -> Seq<FpsRequest>
    decreases args.len(),
{
    if args.len() == 0 {
        Seq::empty()
    } else {
        fps_requests_of(args.drop_last()) + option_seq(
            fps_request_of(args.last(), args.len() - 1),
        )
    }
}

/// The calls `set_fps` makes: none when the host's API is not there.
pub open spec fn fps_plan(args: Seq<LuaArg>, api_present: bool) -> Seq<FpsRequest> {
    if api_present {
        fps_requests_of(args)
    } else {
        Seq::empty()
    }
}

/// The number at argument `i` is one that `set_fps` may hand on as it is.
pub open spec fn usable_target(args: Seq<LuaArg>, i: int) -> bool {
    &&& 0 <= i < args.len()
    &&& args[i] matches LuaArg::Number(n)
    &&& n.finite
    &&& !n.negative
}

proof fn lemma_requests_use_usable_targets(args: Seq<LuaArg>)
    requires
        args.len() <= usize::MAX,
    ensures
        forall|k: int|
            0 <= k < fps_requests_of(args).len() ==> (#[trigger] fps_requests_of(args)[k] matches FpsRequest::Value(i) ==> usable_target(args, i as int)),
    decreases args.len(),
{
    if args.len() > 0 {
        let rest = args.drop_last();
        lemma_requests_use_usable_targets(rest);
        let r = fps_requests_of(args);
        assert forall|k: int|
            0 <= k < r.len() implies (#[trigger] r[k] matches FpsRequest::Value(i) ==> usable_target(args, i as int)) by {
            let p = fps_requests_of(rest);
            if k < p.len() {
                assert(r[k] == p[k]);
                if let FpsRequest::Value(i) = p[k] {
                    assert(usable_target(rest, i as int));
                    assert(args[i as int] == rest[i as int]);
                }
            }
        }
    }
}

/// `false`, or a finite negative number: an argument that turns the target
/// to `0.0`.
pub open spec fn turns_target_off(arg: LuaArg) -> bool {
    match arg {
        LuaArg::Boolean(b) => !b,
        LuaArg::Number(n) => n.finite && n.negative,
        _ => false,
    }
}

/// With the host's API there, every finite, non-negative number argument is
/// handed on as a target, and `false` or a finite negative number sets the
/// target to `0.0`.
pub proof fn lemma_every_argument_requested(args: Seq<LuaArg>, i: int)
    requires
        0 <= i < args.len(),
        args.len() <= usize::MAX,
    ensures
        usable_target(args, i) ==> fps_plan(args, true).contains(FpsRequest::Value(i as usize)),
        turns_target_off(args[i]) ==> fps_plan(args, true).contains(FpsRequest::Zero),
    decreases args.len(),
{
    let rest = args.drop_last();
    let prev = fps_requests_of(rest);
    let all = fps_requests_of(args);
    let tail = option_seq(fps_request_of(args.last(), args.len() - 1));
    assert(all == prev + tail);
    if i == args.len() - 1 {
        if usable_target(args, i) || turns_target_off(args[i]) {
            assert(all[prev.len() as int] == tail[0]);
        }
    } else {
        lemma_every_argument_requested(rest, i);
        assert(rest[i] == args[i]);
        if usable_target(args, i) {
            assert(usable_target(rest, i));
            let k = choose|k: int| 0 <= k < prev.len() && prev[k] == FpsRequest::Value(i as usize);
            assert(all[k] == prev[k]);
        }
        if turns_target_off(args[i]) {
            let k = choose|k: int| 0 <= k < prev.len() && prev[k] == FpsRequest::Zero;
            assert(all[k] == prev[k]);
        }
    }
}

/// Decides the calls of `set_fps` for its Lua arguments. The target handed
/// to the host is never negative and never infinite or NaN: it is `0.0` or
/// a finite, non-negative argument.
pub fn fps_requests(args: &Vec<LuaArg>, api_present: bool) -> (reqs: Vec<FpsRequest>)
    ensures
        reqs@ == fps_plan(args@, api_present),
        forall|k: int|
            0 <= k < reqs@.len() ==> (#[trigger] reqs@[k] matches FpsRequest::Value(i)
                ==> usable_target(args@, i as int)),
{
    let mut reqs: Vec<FpsRequest> = Vec::new();
    if !api_present {
        return reqs;
    }
    let n = args.len();
    for i in 0..n
        invariant
            n == args@.len(),
            reqs@ == fps_requests_of(args@.take(i as int)),
    {
        proof {
            let next = args@.take(i + 1);
            assert(next.drop_last() =~= args@.take(i as int));
            assert(next.last() == args@[i as int]);
        }
        match &args[i] {
            LuaArg::Boolean(b) => {
                if !*b {
                    reqs.push(FpsRequest::Zero);
                }
            },
            LuaArg::Number(num) => {
                if num.finite {
                    if num.negative {
                        reqs.push(FpsRequest::Zero);
                    } else {
                        reqs.push(FpsRequest::Value(i));
                    }
                }
            },
            _ => {},
        }
        assert(reqs@ =~= fps_requests_of(args@.take(i + 1)));
    }
    assert(args@.take(n as int) =~= args@);
    proof {
        lemma_requests_use_usable_targets(args@);
    }
    reqs
}

} // verus!
