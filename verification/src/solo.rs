use vstd::prelude::*;
use crate::lua_value::LuaArg;

verus! {

/// The values `solo` writes to the game's solo-racer flag, one per boolean
/// argument, in the order of the arguments; other arguments are ignored.
pub open spec fn solo_writes_of(args: Seq<LuaArg>) -> Seq<bool>
    decreases args.len(),
{
    if args.len() == 0 {
        Seq::empty()
    } else {
        solo_writes_of(args.drop_last()) + match args.last() {
            LuaArg::Boolean(b) => seq![b],
            _ => Seq::empty(),
        }
    }
}

/// Decides the writes `solo` makes for its Lua arguments.
pub fn solo_writes(args: &Vec<LuaArg>) -> (writes: Vec<bool>)
    ensures
        writes@ == solo_writes_of(args@),
{
    let mut writes: Vec<bool> = Vec::new();
    let n = args.len();
    for i in 0..n
        invariant
            n == args@.len(),
            writes@ == solo_writes_of(args@.take(i as int)),
    {
        proof {
            let next = args@.take(i + 1);
            assert(next.drop_last() =~= args@.take(i as int));
            assert(next.last() == args@[i as int]);
        }
        if let LuaArg::Boolean(b) = &args[i] {
            writes.push(*b);
        }
        assert(writes@ =~= solo_writes_of(args@.take(i + 1)));
    }
    assert(args@.take(n as int) =~= args@);
    writes
}

} // verus!
