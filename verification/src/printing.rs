use vstd::prelude::*;
use crate::lua_value::{LuaArg, LuaNumber};
use crate::text::{decimal_text, push_decimal_i32};

verus! {

/// How `print_api` (the print function offered to plugins) writes one argument.
pub open spec fn api_piece(arg: LuaArg) -> Seq<char> {
    match arg {
        LuaArg::NoValue => "None"@,
        LuaArg::Nil => "nil"@,
        LuaArg::Boolean(b) => if b { "true"@ } else { "false"@ },
        LuaArg::LightUserData => "LIGHTUSERDATA"@,
        LuaArg::Number(n) => n.text@,
        LuaArg::Str(s) => s@,
        LuaArg::Table(t) => "table (@"@ + decimal_text(t as int) + ")"@,
        LuaArg::Function => "function"@,
        LuaArg::UserData => "USERDATA"@,
        LuaArg::Thread => "THREAD"@,
        LuaArg::Other(name) => "("@ + name@ + ")"@,
    }
}

/// How `print` (the game's own print, replaced by a debugging one) writes
/// one argument: its Lua type, and its value where it has a printable one.
pub open spec fn debug_piece(arg: LuaArg) -> Seq<char> {
    match arg {
        LuaArg::NoValue => "(LUA_TNONE)"@,
        LuaArg::Nil => "(LUA_TNIL)"@,
        LuaArg::Boolean(b) => if b {
            "(LUA_TBOOLEAN) = true"@
        } else {
            "(LUA_TBOOLEAN) = false"@
        },
        LuaArg::LightUserData => "(LUA_TLIGHTUSERDATA)"@,
        LuaArg::Number(n) => "(LUA_TNUMBER) = "@ + n.text@,
        LuaArg::Str(s) => "(LUA_TSTRING) = "@ + s@,
        LuaArg::Table(t) => "(LUA_TTABLE) = "@ + decimal_text(t as int),
        LuaArg::Function => "(LUA_TFUNCTION)"@,
        LuaArg::UserData => "(LUA_TUSERDATA)"@,
        LuaArg::Thread => "(LUA_TTHREAD)"@,
        LuaArg::Other(name) => "("@ + name@ + ")"@,
    }
}

/// Adds one piece to a line: a `", "` goes before it only when the line
/// written so far is not empty.
pub open spec fn append_piece(line: Seq<char>, piece: Seq<char>) -> Seq<char> {
    if line.len() == 0 {
        piece
    } else {
        line + ", "@ + piece
    }
}

/// The line that the print functions build from their pieces, in order.
pub open spec fn line_of(pieces: Seq<Seq<char>>) -> Seq<char>
    decreases pieces.len(),
{
    if pieces.len() == 0 {
        Seq::empty()
    } else {
        append_piece(line_of(pieces.drop_last()), pieces.last())
    }
}

/// The pieces joined with `sep` between each two neighbours.
pub open spec fn joined(pieces: Seq<Seq<char>>, sep: Seq<char>) -> Seq<char>
    decreases pieces.len(),
{
    if pieces.len() == 0 {
        Seq::empty()
    } else if pieces.len() == 1 {
        pieces[0]
    } else {
        joined(pieces.drop_last(), sep) + sep + pieces.last()
    }
}

pub open spec fn api_pieces(args: Seq<LuaArg>) -> Seq<Seq<char>> {
    args.map_values(|a: LuaArg| api_piece(a))
}

pub open spec fn debug_pieces(args: Seq<LuaArg>) -> Seq<Seq<char>> {
    args.map_values(|a: LuaArg| debug_piece(a))
}

/// The text `print_api` prints for the arguments `args`.
pub open spec fn api_line(args: Seq<LuaArg>) -> Seq<char> {
    line_of(api_pieces(args))
}

/// The text the debugging `print` prints for the arguments `args`.
pub open spec fn debug_line(args: Seq<LuaArg>) -> Seq<char> {
    line_of(debug_pieces(args))
}

/// The line ends with its last piece, so it is at least as long.
proof fn lemma_line_ends_with_last(pieces: Seq<Seq<char>>)
    requires
        pieces.len() > 0,
    ensures
        line_of(pieces).len() >= pieces.last().len(),
{
}

/// When no piece is empty, the line is the pieces joined with `", "`.
pub proof fn lemma_line_of_nonempty_pieces_is_joined(pieces: Seq<Seq<char>>)
    requires
        forall|i: int| 0 <= i < pieces.len() ==> #[trigger] pieces[i].len() > 0,
    ensures
        line_of(pieces) == joined(pieces, ", "@),
    decreases pieces.len(),
{
    if pieces.len() >= 2 {
        let rest = pieces.drop_last();
        assert forall|i: int| 0 <= i < rest.len() implies #[trigger] rest[i].len() > 0 by {
            assert(rest[i] == pieces[i]);
        }
        lemma_line_of_nonempty_pieces_is_joined(rest);
        lemma_line_ends_with_last(rest);
        assert(rest.last() == pieces[pieces.len() - 2]);
    } else if pieces.len() == 1 {
        assert(line_of(pieces.drop_last()) =~= Seq::<char>::empty());
    }
}

/// Every piece of the debugging `print` is non-empty.
pub proof fn lemma_debug_piece_nonempty(arg: LuaArg)
    ensures
        debug_piece(arg).len() > 0,
{
    reveal_strlit("(LUA_TNONE)");
    reveal_strlit("(LUA_TNIL)");
    reveal_strlit("(LUA_TBOOLEAN) = true");
    reveal_strlit("(LUA_TBOOLEAN) = false");
    reveal_strlit("(LUA_TLIGHTUSERDATA)");
    reveal_strlit("(LUA_TNUMBER) = ");
    reveal_strlit("(LUA_TSTRING) = ");
    reveal_strlit("(LUA_TTABLE) = ");
    reveal_strlit("(LUA_TFUNCTION)");
    reveal_strlit("(LUA_TUSERDATA)");
    reveal_strlit("(LUA_TTHREAD)");
    reveal_strlit("(");
}

/// The debugging `print` writes its arguments joined with `", "`, one piece
/// per argument, in order.
pub proof fn lemma_debug_line_is_joined(args: Seq<LuaArg>)
    ensures
        debug_line(args) == joined(debug_pieces(args), ", "@),
{
    let pieces = debug_pieces(args);
    assert forall|i: int| 0 <= i < pieces.len() implies #[trigger] pieces[i].len() > 0 by {
        lemma_debug_piece_nonempty(args[i]);
    }
    lemma_line_of_nonempty_pieces_is_joined(pieces);
}

/// `needle` stands, character for character, somewhere in `hay`.
pub open spec fn occurs_in(needle: Seq<char>, hay: Seq<char>) -> bool {
    exists|off: int|
        0 <= off && off + needle.len() <= hay.len() && #[trigger] hay.subrange(
            off,
            off + needle.len(),
        ) == needle
}

proof fn lemma_occurs_at(needle: Seq<char>, hay: Seq<char>, off: int)
    requires
        0 <= off,
        off + needle.len() <= hay.len(),
        hay.subrange(off, off + needle.len()) == needle,
    ensures
        occurs_in(needle, hay),
{
}

/// What stands in a piece stands in every text that holds the piece.
proof fn lemma_occurs_transitive(a: Seq<char>, b: Seq<char>, c: Seq<char>)
    requires
        occurs_in(a, b),
        occurs_in(b, c),
    ensures
        occurs_in(a, c),
{
    let o1 = choose|off: int|
        0 <= off && off + a.len() <= b.len() && #[trigger] b.subrange(off, off + a.len()) == a;
    let o2 = choose|off: int|
        0 <= off && off + b.len() <= c.len() && #[trigger] c.subrange(off, off + b.len()) == b;
    assert(c.subrange(o2 + o1, o2 + o1 + a.len()) =~= b.subrange(o1, o1 + a.len()));
    lemma_occurs_at(a, c, o2 + o1);
}

/// Every piece stands whole in the line built from the pieces.
pub proof fn lemma_piece_in_line(pieces: Seq<Seq<char>>, k: int)
    requires
        0 <= k < pieces.len(),
    ensures
        occurs_in(pieces[k], line_of(pieces)),
    decreases pieces.len(),
{
    let rest = pieces.drop_last();
    let prev = line_of(rest);
    let line = line_of(pieces);
    let last = pieces.last();
    if k == pieces.len() - 1 {
        let off = line.len() - last.len();
        assert(line.subrange(off, off + last.len()) =~= last);
        lemma_occurs_at(last, line, off);
    } else {
        lemma_piece_in_line(rest, k);
        assert(rest[k] == pieces[k]);
        let piece = pieces[k];
        let off = choose|off: int|
            0 <= off && off + piece.len() <= prev.len() && #[trigger] prev.subrange(
                off,
                off + piece.len(),
            ) == piece;
        if prev.len() == 0 {
            assert(piece.len() == 0);
            assert(line.subrange(0, 0) =~= piece);
            lemma_occurs_at(piece, line, 0);
        } else {
            assert(line == prev + ", "@ + last);
            assert(line.subrange(off, off + piece.len()) =~= prev.subrange(off, off + piece.len()));
            lemma_occurs_at(piece, line, off);
        }
    }
}

/// The plugins' print writes a number as its text and a string as itself,
/// and that text stands in the printed line.
pub proof fn lemma_api_line_shows_values(args: Seq<LuaArg>, k: int)
    requires
        0 <= k < args.len(),
    ensures
        args[k] matches LuaArg::Number(n) ==> api_piece(args[k]) == n.text@ && occurs_in(
            n.text@,
            api_line(args),
        ),
        args[k] matches LuaArg::Str(s) ==> api_piece(args[k]) == s@ && occurs_in(
            s@,
            api_line(args),
        ),
{
    lemma_piece_in_line(api_pieces(args), k);
}

/// The debugging print writes a string argument as `(LUA_TSTRING) = `
/// followed by the string itself, and a number as `(LUA_TNUMBER) = `
/// followed by its text; that text stands in the printed line.
pub proof fn lemma_debug_line_shows_values(args: Seq<LuaArg>, k: int)
    requires
        0 <= k < args.len(),
    ensures
        args[k] matches LuaArg::Str(s) ==> debug_piece(args[k]) == "(LUA_TSTRING) = "@ + s@
            && occurs_in(s@, debug_line(args)),
        args[k] matches LuaArg::Number(n) ==> debug_piece(args[k]) == "(LUA_TNUMBER) = "@
            + n.text@ && occurs_in(n.text@, debug_line(args)),
{
    let piece = debug_piece(args[k]);
    lemma_piece_in_line(debug_pieces(args), k);
    assert(debug_pieces(args)[k] == piece);
    match args[k] {
        LuaArg::Str(s) => {
            reveal_strlit("(LUA_TSTRING) = ");
            let off = "(LUA_TSTRING) = "@.len() as int;
            assert(piece.subrange(off, off + s@.len()) =~= s@);
            lemma_occurs_at(s@, piece, off);
            lemma_occurs_transitive(s@, piece, debug_line(args));
        },
        LuaArg::Number(n) => {
            reveal_strlit("(LUA_TNUMBER) = ");
            let off = "(LUA_TNUMBER) = "@.len() as int;
            assert(piece.subrange(off, off + n.text@.len()) =~= n.text@);
            lemma_occurs_at(n.text@, piece, off);
            lemma_occurs_transitive(n.text@, piece, debug_line(args));
        },
        _ => {},
    }
}

fn number_text(n: &LuaNumber) -> (s: String)
    ensures
        s@ == n.text@,
{
    n.text.clone()
}

/// The piece `print_api` writes for one argument.
pub fn api_piece_text(arg: &LuaArg) -> (s: String)
    ensures
        s@ == api_piece(*arg),
{
    match arg {
        LuaArg::NoValue => String::from_str("None"),
        LuaArg::Nil => String::from_str("nil"),
        LuaArg::Boolean(b) => if *b {
            String::from_str("true")
        } else {
            String::from_str("false")
        },
        LuaArg::LightUserData => String::from_str("LIGHTUSERDATA"),
        LuaArg::Number(n) => number_text(n),
        LuaArg::Str(s) => s.clone(),
        LuaArg::Table(t) => {
            let mut s = String::from_str("table (@");
            push_decimal_i32(&mut s, *t);
            s.append(")");
            s
        },
        LuaArg::Function => String::from_str("function"),
        LuaArg::UserData => String::from_str("USERDATA"),
        LuaArg::Thread => String::from_str("THREAD"),
        LuaArg::Other(name) => {
            let mut s = String::from_str("(");
            s.append(name.as_str());
            s.append(")");
            s
        },
    }
}

/// The piece the debugging `print` writes for one argument.
pub fn debug_piece_text(arg: &LuaArg) -> (s: String)
    ensures
        s@ == debug_piece(*arg),
{
    match arg {
        LuaArg::NoValue => String::from_str("(LUA_TNONE)"),
        LuaArg::Nil => String::from_str("(LUA_TNIL)"),
        LuaArg::Boolean(b) => if *b {
            String::from_str("(LUA_TBOOLEAN) = true")
        } else {
            String::from_str("(LUA_TBOOLEAN) = false")
        },
        LuaArg::LightUserData => String::from_str("(LUA_TLIGHTUSERDATA)"),
        LuaArg::Number(n) => {
            let mut s = String::from_str("(LUA_TNUMBER) = ");
            s.append(n.text.as_str());
            s
        },
        LuaArg::Str(t) => {
            let mut s = String::from_str("(LUA_TSTRING) = ");
            s.append(t.as_str());
            s
        },
        LuaArg::Table(t) => {
            let mut s = String::from_str("(LUA_TTABLE) = ");
            push_decimal_i32(&mut s, *t);
            s
        },
        LuaArg::Function => String::from_str("(LUA_TFUNCTION)"),
        LuaArg::UserData => String::from_str("(LUA_TUSERDATA)"),
        LuaArg::Thread => String::from_str("(LUA_TTHREAD)"),
        LuaArg::Other(name) => {
            let mut s = String::from_str("(");
            s.append(name.as_str());
            s.append(")");
            s
        },
    }
}

fn push_piece(line: &mut String, piece: &String)
    ensures
        final(line)@ == append_piece(old(line)@, piece@),
{
    if !line.as_str().is_empty() {
        line.append(", ");
    }
    line.append(piece.as_str());
}

/// The text `print_api` prints (in cyan) for the Lua arguments `args`.
pub fn format_api_line(args: &Vec<LuaArg>) -> (line: String)
    ensures
        line@ == api_line(args@),
{
    let mut line = String::new();
    let n = args.len();
    for i in 0..n
        invariant
            n == args@.len(),
            line@ == line_of(api_pieces(args@.take(i as int))),
    {
        let piece = api_piece_text(&args[i]);
        push_piece(&mut line, &piece);
        proof {
            let next = api_pieces(args@.take(i + 1));
            assert(next.drop_last() =~= api_pieces(args@.take(i as int)));
            assert(next.last() == piece@);
        }
    }
    assert(args@.take(n as int) =~= args@);
    line
}

/// The text the debugging `print` prints (in green) for the Lua arguments
/// `args`: their pieces joined with `", "`.
pub fn format_debug_line(args: &Vec<LuaArg>) -> (line: String)
    ensures
        line@ == debug_line(args@),
        line@ == joined(debug_pieces(args@), ", "@),
{
    let mut line = String::new();
    let n = args.len();
    for i in 0..n
        invariant
            n == args@.len(),
            line@ == line_of(debug_pieces(args@.take(i as int))),
    {
        let piece = debug_piece_text(&args[i]);
        push_piece(&mut line, &piece);
        proof {
            let next = debug_pieces(args@.take(i + 1));
            assert(next.drop_last() =~= debug_pieces(args@.take(i as int)));
            assert(next.last() == piece@);
        }
    }
    assert(args@.take(n as int) =~= args@);
    proof {
        lemma_debug_line_is_joined(args@);
    }
    line
}

} // verus!
