use vstd::prelude::*;

verus! {

/// Whether `c` has the Unicode property White_Space.
pub open spec fn is_white_space(c: char) -> bool {
    let u = c as u32;
    ||| 0x9 <= u <= 0xD
    ||| u == 0x20
    ||| u == 0x85
    ||| u == 0xA0
    ||| u == 0x1680
    ||| 0x2000 <= u <= 0x200A
    ||| u == 0x2028
    ||| u == 0x2029
    ||| u == 0x202F
    ||| u == 0x205F
    ||| u == 0x3000
}

pub open spec fn trim_start(s: Seq<char>) -> Seq<char>
    decreases s.len(),
{
    if s.len() > 0 && is_white_space(s[0]) {
        trim_start(s.drop_first())
    } else {
        s
    }
}

pub open spec fn trim_end(s: Seq<char>) -> Seq<char>
    decreases s.len(),
{
    if s.len() > 0 && is_white_space(s.last()) {
        trim_end(s.drop_last())
    } else {
        s
    }
}

/// `s` without its leading and trailing whitespace.
pub open spec fn trimmed(s: Seq<char>) -> Seq<char> {
    trim_end(trim_start(s))
}

/// The pieces of `s` between slashes, empty ones included, in order.
pub open spec fn split_slash(s: Seq<char>) -> Seq<Seq<char>>
    decreases s.len(),
{
    if s.len() == 0 {
        seq![Seq::<char>::empty()]
    } else {
        let rest = split_slash(s.drop_last());
        if s.last() == '/' {
            rest.push(Seq::<char>::empty())
        } else {
            rest.update(rest.len() - 1, rest.last().push(s.last()))
        }
    }
}

/// One path segment as written in a joined path: nothing for an empty
/// piece, else the piece after a slash (`trailing` false) or before one.
pub open spec fn piece_text(p: Seq<char>, trailing: bool) -> Seq<char> {
    if p.len() == 0 {
        Seq::empty()
    } else if trailing {
        p + "/"@
    } else {
        "/"@ + p
    }
}

pub open spec fn render(pieces: Seq<Seq<char>>, trailing: bool) -> Seq<char>
    decreases pieces.len(),
{
    if pieces.len() == 0 {
        Seq::empty()
    } else {
        render(pieces.drop_last(), trailing) + piece_text(pieces.last(), trailing)
    }
}

/// The non-empty segments of `path`, written `/a/b`, or `/a/b/` when
/// `trailing`.
pub open spec fn joined_path(path: Seq<char>, trailing: bool) -> Seq<char> {
    if trailing {
        "/"@ + render(split_slash(path), true)
    } else {
        render(split_slash(path), false)
    }
}

/// Whether `s` holds the two characters `a`, `b` next to each other.
pub open spec fn contains_pair(s: Seq<char>, a: char, b: char) -> bool {
    exists|i: int| 0 <= i < s.len() - 1 && s[i] == a && #[trigger] s[i + 1] == b
}

/// `s` with each occurrence of `a` followed by `b` replaced by `rep`,
/// scanning from the left without overlaps.
pub open spec fn replace_all(s: Seq<char>, a: char, b: char, rep: Seq<char>) -> Seq<char>
    decreases s.len(),
{
    if s.len() < 2 {
        s
    } else if s[0] == a && s[1] == b {
        rep + replace_all(s.subrange(2, s.len() as int), a, b, rep)
    } else {
        seq![s[0]] + replace_all(s.subrange(1, s.len() as int), a, b, rep)
    }
}

/// An argument with its path placeholder filled in from `path`: `/-` stands
/// for the path written `/a/b`, and, in an argument without `/-`, `-/`
/// stands for it written `/a/b/`.
pub open spec fn expanded(arg: Seq<char>, path: Seq<char>) -> Seq<char> {
    if contains_pair(arg, '/', '-') {
        replace_all(arg, '/', '-', joined_path(path, false))
    } else if contains_pair(arg, '-', '/') {
        replace_all(arg, '-', '/', joined_path(path, true))
    } else {
        arg
    }
}

/// Relies on str::trim: the text without its leading and trailing
/// whitespace, whitespace being the characters with the Unicode property
/// White_Space.
#[verifier::external_body]
fn trim(s: &str) -> (r: &str)
    ensures
        r@ == trimmed(s@),
{
    s.trim()
}

fn push_piece(out: &mut String, piece: &str, trailing: bool)
    ensures
        final(out)@ == old(out)@ + piece_text(piece@, trailing),
{
    if piece.unicode_len() == 0 {
        proof {
            assert(final(out)@ =~= old(out)@ + piece_text(piece@, trailing));
        }
    } else if trailing {
        out.append(piece);
        out.append("/");
    } else {
        out.append("/");
        out.append(piece);
    }
    proof {
        assert(final(out)@ =~= old(out)@ + piece_text(piece@, trailing));
    }
}

/// Joins the non-empty slash-separated segments of `path` as `/a/b`, or as
/// `/a/b/` when `trailing`.
pub fn join_path_segments(path: &str, trailing: bool) -> (r: String)
    ensures
        r@ == joined_path(path@, trailing),
{
    let n = path.unicode_len();
    let mut out = if trailing { String::from_str("/") } else { String::new() };
    let ghost prefix: Seq<char> = if trailing { "/"@ } else { Seq::empty() };
    let mut start: usize = 0;
    let mut i: usize = 0;
    proof {
        assert(path@.take(0) =~= Seq::<char>::empty());
        assert(split_slash(Seq::<char>::empty()).drop_last() =~= Seq::<Seq<char>>::empty());
        assert(out@ =~= prefix + render(Seq::<Seq<char>>::empty(), trailing));
        assert(path@.subrange(0, 0) =~= Seq::<char>::empty());
    }
    while i < n
        invariant
            n == path@.len(),
            0 <= start <= i <= n,
            split_slash(path@.take(i as int)).len() >= 1,
            split_slash(path@.take(i as int)).last() == path@.subrange(start as int, i as int),
            out@ == prefix + render(split_slash(path@.take(i as int)).drop_last(), trailing),
            prefix == (if trailing { "/"@ } else { Seq::<char>::empty() }),
        decreases n - i,
    {
        let c = path.get_char(i);
        let ghost before = split_slash(path@.take(i as int));
        proof {
            let t = path@.take(i + 1);
            assert(t.drop_last() =~= path@.take(i as int));
            assert(t.last() == c);
        }
        if c == '/' {
            let piece = path.substring_char(start, i);
            push_piece(&mut out, piece, trailing);
            start = i + 1;
            proof {
                let after = split_slash(path@.take(i + 1));
                assert(after == before.push(Seq::<char>::empty()));
                assert(after.drop_last() =~= before);
                assert(before =~= before.drop_last().push(before.last()));
                assert(render(before, trailing) == render(before.drop_last(), trailing) + piece_text(before.last(), trailing));
                assert(out@ =~= prefix + render(after.drop_last(), trailing));
                assert(path@.subrange(start as int, i + 1) =~= Seq::<char>::empty());
            }
        } else {
            proof {
                let after = split_slash(path@.take(i + 1));
                assert(after == before.update(before.len() - 1, before.last().push(c)));
                assert(after.drop_last() =~= before.drop_last());
                assert(path@.subrange(start as int, i + 1) =~= path@.subrange(start as int, i as int).push(c));
            }
        }
        i = i + 1;
    }
    let piece = path.substring_char(start, n);
    push_piece(&mut out, piece, trailing);
    proof {
        let all = split_slash(path@.take(n as int));
        assert(path@.take(n as int) =~= path@);
        assert(all =~= all.drop_last().push(all.last()));
        assert(render(all, trailing) == render(all.drop_last(), trailing) + piece_text(all.last(), trailing));
        assert(out@ =~= prefix + render(all, trailing));
    }
    out
}

/// Whether `s` holds `a` directly followed by `b`.
pub fn has_pair(s: &str, a: char, b: char) -> (r: bool)
    ensures
        r == contains_pair(s@, a, b),
{
    let n = s.unicode_len();
    let mut i: usize = 0;
    while n - i >= 2
        invariant
            n == s@.len(),
            0 <= i <= n,
            forall|j: int| 0 <= j < i ==> !(s@[j] == a && #[trigger] s@[j + 1] == b),
        decreases n - i,
    {
        if s.get_char(i) == a && s.get_char(i + 1) == b {
            assert(s@[i as int] == a && s@[i + 1] == b);
            return true;
        }
        i = i + 1;
    }
    proof {
        assert forall|j: int| 0 <= j < s@.len() - 1 && s@[j] == a implies !(#[trigger] s@[j + 1] == b) by {
            assert(j < i);
        }
    }
    false
}

/// `s` with each occurrence of `a` followed by `b` replaced by `rep`.
pub fn replace_pair(s: &str, a: char, b: char, rep: &str) -> (r: String)
    ensures
        r@ == replace_all(s@, a, b, rep@),
{
    let n = s.unicode_len();
    let mut out = String::new();
    let mut start: usize = 0;
    let mut i: usize = 0;
    proof {
        assert(s@.subrange(0, 0) =~= Seq::<char>::empty());
        assert(s@.subrange(0, n as int) =~= s@);
        assert(replace_all(s@, a, b, rep@) =~= out@ + s@.subrange(0, 0) + replace_all(s@.subrange(0, n as int), a, b, rep@));
    }
    while n - i >= 2
        invariant
            n == s@.len(),
            0 <= start <= i <= n,
            replace_all(s@, a, b, rep@) == out@ + s@.subrange(start as int, i as int) + replace_all(
                s@.subrange(i as int, n as int),
                a,
                b,
                rep@,
            ),
        decreases n - i,
    {
        let rest = Ghost(s@.subrange(i as int, n as int));
        if s.get_char(i) == a && s.get_char(i + 1) == b {
            let pending = s.substring_char(start, i);
            let ghost old_out = out@;
            out.append(pending);
            out.append(rep);
            proof {
                assert(rest@.subrange(2, rest@.len() as int) =~= s@.subrange(i + 2, n as int));
                assert(s@.subrange(i + 2, i + 2) =~= Seq::<char>::empty());
                assert(out@ + s@.subrange(i + 2, i + 2) =~= old_out + s@.subrange(start as int, i as int) + rep@);
            }
            i = i + 2;
            start = i;
        } else {
            proof {
                assert(rest@.subrange(1, rest@.len() as int) =~= s@.subrange(i + 1, n as int));
                assert(s@.subrange(start as int, i + 1) =~= s@.subrange(start as int, i as int) + seq![s@[i as int]]);
            }
            i = i + 1;
        }
    }
    let tail = s.substring_char(start, n);
    proof {
        assert(s@.subrange(start as int, n as int) =~= s@.subrange(start as int, i as int) + s@.subrange(i as int, n as int));
    }
    out.append(tail);
    out
}

/// Whether `arg` has a path placeholder, `/-` or `-/`, to be filled in.
pub fn needs_path(arg: &str) -> (r: bool)
    ensures
        r == (contains_pair(arg@, '/', '-') || contains_pair(arg@, '-', '/')),
{
    has_pair(arg, '/', '-') || has_pair(arg, '-', '/')
}

/// Fills in the path placeholder of `arg` from `path` (already trimmed).
pub fn expand_argument(arg: &str, path: &str) -> (r: String)
    ensures
        r@ == expanded(arg@, path@),
{
    if has_pair(arg, '/', '-') {
        let joined = join_path_segments(path, false);
        replace_pair(arg, '/', '-', joined.as_str())
    } else if has_pair(arg, '-', '/') {
        let joined = join_path_segments(path, true);
        replace_pair(arg, '-', '/', joined.as_str())
    } else {
        String::from_str(arg)
    }
}

/// Fills in the path placeholder of `arg` from a line of input, ignoring the
/// whitespace around it.
pub fn replace_hyphen_with_line(arg: &str, line: &str) -> (r: String)
    ensures
        r@ == expanded(arg@, trimmed(line@)),
{
    expand_argument(arg, trim(line))
}

} // verus!
