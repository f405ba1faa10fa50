//! Character-level text utilities: prefix tests, whitespace and quote
//! removal, splitting on a separator character, and path-component
//! arithmetic. Each executable function is proved against a recursive
//! specification over `Seq<char>`.

use vstd::prelude::*;
use vstd::string::*;

verus! {

/// Relies on `String::push`: appends one character at the end of the string.
pub assume_specification[ String::push ](s: &mut String, c: char)
    ensures
        final(s)@ == old(s)@.push(c),
;

pub open spec fn is_space_char(c: char) -> bool {
    c == ' ' || c == '\t'
}

pub open spec fn is_quote_char(c: char) -> bool {
    c == '"' || c == '\''
}

/// The text with its leading spaces and tabs removed.
pub open spec fn spec_strip_leading_ws(s: Seq<char>) -> Seq<char>
    decreases s.len(),
{
    if s.len() > 0 && is_space_char(s.first()) {
        spec_strip_leading_ws(s.drop_first())
    } else {
        s
    }
}

/// Whether `s` begins with the prefix `p`.
pub open spec fn spec_starts_with(s: Seq<char>, p: Seq<char>) -> bool {
    p.len() <= s.len() && (forall|i: int| 0 <= i < p.len() ==> s[i] == p[i])
}

/// The text with every double and single quote removed.
pub open spec fn spec_remove_quotes(s: Seq<char>) -> Seq<char>
    decreases s.len(),
{
    if s.len() == 0 {
        Seq::empty()
    } else if is_quote_char(s.first()) {
        spec_remove_quotes(s.drop_first())
    } else {
        seq![s.first()] + spec_remove_quotes(s.drop_first())
    }
}

/// The text with every space and tab removed.
pub open spec fn spec_remove_ws(s: Seq<char>) -> Seq<char>
    decreases s.len(),
{
    if s.len() == 0 {
        Seq::empty()
    } else if is_space_char(s.first()) {
        spec_remove_ws(s.drop_first())
    } else {
        seq![s.first()] + spec_remove_ws(s.drop_first())
    }
}

/// The text with every occurrence of the version-constraint operator `~>`
/// removed, scanning left to right.
pub open spec fn spec_remove_arrow(s: Seq<char>) -> Seq<char>
    decreases s.len(),
{
    if s.len() >= 2 && s.first() == '~' && s[1] == '>' {
        spec_remove_arrow(s.skip(2))
    } else if s.len() > 0 {
        seq![s.first()] + spec_remove_arrow(s.drop_first())
    } else {
        Seq::empty()
    }
}

/// The segments of `s` between occurrences of `sep`: one segment more than
/// there are separators, so always at least one (possibly empty) segment.
pub open spec fn spec_split_char(s: Seq<char>, sep: char) -> Seq<Seq<char>>
    decreases s.len(),
{
    if s.len() == 0 {
        seq![Seq::empty()]
    } else {
        let r = spec_split_char(s.drop_last(), sep);
        if s.last() == sep {
            r.push(Seq::empty())
        } else {
            r.update(r.len() - 1, r.last().push(s.last()))
        }
    }
}

/// One trailing carriage return removed, if present.
pub open spec fn spec_strip_tail_cr(s: Seq<char>) -> Seq<char> {
    if s.len() > 0 && s.last() == '\r' {
        s.drop_last()
    } else {
        s
    }
}

/// The lines of `s`, split at newlines, as Rust's `str::lines` yields them:
/// a trailing newline closes the last line rather than opening an empty one,
/// and each line loses one trailing carriage return.
pub open spec fn spec_lines(s: Seq<char>) -> Seq<Seq<char>> {
    if s.len() == 0 {
        Seq::empty()
    } else {
        let base = if s.last() == '\n' {
            spec_split_char(s.drop_last(), '\n')
        } else {
            spec_split_char(s, '\n')
        };
        base.map_values(|l: Seq<char>| spec_strip_tail_cr(l))
    }
}

/// The largest index of `c` in `s`, or -1 when `c` does not occur.
pub open spec fn spec_rfind(s: Seq<char>, c: char) -> int
    decreases s.len(),
{
    if s.len() == 0 {
        -1
    } else if s.last() == c {
        s.len() - 1
    } else {
        spec_rfind(s.drop_last(), c)
    }
}

/// The final path component: the text after the last `/`.
pub open spec fn spec_file_name(s: Seq<char>) -> Seq<char> {
    s.skip(spec_rfind(s, '/') + 1)
}

/// The file name without its last extension: the text before the final `.`,
/// unless the name has no dot or begins with its only dot.
pub open spec fn spec_file_stem(s: Seq<char>) -> Seq<char> {
    if spec_rfind(s, '.') <= 0 {
        s
    } else {
        s.take(spec_rfind(s, '.'))
    }
}

/// `dir`, a slash, then `rel`.
pub open spec fn spec_join(dir: Seq<char>, rel: Seq<char>) -> Seq<char> {
    dir + seq!['/'] + rel
}

/// Whether `s` begins with the prefix `p`.
pub fn starts_with(s: &str, p: &str) -> (r: bool)
    ensures
        r == spec_starts_with(s@, p@),
{
    let sn = s.unicode_len();
    let pn = p.unicode_len();
    if pn > sn {
        return false;
    }
    let mut i: usize = 0;
    while i < pn
        invariant
            i <= pn,
            pn <= sn,
            pn == p@.len(),
            sn == s@.len(),
            forall|k: int| 0 <= k < i ==> s@[k] == p@[k],
        decreases pn - i,
    {
        if s.get_char(i) != p.get_char(i) {
            return false;
        }
        i = i + 1;
    }
    true
}

/// The string with its leading spaces and tabs removed.
pub fn strip_leading_ws(s: &str) -> (r: String)
    ensures
        r@ == spec_strip_leading_ws(s@),
{
    let n = s.unicode_len();
    let mut i: usize = 0;
    let mut more = true;
    proof {
        assert(s@.skip(0) =~= s@);
    }
    while more && i < n
        invariant
            i <= n,
            n == s@.len(),
            spec_strip_leading_ws(s@) == spec_strip_leading_ws(s@.skip(i as int)),
            !more ==> spec_strip_leading_ws(s@.skip(i as int)) == s@.skip(i as int),
        decreases n - i, (if more { 1int } else { 0int }),
    {
        let c = s.get_char(i);
        if c == ' ' || c == '\t' {
            proof {
                assert(s@.skip(i as int).drop_first() =~= s@.skip(i as int + 1));
            }
            i = i + 1;
        } else {
            proof {
                assert(s@.skip(i as int).first() == s@[i as int]);
            }
            more = false;
        }
    }
    proof {
        if i == n {
            assert(s@.skip(n as int) =~= Seq::<char>::empty());
        }
        assert(s@.subrange(i as int, n as int) =~= s@.skip(i as int));
    }
    s.substring_char(i, n).to_owned()
}

/// The string with every double and single quote removed.
pub fn remove_quotes(s: &str) -> (r: String)
    ensures
        r@ == spec_remove_quotes(s@),
{
    let n = s.unicode_len();
    let mut out = String::new();
    let mut i: usize = 0;
    proof {
        assert(s@.skip(0) =~= s@);
        assert(out@ + spec_remove_quotes(s@) =~= spec_remove_quotes(s@));
    }
    while i < n
        invariant
            i <= n,
            n == s@.len(),
            spec_remove_quotes(s@) == out@ + spec_remove_quotes(s@.skip(i as int)),
        decreases n - i,
    {
        let c = s.get_char(i);
        proof {
            assert(s@.skip(i as int).drop_first() =~= s@.skip(i as int + 1));
            assert(s@.skip(i as int).first() == s@[i as int]);
        }
        if c != '"' && c != '\'' {
            out.push(c);
        }
        i = i + 1;
    }
    proof {
        assert(s@.skip(n as int) =~= Seq::<char>::empty());
        assert(out@ + Seq::<char>::empty() =~= out@);
    }
    out
}

/// The string with every space and tab removed.
pub fn remove_ws(s: &str) -> (r: String)
    ensures
        r@ == spec_remove_ws(s@),
{
    let n = s.unicode_len();
    let mut out = String::new();
    let mut i: usize = 0;
    proof {
        assert(s@.skip(0) =~= s@);
        assert(out@ + spec_remove_ws(s@) =~= spec_remove_ws(s@));
    }
    while i < n
        invariant
            i <= n,
            n == s@.len(),
            spec_remove_ws(s@) == out@ + spec_remove_ws(s@.skip(i as int)),
        decreases n - i,
    {
        let c = s.get_char(i);
        proof {
            assert(s@.skip(i as int).drop_first() =~= s@.skip(i as int + 1));
            assert(s@.skip(i as int).first() == s@[i as int]);
        }
        if c != ' ' && c != '\t' {
            out.push(c);
        }
        i = i + 1;
    }
    proof {
        assert(s@.skip(n as int) =~= Seq::<char>::empty());
        assert(out@ + Seq::<char>::empty() =~= out@);
    }
    out
}

/// The string with every occurrence of `~>` removed.
pub fn remove_arrow(s: &str) -> (r: String)
    ensures
        r@ == spec_remove_arrow(s@),
{
    let n = s.unicode_len();
    let mut out = String::new();
    let mut i: usize = 0;
    proof {
        assert(s@.skip(0) =~= s@);
        assert(out@ + spec_remove_arrow(s@) =~= spec_remove_arrow(s@));
    }
    while i < n
        invariant
            i <= n,
            n == s@.len(),
            spec_remove_arrow(s@) == out@ + spec_remove_arrow(s@.skip(i as int)),
        decreases n - i,
    {
        let c = s.get_char(i);
        let mut arrow = false;
        if c == '~' && i + 1 < n {
            if s.get_char(i + 1) == '>' {
                arrow = true;
            }
        }
        proof {
            assert(s@.skip(i as int).first() == s@[i as int]);
            if s@.len() - i >= 2 {
                assert(s@.skip(i as int)[1] == s@[i as int + 1]);
            }
        }
        if arrow {
            proof {
                assert(s@.skip(i as int).skip(2) =~= s@.skip(i as int + 2));
            }
            i = i + 2;
        } else {
            out.push(c);
            proof {
                assert(s@.skip(i as int).drop_first() =~= s@.skip(i as int + 1));
            }
            i = i + 1;
        }
    }
    proof {
        assert(s@.skip(n as int) =~= Seq::<char>::empty());
        assert(out@ + Seq::<char>::empty() =~= out@);
    }
    out
}

/// Splits `s` at every occurrence of `sep`.
pub fn split_char(s: &str, sep: char) -> (r: Vec<String>)
    ensures
        r.deep_view() == spec_split_char(s@, sep),
        r.len() >= 1,
{
    let n = s.unicode_len();
    let mut done: Vec<String> = Vec::new();
    let mut cur = String::new();
    let mut i: usize = 0;
    proof {
        assert(s@.take(0) =~= Seq::<char>::empty());
        assert(spec_split_char(s@.take(0), sep) =~~= done.deep_view().push(cur@));
    }
    while i < n
        invariant
            i <= n,
            n == s@.len(),
            spec_split_char(s@.take(i as int), sep) == done.deep_view().push(cur@),
        decreases n - i,
    {
        let ghost prev = done.deep_view().push(cur@);
        let c = s.get_char(i);
        proof {
            assert(s@.take(i as int + 1).drop_last() =~= s@.take(i as int));
            assert(s@.take(i as int + 1).last() == s@[i as int]);
        }
        if c == sep {
            done.push(cur);
            cur = String::new();
            proof {
                assert(done.deep_view() =~~= prev);
                assert(spec_split_char(s@.take(i as int + 1), sep) =~~= done.deep_view().push(
                    cur@,
                ));
            }
        } else {
            cur.push(c);
            proof {
                assert(prev.len() >= 1);
                assert(prev.update(prev.len() - 1, prev.last().push(c)) =~~= done.deep_view().push(
                    cur@,
                ));
            }
        }
        i = i + 1;
    }
    proof {
        assert(s@.take(n as int) =~= s@);
    }
    done.push(cur);
    proof {
        assert(done.deep_view() =~~= spec_split_char(s@, sep));
    }
    done
}

/// One trailing carriage return removed, if present.
pub fn strip_tail_cr(s: &str) -> (r: String)
    ensures
        r@ == spec_strip_tail_cr(s@),
{
    let n = s.unicode_len();
    if n > 0 {
        if s.get_char(n - 1) == '\r' {
            proof {
                assert(s@.subrange(0, n as int - 1) =~= s@.drop_last());
            }
            return s.substring_char(0, n - 1).to_owned();
        }
    }
    s.to_owned()
}

/// The lines of `s`, as Rust's `str::lines` yields them.
pub fn lines_of(s: &str) -> (r: Vec<String>)
    ensures
        r.deep_view() == spec_lines(s@),
{
    let n = s.unicode_len();
    if n == 0 {
        let r: Vec<String> = Vec::new();
        proof {
            assert(r.deep_view() =~~= spec_lines(s@));
        }
        return r;
    }
    let base: Vec<String> = if s.get_char(n - 1) == '\n' {
        let trimmed = s.substring_char(0, n - 1);
        proof {
            assert(trimmed@ =~= s@.drop_last());
        }
        split_char(trimmed, '\n')
    } else {
        split_char(s, '\n')
    };
    let ghost base_spec = base.deep_view();
    let mut out: Vec<String> = Vec::new();
    let mut i: usize = 0;
    while i < base.len()
        invariant
            i <= base.len(),
            base.deep_view() == base_spec,
            out.deep_view() == base_spec.take(i as int).map_values(
                |l: Seq<char>| spec_strip_tail_cr(l),
            ),
        decreases base.len() - i,
    {
        let ghost prev = out.deep_view();
        let stripped = strip_tail_cr(base[i].as_str());
        proof {
            assert(base_spec[i as int] == base[i as int].deep_view());
            assert(stripped@ == spec_strip_tail_cr(base_spec[i as int]));
        }
        out.push(stripped);
        proof {
            let f = |l: Seq<char>| spec_strip_tail_cr(l);
            let lhs = out.deep_view();
            let rhs = base_spec.take(i as int + 1).map_values(f);
            assert(prev.len() == i as int);
            assert(out@.len() == i + 1);
            assert(lhs.len() == i + 1 && rhs.len() == i + 1);
            assert forall|k: int| 0 <= k < lhs.len() implies lhs[k] == rhs[k] by {
                if k < i {
                    assert(prev[k] == base_spec.take(i as int).map_values(f)[k]);
                    assert(lhs[k] == prev[k]);
                } else {
                    assert(lhs[k] == stripped@);
                }
            }
            assert(lhs =~~= rhs);
        }
        i = i + 1;
    }
    proof {
        assert(base_spec.take(base_spec.len() as int) =~= base_spec);
        assert(out.deep_view() =~~= spec_lines(s@));
    }
    out
}

/// The final path component of `s`: the text after the last `/`.
pub fn file_name(s: &str) -> (r: String)
    ensures
        r@ == spec_file_name(s@),
{
    let n = s.unicode_len();
    let mut last_slash: usize = 0;
    let mut has = false;
    let mut i: usize = 0;
    proof {
        assert(s@.take(0) =~= Seq::<char>::empty());
    }
    while i < n
        invariant
            i <= n,
            n == s@.len(),
            has ==> last_slash < i && spec_rfind(s@.take(i as int), '/') == last_slash,
            has == false ==> spec_rfind(s@.take(i as int), '/') == -1,
        decreases n - i,
    {
        let c = s.get_char(i);
        proof {
            assert(s@.take(i as int + 1).drop_last() =~= s@.take(i as int));
            assert(s@.take(i as int + 1).last() == s@[i as int]);
        }
        if c == '/' {
            has = true;
            last_slash = i;
        }
        i = i + 1;
    }
    proof {
        assert(s@.take(n as int) =~= s@);
    }
    let start = if has {
        last_slash + 1
    } else {
        0
    };
    proof {
        assert(s@.subrange(start as int, n as int) =~= s@.skip(spec_rfind(s@, '/') + 1));
    }
    s.substring_char(start, n).to_owned()
}

/// The text before the final `.` of a file name, as its stem.
pub fn file_stem(s: &str) -> (r: String)
    ensures
        r@ == spec_file_stem(s@),
{
    let n = s.unicode_len();
    let mut last_dot: usize = 0;
    let mut has = false;
    let mut i: usize = 0;
    proof {
        assert(s@.take(0) =~= Seq::<char>::empty());
    }
    while i < n
        invariant
            i <= n,
            n == s@.len(),
            has ==> last_dot < i && spec_rfind(s@.take(i as int), '.') == last_dot,
            has == false ==> spec_rfind(s@.take(i as int), '.') == -1,
        decreases n - i,
    {
        let c = s.get_char(i);
        proof {
            assert(s@.take(i as int + 1).drop_last() =~= s@.take(i as int));
            assert(s@.take(i as int + 1).last() == s@[i as int]);
        }
        if c == '.' {
            has = true;
            last_dot = i;
        }
        i = i + 1;
    }
    proof {
        assert(s@.take(n as int) =~= s@);
    }
    if has && last_dot > 0 {
        proof {
            assert(s@.subrange(0, last_dot as int) =~= s@.take(spec_rfind(s@, '.')));
        }
        s.substring_char(0, last_dot).to_owned()
    } else {
        s.to_owned()
    }
}

/// `dir`, a slash, then `rel`, as one path.
pub fn join_path(dir: &str, rel: &str) -> (r: String)
    ensures
        r@ == spec_join(dir@, rel@),
{
    let mut r = dir.to_owned();
    r.push('/');
    r.append(rel);
    proof {
        assert(dir@.push('/') + rel@ =~= spec_join(dir@, rel@));
    }
    r
}

} // verus!
