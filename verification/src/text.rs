//! Text utilities used by the code generators.
use vstd::prelude::*;

verus! {

/// The sequence `list` joined with `sep` between consecutive elements.
pub open spec fn seq_join(list: Seq<Seq<char>>, sep: Seq<char>) -> Seq<char>
    decreases list.len(),
{
    if list.len() == 0 {
        Seq::empty()
    } else if list.len() == 1 {
        list[0]
    } else {
        seq_join(list.drop_last(), sep) + sep + list.last()
    }
}

/// The views of a list of strings.
pub open spec fn views(list: Seq<String>) -> Seq<Seq<char>> {
    list.map_values(|s: String| s@)
}

/// Joins `list` with `sep`, as `[String]::join` does.
pub fn join(list: &Vec<String>, sep: &str) -> (res: String)
    ensures
        res@ == seq_join(views(list@), sep@),
{
    let mut res = String::new();
    let ghost vs = views(list@);
    let n = list.len();
    let mut i: usize = 0;
    while i < n
        invariant
            n == list.len(),
            i <= n,
            vs == views(list@),
            res@ == seq_join(vs.take(i as int), sep@),
        decreases n - i,
    {
        assert(vs.take(i + 1).drop_last() =~= vs.take(i as int));
        if i != 0 {
            res.append(sep);
        }
        res.append(list[i].as_str());
        i = i + 1;
    }
    assert(vs.take(n as int) =~= vs);
    res
}

} // verus!

verus! {

/// The lowercase form of a string, as `str::to_lowercase` computes it.
pub uninterp spec fn lowercase(s: Seq<char>) -> Seq<char>;

/// `str::to_lowercase`: the lowercase form of `s`.
#[verifier::external_body]
pub(crate) fn to_lowercase(s: &str) -> (r: String)
    ensures
        r@ == lowercase(s@),
{
    s.to_lowercase()
}

/// `String::push`: appends one character.
#[verifier::external_body]
pub(crate) fn push_char(s: &mut String, c: char)
    ensures
        final(s)@ == old(s)@.push(c),
{
    s.push(c)
}

/// Whether two strings hold the same characters.
pub fn str_eq(a: &str, b: &str) -> (r: bool)
    ensures
        r == (a@ == b@),
{
    let x = String::from_str(a);
    let y = String::from_str(b);
    x == y
}

} // verus!

verus! {

/// The strings of `list` written one after the other.
pub open spec fn seq_concat(list: Seq<Seq<char>>) -> Seq<char>
    decreases list.len(),
{
    if list.len() == 0 {
        Seq::empty()
    } else {
        seq_concat(list.drop_last()) + list.last()
    }
}

/// Concatenates the strings of `list`.
pub fn concat(list: &Vec<String>) -> (res: String)
    ensures
        res@ == seq_concat(views(list@)),
{
    let mut res = String::new();
    let ghost vs = views(list@);
    let n = list.len();
    let mut i: usize = 0;
    while i < n
        invariant
            n == list.len(),
            i <= n,
            vs == views(list@),
            res@ == seq_concat(vs.take(i as int)),
        decreases n - i,
    {
        assert(vs.take(i + 1).drop_last() =~= vs.take(i as int));
        res.append(list[i].as_str());
        i = i + 1;
    }
    assert(vs.take(n as int) =~= vs);
    res
}

} // verus!

verus! {

/// Whether `needle` occurs in `hay`.
pub open spec fn seq_contains(hay: Seq<char>, needle: Seq<char>) -> bool {
    exists|i: int| 0 <= i <= hay.len() - needle.len() && #[trigger] hay.subrange(i, i + needle.len()) == needle
}

/// Whether `needle` occurs in `hay`, as `str::contains` tells.
pub fn contains(hay: &str, needle: &str) -> (r: bool)
    ensures
        r == seq_contains(hay@, needle@),
{
    let h = hay.unicode_len();
    let n = needle.unicode_len();
    if n > h {
        return false;
    }
    if n == 0 {
        assert(hay@.subrange(0int, 0int + needle@.len()) =~= needle@);
        return true;
    }
    let mut i: usize = 0;
    while i <= h - n
        invariant
            h == hay@.len(),
            n == needle@.len(),
            1 <= n <= h,
            i <= h - n + 1,
            forall|j: int| 0 <= j < i ==> #[trigger] hay@.subrange(j, j + n) != needle@,
        decreases h - n + 1 - i,
    {
        let part = hay.substring_char(i, i + n);
        if str_eq(part, needle) {
            assert(hay@.subrange(i as int, i + n) == needle@);
            return true;
        }
        i = i + 1;
    }
    assert forall|j: int| 0 <= j <= hay@.len() - needle@.len() implies #[trigger] hay@.subrange(
        j,
        j + needle@.len(),
    ) != needle@ by {
        assert(j < i);
    }
    false
}

/// The part of `s` before the first `c`; all of `s` where it has no `c`.
pub open spec fn before_first(s: Seq<char>, c: char) -> Seq<char>
    decreases s.len(),
{
    if s.len() == 0 {
        s
    } else if s[0] == c {
        Seq::empty()
    } else {
        seq![s[0]] + before_first(s.drop_first(), c)
    }
}

/// The part of `s` before the first `c`, as the first item of `s.splitn(2, c)`.
pub fn prefix_before(s: &str, c: char) -> (r: String)
    ensures
        r@ == before_first(s@, c),
{
    let n = s.unicode_len();
    let mut i: usize = 0;
    assert(s@.take(0) + s@.skip(0) =~= s@.skip(0));
    assert(s@.skip(0) =~= s@);
    while i < n
        invariant
            n == s@.len(),
            i <= n,
            before_first(s@, c) == s@.take(i as int) + before_first(s@.skip(i as int), c),
        decreases n - i,
    {
        let ch = s.get_char(i);
        if ch == c {
            assert(s@.skip(i as int)[0] == c);
            assert(before_first(s@.skip(i as int), c) == Seq::<char>::empty());
            assert(s@.take(i as int) + Seq::<char>::empty() =~= s@.take(i as int));
            return String::from_str(s.substring_char(0, i));
        }
        assert(s@.skip(i as int).drop_first() =~= s@.skip(i + 1));
        assert(s@.take(i + 1) =~= s@.take(i as int) + seq![ch]);
        i = i + 1;
    }
    assert(s@.skip(n as int) =~= Seq::<char>::empty());
    assert(s@.take(n as int) =~= s@);
    assert(s@.take(n as int) + Seq::<char>::empty() =~= s@);
    String::from_str(s)
}

/// The part of `s` before its last `c`; none where it has no `c`.
pub open spec fn before_last(s: Seq<char>, c: char) -> Option<Seq<char>>
    decreases s.len(),
{
    if s.len() == 0 {
        None
    } else if s.last() == c {
        Some(s.drop_last())
    } else {
        before_last(s.drop_last(), c)
    }
}

/// The part of `s` before its last `c`, as the first half of `s.rsplit_once(c)`.
pub fn prefix_before_last(s: &str, c: char) -> (r: Option<String>)
    ensures
        r matches Some(t) ==> before_last(s@, c) == Some(t@),
        r is None ==> before_last(s@, c) is None,
{
    let mut j: usize = s.unicode_len();
    assert(s@.take(j as int) =~= s@);
    while j > 0
        invariant
            j <= s@.len(),
            before_last(s@, c) == before_last(s@.take(j as int), c),
        decreases j,
    {
        let ch = s.get_char(j - 1);
        assert(s@.take(j as int).last() == ch);
        assert(s@.take(j as int).drop_last() =~= s@.take(j - 1));
        if ch == c {
            return Some(String::from_str(s.substring_char(0, j - 1)));
        }
        j = j - 1;
    }
    None
}

/// `s` without the copies of `c` at its start.
pub open spec fn trim_start(s: Seq<char>, c: char) -> Seq<char>
    decreases s.len(),
{
    if s.len() > 0 && s[0] == c {
        trim_start(s.drop_first(), c)
    } else {
        s
    }
}

/// `s` without the copies of `c` at its end.
pub open spec fn trim_end(s: Seq<char>, c: char) -> Seq<char>
    decreases s.len(),
{
    if s.len() > 0 && s.last() == c {
        trim_end(s.drop_last(), c)
    } else {
        s
    }
}

/// `s` without the copies of `c` at its start, as `str::trim_start_matches`.
pub fn trim_start_char(s: &str, c: char) -> (r: String)
    ensures
        r@ == trim_start(s@, c),
{
    let n = s.unicode_len();
    let mut i: usize = 0;
    assert(s@.skip(0) =~= s@);
    while i < n && s.get_char(i) == c
        invariant
            n == s@.len(),
            i <= n,
            trim_start(s@, c) == trim_start(s@.skip(i as int), c),
        decreases n - i,
    {
        assert(s@.skip(i as int).drop_first() =~= s@.skip(i + 1));
        i = i + 1;
    }
    String::from_str(s.substring_char(i, n))
}

/// `s` without the copies of `c` at its end, as `str::trim_end_matches`.
pub fn trim_end_char(s: &str, c: char) -> (r: String)
    ensures
        r@ == trim_end(s@, c),
{
    let mut j: usize = s.unicode_len();
    assert(s@.take(j as int) =~= s@);
    while j > 0 && s.get_char(j - 1) == c
        invariant
            j <= s@.len(),
            trim_end(s@, c) == trim_end(s@.take(j as int), c),
        decreases j,
    {
        assert(s@.take(j as int).drop_last() =~= s@.take(j - 1));
        j = j - 1;
    }
    String::from_str(s.substring_char(0, j))
}

/// `s` with each `from` replaced by `to`.
pub open spec fn replace_char(s: Seq<char>, from: char, to: char) -> Seq<char> {
    s.map_values(|ch: char| if ch == from { to } else { ch })
}

/// `s` with each `from` replaced by `to`, as `str::replace` with one-character
/// patterns.
pub fn replace_char_str(s: &str, from: char, to: char) -> (r: String)
    ensures
        r@ == replace_char(s@, from, to),
{
    let n = s.unicode_len();
    let mut r = String::new();
    let mut i: usize = 0;
    while i < n
        invariant
            n == s@.len(),
            i <= n,
            r@ == replace_char(s@.take(i as int), from, to),
        decreases n - i,
    {
        let ch = s.get_char(i);
        if ch == from {
            push_char(&mut r, to);
        } else {
            push_char(&mut r, ch);
        }
        assert(s@.take(i + 1) =~= s@.take(i as int).push(ch));
        assert(replace_char(s@.take(i + 1), from, to) =~= replace_char(s@.take(i as int), from, to).push(
            if ch == from { to } else { ch },
        ));
        i = i + 1;
    }
    assert(s@.take(n as int) =~= s@);
    r
}

/// The pieces of `s` between the copies of `c`, as `str::split` with a
/// one-character pattern: an empty `s` gives one empty piece.
pub open spec fn split_seq(s: Seq<char>, c: char) -> Seq<Seq<char>>
    decreases s.len(),
{
    if s.len() == 0 {
        seq![Seq::empty()]
    } else {
        let rest = split_seq(s.drop_last(), c);
        if s.last() == c {
            rest.push(Seq::empty())
        } else {
            rest.update(rest.len() - 1, rest.last().push(s.last()))
        }
    }
}

/// A split always has at least one piece.
pub proof fn lemma_split_seq_len(s: Seq<char>, c: char)
    ensures
        split_seq(s, c).len() >= 1,
    decreases s.len(),
{
    if s.len() > 0 {
        lemma_split_seq_len(s.drop_last(), c);
    }
}

/// The pieces of `s` between the copies of `c`.
pub fn split_char(s: &str, c: char) -> (r: Vec<String>)
    ensures
        views(r@) == split_seq(s@, c),
{
    let n = s.unicode_len();
    let mut done: Vec<String> = Vec::new();
    let mut cur = String::new();
    let mut i: usize = 0;
    while i < n
        invariant
            n == s@.len(),
            i <= n,
            views(done@).push(cur@) =~= split_seq(s@.take(i as int), c),
        decreases n - i,
    {
        let ch = s.get_char(i);
        let ghost prev = s@.take(i as int);
        assert(s@.take(i + 1).drop_last() =~= prev);
        assert(s@.take(i + 1).last() == ch);
        proof {
            lemma_split_seq_len(prev, c);
        }
        if ch == c {
            let ghost old_done = views(done@);
            let ghost old_cur = cur@;
            let piece = cur;
            done.push(piece);
            cur = String::new();
            assert(views(done@) =~= old_done.push(old_cur));
        } else {
            let ghost old_cur = cur@;
            push_char(&mut cur, ch);
            assert(views(done@).push(cur@) =~= views(done@).push(old_cur).update(
                views(done@).len() as int,
                old_cur.push(ch),
            ));
        }
        i = i + 1;
    }
    assert(s@.take(n as int) =~= s@);
    let ghost before = views(done@);
    done.push(cur);
    assert(views(done@) =~= before.push(cur@));
    done
}

} // verus!

verus! {

/// The `Debug` text of a string (quoted and escaped), as `format!("{:?}", s)` writes it.
pub uninterp spec fn debug_str(s: Seq<char>) -> Seq<char>;

/// `<str as Debug>::fmt`: the quoted, escaped text of `s`.
#[verifier::external_body]
pub(crate) fn debug_string(s: &str) -> (r: String)
    ensures
        r@ == debug_str(s@),
{
    format!("{:?}", s)
}

} // verus!

verus! {

/// Whether `s` starts with `p`.
pub open spec fn seq_starts_with(s: Seq<char>, p: Seq<char>) -> bool {
    p.len() <= s.len() && s.take(p.len() as int) == p
}

/// Whether `s` starts with `p`, as `str::starts_with` tells.
pub fn starts_with(s: &str, p: &str) -> (r: bool)
    ensures
        r == seq_starts_with(s@, p@),
{
    let n = s.unicode_len();
    let m = p.unicode_len();
    if m > n {
        return false;
    }
    let head = s.substring_char(0, m);
    assert(head@ =~= s@.take(m as int));
    str_eq(head, p)
}

/// `s` without the copies of `p` at its start.
pub open spec fn trim_start_seq(s: Seq<char>, p: Seq<char>) -> Seq<char>
    decreases s.len(),
{
    if p.len() > 0 && seq_starts_with(s, p) {
        trim_start_seq(s.skip(p.len() as int), p)
    } else {
        s
    }
}

/// `s` without the copies of `p` at its start, as `str::trim_start_matches`
/// with a string pattern.
pub fn trim_start_str(s: &str, p: &str) -> (r: String)
    ensures
        r@ == trim_start_seq(s@, p@),
{
    let n = s.unicode_len();
    let m = p.unicode_len();
    let mut i: usize = 0;
    assert(s@.skip(0) =~= s@);
    if m == 0 {
        return String::from_str(s);
    }
    while m <= n - i && starts_with(s.substring_char(i, n), p)
        invariant
            n == s@.len(),
            m == p@.len(),
            m > 0,
            i <= n,
            trim_start_seq(s@, p@) == trim_start_seq(s@.skip(i as int), p@),
        decreases n - i,
    {
        assert(s@.subrange(i as int, n as int) =~= s@.skip(i as int));
        assert(s@.skip(i as int).skip(m as int) =~= s@.skip(i + m));
        i = i + m;
    }
    let rest = s.substring_char(i, n);
    proof {
        assert(rest@ =~= s@.skip(i as int));
        if m <= n - i {
        } else {
            assert(!seq_starts_with(s@.skip(i as int), p@));
        }
    }
    String::from_str(rest)
}

} // verus!

verus! {

/// `s` with each occurrence of `p` (not empty), from the left and not
/// overlapping, replaced by `rep`.
pub open spec fn replace_all(s: Seq<char>, p: Seq<char>, rep: Seq<char>) -> Seq<char>
    decreases s.len(),
{
    if p.len() == 0 || s.len() == 0 {
        s
    } else if seq_starts_with(s, p) {
        rep + replace_all(s.skip(p.len() as int), p, rep)
    } else {
        seq![s[0]] + replace_all(s.drop_first(), p, rep)
    }
}

/// `s` with each occurrence of `p` replaced by `rep`, as `str::replace`
/// with a non-empty pattern.
pub fn replace_str(s: &str, p: &str, rep: &str) -> (r: String)
    requires
        p@.len() > 0,
    ensures
        r@ == replace_all(s@, p@, rep@),
{
    let n = s.unicode_len();
    let m = p.unicode_len();
    let mut r = String::new();
    let mut i: usize = 0;
    assert(s@.skip(0) =~= s@);
    while i < n
        invariant
            n == s@.len(),
            m == p@.len(),
            m > 0,
            i <= n,
            replace_all(s@, p@, rep@) == r@ + replace_all(s@.skip(i as int), p@, rep@),
        decreases n - i,
    {
        let rest = s.substring_char(i, n);
        assert(rest@ =~= s@.skip(i as int));
        if starts_with(rest, p) {
            assert(s@.skip(i as int).skip(m as int) =~= s@.skip(i + m));
            r.append(rep);
            i = i + m;
        } else {
            let c = s.get_char(i);
            assert(s@.skip(i as int).drop_first() =~= s@.skip(i + 1));
            push_char(&mut r, c);
            i = i + 1;
        }
    }
    assert(s@.skip(n as int) =~= Seq::<char>::empty());
    r
}

/// `s` without the copies of `p` at its end.
pub open spec fn trim_end_seq(s: Seq<char>, p: Seq<char>) -> Seq<char>
    decreases s.len(),
{
    if p.len() > 0 && p.len() <= s.len() && s.skip(s.len() - p.len()) == p {
        trim_end_seq(s.take(s.len() - p.len()), p)
    } else {
        s
    }
}

/// `s` without the copies of `p` at its end, as `str::trim_end_matches`
/// with a string pattern.
pub fn trim_end_str(s: &str, p: &str) -> (r: String)
    ensures
        r@ == trim_end_seq(s@, p@),
{
    let m = p.unicode_len();
    let mut j: usize = s.unicode_len();
    assert(s@.take(j as int) =~= s@);
    if m == 0 {
        return String::from_str(s);
    }
    while m <= j && str_eq(s.substring_char(j - m, j), p)
        invariant
            j <= s@.len(),
            m == p@.len(),
            m > 0,
            trim_end_seq(s@, p@) == trim_end_seq(s@.take(j as int), p@),
        decreases j,
    {
        assert(s@.take(j as int).skip(j - m) =~= s@.subrange(j - m, j as int));
        assert(s@.take(j as int).take(j - m) =~= s@.take(j - m));
        j = j - m;
    }
    proof {
        if m <= j {
            assert(s@.take(j as int).skip(j - m) =~= s@.subrange(j - m, j as int));
        }
    }
    String::from_str(s.substring_char(0, j))
}

} // verus!
