//! Character-level text handling: line splitting, trimming, tab fields and
//! decimal rendering, each stated over `Seq<char>`.
use vstd::prelude::*;

verus! {

/// Whether `c` has the Unicode `White_Space` property (PropList.txt): tab,
/// line feed, vertical tab, form feed, carriage return, space, next line,
/// no-break space, ogham space mark, the spaces U+2000 to U+200A, line and
/// paragraph separators, narrow no-break space, medium mathematical space
/// and ideographic space.
pub open spec fn unicode_white_space(c: char) -> bool {
    let u = c as u32;
    ||| 0x09 <= u <= 0x0d
    ||| u == 0x20
    ||| u == 0x85
    ||| u == 0xa0
    ||| u == 0x1680
    ||| 0x2000 <= u <= 0x200a
    ||| u == 0x2028
    ||| u == 0x2029
    ||| u == 0x202f
    ||| u == 0x205f
    ||| u == 0x3000
}

/// `char::is_whitespace`: whether the char has the Unicode `White_Space`
/// property, which the contract lists.
pub assume_specification[ <char>::is_whitespace ](c: char) -> (r: bool)
    ensures
        r == unicode_white_space(c),
;

/// `String::push`: appends the given char to the end of the string.
pub assume_specification[ String::push ](s: &mut String, ch: char)
    ensures
        final(s)@ == old(s)@.push(ch),
;

/// `s` without its leading whitespace.
pub open spec fn trim_start(s: Seq<char>) -> Seq<char>
    decreases s.len(),
{
    if s.len() > 0 && unicode_white_space(s[0]) {
        trim_start(s.drop_first())
    } else {
        s
    }
}

/// `s` without its trailing whitespace.
pub open spec fn trim_end(s: Seq<char>) -> Seq<char>
    decreases s.len(),
{
    if s.len() > 0 && unicode_white_space(s.last()) {
        trim_end(s.drop_last())
    } else {
        s
    }
}

/// `s` without leading and trailing whitespace (`str::trim`).
pub open spec fn trim(s: Seq<char>) -> Seq<char> {
    trim_end(trim_start(s))
}

/// A line without the `'\r'` of a `"\r\n"` terminator.
pub open spec fn strip_cr(l: Seq<char>) -> Seq<char> {
    if l.len() > 0 && l.last() == '\r' {
        l.drop_last()
    } else {
        l
    }
}

/// The lines of `s` that follow a line which begins at `start` and holds no
/// `'\n'` before `i`.
pub open spec fn lines_from(s: Seq<char>, start: int, i: int) -> Seq<Seq<char>>
    decreases s.len() - i,
{
    if i >= s.len() || i < 0 {
        if 0 <= start < s.len() {
            seq![s.subrange(start, s.len() as int)]
        } else {
            seq![]
        }
    } else if s[i] == '\n' {
        seq![strip_cr(s.subrange(start, i))] + lines_from(s, i + 1, i + 1)
    } else {
        lines_from(s, start, i + 1)
    }
}

/// The lines of `s` as `str::lines` yields them: split at `'\n'`, a `'\r'`
/// right before a `'\n'` dropped, no empty line after a final `'\n'`.
pub open spec fn lines(s: Seq<char>) -> Seq<Seq<char>> {
    lines_from(s, 0, 0)
}

/// `i` is the position of the first `c` in `l`.
pub open spec fn is_first(l: Seq<char>, c: char, i: int) -> bool {
    &&& 0 <= i < l.len()
    &&& l[i] == c
    &&& forall|j: int| 0 <= j < i ==> l[j] != c
}

/// The two sides of `l` around its first `c` (`str::split_once`).
pub open spec fn split_once(l: Seq<char>, c: char) -> Option<(Seq<char>, Seq<char>)> {
    if exists|i: int| is_first(l, c, i) {
        let i = choose|i: int| is_first(l, c, i);
        Some((l.take(i), l.skip(i + 1)))
    } else {
        None
    }
}

/// The text of an optional string.
pub open spec fn opt_text(o: Option<String>) -> Option<Seq<char>> {
    match o {
        Some(s) => Some(s@),
        None => None,
    }
}

/// The texts of a list of strings.
pub open spec fn texts(v: Seq<String>) -> Seq<Seq<char>> {
    v.map_values(|s: String| s@)
}

/// The char of a decimal digit.
pub open spec fn digit_char(d: nat) -> char {
    (d + 48) as char
}

/// The decimal representation of `n`, without leading zeros.
pub open spec fn decimal(n: nat) -> Seq<char>
    decreases n,
{
    if n < 10 {
        seq![digit_char(n)]
    } else {
        decimal(n / 10).push(digit_char(n % 10))
    }
}

/// The chars of `s`, in order.
pub fn chars_of(s: &str) -> (r: Vec<char>)
    ensures
        r@ == s@,
{
    let mut r: Vec<char> = Vec::new();
    for c in it: s.chars()
        invariant
            r@ == it.seq().take(it.index() as int),
    {
        r.push(c);
    }
    r
}


/// The bounds, inside `lo..hi`, of `v[lo..hi]` without its leading and
/// trailing whitespace.
pub fn trim_span(v: &Vec<char>, lo: usize, hi: usize) -> (r: (usize, usize))
    requires
        lo <= hi <= v.len(),
    ensures
        lo <= r.0 <= r.1 <= hi,
        v@.subrange(r.0 as int, r.1 as int) == trim(v@.subrange(lo as int, hi as int)),
{
    let mut a = lo;
    while a < hi && v[a].is_whitespace()
        invariant
            lo <= a <= hi <= v.len(),
            trim_start(v@.subrange(lo as int, hi as int)) == trim_start(
                v@.subrange(a as int, hi as int),
            ),
        decreases hi - a,
    {
        assert(v@.subrange(a as int, hi as int).drop_first() =~= v@.subrange(a + 1, hi as int));
        a = a + 1;
    }
    assert(trim_start(v@.subrange(a as int, hi as int)) == v@.subrange(a as int, hi as int));
    let mut b = hi;
    while b > a && v[b - 1].is_whitespace()
        invariant
            lo <= a <= b <= hi <= v.len(),
            trim_end(v@.subrange(a as int, hi as int)) == trim_end(v@.subrange(a as int, b as int)),
        decreases b - a,
    {
        assert(v@.subrange(a as int, b as int).drop_last() =~= v@.subrange(a as int, b - 1));
        b = b - 1;
    }
    assert(trim_end(v@.subrange(a as int, b as int)) == v@.subrange(a as int, b as int));
    (a, b)
}

/// The text of `v[a..b]`.
pub fn string_of(v: &Vec<char>, a: usize, b: usize) -> (r: String)
    requires
        a <= b <= v.len(),
    ensures
        r@ == v@.subrange(a as int, b as int),
{
    let mut r = String::new();
    let mut i = a;
    while i < b
        invariant
            a <= i <= b <= v.len(),
            r@ == v@.subrange(a as int, i as int),
        decreases b - i,
    {
        r.push(v[i]);
        assert(v@.subrange(a as int, i + 1) =~= v@.subrange(a as int, i as int).push(v@[i as int]));
        i = i + 1;
    }
    r
}

/// The spans of the lines of `v` (see `lines`).
pub open spec fn spans_text(v: Seq<char>, spans: Seq<(usize, usize)>) -> Seq<Seq<char>> {
    Seq::new(spans.len(), |k: int| v.subrange(spans[k].0 as int, spans[k].1 as int))
}

/// Start and end of each line of `v`, in order.
pub fn line_spans(v: &Vec<char>) -> (r: Vec<(usize, usize)>)
    ensures
        forall|k: int| 0 <= k < r.len() ==> (#[trigger] r@[k]).0 <= r@[k].1 && r@[k].1 <= v.len(),
        spans_text(v@, r@) == lines(v@),
{
    let mut r: Vec<(usize, usize)> = Vec::new();
    let mut start: usize = 0;
    let mut i: usize = 0;
    while i < v.len()
        invariant
            start <= i <= v.len(),
            forall|k: int| 0 <= k < r.len() ==> (#[trigger] r@[k]).0 <= r@[k].1 && r@[k].1 <= v.len(),
            spans_text(v@, r@) + lines_from(v@, start as int, i as int) == lines(v@),
        decreases v.len() - i,
    {
        if v[i] == '\n' {
            let end = if i > start && v[i - 1] == '\r' {
                i - 1
            } else {
                i
            };
            proof {
                let l = v@.subrange(start as int, i as int);
                if i > start && v@[i - 1] == '\r' {
                    assert(l.drop_last() =~= v@.subrange(start as int, end as int));
                }
                assert(strip_cr(l) == v@.subrange(start as int, end as int));
            }
            let ghost before = r@;
            r.push((start, end));
            assert(spans_text(v@, r@) =~= spans_text(v@, before).push(
                v@.subrange(start as int, end as int),
            ));
            assert(spans_text(v@, r@) + lines_from(v@, (i + 1) as int, (i + 1) as int) =~= spans_text(
                v@,
                before,
            ) + lines_from(v@, start as int, i as int));
            start = i + 1;
        }
        i = i + 1;
    }
    if start < v.len() {
        let ghost before = r@;
        r.push((start, v.len()));
        assert(spans_text(v@, r@) =~= spans_text(v@, before) + lines_from(
            v@,
            start as int,
            i as int,
        ));
    } else {
        assert(spans_text(v@, r@) =~= spans_text(v@, r@) + lines_from(v@, start as int, i as int));
    }
    r
}

/// Position of the first `c` in `v[lo..hi]`, relative to `lo`.
pub fn find_char(v: &Vec<char>, lo: usize, hi: usize, c: char) -> (r: Option<usize>)
    requires
        lo <= hi <= v.len(),
    ensures
        r matches Some(i) ==> is_first(v@.subrange(lo as int, hi as int), c, i as int),
        r is None ==> forall|j: int| lo <= j < hi ==> v@[j] != c,
{
    let mut i = lo;
    while i < hi
        invariant
            lo <= i <= hi <= v.len(),
            forall|j: int| lo <= j < i ==> v@[j] != c,
        decreases hi - i,
    {
        if v[i] == c {
            return Some(i - lo);
        }
        i = i + 1;
    }
    None
}

/// The digit char of `d`.
fn digit(d: u64) -> (r: char)
    requires
        d < 10,
    ensures
        r == digit_char(d as nat),
{
    match d {
        0 => '0',
        1 => '1',
        2 => '2',
        3 => '3',
        4 => '4',
        5 => '5',
        6 => '6',
        7 => '7',
        8 => '8',
        _ => '9',
    }
}

/// Appends the decimal representation of `n` to `out`.
pub fn push_decimal(out: &mut String, n: u64)
    ensures
        final(out)@ == old(out)@ + decimal(n as nat),
    decreases n,
{
    if n >= 10 {
        push_decimal(out, n / 10);
    }
    out.push(digit(n % 10));
    assert(decimal(n as nat) == if n < 10 {
        seq![digit_char(n as nat)]
    } else {
        decimal((n / 10) as nat).push(digit_char((n % 10) as nat))
    });
}

/// The decimal representation of `n` (as `n.to_string()` writes it).
pub fn decimal_string(n: u64) -> (r: String)
    ensures
        r@ == decimal(n as nat),
{
    let mut r = String::new();
    push_decimal(&mut r, n);
    r
}

} // verus!
