use vstd::prelude::*;

verus! {

// ---------------------------------------------------------------------------
// Mathematical model of the string operations the help renderer relies on.
// Every string is viewed as its sequence of Unicode scalar values.
// ---------------------------------------------------------------------------

/// `true` when `pat` occurs in `s` starting at char position `i`.
pub open spec fn occurs_at(s: Seq<char>, pat: Seq<char>, i: int) -> bool {
    0 <= i && i + pat.len() <= s.len() && s.subrange(i, i + pat.len()) == pat
}

pub open spec fn has_prefix(s: Seq<char>, pat: Seq<char>) -> bool {
    occurs_at(s, pat, 0)
}

pub open spec fn has_suffix(s: Seq<char>, pat: Seq<char>) -> bool {
    pat.len() <= s.len() && occurs_at(s, pat, s.len() - pat.len())
}

pub open spec fn contains_seq(s: Seq<char>, pat: Seq<char>) -> bool {
    exists|i: int| #[trigger] occurs_at(s, pat, i)
}

/// Left-to-right replacement of every non-overlapping occurrence of `pat`
/// (which must be non-empty) by `rep`, as `str::replace` does.
pub open spec fn replace_spec(s: Seq<char>, pat: Seq<char>, rep: Seq<char>) -> Seq<char>
    decreases s.len(),
{
    if pat.len() == 0 || s.len() == 0 {
        s
    } else if has_prefix(s, pat) {
        rep + replace_spec(s.skip(pat.len() as int), pat, rep)
    } else {
        seq![s[0]] + replace_spec(s.skip(1), pat, rep)
    }
}

/// The pieces `str::split` produces for a non-empty separator.
pub open spec fn split_spec(s: Seq<char>, sep: Seq<char>) -> Seq<Seq<char>>
    decreases s.len(),
{
    if sep.len() == 0 || s.len() == 0 {
        seq![s]
    } else if has_prefix(s, sep) {
        seq![Seq::<char>::empty()] + split_spec(s.skip(sep.len() as int), sep)
    } else {
        let rest = split_spec(s.skip(1), sep);
        rest.update(0, seq![s[0]] + rest[0])
    }
}

/// `parts.join(sep)`.
pub open spec fn join_spec(parts: Seq<Seq<char>>, sep: Seq<char>) -> Seq<char>
    decreases parts.len(),
{
    if parts.len() == 0 {
        Seq::empty()
    } else if parts.len() == 1 {
        parts[0]
    } else {
        join_spec(parts.drop_last(), sep) + sep + parts.last()
    }
}

/// Index of the first occurrence of `c`, if any.
pub open spec fn first_index_of(s: Seq<char>, c: char) -> Option<int>
    decreases s.len(),
{
    if s.len() == 0 {
        None
    } else if s[0] == c {
        Some(0)
    } else {
        match first_index_of(s.skip(1), c) {
            Some(i) => Some(i + 1),
            None => None,
        }
    }
}

/// Index of the last occurrence of the non-empty pattern `pat`, if any.
pub open spec fn last_occurrence(s: Seq<char>, pat: Seq<char>) -> Option<int>
    decreases s.len(),
{
    if pat.len() == 0 || s.len() < pat.len() {
        None
    } else if occurs_at(s, pat, s.len() - pat.len()) {
        Some(s.len() - pat.len())
    } else {
        last_occurrence(s.drop_last(), pat)
    }
}

/// The text before the first occurrence of `c` (all of `s` when absent).
pub open spec fn before_char(s: Seq<char>, c: char) -> Seq<char> {
    match first_index_of(s, c) {
        Some(i) => s.take(i),
        None => s,
    }
}

/// Unicode `White_Space`, the property `char::is_whitespace` tests.
pub open spec fn is_ws(c: char) -> bool {
    ||| ('\u{9}' <= c && c <= '\u{d}')
    ||| c == ' '
    ||| c == '\u{85}'
    ||| c == '\u{a0}'
    ||| c == '\u{1680}'
    ||| ('\u{2000}' <= c && c <= '\u{200a}')
    ||| c == '\u{2028}'
    ||| c == '\u{2029}'
    ||| c == '\u{202f}'
    ||| c == '\u{205f}'
    ||| c == '\u{3000}'
}

pub open spec fn trim_start_spec(s: Seq<char>) -> Seq<char>
    decreases s.len(),
{
    if s.len() > 0 && is_ws(s[0]) {
        trim_start_spec(s.skip(1))
    } else {
        s
    }
}

pub open spec fn trim_end_spec(s: Seq<char>) -> Seq<char>
    decreases s.len(),
{
    if s.len() > 0 && is_ws(s.last()) {
        trim_end_spec(s.drop_last())
    } else {
        s
    }
}

/// `str::trim`.
pub open spec fn trim_spec(s: Seq<char>) -> Seq<char> {
    trim_end_spec(trim_start_spec(s))
}

/// Every character of `w` is white space.
pub open spec fn all_ws(w: Seq<char>) -> bool {
    forall|i: int| 0 <= i < w.len() ==> is_ws(#[trigger] w[i])
}

/// Leading white space is what `trim_start_spec` removes.
pub proof fn lemma_trim_start_ws_prefix(w: Seq<char>, v: Seq<char>)
    requires
        all_ws(w),
    ensures
        trim_start_spec(w + v) == trim_start_spec(v),
    decreases w.len(),
{
    if w.len() > 0 {
        assert((w + v)[0] == w[0]);
        assert((w + v).skip(1) =~= w.skip(1) + v);
        lemma_trim_start_ws_prefix(w.skip(1), v);
    } else {
        assert(w + v =~= v);
    }
}

/// Trailing white space is what `trim_end_spec` removes.
pub proof fn lemma_trim_end_ws_suffix(v: Seq<char>, w: Seq<char>)
    requires
        all_ws(w),
    ensures
        trim_end_spec(v + w) == trim_end_spec(v),
    decreases w.len(),
{
    if w.len() > 0 {
        assert((v + w).last() == w.last());
        assert((v + w).drop_last() =~= v + w.drop_last());
        lemma_trim_end_ws_suffix(v, w.drop_last());
    } else {
        assert(v + w =~= v);
    }
}

/// Trimming the start of `v + w` trims `v`, and goes on into `w` only where
/// `v` is all white space.
pub proof fn lemma_trim_start_concat(v: Seq<char>, w: Seq<char>)
    ensures
        trim_start_spec(v + w) == if trim_start_spec(v).len() > 0 {
            trim_start_spec(v) + w
        } else {
            trim_start_spec(w)
        },
    decreases v.len(),
{
    if v.len() == 0 {
        assert(v + w =~= w);
    } else {
        assert((v + w)[0] == v[0]);
        if is_ws(v[0]) {
            assert((v + w).skip(1) =~= v.skip(1) + w);
            lemma_trim_start_concat(v.skip(1), w);
        }
    }
}

/// `trim_start_spec` drops a white-space prefix.
pub proof fn lemma_trim_start_split(s: Seq<char>) -> (k: int)
    ensures
        0 <= k <= s.len(),
        all_ws(s.take(k)),
        trim_start_spec(s) == s.skip(k),
    decreases s.len(),
{
    if s.len() > 0 && is_ws(s[0]) {
        let j = lemma_trim_start_split(s.skip(1));
        assert(s.skip(1).skip(j) =~= s.skip(j + 1));
        assert forall|i: int| 0 <= i < j + 1 implies is_ws(#[trigger] s.take(j + 1)[i]) by {
            if i > 0 {
                assert(s.take(j + 1)[i] == s.skip(1).take(j)[i - 1]);
            }
        }
        j + 1
    } else {
        assert(s.skip(0) =~= s);
        0
    }
}

/// `trim_end_spec` drops a white-space suffix.
pub proof fn lemma_trim_end_split(s: Seq<char>) -> (m: int)
    ensures
        0 <= m <= s.len(),
        all_ws(s.skip(m)),
        trim_end_spec(s) == s.take(m),
    decreases s.len(),
{
    if s.len() > 0 && is_ws(s.last()) {
        let j = lemma_trim_end_split(s.drop_last());
        assert(s.drop_last().take(j) =~= s.take(j));
        assert forall|i: int| 0 <= i < s.len() - j implies is_ws(#[trigger] s.skip(j)[i]) by {
            if i < s.len() - j - 1 {
                assert(s.skip(j)[i] == s.drop_last().skip(j)[i]);
            }
        }
        j
    } else {
        assert(s.take(s.len() as int) =~= s);
        s.len() as int
    }
}

/// White space around a text does not change what `trim_spec` gives.
pub proof fn lemma_trim_surrounded(w1: Seq<char>, v: Seq<char>, w2: Seq<char>)
    requires
        all_ws(w1),
        all_ws(w2),
    ensures
        trim_spec(w1 + v + w2) == trim_spec(v),
{
    assert(w1 + v + w2 =~= w1 + (v + w2));
    lemma_trim_start_ws_prefix(w1, v + w2);
    lemma_trim_start_concat(v, w2);
    if trim_start_spec(v).len() > 0 {
        lemma_trim_end_ws_suffix(trim_start_spec(v), w2);
    } else {
        lemma_trim_start_ws_prefix(w2, Seq::empty());
        assert(w2 + Seq::<char>::empty() =~= w2);
        assert(trim_start_spec(Seq::<char>::empty()) == Seq::<char>::empty());
    }
}

/// A text is its trimmed form with white space around it.
pub proof fn lemma_trim_decompose(v: Seq<char>) -> (ws: (Seq<char>, Seq<char>))
    ensures
        all_ws(ws.0),
        all_ws(ws.1),
        v == ws.0 + trim_spec(v) + ws.1,
{
    let k = lemma_trim_start_split(v);
    let t = trim_start_spec(v);
    let m = lemma_trim_end_split(t);
    assert(v =~= v.take(k) + t.take(m) + t.skip(m));
    (v.take(k), t.skip(m))
}

/// Trimming twice trims once.
pub proof fn lemma_trim_idempotent(v: Seq<char>)
    ensures
        trim_spec(trim_spec(v)) == trim_spec(v),
{
    let ws = lemma_trim_decompose(v);
    lemma_trim_surrounded(ws.0, trim_spec(v), ws.1);
}

/// `str::trim_start_matches` with a non-empty literal pattern.
pub open spec fn strip_all_prefix(s: Seq<char>, pat: Seq<char>) -> Seq<char>
    decreases s.len(),
{
    if pat.len() > 0 && has_prefix(s, pat) {
        strip_all_prefix(s.skip(pat.len() as int), pat)
    } else {
        s
    }
}

pub open spec fn lower_char(c: char) -> char {
    if 'A' <= c && c <= 'Z' {
        ((c as u32) + 32) as char
    } else {
        c
    }
}

/// `str::to_ascii_lowercase`.
pub open spec fn lower_spec(s: Seq<char>) -> Seq<char> {
    s.map_values(|c: char| lower_char(c))
}

/// Number of bytes `c` takes in UTF-8.
pub open spec fn utf8_width(c: char) -> nat {
    if (c as u32) < 0x80 {
        1
    } else if (c as u32) < 0x800 {
        2
    } else if (c as u32) < 0x10000 {
        3
    } else {
        4
    }
}

/// Number of bytes of the UTF-8 encoding of `s`: the offset unit that
/// `str::find` and `str::len` use.
pub open spec fn utf8_len(s: Seq<char>) -> nat
    decreases s.len(),
{
    if s.len() == 0 {
        0
    } else {
        utf8_width(s.last()) + utf8_len(s.drop_last())
    }
}

/// A sequence made of `n` copies of `c`.
pub open spec fn repeat_spec(c: char, n: nat) -> Seq<char> {
    Seq::new(n, |_i: int| c)
}

/// The views of a list of strings.
pub open spec fn views(v: Seq<String>) -> Seq<Seq<char>> {
    v.map_values(|s: String| s@)
}

// ---------------------------------------------------------------------------
// Lemmas
// ---------------------------------------------------------------------------

pub proof fn lemma_split_nonempty(s: Seq<char>, sep: Seq<char>)
    ensures
        split_spec(s, sep).len() >= 1,
    decreases s.len(),
{
    if sep.len() == 0 || s.len() == 0 {
    } else if has_prefix(s, sep) {
        lemma_split_nonempty(s.skip(sep.len() as int), sep);
    } else {
        lemma_split_nonempty(s.skip(1), sep);
    }
}

pub proof fn lemma_utf8_len_push(s: Seq<char>, c: char)
    ensures
        utf8_len(s.push(c)) == utf8_len(s) + utf8_width(c),
{
    assert(s.push(c).drop_last() =~= s);
}

pub proof fn lemma_join_push(parts: Seq<Seq<char>>, sep: Seq<char>, p: Seq<char>)
    ensures
        join_spec(parts.push(p), sep) == if parts.len() == 0 {
            p
        } else {
            join_spec(parts, sep) + sep + p
        },
{
    assert(parts.push(p).drop_last() =~= parts);
}

// ---------------------------------------------------------------------------
// Executable operations.
// ---------------------------------------------------------------------------

/// `String::push`, which vstd leaves unspecified.
#[verifier::external_body]
fn string_push(s: &mut String, c: char)
    ensures
        final(s)@ == old(s)@.push(c),
{
    s.push(c);
}

/// The characters of `s`.
pub fn chars_of(s: &str) -> (r: Vec<char>)
    ensures
        r@ == s@,
{
    let mut r: Vec<char> = Vec::new();
    for c in it: s.chars()
        invariant
            r@ == it.seq().take(it.index() as int),
            it.seq() == s@,
    {
        r.push(c);
    }
    r
}

/// The string made of the characters `v[from..to]`.
pub fn string_of_range(v: &[char], from: usize, to: usize) -> (s: String)
    requires
        from <= to <= v@.len(),
    ensures
        s@ == v@.subrange(from as int, to as int),
{
    let mut s = String::new();
    let mut i: usize = from;
    while i < to
        invariant
            from <= i <= to <= v@.len(),
            s@ == v@.subrange(from as int, i as int),
        decreases to - i,
    {
        string_push(&mut s, v[i]);
        assert(v@.subrange(from as int, i + 1) =~= v@.subrange(from as int, i as int).push(v@[i as int]));
        i = i + 1;
    }
    s
}

/// The string made of the characters of `v`.
pub fn string_of(v: &[char]) -> (s: String)
    ensures
        s@ == v@,
{
    let s = string_of_range(v, 0, v.len());
    assert(v@.subrange(0, v@.len() as int) =~= v@);
    s
}

/// A copy of `s`.
pub fn copy_str(s: &str) -> (r: String)
    ensures
        r@ == s@,
{
    let v = chars_of(s);
    string_of(&v)
}

/// `a` followed by `b`.
pub fn concat(a: &str, b: &str) -> (r: String)
    ensures
        r@ == a@ + b@,
{
    let mut r = copy_str(a);
    let v = chars_of(b);
    let mut i: usize = 0;
    while i < v.len()
        invariant
            i <= v@.len(),
            v@ == b@,
            r@ == a@ + v@.take(i as int),
        decreases v.len() - i,
    {
        string_push(&mut r, v[i]);
        assert(v@.take(i + 1) =~= v@.take(i as int).push(v@[i as int]));
        i = i + 1;
    }
    assert(v@.take(v@.len() as int) =~= v@);
    r
}

/// `a`, `b` and `c` one after the other.
pub fn concat3(a: &str, b: &str, c: &str) -> (r: String)
    ensures
        r@ == a@ + b@ + c@,
{
    let ab = concat(a, b);
    concat(ab.as_str(), c)
}

/// String equality by content.
pub fn str_eq(a: &str, b: &str) -> (r: bool)
    ensures
        r == (a@ == b@),
{
    let x = chars_of(a);
    let y = chars_of(b);
    if x.len() != y.len() {
        assert(a@.len() != b@.len());
        return false;
    }
    let mut i: usize = 0;
    while i < x.len()
        invariant
            i <= x@.len(),
            x@ == a@,
            y@ == b@,
            x@.len() == y@.len(),
            x@.take(i as int) == y@.take(i as int),
        decreases x.len() - i,
    {
        if x[i] != y[i] {
            assert(a@[i as int] != b@[i as int]);
            return false;
        }
        assert(x@.take(i + 1) =~= x@.take(i as int).push(x@[i as int]));
        assert(y@.take(i + 1) =~= y@.take(i as int).push(y@[i as int]));
        i = i + 1;
    }
    assert(x@ =~= x@.take(i as int));
    assert(y@ =~= y@.take(i as int));
    true
}

/// Whether `pat` occurs in `s` at char position `i`.
pub fn occurs_at_exec(s: &[char], pat: &[char], i: usize) -> (r: bool)
    ensures
        r == occurs_at(s@, pat@, i as int),
{
    if i > s.len() || pat.len() > s.len() - i {
        return false;
    }
    let mut k: usize = 0;
    while k < pat.len()
        invariant
            i + pat@.len() <= s@.len(),
            i + pat.len() <= s.len(),
            k <= pat@.len(),
            forall|j: int| 0 <= j < k ==> s@[i + j] == pat@[j],
        decreases pat.len() - k,
    {
        if s[i + k] != pat[k] {
            assert(s@.subrange(i as int, i + pat@.len())[k as int] != pat@[k as int]);
            return false;
        }
        k = k + 1;
    }
    assert(s@.subrange(i as int, i + pat@.len()) =~= pat@);
    true
}

pub fn starts_with(s: &str, pat: &str) -> (r: bool)
    ensures
        r == has_prefix(s@, pat@),
{
    let x = chars_of(s);
    let p = chars_of(pat);
    occurs_at_exec(&x, &p, 0)
}

pub fn ends_with(s: &str, pat: &str) -> (r: bool)
    ensures
        r == has_suffix(s@, pat@),
{
    let x = chars_of(s);
    let p = chars_of(pat);
    if p.len() > x.len() {
        return false;
    }
    occurs_at_exec(&x, &p, x.len() - p.len())
}

pub fn contains(s: &str, pat: &str) -> (r: bool)
    ensures
        r == contains_seq(s@, pat@),
{
    let x = chars_of(s);
    let p = chars_of(pat);
    if p.len() > x.len() {
        return false;
    }
    let mut i: usize = 0;
    while i <= x.len() - p.len()
        invariant
            x@ == s@,
            p@ == pat@,
            p@.len() <= x@.len(),
            p.len() <= x.len(),
            forall|j: int| 0 <= j < i ==> !occurs_at(s@, pat@, j),
        decreases x.len() - p.len() + 1 - i,
    {
        if occurs_at_exec(&x, &p, i) {
            return true;
        }
        if i == x.len() - p.len() {
            return false;
        }
        i = i + 1;
    }
    false
}

pub fn contains_char(s: &str, c: char) -> (r: bool)
    ensures
        r == s@.contains(c),
{
    let x = chars_of(s);
    let mut i: usize = 0;
    while i < x.len()
        invariant
            x@ == s@,
            i <= x@.len(),
            forall|j: int| 0 <= j < i ==> x@[j] != c,
        decreases x.len() - i,
    {
        if x[i] == c {
            assert(x@[i as int] == c);
            return true;
        }
        i = i + 1;
    }
    false
}

pub proof fn lemma_first_index_of(s: Seq<char>, c: char)
    ensures
        match first_index_of(s, c) {
            Some(i) => 0 <= i < s.len() && s[i] == c && forall|j: int| 0 <= j < i ==> s[j] != c,
            None => forall|j: int| 0 <= j < s.len() ==> s[j] != c,
        },
    decreases s.len(),
{
    if s.len() > 0 && s[0] != c {
        lemma_first_index_of(s.skip(1), c);
        match first_index_of(s.skip(1), c) {
            Some(i) => {
                assert forall|j: int| 0 <= j < i + 1 implies s[j] != c by {
                    if j > 0 {
                        assert(s[j] == s.skip(1)[j - 1]);
                    }
                }
            },
            None => {
                assert forall|j: int| 0 <= j < s.len() implies s[j] != c by {
                    if j > 0 {
                        assert(s[j] == s.skip(1)[j - 1]);
                    }
                }
            },
        }
    }
}

/// Char index of the first `c` in `s`.
pub fn find_char(s: &[char], c: char) -> (r: Option<usize>)
    ensures
        match r {
            Some(i) => first_index_of(s@, c) == Some(i as int) && i < s@.len(),
            None => first_index_of(s@, c) is None,
        },
{
    proof {
        lemma_first_index_of(s@, c);
    }
    let mut i: usize = 0;
    while i < s.len()
        invariant
            i <= s@.len(),
            forall|j: int| 0 <= j < i ==> s@[j] != c,
            match first_index_of(s@, c) {
                Some(k) => 0 <= k < s@.len() && s@[k] == c && forall|j: int| 0 <= j < k ==> s@[j] != c,
                None => forall|j: int| 0 <= j < s@.len() ==> s@[j] != c,
            },
        decreases s.len() - i,
    {
        if s[i] == c {
            return Some(i);
        }
        i = i + 1;
    }
    None
}

/// The text before the first `c` in `s` (`s` when `c` is absent).
pub fn before_first(s: &str, c: char) -> (r: String)
    ensures
        r@ == before_char(s@, c),
{
    let x = chars_of(s);
    match find_char(&x, c) {
        Some(i) => string_of_range(&x, 0, i),
        None => string_of(&x),
    }
}

pub proof fn lemma_utf8_len_take(s: Seq<char>, i: int)
    requires
        0 <= i < s.len(),
    ensures
        utf8_len(s.take(i + 1)) == utf8_len(s.take(i)) + utf8_width(s[i]),
{
    assert(s.take(i + 1) =~= s.take(i).push(s[i]));
    lemma_utf8_len_push(s.take(i), s[i]);
}

fn width_of(c: char) -> (w: usize)
    ensures
        w == utf8_width(c),
{
    let v = c as u32;
    if v < 0x80 {
        1
    } else if v < 0x800 {
        2
    } else if v < 0x10000 {
        3
    } else {
        4
    }
}

/// UTF-8 length in bytes of `s[..n]`.
pub fn byte_offset(s: &[char], n: usize) -> (r: usize)
    requires
        n <= s@.len(),
        utf8_len(s@.take(n as int)) <= usize::MAX,
    ensures
        r == utf8_len(s@.take(n as int)),
{
    let mut total: usize = 0;
    let mut i: usize = 0;
    while i < n
        invariant
            i <= n <= s@.len(),
            total == utf8_len(s@.take(i as int)),
            utf8_len(s@.take(n as int)) <= usize::MAX,
        decreases n - i,
    {
        proof {
            lemma_utf8_len_take(s@, i as int);
            lemma_utf8_len_prefix_mono(s@, i + 1, n as int);
        }
        total = total + width_of(s[i]);
        i = i + 1;
    }
    total
}

/// Whether `s` takes more than `n` bytes in UTF-8.
pub fn utf8_len_exceeds(s: &str, n: usize) -> (r: bool)
    ensures
        r == (utf8_len(s@) > n),
{
    let x = chars_of(s);
    let mut total: usize = 0;
    let mut i: usize = 0;
    while i < x.len()
        invariant
            i <= x@.len(),
            x@ == s@,
            total == utf8_len(x@.take(i as int)),
            total <= n,
        decreases x.len() - i,
    {
        proof {
            lemma_utf8_len_take(x@, i as int);
            lemma_utf8_len_prefix_mono(x@, i + 1, x@.len() as int);
        }
        let w = width_of(x[i]);
        if w > n - total {
            assert(x@.take(x@.len() as int) =~= x@);
            return true;
        }
        total = total + w;
        i = i + 1;
    }
    assert(x@.take(i as int) =~= x@);
    false
}

pub proof fn lemma_utf8_len_prefix_mono(s: Seq<char>, i: int, j: int)
    requires
        0 <= i <= j <= s.len(),
    ensures
        utf8_len(s.take(i)) <= utf8_len(s.take(j)),
    decreases j - i,
{
    if i < j {
        lemma_utf8_len_take(s, j - 1);
        lemma_utf8_len_prefix_mono(s, i, j - 1);
    }
}

/// `s.replace(pat, rep)` for a non-empty `pat`.
pub fn replace(s: &str, pat: &str, rep: &str) -> (r: String)
    requires
        pat@.len() > 0,
    ensures
        r@ == replace_spec(s@, pat@, rep@),
{
    let x = chars_of(s);
    let p = chars_of(pat);
    let rv = chars_of(rep);
    let mut out = String::new();
    let mut i: usize = 0;
    assert(x@.skip(0) =~= x@);
    while i < x.len()
        invariant
            x@ == s@,
            p@ == pat@,
            rv@ == rep@,
            p@.len() > 0,
            i <= x@.len(),
            out@ + replace_spec(x@.skip(i as int), p@, rv@) == replace_spec(x@, p@, rv@),
        decreases x.len() - i,
    {
        let ghost rest = x@.skip(i as int);
        if occurs_at_exec(&x, &p, i) {
            assert(rest.take(p@.len() as int) =~= x@.subrange(i as int, i + p@.len()));
            assert(rest.skip(p@.len() as int) =~= x@.skip(i + p@.len()));
            let mut k: usize = 0;
            let ghost out0 = out@;
            while k < rv.len()
                invariant
                    k <= rv@.len(),
                    out@ == out0 + rv@.take(k as int),
                decreases rv.len() - k,
            {
                string_push(&mut out, rv[k]);
                assert(rv@.take(k + 1) =~= rv@.take(k as int).push(rv@[k as int]));
                k = k + 1;
            }
            assert(rv@.take(rv@.len() as int) =~= rv@);
            assert(out0 + (rv@ + replace_spec(x@.skip(i + p@.len()), p@, rv@)) =~= out@
                + replace_spec(x@.skip(i + p@.len()), p@, rv@));
            i = i + p.len();
        } else {
            assert(!has_prefix(rest, p@)) by {
                if has_prefix(rest, p@) {
                    assert(rest.subrange(0, p@.len() as int) =~= x@.subrange(i as int, i + p@.len()));
                }
            }
            assert(rest.skip(1) =~= x@.skip(i + 1));
            let ghost out0 = out@;
            string_push(&mut out, x[i]);
            assert(out0 + (seq![x@[i as int]] + replace_spec(x@.skip(i + 1), p@, rv@)) =~= out@
                + replace_spec(x@.skip(i + 1), p@, rv@));
            i = i + 1;
        }
    }
    assert(x@.skip(i as int) =~= Seq::<char>::empty());
    assert(out@ + Seq::<char>::empty() =~= out@);
    out
}


/// `first` prepended to the first of `rest`.
pub open spec fn extend_first(first: Seq<char>, rest: Seq<Seq<char>>) -> Seq<Seq<char>> {
    rest.update(0, first + rest[0])
}

/// `s.split(sep)` for a non-empty `sep`.
pub fn split(s: &str, sep: &str) -> (r: Vec<String>)
    requires
        sep@.len() > 0,
    ensures
        views(r@) == split_spec(s@, sep@),
{
    let x = chars_of(s);
    let p = chars_of(sep);
    let mut done: Vec<String> = Vec::new();
    let mut cur = String::new();
    let mut i: usize = 0;
    proof {
        assert(x@.skip(0) =~= x@);
        lemma_split_nonempty(x@, p@);
        assert(extend_first(Seq::<char>::empty(), split_spec(x@, p@)) =~= split_spec(x@, p@));
        assert(views(done@) + split_spec(x@, p@) =~= split_spec(x@, p@));
    }
    while i < x.len()
        invariant
            x@ == s@,
            p@ == sep@,
            p@.len() > 0,
            i <= x@.len(),
            views(done@) + extend_first(cur@, split_spec(x@.skip(i as int), p@)) == split_spec(x@, p@),
        decreases x.len() - i,
    {
        let ghost rest = x@.skip(i as int);
        proof {
            lemma_split_nonempty(rest, p@);
        }
        if occurs_at_exec(&x, &p, i) {
            assert(rest.take(p@.len() as int) =~= x@.subrange(i as int, i + p@.len()));
            assert(rest.skip(p@.len() as int) =~= x@.skip(i + p@.len()));
            let ghost tail = split_spec(x@.skip(i + p@.len()), p@);
            proof {
                lemma_split_nonempty(x@.skip(i + p@.len()), p@);
            }
            let ghost old_done = done@;
            let piece = cur;
            done.push(piece);
            cur = String::new();
            proof {
                assert(views(done@) =~= views(old_done).push(piece@));
                assert(extend_first(Seq::<char>::empty(), tail) =~= tail);
                assert(extend_first(piece@, seq![Seq::<char>::empty()] + tail) =~= seq![piece@] + tail);
                assert(views(old_done) + (seq![piece@] + tail) =~= views(done@) + tail);
            }
            i = i + p.len();
        } else {
            assert(!has_prefix(rest, p@)) by {
                if has_prefix(rest, p@) {
                    assert(rest.subrange(0, p@.len() as int) =~= x@.subrange(i as int, i + p@.len()));
                }
            }
            assert(rest.skip(1) =~= x@.skip(i + 1));
            let ghost tail = split_spec(x@.skip(i + 1), p@);
            proof {
                lemma_split_nonempty(x@.skip(i + 1), p@);
            }
            let ghost old_cur = cur@;
            string_push(&mut cur, x[i]);
            proof {
                assert(old_cur + (seq![x@[i as int]] + tail[0]) =~= cur@ + tail[0]);
                assert(extend_first(old_cur, extend_first(seq![x@[i as int]], tail)) =~= extend_first(cur@, tail));
            }
            i = i + 1;
        }
    }
    proof {
        assert(x@.skip(i as int) =~= Seq::<char>::empty());
    }
    let ghost old_done = done@;
    done.push(cur);
    proof {
        assert(views(done@) =~= views(old_done).push(cur@));
        assert(extend_first(cur@, seq![Seq::<char>::empty()]) =~= seq![cur@]);
    }
    done
}

/// `parts.join(sep)`.
pub fn join(parts: &[String], sep: &str) -> (r: String)
    ensures
        r@ == join_spec(views(parts@), sep@),
{
    let mut out = String::new();
    let mut i: usize = 0;
    while i < parts.len()
        invariant
            i <= parts@.len(),
            out@ == join_spec(views(parts@.take(i as int)), sep@),
        decreases parts.len() - i,
    {
        proof {
            assert(views(parts@.take(i + 1)) =~= views(parts@.take(i as int)).push(parts@[i as int]@));
            lemma_join_push(views(parts@.take(i as int)), sep@, parts@[i as int]@);
        }
        if i == 0 {
            out = copy_str(parts[i].as_str());
        } else {
            let with_sep = concat(out.as_str(), sep);
            out = concat(with_sep.as_str(), parts[i].as_str());
        }
        i = i + 1;
    }
    assert(parts@.take(i as int) =~= parts@);
    out
}

/// `s.trim()`.
pub fn trim(s: &str) -> (r: String)
    ensures
        r@ == trim_spec(s@),
{
    let x = chars_of(s);
    let mut lo: usize = 0;
    assert(x@.skip(0) =~= x@);
    while lo < x.len() && is_ws_exec(x[lo])
        invariant
            lo <= x@.len(),
            trim_start_spec(x@.skip(lo as int)) == trim_start_spec(x@),
        decreases x.len() - lo,
    {
        assert(x@.skip(lo as int).skip(1) =~= x@.skip(lo + 1));
        lo = lo + 1;
    }
    let ghost start = x@.skip(lo as int);
    assert(trim_start_spec(start) == start);
    let mut hi: usize = x.len();
    assert(x@.subrange(lo as int, hi as int) =~= start);
    while hi > lo && is_ws_exec(x[hi - 1])
        invariant
            lo <= hi <= x@.len(),
            trim_end_spec(x@.subrange(lo as int, hi as int)) == trim_end_spec(start),
        decreases hi,
    {
        assert(x@.subrange(lo as int, hi as int).drop_last() =~= x@.subrange(lo as int, hi - 1));
        hi = hi - 1;
    }
    string_of_range(&x, lo, hi)
}

/// `char::is_whitespace`.
pub fn is_ws_exec(c: char) -> (r: bool)
    ensures
        r == is_ws(c),
{
    ('\u{9}' <= c && c <= '\u{d}') || c == ' ' || c == '\u{85}' || c == '\u{a0}' || c == '\u{1680}'
        || ('\u{2000}' <= c && c <= '\u{200a}') || c == '\u{2028}' || c == '\u{2029}' || c
        == '\u{202f}' || c == '\u{205f}' || c == '\u{3000}'
}

/// `s.trim_start()`.
pub fn trim_start(s: &str) -> (r: String)
    ensures
        r@ == trim_start_spec(s@),
{
    let x = chars_of(s);
    let mut lo: usize = 0;
    assert(x@.skip(0) =~= x@);
    while lo < x.len() && is_ws_exec(x[lo])
        invariant
            lo <= x@.len(),
            trim_start_spec(x@.skip(lo as int)) == trim_start_spec(x@),
        decreases x.len() - lo,
    {
        assert(x@.skip(lo as int).skip(1) =~= x@.skip(lo + 1));
        lo = lo + 1;
    }
    assert(x@.subrange(lo as int, x@.len() as int) =~= x@.skip(lo as int));
    string_of_range(&x, lo, x.len())
}

/// `s.trim_start_matches(pat)` for a non-empty literal `pat`.
pub fn strip_all(s: &str, pat: &str) -> (r: String)
    requires
        pat@.len() > 0,
    ensures
        r@ == strip_all_prefix(s@, pat@),
{
    let x = chars_of(s);
    let p = chars_of(pat);
    let mut lo: usize = 0;
    assert(x@.skip(0) =~= x@);
    while occurs_at_exec(&x, &p, lo)
        invariant
            x@ == s@,
            p@ == pat@,
            p@.len() > 0,
            lo <= x@.len(),
            strip_all_prefix(x@.skip(lo as int), p@) == strip_all_prefix(x@, p@),
        decreases x.len() - lo,
    {
        assert(x@.skip(lo as int).take(p@.len() as int) =~= x@.subrange(lo as int, lo + p@.len()));
        assert(x@.skip(lo as int).skip(p@.len() as int) =~= x@.skip(lo + p@.len()));
        lo = lo + p.len();
    }
    assert(!has_prefix(x@.skip(lo as int), p@)) by {
        if has_prefix(x@.skip(lo as int), p@) {
            assert(x@.skip(lo as int).subrange(0, p@.len() as int) =~= x@.subrange(lo as int, lo + p@.len()));
        }
    }
    assert(x@.subrange(lo as int, x@.len() as int) =~= x@.skip(lo as int));
    string_of_range(&x, lo, x.len())
}

/// `s.to_ascii_lowercase()`.
pub fn to_lower(s: &str) -> (r: String)
    ensures
        r@ == lower_spec(s@),
{
    let x = chars_of(s);
    let mut out = String::new();
    let mut i: usize = 0;
    while i < x.len()
        invariant
            i <= x@.len(),
            out@ == lower_spec(x@.take(i as int)),
        decreases x.len() - i,
    {
        let c = x[i];
        let l = if 'A' <= c && c <= 'Z' {
            char_from_u32_lower(c)
        } else {
            c
        };
        string_push(&mut out, l);
        assert(lower_spec(x@.take(i + 1)) =~= lower_spec(x@.take(i as int)).push(lower_char(x@[i as int])));
        i = i + 1;
    }
    assert(x@.take(i as int) =~= x@);
    out
}

fn char_from_u32_lower(c: char) -> (r: char)
    requires
        'A' <= c && c <= 'Z',
    ensures
        r == lower_char(c),
{
    if c == 'A' { 'a' } else if c == 'B' { 'b' } else if c == 'C' { 'c' } else if c == 'D' { 'd' }
    else if c == 'E' { 'e' } else if c == 'F' { 'f' } else if c == 'G' { 'g' } else if c == 'H' { 'h' }
    else if c == 'I' { 'i' } else if c == 'J' { 'j' } else if c == 'K' { 'k' } else if c == 'L' { 'l' }
    else if c == 'M' { 'm' } else if c == 'N' { 'n' } else if c == 'O' { 'o' } else if c == 'P' { 'p' }
    else if c == 'Q' { 'q' } else if c == 'R' { 'r' } else if c == 'S' { 's' } else if c == 'T' { 't' }
    else if c == 'U' { 'u' } else if c == 'V' { 'v' } else if c == 'W' { 'w' } else if c == 'X' { 'x' }
    else if c == 'Y' { 'y' } else { 'z' }
}

/// `c` repeated `n` times.
pub fn repeat_char(c: char, n: usize) -> (r: String)
    ensures
        r@ == repeat_spec(c, n as nat),
{
    let mut out = String::new();
    let mut i: usize = 0;
    while i < n
        invariant
            i <= n,
            out@ == repeat_spec(c, i as nat),
        decreases n - i,
    {
        string_push(&mut out, c);
        assert(out@ =~= repeat_spec(c, (i + 1) as nat));
        i = i + 1;
    }
    out
}

/// Number of chars of `s` (`s.chars().count()`).
pub fn char_count(s: &str) -> (n: usize)
    ensures
        n == s@.len(),
{
    let x = chars_of(s);
    x.len()
}


pub open spec fn upper_char(c: char) -> char {
    if 'a' <= c && c <= 'z' {
        ((c as u32) - 32) as char
    } else {
        c
    }
}

/// `str::to_ascii_uppercase`.
pub open spec fn upper_spec(s: Seq<char>) -> Seq<char> {
    s.map_values(|c: char| upper_char(c))
}

fn char_to_upper(c: char) -> (r: char)
    requires
        'a' <= c && c <= 'z',
    ensures
        r == upper_char(c),
{
    if c == 'a' { 'A' } else if c == 'b' { 'B' } else if c == 'c' { 'C' } else if c == 'd' { 'D' }
    else if c == 'e' { 'E' } else if c == 'f' { 'F' } else if c == 'g' { 'G' } else if c == 'h' { 'H' }
    else if c == 'i' { 'I' } else if c == 'j' { 'J' } else if c == 'k' { 'K' } else if c == 'l' { 'L' }
    else if c == 'm' { 'M' } else if c == 'n' { 'N' } else if c == 'o' { 'O' } else if c == 'p' { 'P' }
    else if c == 'q' { 'Q' } else if c == 'r' { 'R' } else if c == 's' { 'S' } else if c == 't' { 'T' }
    else if c == 'u' { 'U' } else if c == 'v' { 'V' } else if c == 'w' { 'W' } else if c == 'x' { 'X' }
    else if c == 'y' { 'Y' } else { 'Z' }
}

/// `s.to_ascii_uppercase()`.
pub fn to_upper(s: &str) -> (r: String)
    ensures
        r@ == upper_spec(s@),
{
    let x = chars_of(s);
    let mut out = String::new();
    let mut i: usize = 0;
    while i < x.len()
        invariant
            i <= x@.len(),
            out@ == upper_spec(x@.take(i as int)),
        decreases x.len() - i,
    {
        let c = x[i];
        let u = if 'a' <= c && c <= 'z' {
            char_to_upper(c)
        } else {
            c
        };
        string_push(&mut out, u);
        assert(upper_spec(x@.take(i + 1)) =~= upper_spec(x@.take(i as int)).push(upper_char(x@[i as int])));
        i = i + 1;
    }
    assert(x@.take(i as int) =~= x@);
    out
}


/// The Unicode upper-case mapping of a string, as `str::to_uppercase`
/// computes it.
pub uninterp spec fn uppercase_of(s: Seq<char>) -> Seq<char>;

/// `str::to_uppercase`. Trusted: the contract only names the result, which
/// depends on the string alone.
#[verifier::external_body]
pub(crate) fn to_uppercase(s: &str) -> (r: String)
    ensures
        r@ == uppercase_of(s@),
{
    s.to_uppercase()
}


proof fn lemma_utf8_len_prepend(c: char, r: Seq<char>)
    ensures
        utf8_len(seq![c] + r) == utf8_width(c) + utf8_len(r),
    decreases r.len(),
{
    if r.len() > 0 {
        lemma_utf8_len_prepend(c, r.drop_last());
        assert((seq![c] + r).drop_last() =~= seq![c] + r.drop_last());
        assert((seq![c] + r).last() == r.last());
        assert(utf8_len(seq![c] + r) == utf8_width(r.last()) + utf8_len(seq![c] + r.drop_last()));
        assert(utf8_len(r) == utf8_width(r.last()) + utf8_len(r.drop_last()));
    } else {
        assert(seq![c] + r =~= seq![c]);
        assert(seq![c].drop_last() =~= Seq::<char>::empty());
        assert(utf8_len(Seq::<char>::empty()) == 0);
        assert(utf8_len(seq![c]) == utf8_width(c) + utf8_len(seq![c].drop_last()));
    }
}

/// The UTF-8 encoding of `s` has `utf8_len(s)` bytes.
pub proof fn lemma_encode_len(s: Seq<char>)
    ensures
        vstd::utf8::encode_utf8(s).len() == utf8_len(s),
    decreases s.len(),
{
    if s.len() > 0 {
        lemma_encode_len(s.drop_first());
        assert(seq![s[0]] + s.drop_first() =~= s);
        lemma_utf8_len_prepend(s[0], s.drop_first());
        vstd::utf8::char_is_scalar(s[0]);
    }
}

/// The length of `s` in bytes.
pub fn str_byte_len(s: &str) -> (n: usize)
    ensures
        n == utf8_len(s@),
{
    proof {
        lemma_encode_len(s@);
    }
    let b = s.as_bytes();
    proof {
        vstd::slice::axiom_spec_len(b);
    }
    b.len()
}

/// The position of the last occurrence of `pat` in `s` (the end of `s`
/// for an empty pattern).
pub open spec fn rfind_spec(s: Seq<char>, pat: Seq<char>) -> Option<int> {
    if pat.len() == 0 {
        Some(s.len() as int)
    } else {
        last_occurrence(s, pat)
    }
}

proof fn lemma_last_occurrence_range(s: Seq<char>, pat: Seq<char>)
    ensures
        match last_occurrence(s, pat) {
            Some(i) => 0 <= i && i + pat.len() <= s.len(),
            None => true,
        },
    decreases s.len(),
{
    if pat.len() > 0 && s.len() >= pat.len() && !occurs_at(s, pat, s.len() - pat.len()) {
        lemma_last_occurrence_range(s.drop_last(), pat);
    }
}

/// The char position of the last occurrence of `pat` in `s`.
pub fn rfind(s: &[char], pat: &[char]) -> (r: Option<usize>)
    ensures
        match r {
            Some(i) => rfind_spec(s@, pat@) == Some(i as int) && i <= s@.len(),
            None => rfind_spec(s@, pat@) is None,
        },
{
    if pat.len() == 0 {
        return Some(s.len());
    }
    if s.len() < pat.len() {
        return None;
    }
    let mut end: usize = s.len();
    assert(s@.take(end as int) =~= s@);
    while end >= pat.len()
        invariant
            pat@.len() > 0,
            end <= s@.len(),
            last_occurrence(s@, pat@) == last_occurrence(s@.take(end as int), pat@),
        decreases end,
    {
        let start = end - pat.len();
        let ghost t = s@.take(end as int);
        if occurs_at_exec(s, pat, start) {
            assert(t.subrange(start as int, start + pat@.len()) =~= s@.subrange(start as int, start + pat@.len()));
            return Some(start);
        }
        assert(!occurs_at(t, pat@, t.len() - pat@.len())) by {
            if occurs_at(t, pat@, t.len() - pat@.len()) {
                assert(t.subrange(start as int, start + pat@.len()) =~= s@.subrange(start as int, start + pat@.len()));
            }
        }
        assert(t.drop_last() =~= s@.take(end - 1));
        end = end - 1;
    }
    None
}


/// The UTF-8 length of a concatenation.
pub proof fn lemma_utf8_len_concat(a: Seq<char>, b: Seq<char>)
    ensures
        utf8_len(a + b) == utf8_len(a) + utf8_len(b),
    decreases b.len(),
{
    if b.len() > 0 {
        lemma_utf8_len_concat(a, b.drop_last());
        assert((a + b).drop_last() =~= a + b.drop_last());
        assert((a + b).last() == b.last());
    } else {
        assert(a + b =~= a);
    }
}

/// Every char takes at least one byte.
pub proof fn lemma_utf8_len_ge_len(s: Seq<char>)
    ensures
        utf8_len(s) >= s.len(),
    decreases s.len(),
{
    if s.len() > 0 {
        lemma_utf8_len_ge_len(s.drop_last());
    }
}

}
