use vstd::prelude::*;
use vstd::string::*;

verus! {

/// The text of a decimal digit.
pub open spec fn digit_text(d: nat) -> Seq<char> {
    if d == 0 {
        "0"@
    } else if d == 1 {
        "1"@
    } else if d == 2 {
        "2"@
    } else if d == 3 {
        "3"@
    } else if d == 4 {
        "4"@
    } else if d == 5 {
        "5"@
    } else if d == 6 {
        "6"@
    } else if d == 7 {
        "7"@
    } else if d == 8 {
        "8"@
    } else {
        "9"@
    }
}

/// The decimal text of `n`, without leading zeros.
pub open spec fn decimal(n: nat) -> Seq<char>
    decreases n,
{
    if n < 10 {
        digit_text(n)
    } else {
        decimal(n / 10) + digit_text(n % 10)
    }
}

fn digit_str(d: u64) -> (r: &'static str)
    requires
        d < 10,
    ensures
        r@ == digit_text(d as nat),
{
    if d == 0 {
        "0"
    } else if d == 1 {
        "1"
    } else if d == 2 {
        "2"
    } else if d == 3 {
        "3"
    } else if d == 4 {
        "4"
    } else if d == 5 {
        "5"
    } else if d == 6 {
        "6"
    } else if d == 7 {
        "7"
    } else if d == 8 {
        "8"
    } else {
        "9"
    }
}

/// The decimal text of `n`.
pub fn decimal_string(n: u64) -> (r: String)
    ensures
        r@ == decimal(n as nat),
    decreases n,
{
    if n < 10 {
        String::from_str(digit_str(n))
    } else {
        let head = decimal_string(n / 10);
        head.concat(digit_str(n % 10))
    }
}

/// `parts` with `sep` between each two.
pub open spec fn join(parts: Seq<Seq<char>>, sep: Seq<char>) -> Seq<char>
    decreases parts.len(),
{
    if parts.len() == 0 {
        Seq::empty()
    } else if parts.len() == 1 {
        parts[0]
    } else {
        join(parts.drop_last(), sep) + sep + parts.last()
    }
}

pub open spec fn views(v: Seq<String>) -> Seq<Seq<char>> {
    v.map_values(|s: String| s@)
}

/// The strings of `parts` with `sep` between each two.
pub fn join_strings(parts: &Vec<String>, sep: &str) -> (r: String)
    ensures
        r@ == join(views(parts@), sep@),
{
    let mut r = String::new();
    let ghost vs = views(parts@);
    let mut i: usize = 0;
    assert(vs.take(0) =~= Seq::<Seq<char>>::empty());
    while i < parts.len()
        invariant
            i <= parts.len(),
            vs == views(parts@),
            r@ == join(vs.take(i as int), sep@),
        decreases parts.len() - i,
    {
        assert(vs.take(i + 1).drop_last() =~= vs.take(i as int));
        if i != 0 {
            r.append(sep);
        }
        r.append(parts[i].as_str());
        i = i + 1;
    }
    assert(vs.take(parts.len() as int) =~= vs);
    r
}

/// `s` with each occurrence of the non-empty `pat`, scanned left to right without
/// overlap, replaced by `rep`.
pub open spec fn replace_occurrences(s: Seq<char>, pat: Seq<char>, rep: Seq<char>) -> Seq<char>
    decreases s.len(),
{
    if s.len() == 0 {
        Seq::empty()
    } else if pat.len() > 0 && pat.is_prefix_of(s) {
        rep + replace_occurrences(s.skip(pat.len() as int), pat, rep)
    } else {
        seq![s[0]] + replace_occurrences(s.drop_first(), pat, rep)
    }
}

/// `rep` before each character of `s` and after the last, which is where an empty
/// pattern occurs.
pub open spec fn interleave(s: Seq<char>, rep: Seq<char>) -> Seq<char>
    decreases s.len(),
{
    if s.len() == 0 {
        rep
    } else {
        rep + seq![s[0]] + interleave(s.drop_first(), rep)
    }
}

/// `s` with each occurrence of `pat`, scanned left to right without overlap,
/// replaced by `rep`; an empty pattern occurs before each character and at the end.
pub open spec fn replace_all(s: Seq<char>, pat: Seq<char>, rep: Seq<char>) -> Seq<char> {
    if pat.len() == 0 {
        interleave(s, rep)
    } else {
        replace_occurrences(s, pat, rep)
    }
}

/// Whether `pat` occurs in `s` starting at `at`.
pub(crate) fn occurs_at(s: &str, n: usize, pat: &str, m: usize, at: usize) -> (r: bool)
    requires
        n == s@.len(),
        m == pat@.len(),
        at <= n,
    ensures
        r == pat@.is_prefix_of(s@.skip(at as int)),
{
    if m > n - at {
        return false;
    }
    let mut j: usize = 0;
    while j < m
        invariant
            n == s@.len(),
            m == pat@.len(),
            at + m <= n,
            j <= m,
            forall|k: int| 0 <= k < j ==> pat@[k] == s@[at + k],
        decreases m - j,
    {
        if pat.get_char(j) != s.get_char(at + j) {
            assert(s@.skip(at as int)[j as int] == s@[at + j]);
            return false;
        }
        j = j + 1;
    }
    assert forall|k: int| 0 <= k < m implies pat@[k] == s@.skip(at as int)[k] by {}
    true
}

/// `s` with each occurrence of `pat` replaced by `rep`: see [`replace_all`].
pub fn replace(s: &str, pat: &str, rep: &str) -> (r: String)
    ensures
        r@ == replace_all(s@, pat@, rep@),
{
    let n = s.unicode_len();
    let m = pat.unicode_len();
    let mut r = String::new();
    let mut i: usize = 0;
    assert(s@.skip(0) =~= s@);
    if m == 0 {
        while i < n
            invariant
                n == s@.len(),
                m == pat@.len(),
                m == 0,
                i <= n,
                interleave(s@, rep@) == r@ + interleave(s@.skip(i as int), rep@),
            decreases n - i,
        {
            let ghost rest = s@.skip(i as int);
            let c = s.substring_char(i, i + 1);
            r.append(rep);
            r.append(c);
            assert(c@ =~= seq![rest[0]]);
            assert(rest.drop_first() =~= s@.skip(i + 1));
            i = i + 1;
        }
        assert(s@.skip(n as int) =~= Seq::<char>::empty());
        r.append(rep);
        return r;
    }
    while i < n
        invariant
            n == s@.len(),
            m == pat@.len(),
            m > 0,
            i <= n,
            replace_occurrences(s@, pat@, rep@) == r@ + replace_occurrences(s@.skip(i as int), pat@, rep@),
        decreases n - i,
    {
        let ghost rest = s@.skip(i as int);
        if occurs_at(s, n, pat, m, i) {
            r.append(rep);
            assert(rest.skip(m as int) =~= s@.skip(i + m));
            i = i + m;
        } else {
            let c = s.substring_char(i, i + 1);
            r.append(c);
            assert(c@ =~= seq![rest[0]]);
            assert(rest.drop_first() =~= s@.skip(i + 1));
            i = i + 1;
        }
    }
    assert(s@.skip(n as int) =~= Seq::<char>::empty());
    r
}

/// Unicode `White_Space`, which `char::is_whitespace` tests.
pub open spec fn is_ws(c: char) -> bool {
    let x = c as int;
    (9 <= x <= 13) || x == 32 || x == 133 || x == 160 || x == 5760 || (8192 <= x <= 8202) || x == 8232
        || x == 8233 || x == 8239 || x == 8287 || x == 12288
}

pub fn is_whitespace(c: char) -> (r: bool)
    ensures
        r == is_ws(c),
{
    let x = c as u32;
    (9 <= x && x <= 13) || x == 32 || x == 133 || x == 160 || x == 5760 || (8192 <= x && x <= 8202)
        || x == 8232 || x == 8233 || x == 8239 || x == 8287 || x == 12288
}

/// The length of `s` without its trailing whitespace.
pub open spec fn end_trimmed_len(s: Seq<char>) -> nat
    decreases s.len(),
{
    if s.len() == 0 {
        0
    } else if is_ws(s.last()) {
        end_trimmed_len(s.drop_last())
    } else {
        s.len()
    }
}

/// The number of leading whitespace characters of `s`.
pub open spec fn leading_ws_len(s: Seq<char>) -> nat
    decreases s.len(),
{
    if s.len() == 0 {
        0
    } else if is_ws(s[0]) {
        1 + leading_ws_len(s.drop_first())
    } else {
        0
    }
}

pub open spec fn trim_end_spec(s: Seq<char>) -> Seq<char> {
    s.take(end_trimmed_len(s) as int)
}

pub open spec fn trim_spec(s: Seq<char>) -> Seq<char> {
    let t = trim_end_spec(s);
    t.skip(leading_ws_len(t) as int)
}

proof fn lemma_end_trimmed_len_bound(s: Seq<char>)
    ensures
        end_trimmed_len(s) <= s.len(),
    decreases s.len(),
{
    if s.len() > 0 && is_ws(s.last()) {
        lemma_end_trimmed_len_bound(s.drop_last());
    }
}

proof fn lemma_leading_ws_len_bound(s: Seq<char>)
    ensures
        leading_ws_len(s) <= s.len(),
    decreases s.len(),
{
    if s.len() > 0 && is_ws(s[0]) {
        lemma_leading_ws_len_bound(s.drop_first());
    }
}

/// `s` without trailing whitespace.
pub fn trim_end(s: &str) -> (r: &str)
    ensures
        r@ == trim_end_spec(s@),
{
    let n = s.unicode_len();
    let mut k: usize = n;
    assert(s@.take(n as int) =~= s@);
    while k > 0
        invariant
            n == s@.len(),
            k <= n,
            end_trimmed_len(s@) == end_trimmed_len(s@.take(k as int)),
        ensures
            k == 0 || !is_ws(s@[k - 1]),
            end_trimmed_len(s@) == end_trimmed_len(s@.take(k as int)),
        decreases k,
    {
        let c = s.get_char(k - 1);
        if !is_whitespace(c) {
            break;
        }
        assert(s@.take(k as int).drop_last() =~= s@.take(k - 1));
        k = k - 1;
    }
    if k > 0 {
        assert(s@.take(k as int).last() == s@[k - 1]);
    }
    s.substring_char(0, k)
}

/// `s` without leading or trailing whitespace.
pub fn trim(s: &str) -> (r: &str)
    ensures
        r@ == trim_spec(s@),
{
    let t = trim_end(s);
    proof {
        lemma_end_trimmed_len_bound(s@);
    }
    let n = t.unicode_len();
    let mut k: usize = 0;
    assert(t@.skip(0) =~= t@);
    while k < n
        invariant
            n == t@.len(),
            k <= n,
            k + leading_ws_len(t@.skip(k as int)) == leading_ws_len(t@),
        ensures
            k == n || !is_ws(t@[k as int]),
            k + leading_ws_len(t@.skip(k as int)) == leading_ws_len(t@),
        decreases n - k,
    {
        let c = t.get_char(k);
        if !is_whitespace(c) {
            break;
        }
        assert(t@.skip(k as int).drop_first() =~= t@.skip(k + 1));
        k = k + 1;
    }
    if k < n {
        assert(t@.skip(k as int)[0] == t@[k as int]);
    }
    assert(t@.subrange(k as int, n as int) =~= t@.skip(k as int));
    t.substring_char(k, n)
}

}
