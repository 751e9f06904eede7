//! Small building blocks for assembling spoken text: decimal rendering,
//! character appends, and the few `str` operations whose behaviour the
//! library relies on.
use vstd::prelude::*;

verus! {

/// The character of a decimal digit `d` (`0 <= d < 10`).
pub open spec fn digit_char(d: nat) -> char {
    ((d + 48) as u8) as char
}

/// The decimal rendering of a natural number, without sign or leading zeros.
pub open spec fn decimal(n: nat) -> Seq<char>
    decreases n,
{
    if n < 10 {
        seq![digit_char(n)]
    } else {
        decimal(n / 10).push(digit_char(n % 10))
    }
}

/// The magnitude of an integer.
pub open spec fn magnitude(x: int) -> nat {
    if x < 0 {
        (-x) as nat
    } else {
        x as nat
    }
}

/// Relies on `String::push`: the character is appended at the end.
#[verifier::external_body]
pub(crate) fn push_char(s: &mut String, c: char)
    ensures
        final(s)@ == old(s)@.push(c),
{
    s.push(c)
}

/// What `str::to_lowercase` makes of a string: the characters' Unicode
/// lowercase mappings.
pub uninterp spec fn lowercase_of(s: Seq<char>) -> Seq<char>;

/// Relies on `str::to_lowercase`: its result depends on the characters alone.
#[verifier::external_body]
pub(crate) fn to_lowercase(s: &str) -> (r: String)
    ensures
        r@ == lowercase_of(s@),
{
    s.to_lowercase()
}

/// Joins `parts` with `sep` between neighbours.
pub open spec fn join(parts: Seq<Seq<char>>, sep: Seq<char>) -> Seq<char>
    decreases parts.len(),
{
    if parts.len() == 0 {
        Seq::empty()
    } else if parts.len() == 1 {
        parts[0]
    } else {
        join(parts.drop_last(), sep) + sep + parts.last()
    }
}

/// Joins the strings of `parts` with `sep` between neighbours.
pub fn join_strings(parts: &Vec<String>, sep: &str) -> (r: String)
    ensures
        r@ == join(parts@.map_values(|p: String| p@), sep@),
{
    let ghost views = parts@.map_values(|p: String| p@);
    let mut r = String::new();
    let mut i: usize = 0;
    while i < parts.len()
        invariant
            i <= parts.len(),
            views == parts@.map_values(|p: String| p@),
            r@ == join(views.take(i as int), sep@),
        decreases parts.len() - i,
    {
        if i > 0 {
            r.append(sep);
        }
        r.append(parts[i].as_str());
        assert(views.take(i + 1).drop_last() =~= views.take(i as int));
        i = i + 1;
    }
    assert(views.take(parts.len() as int) =~= views);
    r
}

/// Appends the decimal rendering of `n` to `s`.
pub fn append_decimal(s: &mut String, n: u64)
    ensures
        final(s)@ == old(s)@ + decimal(n as nat),
    decreases n,
{
    let ghost before = s@;
    if n >= 10 {
        append_decimal(s, n / 10);
    }
    let d: u8 = (n % 10) as u8;
    push_char(s, (d + 48) as char);
    assert(s@ =~= before + decimal(n as nat));
}

/// The magnitude of a signed 64-bit integer, without overflow.
pub fn unsigned_magnitude(x: i64) -> (r: u64)
    ensures
        r as nat == magnitude(x as int),
{
    if x < 0 {
        ((-(x + 1)) as u64) + 1
    } else {
        x as u64
    }
}

/// Whether `t` occurs in `s` as a run of consecutive characters.
pub open spec fn occurs_in(t: Seq<char>, s: Seq<char>) -> bool {
    exists|i: int| 0 <= i && i + t.len() <= s.len() && #[trigger] s.subrange(i, i + t.len()) == t
}

/// Whether the character `c` appears nowhere in `s`.
pub open spec fn avoids(s: Seq<char>, c: char) -> bool {
    forall|k: int| 0 <= k < s.len() ==> #[trigger] s[k] != c
}

/// A text made of two parts that both avoid `c` avoids it too.
pub proof fn lemma_avoids_add(a: Seq<char>, b: Seq<char>, c: char)
    requires
        avoids(a, c),
        avoids(b, c),
    ensures
        avoids(a + b, c),
{
    assert forall|k: int| 0 <= k < (a + b).len() implies #[trigger] (a + b)[k] != c by {
        if k < a.len() {
            assert((a + b)[k] == a[k]);
        } else {
            assert((a + b)[k] == b[k - a.len()]);
        }
    }
}

/// Every character of a decimal rendering is a digit.
pub proof fn lemma_decimal_digits(n: nat)
    ensures
        forall|k: int| 0 <= k < decimal(n).len() ==> '0' <= #[trigger] decimal(n)[k] <= '9',
    decreases n,
{
    if n >= 10 {
        lemma_decimal_digits(n / 10);
        let p = decimal(n / 10);
        assert forall|k: int| 0 <= k < decimal(n).len() implies '0' <= #[trigger] decimal(n)[k] <= '9' by {
            if k < p.len() {
                assert(decimal(n)[k] == p[k]);
            }
        }
    }
}

/// A text that misses one of the characters of `t` does not contain `t`.
pub proof fn lemma_missing_char(t: Seq<char>, s: Seq<char>, j: int)
    requires
        0 <= j < t.len(),
        avoids(s, t[j]),
    ensures
        !occurs_in(t, s),
{
    if occurs_in(t, s) {
        let i = choose|i: int| 0 <= i && i + t.len() <= s.len() && #[trigger] s.subrange(i, i + t.len()) == t;
        assert(s.subrange(i, i + t.len())[j] == s[i + j]);
    }
}

/// A run `t` whose first character is missing from `a` and `b`, and whose
/// later characters all differ from the first character of `b`, occurs in
/// `a + m + b` only if it occurs in `m`.
pub proof fn lemma_occurs_within(t: Seq<char>, a: Seq<char>, m: Seq<char>, b: Seq<char>)
    requires
        t.len() > 0,
        b.len() > 0,
        avoids(a, t[0]),
        avoids(b, t[0]),
        forall|j: int| 1 <= j < t.len() ==> #[trigger] t[j] != b[0],
        occurs_in(t, a + m + b),
    ensures
        occurs_in(t, m),
{
    let s = a + m + b;
    let i = choose|i: int| 0 <= i && i + t.len() <= s.len() && #[trigger] s.subrange(i, i + t.len()) == t;
    assert(s[i] == s.subrange(i, i + t.len())[0]);
    if i < a.len() {
        assert(s[i] == a[i]);
    }
    if i >= a.len() + m.len() {
        assert(s[i] == b[i - a.len() - m.len()]);
    }
    let end = (a.len() + m.len()) as int;
    if i + t.len() <= end {
        let k = i - a.len();
        assert(m.subrange(k, k + t.len()) =~= t) by {
            assert forall|x: int| 0 <= x < t.len() implies #[trigger] m.subrange(k, k + t.len())[x] == t[x] by {
                assert(s.subrange(i, i + t.len())[x] == s[i + x]);
                assert(s[i + x] == m[k + x]);
            }
        }
    } else {
        let j = end - i;
        assert(s.subrange(i, i + t.len())[j] == s[end]);
        assert(s[end] == b[0]);
        assert(t[j] != b[0]);
    }
}

} // verus!
