//! Character-level text helpers shared by the request builders and parsers.
//!
//! Strings are modelled by their `Seq<char>` views. Integer formatting and
//! whitespace trimming are std's; their wrappers state what std documents.
use vstd::prelude::*;

verus! {

/// The character of one decimal digit.
pub open spec fn digit_char(d: nat) -> char {
    if d == 0 {
        '0'
    } else if d == 1 {
        '1'
    } else if d == 2 {
        '2'
    } else if d == 3 {
        '3'
    } else if d == 4 {
        '4'
    } else if d == 5 {
        '5'
    } else if d == 6 {
        '6'
    } else if d == 7 {
        '7'
    } else if d == 8 {
        '8'
    } else {
        '9'
    }
}

/// Decimal digits of a natural number, most significant first, no leading zeros.
pub open spec fn decimal_nat(n: nat) -> Seq<char>
    decreases n,
{
    if n < 10 {
        seq![digit_char(n)]
    } else {
        decimal_nat(n / 10).push(digit_char(n % 10))
    }
}

/// Decimal text of an integer: a `-` before the digits of a negative value.
pub open spec fn decimal(i: int) -> Seq<char> {
    if i < 0 {
        seq!['-'] + decimal_nat((-i) as nat)
    } else {
        decimal_nat(i as nat)
    }
}

/// Calls `<u64 as ToString>::to_string`. std's `Display` for unsigned integers
/// writes the decimal digits with no sign and no leading zeros.
#[verifier::external_body]
fn u64_to_text(n: u64) -> (s: String)
    ensures
        s@ == decimal(n as int),
{
    n.to_string()
}

/// Calls `<i64 as ToString>::to_string`. std's `Display` for signed integers
/// writes a `-` for negative values, then the decimal digits of the magnitude.
#[verifier::external_body]
fn i64_to_text(n: i64) -> (s: String)
    ensures
        s@ == decimal(n as int),
{
    n.to_string()
}

/// Decimal text of an unsigned value.
pub fn unsigned_text(n: u64) -> (s: String)
    ensures
        s@ == decimal(n as int),
{
    u64_to_text(n)
}

/// Decimal text of a signed value.
pub fn signed_text(n: i64) -> (s: String)
    ensures
        s@ == decimal(n as int),
{
    i64_to_text(n)
}

/// Unicode `White_Space` characters, the ones `char::is_whitespace` accepts.
pub open spec fn is_white_space(c: char) -> bool {
    let u = c as u32;
    ||| 0x09 <= u <= 0x0d
    ||| u == 0x20
    ||| u == 0x85
    ||| u == 0xa0
    ||| u == 0x1680
    ||| 0x2000 <= u <= 0x200a
    ||| u == 0x2028
    ||| u == 0x2029
    ||| u == 0x202f
    ||| u == 0x205f
    ||| u == 0x3000
}

/// `s` without its leading white space.
pub open spec fn trim_start_ws(s: Seq<char>) -> Seq<char>
    decreases s.len(),
{
    if s.len() > 0 && is_white_space(s[0]) {
        trim_start_ws(s.drop_first())
    } else {
        s
    }
}

/// `s` without its trailing white space.
pub open spec fn trim_end_ws(s: Seq<char>) -> Seq<char>
    decreases s.len(),
{
    if s.len() > 0 && is_white_space(s.last()) {
        trim_end_ws(s.drop_last())
    } else {
        s
    }
}

/// `s` without leading and trailing white space.
pub open spec fn trimmed(s: Seq<char>) -> Seq<char> {
    trim_end_ws(trim_start_ws(s))
}

/// Calls `str::trim`, which std documents as removing leading and trailing
/// characters with the Unicode `White_Space` property.
#[verifier::external_body]
fn str_trim(s: &str) -> (t: &str)
    ensures
        t@ == trimmed(s@),
{
    s.trim()
}

/// `s` with leading and trailing white space removed.
pub fn trim_text(s: &str) -> (t: String)
    ensures
        t@ == trimmed(s@),
{
    String::from_str(str_trim(s))
}

/// Number of characters before the first `sep` in `s` (all of `s` when there is none).
pub open spec fn field_end(s: Seq<char>, sep: char) -> nat
    decreases s.len(),
{
    if s.len() == 0 {
        0
    } else if s[0] == sep {
        0
    } else {
        1 + field_end(s.drop_first(), sep)
    }
}

/// The text before the first `sep`: what `s.split(sep).next()` yields.
pub open spec fn first_field(s: Seq<char>, sep: char) -> Seq<char> {
    s.take(field_end(s, sep) as int)
}

/// The pieces of `s` between occurrences of `sep`, as `str::split` yields them.
pub open spec fn split_on(s: Seq<char>, sep: char) -> Seq<Seq<char>>
    decreases s.len(),
{
    let k = field_end(s, sep);
    if k < s.len() {
        seq![s.take(k as int)] + split_on(s.skip(k + 1 as int), sep)
    } else {
        seq![s]
    }
}

/// `k` is the position of the first `sep` in `s`, or its length when there is none.
pub proof fn lemma_field_end(s: Seq<char>, sep: char, k: int)
    requires
        0 <= k <= s.len(),
        forall|j: int| 0 <= j < k ==> s[j] != sep,
        k == s.len() || s[k] == sep,
    ensures
        field_end(s, sep) == k,
    decreases k,
{
    if k > 0 {
        assert(s[0] != sep);
        let t = s.drop_first();
        assert forall|j: int| 0 <= j < k - 1 implies t[j] != sep by {
            assert(t[j] == s[j + 1]);
        }
        if k < s.len() {
            assert(t[k - 1] == s[k]);
        }
        lemma_field_end(t, sep, k - 1);
    }
}

/// The first position at or after `from` that holds `sep`, or the length of `s`.
pub fn find_char_from(s: &str, from: usize, sep: char) -> (k: usize)
    requires
        from <= s@.len(),
    ensures
        k == from + field_end(s@.skip(from as int), sep),
        from <= k <= s@.len(),
        k < s@.len() ==> s@[k as int] == sep,
{
    let n = s.unicode_len();
    let mut i = from;
    while i < n
        invariant
            n == s@.len(),
            from <= i <= n,
            forall|j: int| from <= j < i ==> s@[j] != sep,
        decreases n - i,
    {
        if s.get_char(i) == sep {
            proof {
                let t = s@.skip(from as int);
                assert forall|j: int| 0 <= j < i - from implies t[j] != sep by {
                    assert(t[j] == s@[j + from]);
                }
                assert(t[i - from] == s@[i as int]);
                lemma_field_end(t, sep, i - from);
            }
            return i;
        }
        i = i + 1;
    }
    proof {
        let t = s@.skip(from as int);
        assert forall|j: int| 0 <= j < i - from implies t[j] != sep by {
            assert(t[j] == s@[j + from]);
        }
        lemma_field_end(t, sep, i - from);
    }
    i
}

/// Whether `prefix` occurs in `s` starting at character position `p`.
pub fn has_prefix_at(s: &str, p: usize, prefix: &str) -> (b: bool)
    requires
        p <= s@.len(),
    ensures
        b == (p + prefix@.len() <= s@.len() && s@.subrange(p as int, p + prefix@.len()) == prefix@),
{
    let n = s.unicode_len();
    let m = prefix.unicode_len();
    if m > n - p {
        return false;
    }
    let mut i: usize = 0;
    while i < m
        invariant
            n == s@.len(),
            m == prefix@.len(),
            p + m <= n,
            i <= m,
            forall|j: int| 0 <= j < i ==> s@[p + j] == prefix@[j],
        decreases m - i,
    {
        if s.get_char(p + i) != prefix.get_char(i) {
            proof {
                assert(s@.subrange(p as int, p + m)[i as int] != prefix@[i as int]);
            }
            return false;
        }
        i = i + 1;
    }
    assert(s@.subrange(p as int, p + m) =~= prefix@);
    true
}

/// The parts joined with `sep` between neighbours.
pub open spec fn joined(parts: Seq<Seq<char>>, sep: Seq<char>) -> Seq<char>
    decreases parts.len(),
{
    if parts.len() == 0 {
        Seq::empty()
    } else if parts.len() == 1 {
        parts[0]
    } else {
        joined(parts.drop_last(), sep) + sep + parts.last()
    }
}

/// The views of a list of strings.
pub open spec fn texts(v: Seq<String>) -> Seq<Seq<char>> {
    v.map_values(|s: String| s@)
}

/// Joins the strings with `sep` between neighbours, as `[String]::join` does.
pub fn join_texts(parts: &Vec<String>, sep: &str) -> (res: String)
    ensures
        res@ == joined(texts(parts@), sep@),
{
    let mut res = String::new();
    let n = parts.len();
    let ghost views = texts(parts@);
    let mut i: usize = 0;
    while i < n
        invariant
            n == parts@.len(),
            views == texts(parts@),
            i <= n,
            res@ == joined(views.take(i as int), sep@),
        decreases n - i,
    {
        proof {
            assert(views.take(i + 1).drop_last() =~= views.take(i as int));
            assert(views.take(i + 1).last() == parts@[i as int]@);
        }
        if i > 0 {
            res.append(sep);
        } else {
            assert(views.take(1) =~= seq![parts@[0]@]);
            assert(res@ =~= Seq::<char>::empty());
        }
        res.append(parts[i].as_str());
        proof {
            if i == 0 {
                assert(res@ =~= joined(views.take(1), sep@));
            }
        }
        i = i + 1;
    }
    assert(views.take(n as int) =~= views);
    res
}

/// The total number of characters in the parts.
pub open spec fn total_length(parts: Seq<Seq<char>>) -> int
    decreases parts.len(),
{
    if parts.len() == 0 {
        0
    } else {
        total_length(parts.drop_last()) + parts.last().len()
    }
}

/// Joining keeps every part, in order: nothing joined gives the empty
/// text, one part gives that part, and one part more after at least one
/// adds the separator and that part at the end.
pub proof fn law_joined_keeps_parts(parts: Seq<Seq<char>>, x: Seq<char>, sep: Seq<char>)
    ensures
        joined(Seq::empty(), sep) == Seq::<char>::empty(),
        joined(seq![x], sep) == x,
        parts.len() > 0 ==> joined(parts.push(x), sep) == joined(parts, sep) + sep + x,
{
    assert(parts.push(x).drop_last() =~= parts);
}

/// A join of `n > 0` parts is as long as the parts together and `n - 1`
/// separators.
pub proof fn law_joined_length(parts: Seq<Seq<char>>, sep: Seq<char>)
    requires
        parts.len() > 0,
    ensures
        joined(parts, sep).len() == total_length(parts) + (parts.len() - 1) * sep.len(),
    decreases parts.len(),
{
    let rest = parts.drop_last();
    if parts.len() == 1 {
        assert(total_length(rest) == 0);
        assert(parts.last() == parts[0]);
        assert((parts.len() - 1) * sep.len() == 0);
    } else {
        law_joined_length(rest, sep);
        let n: int = parts.len() - 1;
        assert(rest.len() == n);
        assert((n - 1) * sep.len() + sep.len() == n * sep.len()) by (nonlinear_arith);
        assert(joined(parts, sep).len() == joined(rest, sep).len() + sep.len() + parts.last().len());
    }
}

/// No character before `field_end` is the separator, and it is within `s`.
pub proof fn lemma_field_end_props(s: Seq<char>, sep: char)
    ensures
        field_end(s, sep) <= s.len(),
        forall|j: int| 0 <= j < field_end(s, sep) ==> s[j] != sep,
        field_end(s, sep) < s.len() ==> s[field_end(s, sep) as int] == sep,
    decreases s.len(),
{
    if s.len() > 0 && s[0] != sep {
        let t = s.drop_first();
        lemma_field_end_props(t, sep);
        assert forall|j: int| 0 <= j < field_end(s, sep) implies s[j] != sep by {
            if j > 0 {
                assert(s[j] == t[j - 1]);
            }
        }
        if field_end(s, sep) < s.len() {
            assert(s[field_end(s, sep) as int] == t[field_end(t, sep) as int]);
        }
    }
}

/// No piece of a split holds the separator.
pub proof fn lemma_split_pieces(s: Seq<char>, sep: char)
    ensures
        forall|i: int| 0 <= i < split_on(s, sep).len() ==> !(#[trigger] split_on(s, sep)[i]).contains(sep),
    decreases s.len(),
{
    let k = field_end(s, sep);
    lemma_field_end_props(s, sep);
    if k < s.len() {
        let rest = s.skip(k + 1 as int);
        lemma_split_pieces(rest, sep);
        let pieces = split_on(s, sep);
        assert forall|i: int| 0 <= i < pieces.len() implies !(#[trigger] pieces[i]).contains(sep) by {
            if i == 0 {
                assert(pieces[0] == s.take(k as int));
                if s.take(k as int).contains(sep) {
                    let j = choose|j: int| 0 <= j < s.take(k as int).len() && s.take(k as int)[j] == sep;
                    assert(s[j] == sep);
                }
            } else {
                assert(pieces[i] == split_on(rest, sep)[i - 1]);
            }
        }
    } else {
        let pieces = split_on(s, sep);
        assert forall|i: int| 0 <= i < pieces.len() implies !(#[trigger] pieces[i]).contains(sep) by {
            assert(pieces[i] == s);
            if s.contains(sep) {
                let j = choose|j: int| 0 <= j < s.len() && s[j] == sep;
                assert(j < k);
            }
        }
    }
}

/// Joining one more part at the front puts that part and a separator before
/// the join of the rest.
proof fn lemma_joined_prepend(a: Seq<char>, rest: Seq<Seq<char>>, sep: Seq<char>)
    requires
        rest.len() > 0,
    ensures
        joined(seq![a] + rest, sep) == a + sep + joined(rest, sep),
    decreases rest.len(),
{
    let all = seq![a] + rest;
    if rest.len() == 1 {
        assert(all.drop_last() =~= seq![a]);
        assert(all.last() == rest[0]);
        assert(joined(seq![a], sep) == a);
        assert(joined(rest, sep) == rest[0]);
        assert(joined(all, sep) == joined(all.drop_last(), sep) + sep + all.last());
    } else {
        lemma_joined_prepend(a, rest.drop_last(), sep);
        assert(all.drop_last() =~= seq![a] + rest.drop_last());
        assert(all.last() == rest.last());
        assert(joined(all, sep) =~= a + sep + joined(rest, sep));
    }
}

/// Splitting a text on a character and joining the pieces with that
/// character gives the text back.
pub proof fn law_split_then_join(s: Seq<char>, sep: char)
    ensures
        joined(split_on(s, sep), seq![sep]) == s,
    decreases s.len(),
{
    let k = field_end(s, sep);
    lemma_field_end_props(s, sep);
    if k < s.len() {
        let rest = s.skip(k + 1 as int);
        law_split_then_join(rest, sep);
        let pieces = split_on(rest, sep);
        assert(pieces.len() > 0);
        lemma_joined_prepend(s.take(k as int), pieces, seq![sep]);
        assert(s =~= s.take(k as int) + seq![sep] + rest);
    } else {
        assert(split_on(s, sep) == seq![s]);
    }
}

} // verus!
