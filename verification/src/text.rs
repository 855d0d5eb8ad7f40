//! Small verified text utilities: splitting on a separator, joining, decimal
//! rendering of integers, ASCII upper-casing and membership tests, all
//! specified over `Seq<char>`.

use vstd::prelude::*;
use vstd::string::*;

verus! {

/// The segments of `s` between occurrences of `sep`, in order.  Splitting the
/// empty sequence yields one empty segment, as `str::split` does.
pub open spec fn spec_split(s: Seq<char>, sep: char) -> Seq<Seq<char>>
    decreases s.len(),
{
    if s.len() == 0 {
        seq![Seq::<char>::empty()]
    } else if s[0] == sep {
        seq![Seq::<char>::empty()] + spec_split(s.drop_first(), sep)
    } else {
        let rest = spec_split(s.drop_first(), sep);
        rest.update(0, seq![s[0]] + rest[0])
    }
}

/// The segments joined back together with `sep` between neighbours.
pub open spec fn spec_join(parts: Seq<Seq<char>>, sep: char) -> Seq<char>
    decreases parts.len(),
{
    if parts.len() == 0 {
        Seq::<char>::empty()
    } else if parts.len() == 1 {
        parts[0]
    } else {
        parts[0] + seq![sep] + spec_join(parts.drop_first(), sep)
    }
}

/// The views of a sequence of strings.
pub open spec fn views_of(v: Seq<String>) -> Seq<Seq<char>> {
    v.map_values(|t: String| t@)
}

pub proof fn lemma_split_len_pos(s: Seq<char>, sep: char)
    ensures
        spec_split(s, sep).len() >= 1,
    decreases s.len(),
{
    if s.len() == 0 {
    } else if s[0] == sep {
        lemma_split_len_pos(s.drop_first(), sep);
    } else {
        lemma_split_len_pos(s.drop_first(), sep);
    }
}

/// A sequence without the separator splits into itself alone.
pub proof fn lemma_split_no_sep(a: Seq<char>, sep: char)
    requires
        !a.contains(sep),
    ensures
        spec_split(a, sep) == seq![a],
    decreases a.len(),
{
    if a.len() == 0 {
        assert(a =~= Seq::<char>::empty());
    } else {
        assert(a[0] != sep);
        assert(!a.drop_first().contains(sep)) by {
            if a.drop_first().contains(sep) {
                let i = choose|i: int| 0 <= i < a.drop_first().len() && a.drop_first()[i] == sep;
                assert(a[i + 1] == sep);
            }
        }
        lemma_split_no_sep(a.drop_first(), sep);
        let rest = spec_split(a.drop_first(), sep);
        assert(rest == seq![a.drop_first()]);
        assert(seq![a[0]] + a.drop_first() =~= a);
        assert(rest.update(0, seq![a[0]] + rest[0]) =~= seq![a]);
    }
}

/// Splitting `a + sep + b` where `a` holds no separator peels off `a` as the
/// first segment.
pub proof fn lemma_split_sep(a: Seq<char>, b: Seq<char>, sep: char)
    requires
        !a.contains(sep),
    ensures
        spec_split(a + seq![sep] + b, sep) == seq![a] + spec_split(b, sep),
    decreases a.len(),
{
    let s = a + seq![sep] + b;
    if a.len() == 0 {
        assert(s[0] == sep);
        assert(s.drop_first() =~= b);
        assert(a =~= Seq::<char>::empty());
        assert(spec_split(s, sep) =~= seq![a] + spec_split(b, sep));
    } else {
        assert(s[0] == a[0]);
        assert(a[0] != sep);
        assert(!a.drop_first().contains(sep)) by {
            if a.drop_first().contains(sep) {
                let i = choose|i: int| 0 <= i < a.drop_first().len() && a.drop_first()[i] == sep;
                assert(a[i + 1] == sep);
            }
        }
        assert(s.drop_first() =~= a.drop_first() + seq![sep] + b);
        lemma_split_sep(a.drop_first(), b, sep);
        let rest = spec_split(s.drop_first(), sep);
        assert(rest == seq![a.drop_first()] + spec_split(b, sep));
        lemma_split_len_pos(b, sep);
        assert(rest[0] == a.drop_first());
        assert(seq![a[0]] + a.drop_first() =~= a);
        assert(rest.update(0, a) =~= seq![a] + spec_split(b, sep));
    }
}

/// Joining the segments of a split restores the original sequence.
pub proof fn lemma_split_join(s: Seq<char>, sep: char)
    ensures
        spec_join(spec_split(s, sep), sep) == s,
    decreases s.len(),
{
    if s.len() == 0 {
        assert(spec_join(seq![Seq::<char>::empty()], sep) =~= s);
    } else if s[0] == sep {
        lemma_split_join(s.drop_first(), sep);
        let rest = spec_split(s.drop_first(), sep);
        lemma_split_len_pos(s.drop_first(), sep);
        let whole = seq![Seq::<char>::empty()] + rest;
        assert(whole.len() >= 2);
        assert(whole[0] =~= Seq::<char>::empty());
        assert(whole.drop_first() =~= rest);
        assert(whole[0] + seq![sep] + spec_join(rest, sep) =~= s);
    } else {
        lemma_split_join(s.drop_first(), sep);
        let rest = spec_split(s.drop_first(), sep);
        lemma_split_len_pos(s.drop_first(), sep);
        let whole = rest.update(0, seq![s[0]] + rest[0]);
        if rest.len() == 1 {
            assert(spec_join(rest, sep) == rest[0]);
            assert(whole.len() == 1);
            assert(spec_join(whole, sep) == seq![s[0]] + rest[0]);
            assert(seq![s[0]] + s.drop_first() =~= s);
        } else {
            assert(whole.len() >= 2);
            assert(whole[0] == seq![s[0]] + rest[0]);
            assert(whole.drop_first() =~= rest.drop_first());
            assert(spec_join(whole, sep) == whole[0] + seq![sep] + spec_join(rest.drop_first(), sep));
            assert(spec_join(rest, sep) == rest[0] + seq![sep] + spec_join(rest.drop_first(), sep));
            assert(whole[0] + seq![sep] + spec_join(rest.drop_first(), sep) =~= seq![s[0]] + spec_join(rest, sep));
            assert(seq![s[0]] + s.drop_first() =~= s);
        }
    }
}

/// Splits `s` on `sep`, as `str::split` does.
pub fn split_string(s: &str, sep: char) -> (r: Vec<String>)
    ensures
        views_of(r@) == spec_split(s@, sep),
{
    let n = s.unicode_len();
    let mut r: Vec<String> = Vec::new();
    let mut cur = String::new();
    let mut start: usize = 0;
    let mut i: usize = 0;
    proof {
        assert(cur@ =~= s@.subrange(0, 0));
        assert(s@.subrange(0, n as int) =~= s@);
        assert(views_of(r@) + spec_split(s@, sep) =~= spec_split(s@, sep));
    }
    while i < n
        invariant
            n == s@.len(),
            0 <= start <= i <= n,
            cur@ == s@.subrange(start as int, i as int),
            !cur@.contains(sep),
            spec_split(s@, sep) == views_of(r@) + spec_split(s@.subrange(start as int, n as int), sep),
        decreases n - i,
    {
        let c = s.get_char(i);
        if c == sep {
            proof {
                assert(s@.subrange(start as int, n as int) =~= cur@ + seq![sep] + s@.subrange(
                    i as int + 1,
                    n as int,
                ));
                lemma_split_sep(cur@, s@.subrange(i as int + 1, n as int), sep);
            }
            let ghost old_r = r@;
            let ghost done = cur@;
            r.push(cur);
            proof {
                assert(views_of(r@) =~= views_of(old_r) + seq![done]);
                assert(views_of(r@) + spec_split(s@.subrange(i as int + 1, n as int), sep)
                    =~= views_of(old_r) + (seq![done] + spec_split(
                    s@.subrange(i as int + 1, n as int),
                    sep,
                )));
            }
            cur = String::new();
            start = i + 1;
        } else {
            let piece = s.substring_char(i, i + 1);
            cur.append(piece);
            proof {
                assert(cur@ =~= s@.subrange(start as int, i as int + 1));
                assert(!cur@.contains(sep)) by {
                    if cur@.contains(sep) {
                        let k = choose|k: int| 0 <= k < cur@.len() && cur@[k] == sep;
                        assert(s@.subrange(start as int, i as int)[k] == sep || cur@[k] == c);
                    }
                }
            }
        }
        i = i + 1;
    }
    proof {
        assert(s@.subrange(start as int, n as int) == cur@);
        lemma_split_no_sep(cur@, sep);
    }
    let ghost old_r = r@;
    let ghost done = cur@;
    r.push(cur);
    proof {
        assert(views_of(r@) =~= views_of(old_r) + seq![done]);
        assert(views_of(old_r) + seq![done] =~= spec_split(s@, sep));
    }
    r
}

/// True iff some element of `v` holds the same characters as `x`.
pub fn contains_string(v: &Vec<String>, x: &String) -> (r: bool)
    ensures
        r == views_of(v@).contains(x@),
{
    let mut i: usize = 0;
    while i < v.len()
        invariant
            0 <= i <= v@.len(),
            forall|k: int| 0 <= k < i ==> v@[k]@ != x@,
        decreases v@.len() - i,
    {
        if v[i].eq(x) {
            assert(views_of(v@)[i as int] == x@);
            return true;
        }
        i = i + 1;
    }
    assert(forall|k: int| 0 <= k < views_of(v@).len() ==> views_of(v@)[k] != x@);
    false
}

/// The character for one decimal digit.
pub open spec fn spec_digit_char(d: nat) -> char {
    if d == 0 {
        '0'
    } else if d == 1 {
        '1'
    } else if d == 2 {
        '2'
    } else if d == 3 {
        '3'
    } else if d == 4 {
        '4'
    } else if d == 5 {
        '5'
    } else if d == 6 {
        '6'
    } else if d == 7 {
        '7'
    } else if d == 8 {
        '8'
    } else {
        '9'
    }
}

/// The decimal digits of `n`, most significant first, no leading zeros.
pub open spec fn spec_dec_chars(n: nat) -> Seq<char>
    decreases n,
{
    if n < 10 {
        seq![spec_digit_char(n)]
    } else {
        spec_dec_chars(n / 10) + seq![spec_digit_char(n % 10)]
    }
}

fn digit_str(d: u64) -> (r: &'static str)
    requires
        d < 10,
    ensures
        r@ == seq![spec_digit_char(d as nat)],
{
    proof {
        reveal_strlit("0");
        reveal_strlit("1");
        reveal_strlit("2");
        reveal_strlit("3");
        reveal_strlit("4");
        reveal_strlit("5");
        reveal_strlit("6");
        reveal_strlit("7");
        reveal_strlit("8");
        reveal_strlit("9");
    }
    let r = if d == 0 {
        "0"
    } else if d == 1 {
        "1"
    } else if d == 2 {
        "2"
    } else if d == 3 {
        "3"
    } else if d == 4 {
        "4"
    } else if d == 5 {
        "5"
    } else if d == 6 {
        "6"
    } else if d == 7 {
        "7"
    } else if d == 8 {
        "8"
    } else {
        "9"
    };
    proof {
        assert(r@ =~= seq![spec_digit_char(d as nat)]);
    }
    r
}

/// Renders `n` in decimal.
pub fn u64_to_string(n: u64) -> (r: String)
    ensures
        r@ == spec_dec_chars(n as nat),
    decreases n,
{
    if n < 10 {
        digit_str(n).to_owned()
    } else {
        let mut r = u64_to_string(n / 10);
        r.append(digit_str(n % 10));
        r
    }
}

/// The ASCII upper-case image of one character: 'a'..='z' map to 'A'..='Z',
/// everything else is unchanged.
pub open spec fn spec_upper_char(c: char) -> char {
    if c == 'a' {
        'A'
    } else if c == 'b' {
        'B'
    } else if c == 'c' {
        'C'
    } else if c == 'd' {
        'D'
    } else if c == 'e' {
        'E'
    } else if c == 'f' {
        'F'
    } else if c == 'g' {
        'G'
    } else if c == 'h' {
        'H'
    } else if c == 'i' {
        'I'
    } else if c == 'j' {
        'J'
    } else if c == 'k' {
        'K'
    } else if c == 'l' {
        'L'
    } else if c == 'm' {
        'M'
    } else if c == 'n' {
        'N'
    } else if c == 'o' {
        'O'
    } else if c == 'p' {
        'P'
    } else if c == 'q' {
        'Q'
    } else if c == 'r' {
        'R'
    } else if c == 's' {
        'S'
    } else if c == 't' {
        'T'
    } else if c == 'u' {
        'U'
    } else if c == 'v' {
        'V'
    } else if c == 'w' {
        'W'
    } else if c == 'x' {
        'X'
    } else if c == 'y' {
        'Y'
    } else if c == 'z' {
        'Z'
    } else {
        c
    }
}

/// The ASCII upper-case image of a character sequence.
pub open spec fn spec_upper(s: Seq<char>) -> Seq<char> {
    s.map_values(|c: char| spec_upper_char(c))
}

/// Relies on str::to_ascii_uppercase: ASCII letters 'a'..='z' are mapped to
/// 'A'..='Z'; every other character is left unchanged.
#[verifier::external_body]
pub fn ascii_uppercase(s: &str) -> (r: String)
    ensures
        r@ == spec_upper(s@),
{
    s.to_ascii_uppercase()
}

} // verus!
