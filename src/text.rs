use vstd::prelude::*;
use vstd::string::*;

verus! {

/// Character-wise equality of two strings.
pub fn str_eq(a: &str, b: &str) -> (r: bool)
    ensures
        r == (a@ == b@),
{
    let n = a.unicode_len();
    if n != b.unicode_len() {
        return false;
    }
    let mut i: usize = 0;
    while i < n
        invariant
            n == a@.len(),
            n == b@.len(),
            i <= n,
            forall|k: int| 0 <= k < i ==> a@[k] == b@[k],
        decreases n - i,
    {
        if a.get_char(i) != b.get_char(i) {
            return false;
        }
        i += 1;
    }
    assert(a@ =~= b@);
    true
}

/// The character of decimal digit `d`.
pub open spec fn digit_char(d: nat) -> char {
    if d == 0 {
        '0'
    } else if d == 1 {
        '1'
    } else if d == 2 {
        '2'
    } else if d == 3 {
        '3'
    } else if d == 4 {
        '4'
    } else if d == 5 {
        '5'
    } else if d == 6 {
        '6'
    } else if d == 7 {
        '7'
    } else if d == 8 {
        '8'
    } else {
        '9'
    }
}

/// The decimal representation of `n`, without leading zeros.
pub open spec fn decimal(n: nat) -> Seq<char>
    decreases n,
{
    if n < 10 {
        seq![digit_char(n)]
    } else {
        decimal(n / 10).push(digit_char(n % 10))
    }
}

fn digit_str(d: u64) -> (r: &'static str)
    requires
        d < 10,
    ensures
        r@ == seq![digit_char(d as nat)],
{
    proof {
        reveal_strlit("0");
        reveal_strlit("1");
        reveal_strlit("2");
        reveal_strlit("3");
        reveal_strlit("4");
        reveal_strlit("5");
        reveal_strlit("6");
        reveal_strlit("7");
        reveal_strlit("8");
        reveal_strlit("9");
    }
    if d == 0 {
        "0"
    } else if d == 1 {
        "1"
    } else if d == 2 {
        "2"
    } else if d == 3 {
        "3"
    } else if d == 4 {
        "4"
    } else if d == 5 {
        "5"
    } else if d == 6 {
        "6"
    } else if d == 7 {
        "7"
    } else if d == 8 {
        "8"
    } else {
        "9"
    }
}

/// The decimal representation of `n` as a string.
pub fn decimal_string(n: u64) -> (r: String)
    ensures
        r@ == decimal(n as nat),
    decreases n,
{
    if n < 10 {
        String::from_str(digit_str(n))
    } else {
        let mut s = decimal_string(n / 10);
        s.append(digit_str(n % 10));
        s
    }
}

/// `i` is the first position of `c` in `s`.
pub open spec fn first_at(s: Seq<char>, c: char, i: int) -> bool {
    &&& 0 <= i < s.len()
    &&& s[i] == c
    &&& forall|k: int| 0 <= k < i ==> s[k] != c
}

/// The parts of `s` before and after the first `c`, if `c` occurs.
pub open spec fn split_once(s: Seq<char>, c: char) -> Option<(Seq<char>, Seq<char>)> {
    if exists|i: int| first_at(s, c, i) {
        let i = choose|i: int| first_at(s, c, i);
        Some((s.subrange(0, i), s.subrange(i + 1, s.len() as int)))
    } else {
        None
    }
}

/// The pieces of `s` between occurrences of `c`, in order.
pub open spec fn split_all(s: Seq<char>, c: char) -> Seq<Seq<char>>
    decreases s.len(),
{
    match split_once(s, c) {
        Some((a, b)) => if b.len() < s.len() {
            seq![a] + split_all(b, c)
        } else {
            seq![s]
        },
        None => seq![s],
    }
}

proof fn lemma_first_unique(s: Seq<char>, c: char, i: int, j: int)
    requires
        first_at(s, c, i),
        first_at(s, c, j),
    ensures
        i == j,
{
    if i < j {
        assert(s[i] != c);
    } else if j < i {
        assert(s[j] != c);
    }
}

/// Position of the first `c` in `s`.
pub fn find_char(s: &str, c: char) -> (r: Option<usize>)
    ensures
        match r {
            Some(i) => first_at(s@, c, i as int),
            None => forall|k: int| 0 <= k < s@.len() ==> s@[k] != c,
        },
{
    let n = s.unicode_len();
    let mut i: usize = 0;
    while i < n
        invariant
            n == s@.len(),
            i <= n,
            forall|k: int| 0 <= k < i ==> s@[k] != c,
        decreases n - i,
    {
        if s.get_char(i) == c {
            return Some(i);
        }
        i += 1;
    }
    None
}

/// The parts of `s` before and after the first `c`.
pub fn split_once_char(s: &str, c: char) -> (r: Option<(String, String)>)
    ensures
        match r {
            Some((a, b)) => split_once(s@, c) == Some((a@, b@)),
            None => split_once(s@, c) is None,
        },
{
    match find_char(s, c) {
        Some(i) => {
            let n = s.unicode_len();
            let a = s.substring_char(0, i).to_owned();
            let b = s.substring_char(i + 1, n).to_owned();
            proof {
                let j = choose|j: int| first_at(s@, c, j);
                lemma_first_unique(s@, c, i as int, j);
            }
            Some((a, b))
        },
        None => None,
    }
}

/// The pieces of `s` between occurrences of `c`, in order.
pub fn split_all_char(s: &str, c: char) -> (r: Vec<String>)
    ensures
        r@.len() == split_all(s@, c).len(),
        forall|k: int| 0 <= k < r@.len() ==> #[trigger] r@[k]@ == split_all(s@, c)[k],
{
    let mut out: Vec<String> = Vec::new();
    let mut rest: String = s.to_owned();
    let ghost pieces: Seq<Seq<char>> = Seq::empty();
    loop
        invariant
            out@.len() == pieces.len(),
            forall|k: int| 0 <= k < out@.len() ==> #[trigger] out@[k]@ == pieces[k],
            split_all(s@, c) == pieces + split_all(rest@, c),
        decreases rest@.len(),
    {
        match split_once_char(rest.as_str(), c) {
            Some((a, b)) => {
                proof {
                    let j = choose|j: int| first_at(rest@, c, j);
                    assert(b@.len() < rest@.len());
                    assert(split_all(rest@, c) == seq![a@] + split_all(b@, c));
                    assert(pieces + split_all(rest@, c) =~= pieces.push(a@) + split_all(b@, c));
                    pieces = pieces.push(a@);
                }
                out.push(a);
                rest = b;
            },
            None => {
                proof {
                    assert(split_all(rest@, c) == seq![rest@]);
                    pieces = pieces.push(rest@);
                }
                out.push(rest);
                assert(split_all(s@, c) =~= pieces);
                return out;
            },
        }
    }
}

/// The value of a run of decimal digits.
pub open spec fn digits_value(s: Seq<char>) -> nat
    decreases s.len(),
{
    if s.len() == 0 {
        0
    } else {
        digits_value(s.drop_last()) * 10 + ((s.last() as nat) - ('0' as nat)) as nat
    }
}

pub open spec fn all_digits(s: Seq<char>) -> bool {
    forall|k: int| 0 <= k < s.len() ==> '0' <= #[trigger] s[k] <= '9'
}

/// What parsing `s` as a `u16` gives: an optional `+`, then at least one
/// decimal digit, with a value that fits.
pub open spec fn parse_u16_spec(s: Seq<char>) -> Option<u16> {
    let digits = if s.len() > 0 && s[0] == '+' { s.drop_first() } else { s };
    if digits.len() > 0 && all_digits(digits) && digits_value(digits) <= 65535 {
        Some(digits_value(digits) as u16)
    } else {
        None
    }
}

/// Parses a `u16` written in decimal.
pub fn parse_u16(s: &str) -> (r: Option<u16>)
    ensures
        r == parse_u16_spec(s@),
{
    let n = s.unicode_len();
    let start: usize = if n > 0 && s.get_char(0) == '+' { 1 } else { 0 };
    let ghost digits = if s@.len() > 0 && s@[0] == '+' { s@.drop_first() } else { s@ };
    assert(digits =~= s@.subrange(start as int, n as int));
    if start >= n {
        return None;
    }
    let mut value: u32 = 0;
    let mut i: usize = start;
    while i < n
        invariant
            n == s@.len(),
            start <= i <= n,
            digits == s@.subrange(start as int, n as int),
            digits == (if s@.len() > 0 && s@[0] == '+' { s@.drop_first() } else { s@ }),
            all_digits(s@.subrange(start as int, i as int)),
            value as nat == digits_value(s@.subrange(start as int, i as int)),
            value <= 65535,
        decreases n - i,
    {
        let ch = s.get_char(i);
        if ch < '0' || ch > '9' {
            proof {
                assert(digits[i - start] == ch);
                assert(!('0' <= digits[i - start] <= '9'));
                assert(!all_digits(digits));
                assert(parse_u16_spec(s@) is None);
            }
            return None;
        }
        let d = (ch as u32) - ('0' as u32);
        let next = value * 10 + d;
        proof {
            let pre = s@.subrange(start as int, i as int);
            let now = s@.subrange(start as int, i + 1);
            assert(now.drop_last() =~= pre);
            assert(now.last() == ch);
            assert(all_digits(now));
        }
        if next > 65535 {
            proof {
                if all_digits(digits) {
                    assert(digits.subrange(0, i + 1 - start) =~= s@.subrange(start as int, i + 1));
                    lemma_digits_grow(digits, (i + 1 - start) as int);
                    assert(digits_value(digits) > 65535);
                }
                assert(parse_u16_spec(s@) is None);
            }
            return None;
        }
        value = next;
        i += 1;
    }
    assert(s@.subrange(start as int, n as int) =~= digits);
    Some(value as u16)
}

/// A prefix's value bounds the whole run's value from below.
proof fn lemma_digits_grow(s: Seq<char>, k: int)
    requires
        0 <= k <= s.len(),
        all_digits(s),
    ensures
        digits_value(s.subrange(0, k)) <= digits_value(s),
    decreases s.len() - k,
{
    if k < s.len() {
        lemma_digits_grow(s, k + 1);
        let longer = s.subrange(0, k + 1);
        assert(longer.drop_last() =~= s.subrange(0, k));
        assert('0' <= longer.last() <= '9');
    } else {
        assert(s.subrange(0, k) =~= s);
    }
}

/// `i` is the first position where `p` occurs in `s`.
pub open spec fn first_sub_at(s: Seq<char>, p: Seq<char>, i: int) -> bool {
    &&& 0 <= i
    &&& occurs_at(s, p, i)
    &&& forall|k: int| 0 <= k < i ==> !#[trigger] occurs_at(s, p, k)
}

/// `p` occurs in `s` starting at `k`.
pub open spec fn occurs_at(s: Seq<char>, p: Seq<char>, k: int) -> bool {
    k + p.len() <= s.len() && s.subrange(k, k + p.len()) == p
}

/// The parts of `s` before and after the first occurrence of `p`, if any.
pub open spec fn split_once_sub(s: Seq<char>, p: Seq<char>) -> Option<(Seq<char>, Seq<char>)> {
    if exists|i: int| first_sub_at(s, p, i) {
        let i = choose|i: int| first_sub_at(s, p, i);
        Some((s.subrange(0, i), s.subrange(i + p.len(), s.len() as int)))
    } else {
        None
    }
}

/// The parts of `s` before and after the first occurrence of `p`.
pub fn split_once_str(s: &str, p: &str) -> (r: Option<(String, String)>)
    ensures
        match r {
            Some((a, b)) => split_once_sub(s@, p@) == Some((a@, b@)),
            None => split_once_sub(s@, p@) is None,
        },
{
    let n = s.unicode_len();
    let m = p.unicode_len();
    if m > n {
        return None;
    }
    let mut i: usize = 0;
    while i <= n - m
        invariant
            n == s@.len(),
            m == p@.len(),
            m <= n,
            i <= n - m + 1,
            forall|k: int| 0 <= k < i ==> !#[trigger] occurs_at(s@, p@, k),
        decreases n - m + 1 - i,
    {
        let mut j: usize = 0;
        let mut same = true;
        while j < m
            invariant
                n == s@.len(),
                m == p@.len(),
                i + m <= n,
                j <= m,
                same == forall|k: int| 0 <= k < j ==> s@[i + k] == p@[k],
            decreases m - j,
        {
            if s.get_char(i + j) != p.get_char(j) {
                same = false;
            }
            j += 1;
        }
        if same {
            assert(s@.subrange(i as int, i + m) =~= p@);
            let a = s.substring_char(0, i).to_owned();
            let b = s.substring_char(i + m, n).to_owned();
            proof {
                assert(occurs_at(s@, p@, i as int));
                assert(first_sub_at(s@, p@, i as int));
                let q = choose|q: int| first_sub_at(s@, p@, q);
                if i < q {
                    assert(occurs_at(s@, p@, i as int));
                }
            }
            return Some((a, b));
        }
        proof {
            if occurs_at(s@, p@, i as int) {
                assert forall|k: int| 0 <= k < m implies s@[i + k] == p@[k] by {
                    assert(s@.subrange(i as int, i + m)[k] == s@[i + k]);
                }
            }
        }
        i += 1;
    }
    proof {
        assert forall|q: int| !first_sub_at(s@, p@, q) by {
            if first_sub_at(s@, p@, q) {
                assert(!occurs_at(s@, p@, q));
            }
        }
    }
    None
}

pub open spec fn is_ws(c: char) -> bool {
    c == ' ' || c == '\t' || c == '\r' || c == '\n'
}

/// `s` without leading white space.
pub open spec fn trim_start(s: Seq<char>) -> Seq<char>
    decreases s.len(),
{
    if s.len() > 0 && is_ws(s[0]) {
        trim_start(s.drop_first())
    } else {
        s
    }
}

/// `s` without trailing white space.
pub open spec fn trim_end(s: Seq<char>) -> Seq<char>
    decreases s.len(),
{
    if s.len() > 0 && is_ws(s.last()) {
        trim_end(s.drop_last())
    } else {
        s
    }
}

/// `s` without leading and trailing white space.
pub open spec fn trim_ws(s: Seq<char>) -> Seq<char> {
    trim_end(trim_start(s))
}

/// `s` without leading and trailing white space.
pub fn trim(s: &str) -> (r: String)
    ensures
        r@ == trim_ws(s@),
{
    let n = s.unicode_len();
    let mut a: usize = 0;
    assert(s@.subrange(0, n as int) =~= s@);
    while a < n && is_ws_char(s.get_char(a))
        invariant
            n == s@.len(),
            a <= n,
            trim_start(s@) == trim_start(s@.subrange(a as int, n as int)),
        decreases n - a,
    {
        proof {
            assert(s@.subrange(a as int, n as int).drop_first() =~= s@.subrange(a + 1, n as int));
        }
        a += 1;
    }
    assert(trim_start(s@.subrange(a as int, n as int)) == s@.subrange(a as int, n as int));
    let mut b: usize = n;
    while b > a && is_ws_char(s.get_char(b - 1))
        invariant
            n == s@.len(),
            a <= b <= n,
            trim_ws(s@) == trim_end(s@.subrange(a as int, b as int)),
        decreases b - a,
    {
        proof {
            assert(s@.subrange(a as int, b as int).drop_last() =~= s@.subrange(a as int, b - 1));
        }
        b -= 1;
    }
    s.substring_char(a, b).to_owned()
}

fn is_ws_char(c: char) -> (r: bool)
    ensures
        r == is_ws(c),
{
    c == ' ' || c == '\t' || c == '\r' || c == '\n'
}

/// The `key=value` pieces among the first `n` of `pieces`, split at their
/// first `=`; pieces without one are skipped.
pub open spec fn keyed_pairs(pieces: Seq<Seq<char>>, n: int) -> Seq<(Seq<char>, Seq<char>)>
    decreases n,
{
    if n <= 0 {
        Seq::empty()
    } else {
        let prev = keyed_pairs(pieces, n - 1);
        match split_once(pieces[n - 1], '=') {
            Some(kv) => prev.push(kv),
            None => prev,
        }
    }
}

/// Splits `s` at every `sep` and keeps the pieces that hold a `=`, split at it.
pub fn pairs_of(s: &str, sep: char) -> (r: Vec<(String, String)>)
    ensures
        r@.len() == keyed_pairs(split_all(s@, sep), split_all(s@, sep).len() as int).len(),
        forall|k: int|
            0 <= k < r@.len() ==> (#[trigger] r@[k]).0@ == keyed_pairs(
                split_all(s@, sep),
                split_all(s@, sep).len() as int,
            )[k].0 && r@[k].1@ == keyed_pairs(
                split_all(s@, sep),
                split_all(s@, sep).len() as int,
            )[k].1,
{
    let pieces = split_all_char(s, sep);
    let ghost ps = split_all(s@, sep);
    let mut out: Vec<(String, String)> = Vec::new();
    let mut i: usize = 0;
    while i < pieces.len()
        invariant
            pieces@.len() == ps.len(),
            forall|k: int| 0 <= k < pieces@.len() ==> #[trigger] pieces@[k]@ == ps[k],
            i <= pieces@.len(),
            out@.len() == keyed_pairs(ps, i as int).len(),
            forall|k: int|
                0 <= k < out@.len() ==> (#[trigger] out@[k]).0@ == keyed_pairs(ps, i as int)[k].0
                    && out@[k].1@ == keyed_pairs(ps, i as int)[k].1,
        decreases pieces@.len() - i,
    {
        match split_once_char(pieces[i].as_str(), '=') {
            Some(kv) => {
                out.push(kv);
            },
            None => {},
        }
        i += 1;
    }
    out
}

} // verus!
