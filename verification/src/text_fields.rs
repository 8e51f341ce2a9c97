//! Reading `key=value` fields out of a space separated status line.

use vstd::prelude::*;

verus! {

/// Index of the first space at or after `i`, or the length of `s`.
pub open spec fn token_end(s: Seq<char>, i: int) -> int
    decreases s.len() - i,
{
    if i >= s.len() {
        s.len() as int
    } else if s[i] == ' ' {
        i
    } else {
        token_end(s, i + 1)
    }
}

/// A token ends within the line, after its start, and holds no space.
proof fn lemma_token_end_bounds(s: Seq<char>, i: int)
    requires
        0 <= i,
    ensures
        i <= s.len() ==> i <= token_end(s, i) <= s.len(),
        i > s.len() ==> token_end(s, i) == s.len(),
        forall|j: int| i <= j < token_end(s, i) ==> s[j] != ' ',
        token_end(s, i) < s.len() ==> s[token_end(s, i)] == ' ',
    decreases s.len() - i,
{
    if i < s.len() && s[i] != ' ' {
        lemma_token_end_bounds(s, i + 1);
    }
}

/// The value carried by token `tok` when it has the form `key=value`.
pub open spec fn token_value(tok: Seq<char>, key: Seq<char>) -> Option<Seq<char>> {
    if tok.len() > key.len() && tok.subrange(0, key.len() as int) == key && tok[key.len() as int]
        == '=' {
        Some(tok.subrange(key.len() + 1int, tok.len() as int))
    } else {
        None
    }
}

/// The value of the first token at or after position `i` that has the form `key=value`.
pub open spec fn field_from(s: Seq<char>, key: Seq<char>, i: int) -> Option<Seq<char>>
    decreases s.len() + 1 - i,
    via field_from_decreases
{
    if i < 0 || i >= s.len() {
        None
    } else {
        let e = token_end(s, i);
        match token_value(s.subrange(i, e), key) {
            Some(v) => Some(v),
            None => field_from(s, key, e + 1),
        }
    }
}

#[via_fn]
proof fn field_from_decreases(s: Seq<char>, key: Seq<char>, i: int) {
    if 0 <= i < s.len() {
        lemma_token_end_bounds(s, i);
    }
}

/// The value of the first `key=value` token of a space separated line.
pub open spec fn text_field(s: Seq<char>, key: Seq<char>) -> Option<Seq<char>> {
    field_from(s, key, 0)
}

/// Whether `c` is an ASCII decimal digit.
pub open spec fn is_digit(c: char) -> bool {
    '0' <= c && c <= '9'
}

/// Whether every character of `t` is a decimal digit.
pub open spec fn all_digits(t: Seq<char>) -> bool {
    forall|j: int| 0 <= j < t.len() ==> is_digit(#[trigger] t[j])
}

/// The number written by the decimal digits `t` (most significant first).
pub open spec fn decimal_value(t: Seq<char>) -> nat
    decreases t.len(),
{
    if t.len() == 0 {
        0
    } else {
        (decimal_value(t.drop_last()) * 10 + (t.last() as nat - '0' as nat)) as nat
    }
}

/// The natural number written by `t`, when `t` is a non-empty run of decimal digits.
pub open spec fn parse_unsigned(t: Seq<char>) -> Option<nat> {
    if t.len() > 0 && all_digits(t) {
        Some(decimal_value(t))
    } else {
        None
    }
}

/// The integer written by `t`: an optional leading `-` and a non-empty run of decimal digits.
pub open spec fn parse_signed(t: Seq<char>) -> Option<int> {
    if t.len() > 0 && t[0] == '-' {
        match parse_unsigned(t.drop_first()) {
            Some(n) => Some(-(n as int)),
            None => None,
        }
    } else {
        match parse_unsigned(t) {
            Some(n) => Some(n as int),
            None => None,
        }
    }
}

/// The value of field `key` read as an unsigned number that fits in `max`.
pub open spec fn field_unsigned(s: Seq<char>, key: Seq<char>, max: nat) -> Option<nat> {
    match text_field(s, key) {
        Some(t) => match parse_unsigned(t) {
            Some(n) => if n <= max {
                Some(n)
            } else {
                None
            },
            None => None,
        },
        None => None,
    }
}

/// The value of field `key` read as a signed number within `[min, max]`.
pub open spec fn field_signed(s: Seq<char>, key: Seq<char>, min: int, max: int) -> Option<int> {
    match text_field(s, key) {
        Some(t) => match parse_signed(t) {
            Some(n) => if min <= n <= max {
                Some(n)
            } else {
                None
            },
            None => None,
        },
        None => None,
    }
}

/// The value of field `key` read as `true` or `false`.
pub open spec fn field_bool(s: Seq<char>, key: Seq<char>) -> Option<bool> {
    match text_field(s, key) {
        Some(t) => if t == seq!['t', 'r', 'u', 'e'] {
            Some(true)
        } else if t == seq!['f', 'a', 'l', 's', 'e'] {
            Some(false)
        } else {
            None
        },
        None => None,
    }
}

/// A prefix of a run of digits is worth no more than the whole run.
proof fn lemma_decimal_prefix_le(t: Seq<char>, k: int)
    requires
        0 <= k <= t.len(),
        all_digits(t),
    ensures
        decimal_value(t.subrange(0, k)) <= decimal_value(t),
    decreases t.len(),
{
    if k < t.len() {
        let d = t.drop_last();
        assert(all_digits(d));
        lemma_decimal_prefix_le(d, k);
        assert(d.subrange(0, k) =~= t.subrange(0, k));
    } else {
        assert(t.subrange(0, k) =~= t);
    }
}

proof fn lemma_token_end_is(s: Seq<char>, i: int, e: int)
    requires
        0 <= i <= e <= s.len(),
        forall|j: int| i <= j < e ==> s[j] != ' ',
        e == s.len() || s[e] == ' ',
    ensures
        token_end(s, i) == e,
    decreases e - i,
{
    if i < e {
        lemma_token_end_is(s, i + 1, e);
    }
}

/// Position `[start, end)` in `line` of the value of the first `key=value` token.
pub fn find_field(line: &Vec<char>, key: &Vec<char>) -> (r: Option<(usize, usize)>)
    ensures
        match r {
            None => text_field(line@, key@) is None,
            Some((a, b)) => a <= b <= line@.len() && text_field(line@, key@) == Some(
                line@.subrange(a as int, b as int),
            ),
        },
{
    let n = line.len();
    let k = key.len();
    let mut i: usize = 0;
    while i < n
        invariant
            n == line@.len(),
            k == key@.len(),
            i <= n,
            text_field(line@, key@) == field_from(line@, key@, i as int),
        decreases n - i,
    {
        let mut e: usize = i;
        while e < n && line[e] != ' '
            invariant
                n == line@.len(),
                i <= e <= n,
                forall|j: int| i <= j < e ==> line@[j] != ' ',
            decreases n - e,
        {
            e += 1;
        }
        proof {
            lemma_token_end_is(line@, i as int, e as int);
        }
        let ghost tok = line@.subrange(i as int, e as int);
        let mut matched = e - i > k;
        if matched {
            let mut j: usize = 0;
            let mut same = true;
            while j < k
                invariant
                    n == line@.len(),
                    k == key@.len(),
                    i + k < e <= n,
                    j <= k,
                    tok == line@.subrange(i as int, e as int),
                    same == (forall|m: int| 0 <= m < j ==> tok[m] == key@[m]),
                decreases k - j,
            {
                assert(tok[j as int] == line@[i + j]);
                if line[i + j] != key[j] {
                    same = false;
                }
                j += 1;
            }
            if same {
                assert(tok.subrange(0, k as int) =~= key@);
            } else {
                assert(tok.subrange(0, k as int) != key@) by {
                    let m = choose|m: int| 0 <= m < k && tok[m] != key@[m];
                    assert(tok.subrange(0, k as int)[m] == tok[m]);
                }
            }
            matched = same && line[i + k] == '=';
        }
        assert(matched == (token_value(tok, key@) is Some));
        if matched {
            assert(tok.subrange(k + 1int, tok.len() as int) =~= line@.subrange(
                i + k + 1,
                e as int,
            ));
            return Some((i + k + 1, e));
        }
        if e == n {
            assert(field_from(line@, key@, e + 1) is None);
            return None;
        }
        i = e + 1;
    }
    None
}

/// The number written by `line[a..b]`, when it is a run of digits that fits in a `u64`.
pub fn parse_decimal(line: &Vec<char>, a: usize, b: usize) -> (r: Option<u64>)
    requires
        a <= b <= line@.len(),
    ensures
        match parse_unsigned(line@.subrange(a as int, b as int)) {
            Some(n) => if n <= u64::MAX {
                r == Some(n as u64)
            } else {
                r is None
            },
            None => r is None,
        },
{
    let ghost t = line@.subrange(a as int, b as int);
    if a == b {
        return None;
    }
    let mut acc: u64 = 0;
    let mut i: usize = a;
    while i < b
        invariant
            a <= i <= b <= line@.len(),
            t == line@.subrange(a as int, b as int),
            all_digits(t.subrange(0, i - a)),
            acc == decimal_value(t.subrange(0, i - a)),
        decreases b - i,
    {
        let c = line[i];
        if !('0' <= c && c <= '9') {
            assert(!is_digit(t[i - a]));
            return None;
        }
        let d: u64 = (c as u32 - '0' as u32) as u64;
        let ghost p = t.subrange(0, i - a + 1);
        assert(p.drop_last() =~= t.subrange(0, i - a));
        assert(p.last() == c);
        if acc > (u64::MAX - d) / 10 {
            proof {
                assert(decimal_value(p) > u64::MAX) by (nonlinear_arith)
                    requires
                        acc > (u64::MAX - d) / 10,
                        decimal_value(p) == acc * 10 + d,
                        d <= 9,
                ;
                if all_digits(t) {
                    lemma_decimal_prefix_le(t, i - a + 1);
                }
            }
            return None;
        }
        assert(acc * 10 + d <= u64::MAX) by (nonlinear_arith)
            requires
                acc <= (u64::MAX - d) / 10,
                d <= 9,
        ;
        acc = acc * 10 + d;
        i += 1;
    }
    assert(t.subrange(0, b - a) =~= t);
    Some(acc)
}

/// The characters of a string slice, in order.
pub fn chars_of(s: &str) -> (r: Vec<char>)
    ensures
        r@ == s@,
{
    let n = s.unicode_len();
    let mut out: Vec<char> = Vec::new();
    let mut i: usize = 0;
    while i < n
        invariant
            n == s@.len(),
            i <= n,
            out@ == s@.subrange(0, i as int),
        decreases n - i,
    {
        out.push(s.get_char(i));
        i += 1;
    }
    out
}


/// Field `key` of `line` read as an unsigned number no larger than `max`.
pub fn text_unsigned(line: &Vec<char>, key: &str, max: u64) -> (r: Option<u64>)
    ensures
        match field_unsigned(line@, key@, max as nat) {
            Some(n) => r == Some(n as u64),
            None => r is None,
        },
{
    let k = chars_of(key);
    match find_field(line, &k) {
        None => None,
        Some((a, b)) => match parse_decimal(line, a, b) {
            Some(v) => if v <= max {
                Some(v)
            } else {
                None
            },
            None => None,
        },
    }
}

/// Field `key` of `line` read as a signed number within `[min, max]`.
pub fn text_signed(line: &Vec<char>, key: &str, min: i64, max: i64) -> (r: Option<i64>)
    ensures
        match field_signed(line@, key@, min as int, max as int) {
            Some(n) => r == Some(n as i64),
            None => r is None,
        },
{
    let k = chars_of(key);
    match find_field(line, &k) {
        None => None,
        Some((a, b)) => {
            let ghost t = line@.subrange(a as int, b as int);
            if a < b && line[a] == '-' {
                assert(t.drop_first() =~= line@.subrange(a + 1, b as int));
                match parse_decimal(line, a + 1, b) {
                    Some(m) => {
                        let neg: i128 = -(m as i128);
                        if min as i128 <= neg && neg <= max as i128 {
                            Some(neg as i64)
                        } else {
                            None
                        }
                    },
                    None => None,
                }
            } else {
                match parse_decimal(line, a, b) {
                    Some(m) => {
                        if min as i128 <= m as i128 && m as i128 <= max as i128 {
                            Some(m as i64)
                        } else {
                            None
                        }
                    },
                    None => None,
                }
            }
        },
    }
}

/// Field `key` of `line` read as `true` or `false`.
pub fn text_bool(line: &Vec<char>, key: &str) -> (r: Option<bool>)
    ensures
        r == field_bool(line@, key@),
{
    let k = chars_of(key);
    match find_field(line, &k) {
        None => None,
        Some((a, b)) => {
            let ghost t = line@.subrange(a as int, b as int);
            if b - a == 4 && line[a] == 't' && line[a + 1] == 'r' && line[a + 2] == 'u' && line[a
                + 3] == 'e' {
                assert(t =~= seq!['t', 'r', 'u', 'e']);
                Some(true)
            } else if b - a == 5 && line[a] == 'f' && line[a + 1] == 'a' && line[a + 2] == 'l'
                && line[a + 3] == 's' && line[a + 4] == 'e' {
                assert(t =~= seq!['f', 'a', 'l', 's', 'e']);
                Some(false)
            } else {
                proof {
                    let tt = seq!['t', 'r', 'u', 'e'];
                    let ff = seq!['f', 'a', 'l', 's', 'e'];
                    if t == tt {
                        assert(t.len() == 4);
                        assert(t[0] == line@[a as int]);
                        assert(t[1] == line@[a + 1]);
                        assert(t[2] == line@[a + 2]);
                        assert(t[3] == line@[a + 3]);
                        assert(tt[0] == 't' && tt[1] == 'r' && tt[2] == 'u' && tt[3] == 'e');
                    }
                    if t == ff {
                        assert(t.len() == 5);
                        assert(t[0] == line@[a as int]);
                        assert(t[1] == line@[a + 1]);
                        assert(t[2] == line@[a + 2]);
                        assert(t[3] == line@[a + 3]);
                        assert(t[4] == line@[a + 4]);
                        assert(ff[0] == 'f' && ff[1] == 'a' && ff[2] == 'l' && ff[3] == 's'
                            && ff[4] == 'e');
                    }
                }
                None
            }
        },
    }
}

/// Field `key` of the line `raw` (whose characters are `line`) as text.
pub fn text_string(raw: &str, line: &Vec<char>, key: &str) -> (r: Option<String>)
    requires
        line@ == raw@,
    ensures
        match text_field(raw@, key@) {
            Some(t) => r is Some && r->0@ == t,
            None => r is None,
        },
{
    let k = chars_of(key);
    match find_field(line, &k) {
        None => None,
        Some((a, b)) => {
            let v = raw.substring_char(a, b);
            Some(v.to_owned())
        },
    }
}

} // verus!
