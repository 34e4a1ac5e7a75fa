//! Small text utilities: decimal and hexadecimal rendering of integers and
//! character-level access to strings.

use vstd::prelude::*;
use vstd::string::*;
use vstd::utf8::{valid_utf8, decode_utf8};

verus! {

/// `String::from_utf8`: the string that `bytes` encode where they are valid
/// UTF-8, `None` where they are not.
#[verifier::external_body]
pub(crate) fn string_from_utf8(bytes: Vec<u8>) -> (r: Option<String>)
    ensures
        match r {
            Some(s) => valid_utf8(bytes@) && s@ == decode_utf8(bytes@),
            None => !valid_utf8(bytes@),
        },
{
    String::from_utf8(bytes).ok()
}


/// The ASCII character of a decimal or hexadecimal digit (lower case).
pub open spec fn digit_char(d: nat) -> char {
    if d == 0 { '0' }
    else if d == 1 { '1' }
    else if d == 2 { '2' }
    else if d == 3 { '3' }
    else if d == 4 { '4' }
    else if d == 5 { '5' }
    else if d == 6 { '6' }
    else if d == 7 { '7' }
    else if d == 8 { '8' }
    else if d == 9 { '9' }
    else if d == 10 { 'a' }
    else if d == 11 { 'b' }
    else if d == 12 { 'c' }
    else if d == 13 { 'd' }
    else if d == 14 { 'e' }
    else { 'f' }
}

/// The digits of `n` in the given base (10 or 16), most significant first,
/// without leading zeros ("0" for zero).
pub open spec fn digits(n: nat, base: nat) -> Seq<char>
    decreases n,
{
    if base < 2 || n < base {
        seq![digit_char(n)]
    } else {
        proof {
            assert(n / base < n) by (nonlinear_arith)
                requires
                    base >= 2,
                    n >= base,
            ;
        }
        digits(n / base, base).push(digit_char(n % base))
    }
}

/// The decimal rendering of `n`, as `format!("{}", n)` gives it.
pub open spec fn decimal(n: nat) -> Seq<char> {
    digits(n, 10)
}

/// The alternate hexadecimal rendering of `n`, as `format!("{:#x}", n)` gives it.
pub open spec fn hex(n: nat) -> Seq<char> {
    seq!['0', 'x'] + digits(n, 16)
}

fn digit_str(d: u64) -> (s: &'static str)
    requires
        d < 16,
    ensures
        s@ == seq![digit_char(d as nat)],
{
    proof {
        reveal_strlit("0");
        reveal_strlit("1");
        reveal_strlit("2");
        reveal_strlit("3");
        reveal_strlit("4");
        reveal_strlit("5");
        reveal_strlit("6");
        reveal_strlit("7");
        reveal_strlit("8");
        reveal_strlit("9");
        reveal_strlit("a");
        reveal_strlit("b");
        reveal_strlit("c");
        reveal_strlit("d");
        reveal_strlit("e");
        reveal_strlit("f");
    }
    if d == 0 { "0" }
    else if d == 1 { "1" }
    else if d == 2 { "2" }
    else if d == 3 { "3" }
    else if d == 4 { "4" }
    else if d == 5 { "5" }
    else if d == 6 { "6" }
    else if d == 7 { "7" }
    else if d == 8 { "8" }
    else if d == 9 { "9" }
    else if d == 10 { "a" }
    else if d == 11 { "b" }
    else if d == 12 { "c" }
    else if d == 13 { "d" }
    else if d == 14 { "e" }
    else { "f" }
}

fn digits_string(n: u64, base: u64) -> (s: String)
    requires
        base == 10 || base == 16,
    ensures
        s@ == digits(n as nat, base as nat),
    decreases n,
{
    if n < base {
        String::from_str(digit_str(n))
    } else {
        let mut s = digits_string(n / base, base);
        s.append(digit_str(n % base));
        s
    }
}

/// Render `n` in decimal.
pub fn decimal_string(n: u64) -> (s: String)
    ensures
        s@ == decimal(n as nat),
{
    digits_string(n, 10)
}

/// Render `n` in alternate hexadecimal form, e.g. `0x1f`.
pub fn hex_string(n: u64) -> (s: String)
    ensures
        s@ == hex(n as nat),
{
    proof {
        reveal_strlit("0x");
    }
    let mut s = String::from_str("0x");
    let d = digits_string(n, 16);
    s.append(d.as_str());
    s
}

/// `t` occurs in `s` at position `k`.
pub open spec fn occurs_at(s: Seq<char>, k: int, t: Seq<char>) -> bool {
    0 <= k && k + t.len() <= s.len() && s.subrange(k, k + t.len()) == t
}

/// The first position at or after `k` at which `t` occurs in `s`.
pub open spec fn find_from(s: Seq<char>, t: Seq<char>, k: int) -> Option<int>
    decreases s.len() - k,
{
    if k < 0 || k + t.len() > s.len() {
        None
    } else if occurs_at(s, k, t) {
        Some(k)
    } else if k >= s.len() {
        None
    } else {
        find_from(s, t, k + 1)
    }
}

/// The first position at which `t` occurs in `s`, as `str::find` gives it.
pub open spec fn find(s: Seq<char>, t: Seq<char>) -> Option<int> {
    find_from(s, t, 0)
}

/// The last position before `k` that holds `c`.
pub open spec fn rfind_before(s: Seq<char>, c: char, k: int) -> Option<int>
    decreases k,
{
    if k <= 0 || k > s.len() {
        None
    } else if s[k - 1] == c {
        Some(k - 1)
    } else {
        rfind_before(s, c, k - 1)
    }
}

/// The last position that holds `c`, as `str::rfind` gives it.
pub open spec fn rfind(s: Seq<char>, c: char) -> Option<int> {
    rfind_before(s, c, s.len() as int)
}

/// The bounds of field `n` of `s` split at the character `sep`, counting from
/// the field that starts at `start`, as `str::split(..).nth(n)` gives them.
pub open spec fn field_bounds(s: Seq<char>, sep: char, n: nat, start: int) -> Option<(int, int)>
    decreases n,
{
    let e = find_from(s, seq![sep], start);
    if n == 0 {
        match e {
            Some(k) => Some((start, k)),
            None => Some((start, s.len() as int)),
        }
    } else {
        match e {
            Some(k) => field_bounds(s, sep, (n - 1) as nat, k + 1),
            None => None,
        }
    }
}

pub proof fn lemma_find_from(s: Seq<char>, t: Seq<char>, k: int)
    ensures
        find_from(s, t, k) matches Some(i) ==> k <= i && i + t.len() <= s.len() && occurs_at(
            s,
            i,
            t,
        ),
    decreases s.len() - k,
{
    if k < 0 || k + t.len() > s.len() {
    } else if occurs_at(s, k, t) {
    } else if k >= s.len() {
    } else {
        lemma_find_from(s, t, k + 1);
    }
}

pub proof fn lemma_rfind_before(s: Seq<char>, c: char, k: int)
    ensures
        rfind_before(s, c, k) matches Some(i) ==> 0 <= i < k && i < s.len() && s[i] == c,
    decreases k,
{
    if k <= 0 || k > s.len() {
    } else if s[k - 1] == c {
    } else {
        lemma_rfind_before(s, c, k - 1);
    }
}

pub proof fn lemma_field_bounds(s: Seq<char>, sep: char, n: nat, start: int)
    requires
        0 <= start <= s.len(),
    ensures
        field_bounds(s, sep, n, start) matches Some((a, b)) ==> start <= a <= b <= s.len(),
    decreases n,
{
    lemma_find_from(s, seq![sep], start);
    if n > 0 {
        match find_from(s, seq![sep], start) {
            Some(k) => lemma_field_bounds(s, sep, (n - 1) as nat, k + 1),
            None => {},
        }
    }
}

/// The first position at or after `k` at which `t` occurs in `s`.
pub fn find_from_exec(s: &Vec<char>, t: &Vec<char>, k: usize) -> (r: Option<usize>)
    ensures
        match r {
            Some(i) => find_from(s@, t@, k as int) == Some(i as int),
            None => find_from(s@, t@, k as int) is None,
        },
{
    let mut j = k;
    while j <= s.len() && t.len() <= s.len() - j
        invariant
            k <= j,
            find_from(s@, t@, j as int) == find_from(s@, t@, k as int),
        decreases s.len() - j,
    {
        let mut m: usize = 0;
        let mut same = true;
        while m < t.len()
            invariant
                j + t.len() <= s.len(),
                m <= t.len(),
                same == (forall|q: int| 0 <= q < m ==> s@[j + q] == t@[q]),
            decreases t.len() - m,
        {
            if s[j + m] != t[m] {
                same = false;
            }
            m = m + 1;
        }
        if same {
            proof {
                assert(s@.subrange(j as int, j + t.len()) =~= t@);
            }
            return Some(j);
        }
        proof {
            let q = choose|q: int| 0 <= q < t.len() && s@[j + q] != t@[q];
            assert(s@.subrange(j as int, j + t.len())[q] != t@[q]);
        }
        j = j + 1;
    }
    None
}

/// The last position that holds `c`.
pub fn rfind_exec(s: &Vec<char>, c: char) -> (r: Option<usize>)
    ensures
        match r {
            Some(i) => rfind(s@, c) == Some(i as int),
            None => rfind(s@, c) is None,
        },
{
    let mut k = s.len();
    while k > 0
        invariant
            k <= s.len(),
            rfind_before(s@, c, k as int) == rfind(s@, c),
        decreases k,
    {
        if s[k - 1] == c {
            return Some(k - 1);
        }
        k = k - 1;
    }
    None
}

/// The bounds of field `n` of `s` split at `sep`, counting from `start`.
pub fn field_bounds_exec(s: &Vec<char>, sep: char, n: usize, start: usize) -> (r: Option<(usize, usize)>)
    requires
        start <= s.len(),
    ensures
        match r {
            Some((a, b)) => field_bounds(s@, sep, n as nat, start as int) == Some(
                (a as int, b as int),
            ),
            None => field_bounds(s@, sep, n as nat, start as int) is None,
        },
    decreases n,
{
    let sepv: Vec<char> = vec![sep];
    proof {
        assert(sepv@ =~= seq![sep]);
        lemma_find_from(s@, seq![sep], start as int);
    }
    let e = find_from_exec(s, &sepv, start);
    if n == 0 {
        match e {
            Some(k) => Some((start, k)),
            None => Some((start, s.len())),
        }
    } else {
        match e {
            Some(k) => field_bounds_exec(s, sep, n - 1, k + 1),
            None => None,
        }
    }
}

// ---------------------------------------------------------------------------
// Replacing text
// ---------------------------------------------------------------------------

/// `s` with each occurrence of `from`, found from left to right without
/// overlap, replaced by `to`, as `str::replace` gives it for a non-empty
/// `from`.
pub open spec fn replace_all(s: Seq<char>, from: Seq<char>, to: Seq<char>) -> Seq<char>
    decreases s.len(),
{
    if s.len() == 0 {
        seq![]
    } else if from.len() > 0 && from.len() <= s.len() && s.take(from.len() as int) == from {
        to + replace_all(s.skip(from.len() as int), from, to)
    } else {
        seq![s[0]] + replace_all(s.skip(1), from, to)
    }
}

/// Whether `t` occurs in `s` at `i`.
fn occurs_at_exec(s: &Vec<char>, t: &Vec<char>, i: usize) -> (r: bool)
    requires
        i <= s@.len(),
    ensures
        r == (i + t@.len() <= s@.len() && s@.subrange(i as int, i + t@.len()) == t@),
{
    if t.len() > s.len() - i {
        return false;
    }
    let sl = s.len();
    let mut m: usize = 0;
    while m < t.len()
        invariant
            sl == s@.len(),
            i + t@.len() <= s@.len(),
            m <= t@.len(),
            forall|q: int| 0 <= q < m ==> s@[i + q] == t@[q],
        decreases t@.len() - m,
    {
        if s[i + m] != t[m] {
            proof {
                assert(s@.subrange(i as int, i + t@.len())[m as int] != t@[m as int]);
            }
            return false;
        }
        m = m + 1;
    }
    proof {
        assert(s@.subrange(i as int, i + t@.len()) =~= t@);
    }
    true
}

/// `s` with each occurrence of `from` replaced by `to`.
pub fn replace_str(s: &str, from: &str, to: &str) -> (r: String)
    requires
        from@.len() > 0,
    ensures
        r@ == replace_all(s@, from@, to@),
{
    let c = crate::grammar::chars_of(s);
    let f = crate::grammar::chars_of(from);
    let n = c.len();
    let fl = f.len();
    let mut r = String::new();
    let mut i: usize = 0;
    proof {
        assert(s@.skip(0) =~= s@);
    }
    while i < n
        invariant
            n == s@.len(),
            c@ == s@,
            f@ == from@,
            fl == from@.len(),
            fl > 0,
            0 <= i <= n,
            r@ + replace_all(s@.skip(i as int), from@, to@) == replace_all(s@, from@, to@),
        decreases n - i,
    {
        let ghost rest = s@.skip(i as int);
        if occurs_at_exec(&c, &f, i) {
            proof {
                assert(rest.take(fl as int) =~= s@.subrange(i as int, i + fl));
                assert(rest.skip(fl as int) =~= s@.skip(i + fl));
                assert(r@ + to@ + replace_all(s@.skip(i + fl), from@, to@) == r@ + replace_all(rest, from@, to@));
            }
            r.append(to);
            i = i + fl;
        } else {
            proof {
                if fl <= rest.len() {
                    assert(rest.take(fl as int) =~= s@.subrange(i as int, i + fl));
                }
                assert(rest.skip(1) =~= s@.skip(i + 1));
                assert(rest[0] == s@[i as int]);
            }
            let one = s.substring_char(i, i + 1);
            proof {
                assert(one@ =~= seq![rest[0]]);
                assert(r@ + one@ + replace_all(s@.skip(i + 1), from@, to@) == r@ + replace_all(rest, from@, to@));
            }
            r.append(one);
            i = i + 1;
        }
    }
    proof {
        assert(s@.skip(n as int) =~= Seq::<char>::empty());
    }
    r
}

} // verus!
