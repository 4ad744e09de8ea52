use vstd::prelude::*;

use crate::text::push_char;
use crate::types::BidRequest;

verus! {

/// The decimal digit for `d < 10`.
pub open spec fn dec_char(d: int) -> char {
    if d == 0 { '0' }
    else if d == 1 { '1' }
    else if d == 2 { '2' }
    else if d == 3 { '3' }
    else if d == 4 { '4' }
    else if d == 5 { '5' }
    else if d == 6 { '6' }
    else if d == 7 { '7' }
    else if d == 8 { '8' }
    else { '9' }
}

/// The lower-case hexadecimal digit for `d < 16`.
pub open spec fn hex_char(d: int) -> char {
    if d < 10 { dec_char(d) }
    else if d == 10 { 'a' }
    else if d == 11 { 'b' }
    else if d == 12 { 'c' }
    else if d == 13 { 'd' }
    else if d == 14 { 'e' }
    else { 'f' }
}

/// The value of a decimal digit, if `c` is one.
pub open spec fn dec_value_of(c: char) -> Option<int> {
    if c == '0' { Some(0) }
    else if c == '1' { Some(1) }
    else if c == '2' { Some(2) }
    else if c == '3' { Some(3) }
    else if c == '4' { Some(4) }
    else if c == '5' { Some(5) }
    else if c == '6' { Some(6) }
    else if c == '7' { Some(7) }
    else if c == '8' { Some(8) }
    else if c == '9' { Some(9) }
    else { None }
}

/// The value of a lower-case hexadecimal digit, if `c` is one.
pub open spec fn hex_value_of(c: char) -> Option<int> {
    if c == 'a' { Some(10) }
    else if c == 'b' { Some(11) }
    else if c == 'c' { Some(12) }
    else if c == 'd' { Some(13) }
    else if c == 'e' { Some(14) }
    else if c == 'f' { Some(15) }
    else { dec_value_of(c) }
}

/// The decimal text of `n`, without leading zeros.
pub open spec fn dec_text(n: nat) -> Seq<char>
    decreases n,
{
    if n < 10 {
        seq![dec_char(n as int)]
    } else {
        dec_text(n / 10).push(dec_char((n % 10) as int))
    }
}

/// Two lower-case hexadecimal digits for each byte, high half first.
pub open spec fn hex_digits(b: Seq<u8>) -> Seq<char> {
    Seq::new(
        2 * b.len(),
        |i: int|
            if i % 2 == 0 {
                hex_char(b[i / 2] as int / 16)
            } else {
                hex_char(b[i / 2] as int % 16)
            },
    )
}

/// Bytes written as `0x` followed by their hexadecimal digits.
pub open spec fn hex_text(b: Seq<u8>) -> Seq<char> {
    seq!['0', 'x'] + hex_digits(b)
}

/// The path form of a bid request: `{slot}/{parent_hash}/{public_key}`.
pub open spec fn path_of(r: BidRequest) -> Seq<char> {
    dec_text(r.slot as nat) + seq!['/'] + hex_text(r.parent_hash@) + seq!['/'] + hex_text(
        r.public_key@,
    )
}

/// The request whose path form is `s`, if there is one.
pub open spec fn parsed_path(s: Seq<char>) -> Option<BidRequest> {
    if exists|q: BidRequest| path_of(q) == s {
        Some(choose|q: BidRequest| path_of(q) == s)
    } else {
        None
    }
}

/// The value of a sequence of decimal digits.
pub open spec fn dec_value(s: Seq<char>) -> int
    decreases s.len(),
{
    if s.len() == 0 {
        0
    } else {
        dec_value(s.drop_last()) * 10 + dec_value_of(s.last()).unwrap()
    }
}

/// Every character is a decimal digit, there is at least one, and there is
/// no leading zero.
pub open spec fn canonical_dec(s: Seq<char>) -> bool {
    &&& s.len() >= 1
    &&& forall|i: int| 0 <= i < s.len() ==> (#[trigger] dec_value_of(s[i])) is Some
    &&& (s.len() > 1 ==> s[0] != '0')
}

proof fn lemma_dec_char(d: int)
    requires
        0 <= d < 10,
    ensures
        dec_value_of(dec_char(d)) == Some(d),
        dec_char(d) != '/',
        d != 0 ==> dec_char(d) != '0',
{
}

proof fn lemma_hex_char(d: int)
    requires
        0 <= d < 16,
    ensures
        hex_value_of(hex_char(d)) == Some(d),
{
}

proof fn lemma_hex_value_of(c: char)
    requires
        hex_value_of(c) is Some,
    ensures
        0 <= hex_value_of(c).unwrap() < 16,
        hex_char(hex_value_of(c).unwrap()) == c,
{
}

proof fn lemma_dec_value_of(c: char)
    requires
        dec_value_of(c) is Some,
    ensures
        0 <= dec_value_of(c).unwrap() < 10,
        dec_char(dec_value_of(c).unwrap()) == c,
        hex_value_of(c) == dec_value_of(c),
{
}

/// The decimal text of a number is canonical and reads back as the number.
proof fn lemma_dec_text(n: nat)
    ensures
        canonical_dec(dec_text(n)),
        dec_value(dec_text(n)) == n,
        n >= 1 ==> dec_text(n)[0] != '0',
    decreases n,
{
    if n < 10 {
        lemma_dec_char(n as int);
        let t = dec_text(n);
        assert(t.drop_last() =~= Seq::<char>::empty());
        assert(dec_value(t.drop_last()) == 0);
    } else {
        lemma_dec_text(n / 10);
        lemma_dec_char((n % 10) as int);
        lemma_dec_char(0);
        let p = dec_text(n / 10);
        let t = dec_text(n);
        assert(t.drop_last() =~= p);
        assert forall|i: int| 0 <= i < t.len() implies (#[trigger] dec_value_of(t[i])) is Some by {
            if i < p.len() {
                assert(t[i] == p[i]);
            }
        }
        assert(t[0] == p[0]);
    }
}

/// A canonical decimal text is the decimal text of its value.
proof fn lemma_canonical_dec(s: Seq<char>)
    requires
        canonical_dec(s),
    ensures
        dec_value(s) >= 0,
        dec_text(dec_value(s) as nat) == s,
        s.len() > 1 ==> dec_value(s) >= 10,
    decreases s.len(),
{
    let c = s.last();
    assert(dec_value_of(s[s.len() - 1]) is Some);
    lemma_dec_value_of(c);
    let d = dec_value_of(c).unwrap();
    if s.len() == 1 {
        assert(s.drop_last() =~= Seq::<char>::empty());
        assert(dec_value(s.drop_last()) == 0);
        assert(dec_value(s) == d);
        assert(dec_text(d as nat) =~= s);
    } else {
        let p = s.drop_last();
        assert(p[0] == s[0]);
        assert forall|i: int| 0 <= i < p.len() implies (#[trigger] dec_value_of(p[i])) is Some by {
            assert(p[i] == s[i]);
            assert(dec_value_of(s[i]) is Some);
        }
        lemma_canonical_dec(p);
        let v = dec_value(p);
        if p.len() == 1 {
            assert(dec_value_of(p[0]) is Some);
            lemma_dec_value_of(p[0]);
            assert(p.drop_last() =~= Seq::<char>::empty());
            assert(dec_value(p.drop_last()) == 0);
            assert(v == dec_value_of(p[0]).unwrap());
            assert(v != 0);
        }
        assert(v >= 1);
        let n = v * 10 + d;
        assert(dec_value(s) == n);
        assert(n / 10 == v && n % 10 == d) by (nonlinear_arith)
            requires
                n == v * 10 + d,
                0 <= d < 10,
                v >= 1,
        ;
        assert(dec_text(n as nat) == dec_text(v as nat).push(dec_char(d)));
        assert(s =~= p.push(c));
    }
}

/// The value of a digit sequence does not shrink as digits are appended.
proof fn lemma_dec_value_grows(s: Seq<char>, i: int, j: int)
    requires
        0 <= i <= j <= s.len(),
        forall|k: int| 0 <= k < s.len() ==> (#[trigger] dec_value_of(s[k])) is Some,
    ensures
        dec_value(s.subrange(0, i)) <= dec_value(s.subrange(0, j)),
        dec_value(s.subrange(0, j)) >= 0,
    decreases j,
{
    if j == 0 {
        assert(s.subrange(0, 0).len() == 0);
    } else {
        let i2 = if i == j { j - 1 } else { i };
        lemma_dec_value_grows(s, i2, j - 1);
        let t = s.subrange(0, j);
        assert(t.drop_last() =~= s.subrange(0, j - 1));
        assert(dec_value_of(s[j - 1]) is Some);
        lemma_dec_value_of(s[j - 1]);
    }
}

/// The hexadecimal digits of equally long byte sequences determine the bytes.
proof fn lemma_hex_digits_injective(a: Seq<u8>, b: Seq<u8>)
    requires
        a.len() == b.len(),
        hex_digits(a) == hex_digits(b),
    ensures
        a == b,
{
    assert forall|i: int| 0 <= i < a.len() implies a[i] == b[i] by {
        let (x, y) = (a[i] as int, b[i] as int);
        assert((2 * i) % 2 == 0 && (2 * i) / 2 == i);
        assert((2 * i + 1) % 2 == 1 && (2 * i + 1) / 2 == i);
        assert(hex_digits(a)[2 * i] == hex_char(x / 16));
        assert(hex_digits(b)[2 * i] == hex_char(y / 16));
        assert(hex_digits(a)[2 * i + 1] == hex_char(x % 16));
        assert(hex_digits(b)[2 * i + 1] == hex_char(y % 16));
        lemma_hex_char(x / 16);
        lemma_hex_char(x % 16);
        lemma_hex_char(y / 16);
        lemma_hex_char(y % 16);
        assert(x == (x / 16) * 16 + x % 16);
        assert(y == (y / 16) * 16 + y % 16);
    }
    assert(a =~= b);
}

/// The pieces of `s` that the path form of `q` fixes, with the slot's digits
/// taking all but the last 166 characters.
pub open spec fn path_parts(s: Seq<char>, q: BidRequest) -> bool {
    let k = s.len() - 166;
    &&& s.len() >= 167
    &&& s.subrange(0, k) == dec_text(q.slot as nat)
    &&& s[k] == '/'
    &&& s.subrange(k + 1, k + 67) == hex_text(q.parent_hash@)
    &&& s[k + 67] == '/'
    &&& s.subrange(k + 68, s.len() as int) == hex_text(q.public_key@)
}

proof fn lemma_path_parts(s: Seq<char>, q: BidRequest)
    ensures
        path_of(q) == s <==> path_parts(s, q),
{
    let d = dec_text(q.slot as nat);
    let h1 = hex_text(q.parent_hash@);
    let h2 = hex_text(q.public_key@);
    assert(d.len() >= 1);
    assert(h1.len() == 66);
    assert(h2.len() == 98);
    let p = path_of(q);
    let k = d.len() as int;
    if p == s {
        assert(s.subrange(0, k) =~= d);
        assert(s.subrange(k + 1, k + 67) =~= h1);
        assert(s.subrange(k + 68, s.len() as int) =~= h2);
    }
    if path_parts(s, q) {
        assert(s.len() - 166 == k);
        assert(p =~= s);
    }
}

/// Distinct requests have distinct path forms.
pub proof fn lemma_path_injective(a: BidRequest, b: BidRequest)
    requires
        path_of(a) == path_of(b),
    ensures
        a == b,
{
    let s = path_of(a);
    lemma_path_parts(s, a);
    lemma_path_parts(s, b);
    lemma_dec_text(a.slot as nat);
    lemma_dec_text(b.slot as nat);
    let k = s.len() - 166;
    assert(hex_digits(a.parent_hash@) =~= hex_text(a.parent_hash@).subrange(2, 66));
    assert(hex_digits(b.parent_hash@) =~= hex_text(b.parent_hash@).subrange(2, 66));
    assert(hex_digits(a.public_key@) =~= hex_text(a.public_key@).subrange(2, 98));
    assert(hex_digits(b.public_key@) =~= hex_text(b.public_key@).subrange(2, 98));
    lemma_hex_digits_injective(a.parent_hash@, b.parent_hash@);
    lemma_hex_digits_injective(a.public_key@, b.public_key@);
    assert(a.parent_hash =~= b.parent_hash);
    assert(a.public_key =~= b.public_key);
}

/// Parsing the path form of a request gives back that request.
pub proof fn lemma_path_round_trip(q: BidRequest)
    ensures
        parsed_path(path_of(q)) == Some(q),
{
    let s = path_of(q);
    assert(exists|p: BidRequest| path_of(p) == s);
    let c = choose|p: BidRequest| path_of(p) == s;
    lemma_path_injective(c, q);
}

fn dec_digit(d: u8) -> (r: char)
    requires
        d < 10,
    ensures
        r == dec_char(d as int),
{
    if d == 0 { '0' }
    else if d == 1 { '1' }
    else if d == 2 { '2' }
    else if d == 3 { '3' }
    else if d == 4 { '4' }
    else if d == 5 { '5' }
    else if d == 6 { '6' }
    else if d == 7 { '7' }
    else if d == 8 { '8' }
    else { '9' }
}

fn hex_digit(d: u8) -> (r: char)
    requires
        d < 16,
    ensures
        r == hex_char(d as int),
{
    if d < 10 { dec_digit(d) }
    else if d == 10 { 'a' }
    else if d == 11 { 'b' }
    else if d == 12 { 'c' }
    else if d == 13 { 'd' }
    else if d == 14 { 'e' }
    else { 'f' }
}

fn dec_value_exec(c: char) -> (r: Option<u8>)
    ensures
        match r {
            Some(v) => dec_value_of(c) == Some(v as int),
            None => dec_value_of(c) is None,
        },
{
    if c == '0' { Some(0) }
    else if c == '1' { Some(1) }
    else if c == '2' { Some(2) }
    else if c == '3' { Some(3) }
    else if c == '4' { Some(4) }
    else if c == '5' { Some(5) }
    else if c == '6' { Some(6) }
    else if c == '7' { Some(7) }
    else if c == '8' { Some(8) }
    else if c == '9' { Some(9) }
    else { None }
}

fn hex_value_exec(c: char) -> (r: Option<u8>)
    ensures
        match r {
            Some(v) => hex_value_of(c) == Some(v as int),
            None => hex_value_of(c) is None,
        },
{
    if c == 'a' { Some(10) }
    else if c == 'b' { Some(11) }
    else if c == 'c' { Some(12) }
    else if c == 'd' { Some(13) }
    else if c == 'e' { Some(14) }
    else if c == 'f' { Some(15) }
    else { dec_value_exec(c) }
}

/// Appends the decimal text of `n`.
fn push_dec(s: &mut String, n: u64)
    ensures
        final(s)@ == old(s)@ + dec_text(n as nat),
    decreases n,
{
    if n < 10 {
        push_char(s, dec_digit(n as u8));
        assert(final(s)@ =~= old(s)@ + dec_text(n as nat));
    } else {
        push_dec(s, n / 10);
        push_char(s, dec_digit((n % 10) as u8));
        assert(final(s)@ =~= old(s)@ + dec_text(n as nat));
    }
}

/// Appends `0x` and the hexadecimal digits of `b`.
fn push_hex<const N: usize>(s: &mut String, b: &[u8; N])
    ensures
        final(s)@ == old(s)@ + hex_text(b@),
{
    let ghost start = s@;
    push_char(s, '0');
    push_char(s, 'x');
    let mut i: usize = 0;
    while i < N
        invariant
            b@.len() == N,
            i <= N,
            s@ == start + hex_text(b@.subrange(0, i as int)),
        decreases N - i,
    {
        let ghost before = s@;
        let v = b[i];
        push_char(s, hex_digit(v / 16));
        push_char(s, hex_digit(v % 16));
        proof {
            let t = b@.subrange(0, i as int + 1);
            let u = b@.subrange(0, i as int);
            assert(hex_digits(t) =~= hex_digits(u).push(hex_char(v as int / 16)).push(
                hex_char(v as int % 16),
            ));
            assert(s@ =~= start + hex_text(t));
        }
        i = i + 1;
    }
    assert(b@.subrange(0, N as int) =~= b@);
}

/// Reads the characters before position `k` as the decimal text of a `u64`.
fn parse_dec(s: &str, k: usize) -> (r: Option<u64>)
    requires
        k <= s@.len(),
    ensures
        match r {
            Some(v) => dec_text(v as nat) == s@.subrange(0, k as int),
            None => forall|n: u64| dec_text(n as nat) != s@.subrange(0, k as int),
        },
{
    let ghost seg = s@.subrange(0, k as int);
    if k == 0 {
        proof {
            assert forall|n: u64| dec_text(n as nat) != seg by {
                lemma_dec_text(n as nat);
            }
        }
        return None;
    }
    if k > 1 && s.get_char(0) == '0' {
        proof {
            assert forall|n: u64| dec_text(n as nat) != seg by {
                lemma_dec_text(n as nat);
                if dec_text(n as nat) == seg {
                    assert(seg[0] == '0');
                }
            }
        }
        return None;
    }
    let mut acc: u64 = 0;
    let mut i: usize = 0;
    while i < k
        invariant
            k <= s@.len(),
            seg == s@.subrange(0, k as int),
            i <= k,
            forall|j: int| 0 <= j < i ==> (#[trigger] dec_value_of(seg[j])) is Some,
            acc == dec_value(seg.subrange(0, i as int)),
        decreases k - i,
    {
        let c = s.get_char(i);
        assert(c == seg[i as int]);
        match dec_value_exec(c) {
            None => {
                proof {
                    assert forall|n: u64| dec_text(n as nat) != seg by {
                        lemma_dec_text(n as nat);
                        if dec_text(n as nat) == seg {
                            assert(dec_value_of(seg[i as int]) is Some);
                        }
                    }
                }
                return None;
            },
            Some(d) => {
                proof {
                    let t = seg.subrange(0, i as int + 1);
                    assert(t.drop_last() =~= seg.subrange(0, i as int));
                    assert(dec_value(t) == acc * 10 + d);
                }
                if acc > (u64::MAX - d as u64) / 10 {
                    proof {
                        assert(acc * 10 + d > u64::MAX) by (nonlinear_arith)
                            requires
                                acc > (u64::MAX - d as u64) / 10,
                                d < 10,
                        ;
                        assert forall|n: u64| dec_text(n as nat) != seg by {
                            lemma_dec_text(n as nat);
                            if dec_text(n as nat) == seg {
                                lemma_dec_value_grows(seg, i as int + 1, k as int);
                                assert(seg.subrange(0, k as int) =~= seg);
                            }
                        }
                    }
                    return None;
                }
                acc = acc * 10 + d as u64;
                i = i + 1;
            },
        }
    }
    proof {
        assert(seg.subrange(0, k as int) =~= seg);
        lemma_canonical_dec(seg);
    }
    Some(acc)
}

/// Reads `0x` and `2 * N` hexadecimal digits from position `start`.
fn parse_hex<const N: usize>(s: &str, start: usize) -> (r: Option<[u8; N]>)
    requires
        start + 2 + 2 * N <= s@.len(),
    ensures
        match r {
            Some(b) => hex_text(b@) == s@.subrange(start as int, start + 2 + 2 * N),
            None => forall|b: [u8; N]|
                hex_text(b@) != s@.subrange(start as int, start + 2 + 2 * N),
        },
{
    let ghost seg = s@.subrange(start as int, start + 2 + 2 * N);
    let n = s.unicode_len();
    if s.get_char(start) != '0' || s.get_char(start + 1) != 'x' {
        proof {
            assert forall|b: [u8; N]| hex_text(b@) != seg by {
                if hex_text(b@) == seg {
                    assert(seg[0] == '0' && seg[1] == 'x');
                }
            }
        }
        return None;
    }
    let mut out = [0u8; N];
    let mut i: usize = 0;
    while i < N
        invariant
            n == s@.len(),
            start + 2 + 2 * N <= s@.len(),
            seg == s@.subrange(start as int, start + 2 + 2 * N),
            seg[0] == '0',
            seg[1] == 'x',
            out@.len() == N,
            i <= N,
            forall|j: int| 0 <= j < 2 * i ==> hex_digits(out@)[j] == seg[j + 2],
        decreases N - i,
    {
        let p = start + 2 + 2 * i;
        let hc = s.get_char(p);
        let lc = s.get_char(p + 1);
        assert(hc == seg[2 * i + 2]);
        assert(lc == seg[2 * i + 3]);
        let hv = hex_value_exec(hc);
        let lv = hex_value_exec(lc);
        if hv.is_none() || lv.is_none() {
            proof {
                assert forall|b: [u8; N]| hex_text(b@) != seg by {
                    if hex_text(b@) == seg {
                        let x = b@[i as int] as int;
                        assert((2 * i) % 2 == 0 && (2 * i) / 2 == i);
                        assert((2 * i + 1) % 2 == 1 && (2 * i + 1) / 2 == i);
                        assert(seg[2 * i + 2] == hex_digits(b@)[2 * i]);
                        assert(seg[2 * i + 3] == hex_digits(b@)[2 * i + 1]);
                        lemma_hex_char(x / 16);
                        lemma_hex_char(x % 16);
                    }
                }
            }
            return None;
        }
        let h = hv.unwrap();
        let l = lv.unwrap();
        proof {
            lemma_hex_value_of(hc);
            lemma_hex_value_of(lc);
        }
        let ghost prev = out@;
        out[i] = h * 16 + l;
        proof {
            let v = (h * 16 + l) as int;
            assert(v / 16 == h as int && v % 16 == l as int);
            assert forall|j: int| 0 <= j < 2 * i + 2 implies hex_digits(out@)[j] == seg[j + 2] by {
                if j < 2 * i {
                    assert(j / 2 < i);
                    assert(out@[j / 2] == prev[j / 2]);
                    assert(hex_digits(prev)[j] == seg[j + 2]);
                } else if j == 2 * i {
                    assert(j % 2 == 0 && j / 2 == i);
                } else {
                    assert(j % 2 == 1 && j / 2 == i);
                }
            }
        }
        i = i + 1;
    }
    proof {
        assert(hex_text(out@) =~= seg);
    }
    Some(out)
}

impl BidRequest {
    /// The path form `{slot}/{parent_hash}/{public_key}`: the slot in decimal,
    /// the hash and the key as `0x` and lower-case hexadecimal digits.
    pub fn to_path(&self) -> (r: String)
        ensures
            r@ == path_of(*self),
    {
        let mut s = String::new();
        push_dec(&mut s, self.slot);
        push_char(&mut s, '/');
        push_hex(&mut s, &self.parent_hash);
        push_char(&mut s, '/');
        push_hex(&mut s, &self.public_key);
        assert(s@ =~= path_of(*self));
        s
    }

    /// The request whose path form is `s`, if there is one.
    pub fn from_path(s: &str) -> (r: Option<BidRequest>)
        ensures
            r == parsed_path(s@),
    {
        let n = s.unicode_len();
        if n < 167 {
            proof {
                assert forall|q: BidRequest| path_of(q) != s@ by {
                    lemma_path_parts(s@, q);
                }
            }
            return None;
        }
        let k = n - 166;
        let slot = parse_dec(s, k);
        if slot.is_none() || s.get_char(k) != '/' || s.get_char(k + 67) != '/' {
            proof {
                assert forall|q: BidRequest| path_of(q) != s@ by {
                    lemma_path_parts(s@, q);
                }
            }
            return None;
        }
        let parent_hash = parse_hex::<32>(s, k + 1);
        let public_key = parse_hex::<48>(s, k + 68);
        match (parent_hash, public_key) {
            (Some(parent_hash), Some(public_key)) => {
                let q = BidRequest { slot: slot.unwrap(), parent_hash, public_key };
                proof {
                    lemma_path_parts(s@, q);
                    lemma_path_round_trip(q);
                }
                Some(q)
            },
            _ => {
                proof {
                    assert forall|q: BidRequest| path_of(q) != s@ by {
                        lemma_path_parts(s@, q);
                    }
                }
                None
            },
        }
    }
}

} // verus!
