//! Byte-level text helpers shared by the mask predicates, the restore-state
//! decoder and the listing sort: ASCII case folding, substring search and
//! lexicographic comparison, each verified against a direct specification.

use vstd::prelude::*;

verus! {

/// ASCII case folding of one byte: upper-case letters map to lower case,
/// every other byte is unchanged.
pub open spec fn fold_byte(b: u8) -> u8 {
    if 65 <= b && b <= 90 {
        (b + 32) as u8
    } else {
        b
    }
}

/// ASCII case folding of a byte sequence.
pub open spec fn fold_bytes(s: Seq<u8>) -> Seq<u8> {
    s.map_values(|b: u8| fold_byte(b))
}

/// Folds the bytes of `s` to ASCII lower case.
pub fn fold_bytes_exec(s: &Vec<u8>) -> (r: Vec<u8>)
    ensures
        r@ == fold_bytes(s@),
{
    let mut r: Vec<u8> = Vec::new();
    let mut i: usize = 0;
    while i < s.len()
        invariant
            i <= s.len(),
            r@ == fold_bytes(s@.subrange(0, i as int)),
        decreases s.len() - i,
    {
        let b = s[i];
        if 65 <= b && b <= 90 {
            r.push(b + 32);
        } else {
            r.push(b);
        }
        proof {
            assert(fold_bytes(s@.subrange(0, i + 1 as int)) == fold_bytes(
                s@.subrange(0, i as int),
            ).push(fold_byte(s@[i as int]))) by {
                assert(s@.subrange(0, i + 1 as int) =~= s@.subrange(0, i as int).push(
                    s@[i as int],
                ));
                assert(fold_bytes(s@.subrange(0, i as int).push(s@[i as int])) =~= fold_bytes(
                    s@.subrange(0, i as int),
                ).push(fold_byte(s@[i as int])));
            }
        }
        i = i + 1;
    }
    proof {
        assert(s@.subrange(0, s@.len() as int) =~= s@);
    }
    r
}

/// `p` stands at the start of `s`.
pub open spec fn is_prefix_of(p: Seq<u8>, s: Seq<u8>) -> bool {
    p.len() <= s.len() && s.subrange(0, p.len() as int) == p
}

/// `p` stands at the end of `s`.
pub open spec fn is_suffix_of(p: Seq<u8>, s: Seq<u8>) -> bool {
    p.len() <= s.len() && s.subrange(s.len() - p.len(), s.len() as int) == p
}

/// `p` stands in `s` at position `i`.
pub open spec fn matches_at(p: Seq<u8>, s: Seq<u8>, i: int) -> bool {
    0 <= i && i + p.len() <= s.len() && s.subrange(i, i + p.len()) == p
}

/// `p` stands somewhere in `s`.
pub open spec fn contains_sub(p: Seq<u8>, s: Seq<u8>) -> bool {
    exists|i: int| matches_at(p, s, i)
}

/// Position of the first occurrence of `p` in `s` at or after `i`, or -1.
pub open spec fn first_match_from(p: Seq<u8>, s: Seq<u8>, i: int) -> int
    decreases s.len() - i + 1,
{
    if i < 0 || i + p.len() > s.len() {
        -1
    } else if matches_at(p, s, i) {
        i
    } else {
        first_match_from(p, s, i + 1)
    }
}

/// Position of the first occurrence of `p` in `s`, or -1.
pub open spec fn first_match(p: Seq<u8>, s: Seq<u8>) -> int {
    first_match_from(p, s, 0)
}

proof fn lemma_first_match_skip(p: Seq<u8>, s: Seq<u8>, k: int)
    requires
        0 <= k,
        forall|j: int| 0 <= j < k ==> !matches_at(p, s, j),
    ensures
        first_match(p, s) == first_match_from(p, s, k),
    decreases k,
{
    if k > 0 {
        lemma_first_match_skip(p, s, k - 1);
        assert(!matches_at(p, s, k - 1));
    }
}

proof fn lemma_no_match_anywhere(p: Seq<u8>, s: Seq<u8>)
    requires
        forall|j: int| 0 <= j ==> !matches_at(p, s, j),
    ensures
        !contains_sub(p, s),
        first_match(p, s) == -1,
{
    assert forall|j: int| !matches_at(p, s, j) by {
        if j < 0 {
        } else {
            assert(!matches_at(p, s, j));
        }
    }
    lemma_first_match_skip(p, s, if s.len() >= p.len() { s.len() - p.len() + 1 } else { 0 });
}

/// Whether `p` stands in `s` at position `i`, by direct comparison.
pub fn matches_at_exec(p: &Vec<u8>, s: &Vec<u8>, i: usize) -> (r: bool)
    requires
        i + p@.len() <= s@.len(),
    ensures
        r == matches_at(p@, s@, i as int),
{
    let mut j: usize = 0;
    while j < p.len()
        invariant
            j <= p@.len(),
            i + p@.len() <= s@.len(),
            forall|k: int| 0 <= k < j ==> s@[i + k] == p@[k],
        decreases p@.len() - j,
    {
        let n = s.len();
        proof {
            assert(i + j < n);
        }
        if s[i + j] != p[j] {
            proof {
                assert(s@.subrange(i as int, i + p@.len())[j as int] == s@[i + j]);
            }
            return false;
        }
        j = j + 1;
    }
    proof {
        assert(s@.subrange(i as int, i + p@.len()) =~= p@);
    }
    true
}

/// Position of the first occurrence of `p` in `s`, if any.
pub fn find_sub(p: &Vec<u8>, s: &Vec<u8>) -> (r: Option<usize>)
    ensures
        match r {
            Some(i) => matches_at(p@, s@, i as int) && first_match(p@, s@) == i as int,
            None => !contains_sub(p@, s@) && first_match(p@, s@) == -1,
        },
{
    if p.len() > s.len() {
        proof {
            assert forall|j: int| 0 <= j implies !matches_at(p@, s@, j) by {}
            lemma_no_match_anywhere(p@, s@);
        }
        return None;
    }
    let last = s.len() - p.len();
    let mut i: usize = 0;
    while i < last
        invariant
            p@.len() <= s@.len(),
            last == s@.len() - p@.len(),
            i <= last,
            forall|j: int| 0 <= j < i ==> !matches_at(p@, s@, j),
        decreases last - i,
    {
        if matches_at_exec(p, s, i) {
            proof {
                lemma_first_match_skip(p@, s@, i as int);
            }
            return Some(i);
        }
        i = i + 1;
    }
    if matches_at_exec(p, s, last) {
        proof {
            lemma_first_match_skip(p@, s@, last as int);
        }
        return Some(last);
    }
    proof {
        assert forall|j: int| 0 <= j implies !matches_at(p@, s@, j) by {
            if j <= last {
            } else {
                assert(j + p@.len() > s@.len());
            }
        }
        lemma_no_match_anywhere(p@, s@);
    }
    None
}

/// Whether `p` stands somewhere in `s`.
pub fn contains_sub_exec(p: &Vec<u8>, s: &Vec<u8>) -> (r: bool)
    ensures
        r == contains_sub(p@, s@),
{
    find_sub(p, s).is_some()
}

/// Whether `p` stands at the start of `s`.
pub fn is_prefix_exec(p: &Vec<u8>, s: &Vec<u8>) -> (r: bool)
    ensures
        r == is_prefix_of(p@, s@),
{
    if p.len() > s.len() {
        return false;
    }
    matches_at_exec(p, s, 0)
}

/// Whether `p` stands at the end of `s`.
pub fn is_suffix_exec(p: &Vec<u8>, s: &Vec<u8>) -> (r: bool)
    ensures
        r == is_suffix_of(p@, s@),
{
    if p.len() > s.len() {
        return false;
    }
    matches_at_exec(p, s, s.len() - p.len())
}

/// Lexicographic byte order, the order `str::cmp` induces on UTF-8 text.
pub open spec fn lex_leq(a: Seq<u8>, b: Seq<u8>) -> bool
    decreases a.len(),
{
    if a.len() == 0 {
        true
    } else if b.len() == 0 {
        false
    } else if a[0] < b[0] {
        true
    } else if a[0] > b[0] {
        false
    } else {
        lex_leq(a.drop_first(), b.drop_first())
    }
}

pub proof fn lemma_lex_refl(a: Seq<u8>)
    ensures
        lex_leq(a, a),
    decreases a.len(),
{
    if a.len() > 0 {
        lemma_lex_refl(a.drop_first());
    }
}

pub proof fn lemma_lex_total(a: Seq<u8>, b: Seq<u8>)
    ensures
        lex_leq(a, b) || lex_leq(b, a),
    decreases a.len(),
{
    if a.len() > 0 && b.len() > 0 && a[0] == b[0] {
        lemma_lex_total(a.drop_first(), b.drop_first());
    }
}

pub proof fn lemma_lex_trans(a: Seq<u8>, b: Seq<u8>, c: Seq<u8>)
    requires
        lex_leq(a, b),
        lex_leq(b, c),
    ensures
        lex_leq(a, c),
    decreases a.len(),
{
    if a.len() > 0 && b.len() > 0 && c.len() > 0 && a[0] == b[0] && b[0] == c[0] {
        lemma_lex_trans(a.drop_first(), b.drop_first(), c.drop_first());
    }
}

proof fn lemma_lex_step(a: Seq<u8>, b: Seq<u8>, i: int)
    requires
        0 <= i <= a.len(),
        i <= b.len(),
        forall|k: int| 0 <= k < i ==> a[k] == b[k],
    ensures
        lex_leq(a, b) == lex_leq(a.skip(i), b.skip(i)),
    decreases i,
{
    if i > 0 {
        assert(a.len() > 0 && b.len() > 0 && a[0] == b[0]);
        lemma_lex_step(a.drop_first(), b.drop_first(), i - 1);
        assert(a.drop_first().skip(i - 1) =~= a.skip(i));
        assert(b.drop_first().skip(i - 1) =~= b.skip(i));
    } else {
        assert(a.skip(0) =~= a);
        assert(b.skip(0) =~= b);
    }
}

/// Lexicographic comparison of two byte vectors.
pub fn lex_leq_exec(a: &Vec<u8>, b: &Vec<u8>) -> (r: bool)
    ensures
        r == lex_leq(a@, b@),
{
    let mut i: usize = 0;
    loop
        invariant
            i <= a@.len(),
            i <= b@.len(),
            forall|k: int| 0 <= k < i ==> a@[k] == b@[k],
        decreases a@.len() - i,
    {
        proof {
            lemma_lex_step(a@, b@, i as int);
        }
        if i >= a.len() {
            proof {
                assert(a@.skip(i as int).len() == 0);
            }
            return true;
        }
        if i >= b.len() {
            proof {
                assert(b@.skip(i as int).len() == 0);
                assert(a@.skip(i as int).len() > 0);
            }
            return false;
        }
        let x = a[i];
        let y = b[i];
        if x != y {
            proof {
                assert(a@.skip(i as int)[0] == a@[i as int]);
                assert(b@.skip(i as int)[0] == b@[i as int]);
            }
            return x < y;
        }
        i = i + 1;
    }
}

/// Copies `v[from..to]` into a fresh vector.
pub fn vec_subrange(v: &Vec<u8>, from: usize, to: usize) -> (r: Vec<u8>)
    requires
        from <= to <= v@.len(),
    ensures
        r@ == v@.subrange(from as int, to as int),
{
    let mut r: Vec<u8> = Vec::new();
    let mut i: usize = from;
    while i < to
        invariant
            from <= i <= to <= v@.len(),
            r@ == v@.subrange(from as int, i as int),
        decreases to - i,
    {
        r.push(v[i]);
        proof {
            assert(v@.subrange(from as int, i + 1 as int) =~= v@.subrange(from as int, i as int)
                .push(v@[i as int]));
        }
        i = i + 1;
    }
    r
}

/// The decimal digit character for `d`.
pub open spec fn digit_char(d: nat) -> char {
    if d == 0 {
        '0'
    } else if d == 1 {
        '1'
    } else if d == 2 {
        '2'
    } else if d == 3 {
        '3'
    } else if d == 4 {
        '4'
    } else if d == 5 {
        '5'
    } else if d == 6 {
        '6'
    } else if d == 7 {
        '7'
    } else if d == 8 {
        '8'
    } else {
        '9'
    }
}

/// Decimal representation of `n`, without leading zeros (just "0" for zero).
pub open spec fn dec_digits(n: nat) -> Seq<char>
    decreases n,
{
    if n < 10 {
        seq![digit_char(n)]
    } else {
        dec_digits(n / 10).push(digit_char(n % 10))
    }
}

pub fn digit_str(d: u64) -> (r: &'static str)
    requires
        d < 10,
    ensures
        r@ == seq![digit_char(d as nat)],
{
    proof {
        reveal_strlit("0");
        reveal_strlit("1");
        reveal_strlit("2");
        reveal_strlit("3");
        reveal_strlit("4");
        reveal_strlit("5");
        reveal_strlit("6");
        reveal_strlit("7");
        reveal_strlit("8");
        reveal_strlit("9");
    }
    match d {
        0 => "0",
        1 => "1",
        2 => "2",
        3 => "3",
        4 => "4",
        5 => "5",
        6 => "6",
        7 => "7",
        8 => "8",
        _ => "9",
    }
}

/// Renders `n` in decimal.
pub fn u64_to_string(n: u64) -> (r: String)
    ensures
        r@ == dec_digits(n as nat),
    decreases n,
{
    if n < 10 {
        let mut s = String::new();
        s.append(digit_str(n));
        proof {
            assert(Seq::<char>::empty() + seq![digit_char(n as nat)] =~= seq![
                digit_char(n as nat),
            ]);
        }
        s
    } else {
        let mut s = u64_to_string(n / 10);
        s.append(digit_str(n % 10));
        proof {
            assert(dec_digits((n / 10) as nat) + seq![digit_char((n % 10) as nat)] =~= dec_digits(
                (n / 10) as nat,
            ).push(digit_char((n % 10) as nat)));
        }
        s
    }
}

} // verus!
