//! Verified text utilities: case-insensitive matching, substring search,
//! lexicographic comparison, splitting and joining, and decimal rendering.
//!
//! Filenames, version tags and timestamps all flow through these functions,
//! so each one carries an exact contract over the character sequence view.

use vstd::prelude::*;

verus! {

/// ASCII case folding of one character: upper-case letters map to lower case,
/// everything else is unchanged.
pub open spec fn lower_char(c: char) -> char {
    if 'A' <= c && c <= 'Z' {
        ((c as u8) + 32) as char
    } else {
        c
    }
}

/// ASCII case folding of a whole character sequence.
pub open spec fn lower_seq(s: Seq<char>) -> Seq<char> {
    s.map_values(|c: char| lower_char(c))
}

/// Folds one character to ASCII lower case.
pub fn lower_char_exec(c: char) -> (r: char)
    ensures
        r == lower_char(c),
{
    if 'A' <= c && c <= 'Z' {
        ((c as u8) + 32) as char
    } else {
        c
    }
}

/// The needle `n` occurs in the haystack `h` starting at position `i`.
pub open spec fn matches_at(h: Seq<char>, n: Seq<char>, i: int) -> bool {
    0 <= i && i + n.len() <= h.len() && h.subrange(i, i + n.len() as int) == n
}

/// The needle `n` occurs somewhere in the haystack `h`.
pub open spec fn has_substring(h: Seq<char>, n: Seq<char>) -> bool {
    exists|i: int| matches_at(h, n, i)
}

/// Checks whether `n` occurs in `h` at position `i`, optionally after ASCII
/// case folding of both sides.
fn check_match_at(h: &str, n: &str, i: usize, fold: bool) -> (r: bool)
    requires
        i + n@.len() <= h@.len(),
        h@.len() <= usize::MAX,
    ensures
        fold ==> r == matches_at(lower_seq(h@), lower_seq(n@), i as int),
        !fold ==> r == matches_at(h@, n@, i as int),
{
    let nlen = n.unicode_len();
    let mut j: usize = 0;
    while j < nlen
        invariant
            i + n@.len() <= h@.len(),
            h@.len() <= usize::MAX,
            nlen == n@.len(),
            0 <= j <= nlen,
            forall|k: int|
                0 <= k < j ==> if fold {
                    lower_char(h@[i + k]) == lower_char(n@[k])
                } else {
                    h@[i + k] == n@[k]
                },
        decreases nlen - j,
    {
        let hc = h.get_char(i + j);
        let nc = n.get_char(j);
        let (a, b) = if fold {
            (lower_char_exec(hc), lower_char_exec(nc))
        } else {
            (hc, nc)
        };
        if a != b {
            proof {
                if fold {
                    assert(lower_seq(h@)[i + j] != lower_seq(n@)[j as int]);
                    assert(!matches_at(lower_seq(h@), lower_seq(n@), i as int)) by {
                        if lower_seq(h@).subrange(i as int, i + n@.len() as int) == lower_seq(
                            n@,
                        ) {
                            assert(lower_seq(h@).subrange(i as int, i + n@.len() as int)[j as int]
                                == lower_seq(n@)[j as int]);
                        }
                    }
                } else {
                    assert(!matches_at(h@, n@, i as int)) by {
                        if h@.subrange(i as int, i + n@.len() as int) == n@ {
                            assert(h@.subrange(i as int, i + n@.len() as int)[j as int]
                                == n@[j as int]);
                        }
                    }
                }
            }
            return false;
        }
        j += 1;
    }
    proof {
        if fold {
            assert(lower_seq(h@).subrange(i as int, i + n@.len() as int) =~= lower_seq(n@));
        } else {
            assert(h@.subrange(i as int, i + n@.len() as int) =~= n@);
        }
    }
    true
}

/// Scans the haystack for the needle, optionally after ASCII case folding.
fn contains_general(h: &str, n: &str, fold: bool) -> (r: bool)
    ensures
        fold ==> r == has_substring(lower_seq(h@), lower_seq(n@)),
        !fold ==> r == has_substring(h@, n@),
{
    let hlen = h.unicode_len();
    let nlen = n.unicode_len();
    let ghost sh: Seq<char> = if fold {
        lower_seq(h@)
    } else {
        h@
    };
    let ghost sn: Seq<char> = if fold {
        lower_seq(n@)
    } else {
        n@
    };
    if nlen > hlen {
        proof {
            assert(forall|i: int| !matches_at(sh, sn, i));
        }
        return false;
    }
    let bound = hlen - nlen;
    let mut i: usize = 0;
    loop
        invariant
            nlen == n@.len(),
            hlen == h@.len(),
            nlen <= hlen,
            bound == hlen - nlen,
            0 <= i <= bound,
            sh == if fold { lower_seq(h@) } else { h@ },
            sn == if fold { lower_seq(n@) } else { n@ },
            forall|k: int| 0 <= k < i ==> !matches_at(sh, sn, k),
        decreases bound - i,
    {
        if check_match_at(h, n, i, fold) {
            return true;
        }
        if i == bound {
            proof {
                assert(forall|k: int| matches_at(sh, sn, k) ==> 0 <= k <= bound);
            }
            return false;
        }
        i += 1;
    }
}

/// Case-sensitive substring test.
pub fn contains_sub(h: &str, n: &str) -> (r: bool)
    ensures
        r == has_substring(h@, n@),
{
    contains_general(h, n, false)
}

/// Substring test after ASCII case folding of both arguments.
pub fn contains_ci(h: &str, n: &str) -> (r: bool)
    ensures
        r == has_substring(lower_seq(h@), lower_seq(n@)),
{
    contains_general(h, n, true)
}

/// The sequence `s` ends with the suffix `n`.
pub open spec fn ends_with(s: Seq<char>, n: Seq<char>) -> bool {
    n.len() <= s.len() && s.subrange(s.len() - n.len(), s.len() as int) == n
}

/// Case-sensitive suffix test.
pub fn ends_with_str(s: &str, n: &str) -> (r: bool)
    ensures
        r == ends_with(s@, n@),
{
    let slen = s.unicode_len();
    let nlen = n.unicode_len();
    if nlen > slen {
        return false;
    }
    check_match_at(s, n, slen - nlen, false)
}

/// Equality after ASCII case folding of both arguments.
pub fn eq_ci(a: &str, b: &str) -> (r: bool)
    ensures
        r == (lower_seq(a@) == lower_seq(b@)),
{
    let alen = a.unicode_len();
    let blen = b.unicode_len();
    if alen != blen {
        proof {
            assert(lower_seq(a@).len() != lower_seq(b@).len());
        }
        return false;
    }
    let r = check_match_at(a, b, 0, true);
    proof {
        if r {
            assert(lower_seq(a@).subrange(0, b@.len() as int) =~= lower_seq(a@));
        } else {
            if lower_seq(a@) == lower_seq(b@) {
                assert(lower_seq(a@).subrange(0, b@.len() as int) =~= lower_seq(b@));
            }
        }
    }
    r
}

/// Suffix test after ASCII case folding of both arguments.
pub fn ends_with_ci(s: &str, n: &str) -> (r: bool)
    ensures
        r == ends_with(lower_seq(s@), lower_seq(n@)),
{
    let slen = s.unicode_len();
    let nlen = n.unicode_len();
    if nlen > slen {
        return false;
    }
    check_match_at(s, n, slen - nlen, true)
}

/// Strict lexicographic order on character sequences by code point, the order
/// `Ord` on `str` induces when both sides are compared code point by code
/// point.
pub open spec fn lex_lt(a: Seq<char>, b: Seq<char>) -> bool
    decreases a.len(),
{
    if b.len() == 0 {
        false
    } else if a.len() == 0 {
        true
    } else if a[0] != b[0] {
        (a[0] as u32) < (b[0] as u32)
    } else {
        lex_lt(a.skip(1), b.skip(1))
    }
}

/// A shared prefix does not affect the lexicographic comparison of the rests.
proof fn lemma_lex_skip(a: Seq<char>, b: Seq<char>, i: int)
    requires
        0 <= i <= a.len(),
        i <= b.len(),
        forall|j: int| 0 <= j < i ==> a[j] == b[j],
    ensures
        lex_lt(a, b) == lex_lt(a.skip(i), b.skip(i)),
    decreases i,
{
    if i > 0 {
        assert(a[0] == b[0]);
        assert(forall|j: int| 0 <= j < i - 1 ==> a.skip(1)[j] == b.skip(1)[j]);
        lemma_lex_skip(a.skip(1), b.skip(1), i - 1);
        assert(a.skip(1).skip(i - 1) =~= a.skip(i));
        assert(b.skip(1).skip(i - 1) =~= b.skip(i));
    } else {
        assert(a.skip(0) =~= a);
        assert(b.skip(0) =~= b);
    }
}

/// Strict lexicographic comparison of two strings by code point.
pub fn str_lt(a: &str, b: &str) -> (r: bool)
    ensures
        r == lex_lt(a@, b@),
{
    let alen = a.unicode_len();
    let blen = b.unicode_len();
    let common = if alen < blen {
        alen
    } else {
        blen
    };
    let mut i: usize = 0;
    while i < common
        invariant
            alen == a@.len(),
            blen == b@.len(),
            common == if alen < blen { alen } else { blen },
            0 <= i <= common,
            forall|j: int| 0 <= j < i ==> a@[j] == b@[j],
        decreases common - i,
    {
        let ca = a.get_char(i);
        let cb = b.get_char(i);
        if ca as u32 != cb as u32 {
            proof {
                lemma_lex_skip(a@, b@, i as int);
            }
            return (ca as u32) < (cb as u32);
        }
        i += 1;
    }
    proof {
        lemma_lex_skip(a@, b@, common as int);
    }
    alen < blen
}

/// No character of `s` equals `sep`.
pub open spec fn no_char(s: Seq<char>, sep: char) -> bool {
    forall|j: int| 0 <= j < s.len() ==> s[j] != sep
}

/// Splitting a character sequence at every occurrence of `sep`. The result
/// always has at least one piece; `n` separators give `n + 1` pieces.
pub open spec fn spec_split(s: Seq<char>, sep: char) -> Seq<Seq<char>>
    decreases s.len(),
{
    if s.len() == 0 {
        seq![Seq::<char>::empty()]
    } else {
        let initsplit = spec_split(s.drop_last(), sep);
        if s.last() == sep {
            initsplit.push(Seq::<char>::empty())
        } else {
            initsplit.update(initsplit.len() - 1, initsplit.last().push(s.last()))
        }
    }
}

/// Joining pieces with a single `sep` character between adjacent pieces.
pub open spec fn spec_join(parts: Seq<Seq<char>>, sep: char) -> Seq<char>
    decreases parts.len(),
{
    if parts.len() == 0 {
        Seq::<char>::empty()
    } else if parts.len() == 1 {
        parts[0]
    } else {
        spec_join(parts.drop_last(), sep) + seq![sep] + parts.last()
    }
}

pub proof fn lemma_split_len(s: Seq<char>, sep: char)
    ensures
        spec_split(s, sep).len() >= 1,
    decreases s.len(),
{
    if s.len() > 0 {
        lemma_split_len(s.drop_last(), sep);
    }
}

/// A sequence free of the separator splits into itself alone.
pub proof fn lemma_split_no_sep(s: Seq<char>, sep: char)
    requires
        no_char(s, sep),
    ensures
        spec_split(s, sep) == seq![s],
    decreases s.len(),
{
    if s.len() == 0 {
        assert(s =~= Seq::<char>::empty());
        assert(spec_split(s, sep) =~= seq![s]);
    } else {
        assert(s.last() != sep);
        lemma_split_no_sep(s.drop_last(), sep);
        assert(seq![s.drop_last()].update(0, s.drop_last().push(s.last())) =~= seq![
            s.drop_last().push(s.last()),
        ]);
        assert(s.drop_last().push(s.last()) =~= s);
        assert(spec_split(s, sep) =~= seq![s]);
    }
}

/// Appending a separator and then a separator-free tail appends exactly one
/// piece to the split.
proof fn lemma_split_append(t: Seq<char>, a: Seq<char>, sep: char)
    requires
        no_char(a, sep),
    ensures
        spec_split(t + seq![sep] + a, sep) == spec_split(t, sep).push(a),
    decreases a.len(),
{
    lemma_split_len(t, sep);
    if a.len() == 0 {
        let s = t + seq![sep] + a;
        assert(s.last() == sep);
        assert(s.drop_last() =~= t);
        assert(a =~= Seq::<char>::empty());
        assert(spec_split(s, sep) == spec_split(t, sep).push(a));
    } else {
        let a0 = a.drop_last();
        let c = a.last();
        assert(c != sep);
        let s = t + seq![sep] + a;
        assert(s.len() > 0);
        assert(s.last() == c);
        assert(s.drop_last() =~= t + seq![sep] + a0);
        assert(forall|j: int| 0 <= j < a0.len() ==> a0[j] != sep);
        lemma_split_append(t, a0, sep);
        let x = spec_split(t, sep);
        assert(spec_split(s.drop_last(), sep) == x.push(a0));
        assert(x.push(a0).last() == a0);
        assert(x.push(a0).update(x.len() as int, a0.push(c)) =~= x.push(a0.push(c)));
        assert(a0.push(c) =~= a);
        assert(spec_split(s, sep) == x.push(a));
    }
}

/// Round trip: joining separator-free pieces and splitting the result gives
/// back exactly the original pieces, each at its original position.
pub proof fn lemma_join_then_split(parts: Seq<Seq<char>>, sep: char)
    requires
        parts.len() >= 1,
        forall|i: int| 0 <= i < parts.len() ==> no_char(#[trigger] parts[i], sep),
    ensures
        spec_split(spec_join(parts, sep), sep) == parts,
    decreases parts.len(),
{
    if parts.len() == 1 {
        assert(no_char(parts[0], sep));
        lemma_split_no_sep(parts[0], sep);
        assert(seq![parts[0]] =~= parts);
    } else {
        let init = parts.drop_last();
        assert(forall|i: int| 0 <= i < init.len() ==> no_char(#[trigger] init[i], sep));
        lemma_join_then_split(init, sep);
        assert(no_char(parts.last(), sep));
        lemma_split_append(spec_join(init, sep), parts.last(), sep);
        assert(spec_split(spec_join(parts, sep), sep) == init.push(parts.last()));
        assert(init.push(parts.last()) =~= parts);
    }
}

/// Splits a string at every occurrence of the character `sep`.
pub fn split_char(s: &str, sep: char) -> (r: Vec<String>)
    ensures
        r.deep_view() == spec_split(s@, sep),
        r@.len() >= 1,
{
    let len = s.unicode_len();
    let mut parts: Vec<String> = Vec::new();
    let mut cur: String = String::new();
    let mut i: usize = 0;
    proof {
        assert(s@.take(0) =~= Seq::<char>::empty());
        assert(parts.deep_view().push(cur@) =~= seq![Seq::<char>::empty()]);
    }
    while i < len
        invariant
            len == s@.len(),
            0 <= i <= len,
            spec_split(s@.take(i as int), sep) == parts.deep_view().push(cur@),
        decreases len - i,
    {
        let ghost old_parts = parts.deep_view();
        let ghost old_cur = cur@;
        let c = s.get_char(i);
        if c == sep {
            parts.push(cur);
            cur = String::new();
        } else {
            cur.append(s.substring_char(i, i + 1));
            proof {
                assert(s@.subrange(i as int, i + 1) =~= seq![s@[i as int]]);
                assert(cur@ =~= old_cur.push(c));
            }
        }
        i += 1;
        proof {
            let pre = s@.take(i - 1);
            let now = s@.take(i as int);
            assert(now.drop_last() =~= pre);
            assert(now.last() == c);
            assert(now.len() > 0);
            if c == sep {
                assert(parts.deep_view() =~= old_parts.push(old_cur));
                assert(spec_split(now, sep) == spec_split(pre, sep).push(Seq::<char>::empty()));
                assert(spec_split(now, sep) =~= parts.deep_view().push(cur@));
            } else {
                let x = spec_split(pre, sep);
                assert(x == old_parts.push(old_cur));
                assert(x.last() == old_cur);
                assert(x.len() - 1 == old_parts.len());
                assert(spec_split(now, sep) == x.update(x.len() - 1, old_cur.push(c)));
                assert(x.update(x.len() - 1, old_cur.push(c)) =~= old_parts.push(
                    old_cur.push(c),
                ));
                assert(spec_split(now, sep) =~= parts.deep_view().push(cur@));
            }
        }
    }
    proof {
        assert(s@.take(len as int) =~= s@);
    }
    parts.push(cur);
    proof {
        assert(parts.deep_view() =~= spec_split(s@, sep));
    }
    parts
}

/// Joins pieces with the one-character separator `sep`.
pub fn join_with(parts: &Vec<String>, sep: &str) -> (r: String)
    requires
        sep@.len() == 1,
    ensures
        r@ == spec_join(parts.deep_view(), sep@[0]),
{
    if parts.len() == 0 {
        return String::new();
    }
    let mut r: String = parts[0].clone();
    let mut i: usize = 1;
    proof {
        assert(parts.deep_view().take(1) =~= seq![parts.deep_view()[0]]);
    }
    while i < parts.len()
        invariant
            1 <= i <= parts@.len(),
            sep@.len() == 1,
            parts@.len() >= 1,
            r@ == spec_join(parts.deep_view().take(i as int), sep@[0]),
        decreases parts@.len() - i,
    {
        let ghost old_r = r@;
        r.append(sep);
        r.append(parts[i].as_str());
        i += 1;
        proof {
            let dv = parts.deep_view();
            let now = dv.take(i as int);
            assert(now.drop_last() =~= dv.take(i - 1));
            assert(now.last() == dv[i - 1]);
            assert(now.len() >= 2);
            assert(sep@ =~= seq![sep@[0]]);
            assert(r@ == spec_join(now.drop_last(), sep@[0]) + seq![sep@[0]] + now.last());
        }
    }
    proof {
        assert(parts.deep_view().take(parts@.len() as int) =~= parts.deep_view());
    }
    r
}

/// Position of the first occurrence of `c` in `s`, if any.
pub open spec fn spec_find(s: Seq<char>, c: char) -> Option<int>
    decreases s.len(),
{
    if s.len() == 0 {
        None
    } else if s[0] == c {
        Some(0int)
    } else {
        match spec_find(s.skip(1), c) {
            None => None,
            Some(i) => Some(i + 1),
        }
    }
}

/// What `spec_find` returns, characterized without recursion.
pub proof fn lemma_find_char(s: Seq<char>, c: char)
    ensures
        match spec_find(s, c) {
            Some(i) => 0 <= i < s.len() && s[i] == c && forall|j: int| 0 <= j < i ==> s[j] != c,
            None => forall|j: int| 0 <= j < s.len() ==> s[j] != c,
        },
    decreases s.len(),
{
    if s.len() > 0 && s[0] != c {
        lemma_find_char(s.skip(1), c);
        let sk = s.skip(1);
        assert(forall|j: int| 1 <= j < s.len() ==> s[j] == sk[j - 1]);
        match spec_find(sk, c) {
            Some(i2) => {
                assert(s[i2 + 1] == sk[i2]);
                assert forall|j: int| 0 <= j < i2 + 1 implies s[j] != c by {
                    if j >= 1 {
                        assert(sk[j - 1] != c);
                        assert(s[j] == sk[j - 1]);
                    }
                }
            },
            None => {
                assert forall|j: int| 0 <= j < s.len() implies s[j] != c by {
                    if j >= 1 {
                        assert(sk[j - 1] != c);
                        assert(s[j] == sk[j - 1]);
                    }
                }
            },
        }
    }
}

/// Finds the first occurrence of `c` in `s` at or after position `from`.
pub fn find_char_from(s: &str, c: char, from: usize) -> (r: Option<usize>)
    requires
        from <= s@.len(),
    ensures
        match r {
            Some(i) => from <= i < s@.len() && s@[i as int] == c && spec_find(
                s@.skip(from as int),
                c,
            ) == Some(i - from),
            None => spec_find(s@.skip(from as int), c) is None,
        },
{
    let len = s.unicode_len();
    let mut i: usize = from;
    while i < len
        invariant
            len == s@.len(),
            from <= i <= len,
            forall|j: int| from <= j < i ==> s@[j] != c,
        decreases len - i,
    {
        if s.get_char(i) == c {
            proof {
                let sk = s@.skip(from as int);
                lemma_find_char(sk, c);
                assert(forall|j: int| 0 <= j < sk.len() ==> sk[j] == s@[j + from]);
                match spec_find(sk, c) {
                    None => {
                        assert(sk[i - from] == c);
                        assert(false);
                    },
                    Some(k) => {
                        if k < i - from {
                            assert(s@[k + from] != c);
                            assert(sk[k] == c);
                            assert(false);
                        }
                        if k > i - from {
                            assert(sk[i - from] != c);
                            assert(sk[i - from] == c);
                            assert(false);
                        }
                    },
                }
            }
            return Some(i);
        }
        i += 1;
    }
    proof {
        lemma_find_char(s@.skip(from as int), c);
        assert(forall|j: int|
            0 <= j < s@.skip(from as int).len() ==> s@.skip(from as int)[j] == s@[j + from]);
        if spec_find(s@.skip(from as int), c) is Some {
            let k = spec_find(s@.skip(from as int), c)->Some_0;
            assert(s@[k + from] == c);
            assert(false);
        }
    }
    None
}

/// The character for the decimal digit `d`.
pub open spec fn digit_char(d: int) -> char
    recommends
        0 <= d < 10,
{
    ((d + 48) as u8) as char
}

/// Decimal rendering of a non-negative number, most significant digit first,
/// with no leading zero except for the number zero itself.
pub open spec fn dec_digits(n: int) -> Seq<char>
    recommends
        n >= 0,
    decreases n,
{
    if n < 10 {
        seq![digit_char(n)]
    } else {
        dec_digits(n / 10).push(digit_char(n % 10))
    }
}

/// The one-character string for the decimal digit `d`.
fn digit_str(d: u8) -> (r: &'static str)
    requires
        d < 10,
    ensures
        r@ == seq![digit_char(d as int)],
{
    let r = match d {
        0 => "0",
        1 => "1",
        2 => "2",
        3 => "3",
        4 => "4",
        5 => "5",
        6 => "6",
        7 => "7",
        8 => "8",
        _ => "9",
    };
    proof {
        reveal_strlit("0");
        reveal_strlit("1");
        reveal_strlit("2");
        reveal_strlit("3");
        reveal_strlit("4");
        reveal_strlit("5");
        reveal_strlit("6");
        reveal_strlit("7");
        reveal_strlit("8");
        reveal_strlit("9");
        assert(r@ =~= seq![digit_char(d as int)]);
    }
    r
}

/// Renders a number in decimal.
pub fn u64_to_string(n: u64) -> (r: String)
    ensures
        r@ == dec_digits(n as int),
    decreases n,
{
    if n < 10 {
        String::from_str(digit_str(n as u8))
    } else {
        let pre = u64_to_string(n / 10);
        let r = pre.concat(digit_str((n % 10) as u8));
        proof {
            assert(r@ =~= dec_digits((n / 10) as int).push(digit_char((n % 10) as int)));
        }
        r
    }
}

/// The character for the hexadecimal digit `d`, lower case.
pub open spec fn hex_char(d: int) -> char
    recommends
        0 <= d < 16,
{
    if d < 10 {
        ((d + 48) as u8) as char
    } else {
        ((d + 87) as u8) as char
    }
}

/// Fixed-width hexadecimal rendering of the low `width` nibbles of a number,
/// most significant nibble first.
pub open spec fn hex_digits(n: int, width: int) -> Seq<char>
    recommends
        n >= 0,
        width >= 0,
    decreases width,
{
    if width <= 0 {
        Seq::<char>::empty()
    } else {
        hex_digits(n / 16, width - 1).push(hex_char(n % 16))
    }
}

/// The one-character string for the hexadecimal digit `d`.
fn hex_str(d: u8) -> (r: &'static str)
    requires
        d < 16,
    ensures
        r@ == seq![hex_char(d as int)],
{
    if d < 10 {
        digit_str(d)
    } else {
        let r = match d {
            10 => "a",
            11 => "b",
            12 => "c",
            13 => "d",
            14 => "e",
            _ => "f",
        };
        proof {
            reveal_strlit("a");
            reveal_strlit("b");
            reveal_strlit("c");
            reveal_strlit("d");
            reveal_strlit("e");
            reveal_strlit("f");
            assert(r@ =~= seq![hex_char(d as int)]);
        }
        r
    }
}

/// Renders the low `width` nibbles of a number in fixed-width hexadecimal.
pub fn u64_to_hex(n: u64, width: u8) -> (r: String)
    ensures
        r@ == hex_digits(n as int, width as int),
    decreases width,
{
    if width == 0 {
        String::new()
    } else {
        let pre = u64_to_hex(n / 16, width - 1);
        let r = pre.concat(hex_str((n % 16) as u8));
        proof {
            assert(r@ =~= hex_digits((n / 16) as int, width - 1).push(hex_char((n % 16) as int)));
        }
        r
    }
}

/// ASCII whitespace, as the saved state files may carry it around a value.
pub open spec fn is_space(c: char) -> bool {
    c == ' ' || c == '\n' || c == '\r' || c == '\t'
}

/// `s` without its leading whitespace.
pub open spec fn trim_front(s: Seq<char>) -> Seq<char>
    decreases s.len(),
{
    if s.len() > 0 && is_space(s[0]) {
        trim_front(s.skip(1))
    } else {
        s
    }
}

/// `s` without its trailing whitespace.
pub open spec fn trim_back(s: Seq<char>) -> Seq<char>
    decreases s.len(),
{
    if s.len() > 0 && is_space(s.last()) {
        trim_back(s.drop_last())
    } else {
        s
    }
}

/// `s` without leading and trailing whitespace.
pub open spec fn spec_trim(s: Seq<char>) -> Seq<char> {
    trim_back(trim_front(s))
}

proof fn lemma_trim_front_at(s: Seq<char>, a: int)
    requires
        0 <= a <= s.len(),
        forall|j: int| 0 <= j < a ==> is_space(s[j]),
        a < s.len() ==> !is_space(s[a]),
    ensures
        trim_front(s) == s.skip(a),
    decreases a,
{
    if a == 0 {
        assert(s.skip(0) =~= s);
    } else {
        assert(is_space(s[0]));
        let sk = s.skip(1);
        assert(forall|j: int| 0 <= j < sk.len() ==> sk[j] == s[j + 1]);
        lemma_trim_front_at(sk, a - 1);
        assert(sk.skip(a - 1) =~= s.skip(a));
    }
}

proof fn lemma_trim_back_at(s: Seq<char>, b: int)
    requires
        0 <= b <= s.len(),
        forall|j: int| b <= j < s.len() ==> is_space(s[j]),
        b > 0 ==> !is_space(s[b - 1]),
    ensures
        trim_back(s) == s.take(b),
    decreases s.len() - b,
{
    if b == s.len() {
        if s.len() > 0 && is_space(s.last()) {
            let d = s.drop_last();
            assert(forall|j: int| 0 <= j < d.len() ==> d[j] == s[j]);
            lemma_trim_back_at(d, b - 1);
            assert(d.take(b - 1) =~= s.take(b - 1));
            assert(false);
        } else {
            assert(s.take(b) =~= s);
        }
    } else {
        assert(is_space(s.last()));
        let d = s.drop_last();
        assert(forall|j: int| 0 <= j < d.len() ==> d[j] == s[j]);
        lemma_trim_back_at(d, b);
        assert(d.take(b) =~= s.take(b));
    }
}

/// Whitespace test on one character.
pub fn is_space_char(c: char) -> (r: bool)
    ensures
        r == is_space(c),
{
    c == ' ' || c == '\n' || c == '\r' || c == '\t'
}

/// Removes leading and trailing ASCII whitespace.
pub fn trim_str(s: &str) -> (r: String)
    ensures
        r@ == spec_trim(s@),
{
    let len = s.unicode_len();
    let mut a: usize = 0;
    while a < len
        invariant
            len == s@.len(),
            0 <= a <= len,
            forall|j: int| 0 <= j < a ==> is_space(s@[j]),
        decreases len - a,
    {
        if !is_space_char(s.get_char(a)) {
            let mut b: usize = len;
            while b > a
                invariant
                    len == s@.len(),
                    0 <= a <= b <= len,
                    !is_space(s@[a as int]),
                    forall|j: int| b <= j < len ==> is_space(s@[j]),
                    forall|j: int| 0 <= j < a ==> is_space(s@[j]),
                decreases b,
            {
                if !is_space_char(s.get_char(b - 1)) {
                    let piece = s.substring_char(a, b);
                    let r = String::from_str(piece);
                    proof {
                        lemma_trim_front_at(s@, a as int);
                        let t = s@.skip(a as int);
                        assert(forall|j: int| 0 <= j < t.len() ==> t[j] == s@[j + a]);
                        lemma_trim_back_at(t, b - a);
                        assert(t.take(b - a) =~= s@.subrange(a as int, b as int));
                    }
                    return r;
                }
                b -= 1;
            }
            proof {
                assert(is_space(s@[a as int]));
                assert(false);
            }
        }
        a += 1;
    }
    proof {
        lemma_trim_front_at(s@, len as int);
        assert(s@.skip(len as int) =~= Seq::<char>::empty());
        assert(trim_back(Seq::<char>::empty()) =~= Seq::<char>::empty());
    }
    String::new()
}

} // verus!
