//! Verified string building blocks for the feed parser and the renderers:
//! substring search, replace-all, whitespace trimming, joining, padding,
//! and decimal rendering, each with an exact specification over `Seq<char>`.

use vstd::prelude::*;

verus! {

/// The pattern `p` occurs in `s` starting at position `i`.
pub open spec fn has_sub_at(s: Seq<char>, p: Seq<char>, i: int) -> bool {
    0 <= i && i + p.len() <= s.len() && s.subrange(i, i + p.len() as int) == p
}

/// The pattern `p` occurs somewhere in `s`.
pub open spec fn has_sub(s: Seq<char>, p: Seq<char>) -> bool {
    exists|i: int| has_sub_at(s, p, i)
}

/// Every occurrence of `from` in `s` replaced by `to`, scanning left to
/// right without overlap, exactly as `str::replace` does.
pub open spec fn replace_all(s: Seq<char>, from: Seq<char>, to: Seq<char>) -> Seq<char>
    decreases s.len(),
{
    if from.len() == 0 || s.len() < from.len() {
        s
    } else if s.subrange(0, from.len() as int) == from {
        to + replace_all(s.skip(from.len() as int), from, to)
    } else {
        seq![s[0]] + replace_all(s.skip(1), from, to)
    }
}

/// A string with no occurrence of the pattern is left unchanged.
pub proof fn lemma_replace_all_no_match(s: Seq<char>, from: Seq<char>, to: Seq<char>)
    requires
        from.len() >= 1,
        !has_sub(s, from),
    ensures
        replace_all(s, from, to) == s,
    decreases s.len(),
{
    if s.len() < from.len() {
    } else if s.subrange(0, from.len() as int) == from {
        assert(has_sub_at(s, from, 0));
        assert(false);
    } else {
        assert forall|i: int| !has_sub_at(s.skip(1), from, i) by {
            if has_sub_at(s.skip(1), from, i) {
                assert(s.subrange(i + 1, i + 1 + from.len() as int) =~= s.skip(1).subrange(
                    i,
                    i + from.len() as int,
                ));
                assert(has_sub_at(s, from, i + 1));
            }
        }
        lemma_replace_all_no_match(s.skip(1), from, to);
        assert(seq![s[0]] + s.skip(1) =~= s);
    }
}

/// True exactly when the two string slices hold the same characters.
pub fn str_eq(a: &str, b: &str) -> (r: bool)
    ensures
        r == (a@ == b@),
{
    let alen = a.unicode_len();
    let blen = b.unicode_len();
    if alen != blen {
        return false;
    }
    let mut j: usize = 0;
    while j < alen
        invariant
            alen == a@.len(),
            blen == b@.len(),
            alen == blen,
            j <= alen,
            forall|k: int| 0 <= k < j ==> a@[k] == b@[k],
        decreases alen - j,
    {
        if a.get_char(j) != b.get_char(j) {
            return false;
        }
        j += 1;
    }
    proof {
        assert(a@ =~= b@);
    }
    true
}

/// The pattern `p` occurs in `s` at position `at`.
fn matches_at(s: &str, p: &str, at: usize) -> (r: bool)
    requires
        at + p@.len() <= s@.len(),
    ensures
        r == has_sub_at(s@, p@, at as int),
{
    let slen = s.unicode_len();
    let plen = p.unicode_len();
    let mut j: usize = 0;
    while j < plen
        invariant
            slen == s@.len(),
            plen == p@.len(),
            at + plen <= slen,
            j <= plen,
            forall|k: int| 0 <= k < j ==> s@[at + k] == p@[k],
        decreases plen - j,
    {
        if s.get_char(at + j) != p.get_char(j) {
            proof {
                assert(s@.subrange(at as int, at + p@.len() as int)[j as int] != p@[j as int]);
            }
            return false;
        }
        j += 1;
    }
    proof {
        assert(s@.subrange(at as int, at + p@.len() as int) =~= p@);
    }
    true
}

/// True exactly when `p` occurs somewhere in `s`.
pub fn str_contains(s: &str, p: &str) -> (r: bool)
    ensures
        r == has_sub(s@, p@),
{
    let slen = s.unicode_len();
    let plen = p.unicode_len();
    if plen == 0 {
        proof {
            assert(s@.subrange(0, 0) =~= p@);
            assert(has_sub_at(s@, p@, 0));
        }
        return true;
    }
    if plen > slen {
        proof {
            assert forall|i: int| !has_sub_at(s@, p@, i) by {}
        }
        return false;
    }
    let mut i: usize = 0;
    while i <= slen - plen
        invariant
            slen == s@.len(),
            plen == p@.len(),
            1 <= plen <= slen,
            i <= slen - plen + 1,
            forall|k: int| 0 <= k < i ==> !has_sub_at(s@, p@, k),
        decreases slen - plen + 1 - i,
    {
        if matches_at(s, p, i) {
            return true;
        }
        i += 1;
    }
    proof {
        assert forall|k: int| !has_sub_at(s@, p@, k) by {
            if has_sub_at(s@, p@, k) {
                assert(0 <= k <= slen - plen);
            }
        }
    }
    false
}

/// Every occurrence of `from` in `s` replaced by `to`.
pub fn str_replace_all(s: &str, from: &str, to: &str) -> (r: String)
    requires
        from@.len() >= 1,
    ensures
        r@ == replace_all(s@, from@, to@),
    decreases s@.len(),
{
    let slen = s.unicode_len();
    let flen = from.unicode_len();
    if slen < flen {
        s.to_owned()
    } else if matches_at(s, from, 0) {
        let rest = s.substring_char(flen, slen);
        let tail = str_replace_all(rest, from, to);
        let mut r = to.to_owned();
        r.append(tail.as_str());
        r
    } else {
        let head = s.substring_char(0, 1);
        let rest = s.substring_char(1, slen);
        let tail = str_replace_all(rest, from, to);
        let mut r = head.to_owned();
        proof {
            assert(head@ =~= seq![s@[0]]);
        }
        r.append(tail.as_str());
        r
    }
}

/// A character the feed treats as whitespace around text content.
pub open spec fn is_feed_space(c: char) -> bool {
    c == ' ' || c == '\t' || c == '\r' || c == '\n'
}

/// `s` without leading feed whitespace.
pub open spec fn trim_start(s: Seq<char>) -> Seq<char>
    decreases s.len(),
{
    if s.len() > 0 && is_feed_space(s[0]) {
        trim_start(s.skip(1))
    } else {
        s
    }
}

/// `s` without trailing feed whitespace.
pub open spec fn trim_end(s: Seq<char>) -> Seq<char>
    decreases s.len(),
{
    if s.len() > 0 && is_feed_space(s.last()) {
        trim_end(s.drop_last())
    } else {
        s
    }
}

/// `s` without leading and trailing feed whitespace.
pub open spec fn trim(s: Seq<char>) -> Seq<char> {
    trim_end(trim_start(s))
}

fn str_trim_start(s: &str) -> (r: &str)
    ensures
        r@ == trim_start(s@),
    decreases s@.len(),
{
    let n = s.unicode_len();
    if n > 0 {
        let c = s.get_char(0);
        if c == ' ' || c == '\t' || c == '\r' || c == '\n' {
            return str_trim_start(s.substring_char(1, n));
        }
    }
    s
}

fn str_trim_end(s: &str) -> (r: &str)
    ensures
        r@ == trim_end(s@),
    decreases s@.len(),
{
    let n = s.unicode_len();
    if n > 0 {
        let c = s.get_char(n - 1);
        if c == ' ' || c == '\t' || c == '\r' || c == '\n' {
            proof {
                assert(s@.subrange(0, n - 1) =~= s@.drop_last());
            }
            return str_trim_end(s.substring_char(0, n - 1));
        }
    }
    s
}

/// `s` without leading and trailing feed whitespace.
pub fn str_trim(s: &str) -> (r: &str)
    ensures
        r@ == trim(s@),
{
    str_trim_end(str_trim_start(s))
}

/// The parts joined with the separator between neighbours.
pub open spec fn join(parts: Seq<Seq<char>>, sep: Seq<char>) -> Seq<char>
    decreases parts.len(),
{
    if parts.len() == 0 {
        Seq::empty()
    } else if parts.len() == 1 {
        parts[0]
    } else {
        parts[0] + sep + join(parts.skip(1), sep)
    }
}

fn join_from(parts: &Vec<String>, sep: &str, i: usize) -> (r: String)
    requires
        i <= parts.len(),
    ensures
        r@ == join(parts.deep_view().skip(i as int), sep@),
    decreases parts.len() - i,
{
    if i == parts.len() {
        proof {
            assert(parts.deep_view().skip(i as int) =~= Seq::<Seq<char>>::empty());
        }
        String::new()
    } else if i + 1 == parts.len() {
        proof {
            assert(parts.deep_view().skip(i as int).len() == 1);
            assert(parts.deep_view().skip(i as int)[0] == parts.deep_view()[i as int]);
        }
        parts[i].clone()
    } else {
        let tail = join_from(parts, sep, i + 1);
        let mut r = parts[i].clone();
        r.append(sep);
        r.append(tail.as_str());
        proof {
            assert(parts.deep_view().skip(i as int).skip(1) =~= parts.deep_view().skip(
                i + 1 as int,
            ));
            assert(parts.deep_view().skip(i as int)[0] == parts.deep_view()[i as int]);
        }
        r
    }
}

/// The strings joined with the separator between neighbours.
pub fn join_strings(parts: &Vec<String>, sep: &str) -> (r: String)
    ensures
        r@ == join(parts.deep_view(), sep@),
{
    let r = join_from(parts, sep, 0);
    proof {
        assert(parts.deep_view().skip(0) =~= parts.deep_view());
    }
    r
}

/// The character `c` repeated `n` times.
pub open spec fn repeat_char(c: char, n: nat) -> Seq<char>
    decreases n,
{
    if n == 0 {
        Seq::empty()
    } else {
        repeat_char(c, (n - 1) as nat).push(c)
    }
}

/// Appends `n` spaces to `out`.
pub fn push_spaces(out: &mut String, n: usize)
    ensures
        final(out)@ == old(out)@ + repeat_char(' ', n as nat),
{
    let mut i: usize = 0;
    proof {
        reveal_strlit(" ");
        assert(old(out)@ + repeat_char(' ', 0) =~= old(out)@);
    }
    while i < n
        invariant
            i <= n,
            out@ == old(out)@ + repeat_char(' ', i as nat),
            " "@ =~= seq![' '],
        decreases n - i,
    {
        out.append(" ");
        proof {
            assert(old(out)@ + repeat_char(' ', (i + 1) as nat) =~= (old(out)@ + repeat_char(
                ' ',
                i as nat,
            )) + " "@);
        }
        i += 1;
    }
}

/// Appends `n` dashes to `out`.
pub fn push_dashes(out: &mut String, n: usize)
    ensures
        final(out)@ == old(out)@ + repeat_char('-', n as nat),
{
    let mut i: usize = 0;
    proof {
        reveal_strlit("-");
        assert(old(out)@ + repeat_char('-', 0) =~= old(out)@);
    }
    while i < n
        invariant
            i <= n,
            out@ == old(out)@ + repeat_char('-', i as nat),
            "-"@ =~= seq!['-'],
        decreases n - i,
    {
        out.append("-");
        proof {
            assert(old(out)@ + repeat_char('-', (i + 1) as nat) =~= (old(out)@ + repeat_char(
                '-',
                i as nat,
            )) + "-"@);
        }
        i += 1;
    }
}

/// `s` padded on the right with spaces up to width `w`; a longer string
/// is kept whole.
pub open spec fn pad_right(s: Seq<char>, w: nat) -> Seq<char> {
    if s.len() >= w {
        s
    } else {
        s + repeat_char(' ', (w - s.len()) as nat)
    }
}

/// Appends `s` padded on the right with spaces up to width `w`.
pub fn push_padded(out: &mut String, s: &str, w: usize)
    ensures
        final(out)@ == old(out)@ + pad_right(s@, w as nat),
{
    let n = s.unicode_len();
    out.append(s);
    if n < w {
        push_spaces(out, w - n);
    }
}

/// `s` centered in a field of `w` dashes, the spare dash going to the
/// right; a longer string is kept whole.
pub open spec fn center_dashes(s: Seq<char>, w: nat) -> Seq<char> {
    if s.len() >= w {
        s
    } else {
        let total = (w - s.len()) as nat;
        repeat_char('-', total / 2) + s + repeat_char('-', (total - total / 2) as nat)
    }
}

/// Appends `s` centered in a field of `w` dashes.
pub fn push_centered(out: &mut String, s: &str, w: usize)
    ensures
        final(out)@ == old(out)@ + center_dashes(s@, w as nat),
{
    let n = s.unicode_len();
    if n >= w {
        out.append(s);
    } else {
        let total = w - n;
        push_dashes(out, total / 2);
        out.append(s);
        push_dashes(out, total - total / 2);
    }
}

/// `s` cut to its first `keep` characters with `...` appended when it is
/// longer than `keep`; a short string is kept whole.
pub open spec fn truncate_ellipsis(s: Seq<char>, keep: nat) -> Seq<char> {
    if s.len() > keep {
        s.subrange(0, keep as int) + "..."@
    } else {
        s
    }
}

/// Appends `s` truncated to `keep` characters with a `...` marker.
pub fn push_truncated(out: &mut String, s: &str, keep: usize)
    ensures
        final(out)@ == old(out)@ + truncate_ellipsis(s@, keep as nat),
{
    let n = s.unicode_len();
    if n > keep {
        let t = s.substring_char(0, keep);
        out.append(t);
        out.append("...");
    } else {
        out.append(s);
    }
}

/// The digit character for `d`.
pub open spec fn digit_char(d: nat) -> char {
    if d == 0 {
        '0'
    } else if d == 1 {
        '1'
    } else if d == 2 {
        '2'
    } else if d == 3 {
        '3'
    } else if d == 4 {
        '4'
    } else if d == 5 {
        '5'
    } else if d == 6 {
        '6'
    } else if d == 7 {
        '7'
    } else if d == 8 {
        '8'
    } else {
        '9'
    }
}

/// The decimal rendering of `n`, most significant digit first.
pub open spec fn dec_str(n: nat) -> Seq<char>
    decreases n,
{
    if n < 10 {
        seq![digit_char(n)]
    } else {
        dec_str(n / 10) + seq![digit_char(n % 10)]
    }
}

fn digit_string(d: usize) -> (r: String)
    requires
        d < 10,
    ensures
        r@ == seq![digit_char(d as nat)],
{
    if d == 0 {
        let r = "0".to_owned();
        proof {
            reveal_strlit("0");
            assert(r@ =~= seq!['0']);
        }
        r
    } else if d == 1 {
        let r = "1".to_owned();
        proof {
            reveal_strlit("1");
            assert(r@ =~= seq!['1']);
        }
        r
    } else if d == 2 {
        let r = "2".to_owned();
        proof {
            reveal_strlit("2");
            assert(r@ =~= seq!['2']);
        }
        r
    } else if d == 3 {
        let r = "3".to_owned();
        proof {
            reveal_strlit("3");
            assert(r@ =~= seq!['3']);
        }
        r
    } else if d == 4 {
        let r = "4".to_owned();
        proof {
            reveal_strlit("4");
            assert(r@ =~= seq!['4']);
        }
        r
    } else if d == 5 {
        let r = "5".to_owned();
        proof {
            reveal_strlit("5");
            assert(r@ =~= seq!['5']);
        }
        r
    } else if d == 6 {
        let r = "6".to_owned();
        proof {
            reveal_strlit("6");
            assert(r@ =~= seq!['6']);
        }
        r
    } else if d == 7 {
        let r = "7".to_owned();
        proof {
            reveal_strlit("7");
            assert(r@ =~= seq!['7']);
        }
        r
    } else if d == 8 {
        let r = "8".to_owned();
        proof {
            reveal_strlit("8");
            assert(r@ =~= seq!['8']);
        }
        r
    } else {
        let r = "9".to_owned();
        proof {
            reveal_strlit("9");
            assert(r@ =~= seq!['9']);
        }
        r
    }
}

/// The decimal rendering of `n`.
pub fn usize_to_dec(n: usize) -> (r: String)
    ensures
        r@ == dec_str(n as nat),
    decreases n,
{
    if n < 10 {
        digit_string(n)
    } else {
        let mut r = usize_to_dec(n / 10);
        let d = digit_string(n % 10);
        r.append(d.as_str());
        r
    }
}

} // verus!
