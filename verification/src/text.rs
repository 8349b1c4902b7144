//! Text helpers shared by the model-selection and file-naming rules:
//! substring search (exact and ASCII case-insensitive), literal
//! replacement, decimal rendering of sizes and trimming of white space.

use vstd::prelude::*;

verus! {

/// The texts of a list of strings.
pub open spec fn texts(v: Seq<String>) -> Seq<Seq<char>> {
    v.map_values(|s: String| s@)
}

/// The code of `c` after ASCII lowercasing (`char::to_ascii_lowercase`).
pub open spec fn lower_code(c: char) -> int {
    if 'A' <= c && c <= 'Z' {
        (c as int) + 32
    } else {
        c as int
    }
}

/// Two characters agree, exactly or after ASCII lowercasing of both.
pub open spec fn char_agrees(a: char, b: char, fold: bool) -> bool {
    if fold {
        lower_code(a) == lower_code(b)
    } else {
        a == b
    }
}

/// `p` occurs in `s` starting at position `i`.
pub open spec fn occurs_at(s: Seq<char>, p: Seq<char>, i: int, fold: bool) -> bool {
    &&& 0 <= i
    &&& i + p.len() <= s.len()
    &&& forall|j: int| 0 <= j < p.len() ==> char_agrees(#[trigger] s[i + j], p[j], fold)
}

/// `p` occurs somewhere in `s` (`str::contains` with a string pattern).
pub open spec fn contains_seq(s: Seq<char>, p: Seq<char>) -> bool {
    exists|i: int| occurs_at(s, p, i, false)
}

/// `p` occurs in `s` once both are ASCII-lowercased
/// (`s.to_ascii_lowercase().contains(p)` for a lowercase pattern `p`).
pub open spec fn contains_ignore_case(s: Seq<char>, p: Seq<char>) -> bool {
    exists|i: int| occurs_at(s, p, i, true)
}

/// Every non-overlapping occurrence of `from` in `s`, scanned from the left,
/// replaced by `to` (`str::replace`).
pub open spec fn replace_all(s: Seq<char>, from: Seq<char>, to: Seq<char>) -> Seq<char>
    recommends
        from.len() > 0,
    decreases s.len(),
{
    if from.len() == 0 || s.len() < from.len() {
        s
    } else if s.subrange(0, from.len() as int) == from {
        to + replace_all(s.skip(from.len() as int), from, to)
    } else {
        seq![s[0]] + replace_all(s.skip(1), from, to)
    }
}

/// The decimal digit character for `d < 10`.
pub open spec fn digit_char(d: nat) -> char {
    if d == 0 {
        '0'
    } else if d == 1 {
        '1'
    } else if d == 2 {
        '2'
    } else if d == 3 {
        '3'
    } else if d == 4 {
        '4'
    } else if d == 5 {
        '5'
    } else if d == 6 {
        '6'
    } else if d == 7 {
        '7'
    } else if d == 8 {
        '8'
    } else {
        '9'
    }
}

/// The decimal rendering of `n`, without sign or leading zeros
/// (what `Display` writes for an unsigned integer).
pub open spec fn decimal(n: nat) -> Seq<char>
    decreases n,
{
    if n < 10 {
        seq![digit_char(n)]
    } else {
        decimal(n / 10) + seq![digit_char(n % 10)]
    }
}

/// The number a digit character stands for.
pub open spec fn digit_value(c: char) -> nat {
    if '0' <= c && c <= '9' {
        ((c as int) - ('0' as int)) as nat
    } else {
        0
    }
}

/// The number a string of decimal digits stands for.
pub open spec fn decimal_value(s: Seq<char>) -> nat
    decreases s.len(),
{
    if s.len() == 0 {
        0
    } else {
        decimal_value(s.drop_last()) * 10 + digit_value(s.last())
    }
}

/// Reading back a decimal rendering gives the number.
pub proof fn lemma_decimal_value(n: nat)
    ensures
        decimal_value(decimal(n)) == n,
    decreases n,
{
    if n < 10 {
        assert(decimal(n).drop_last() =~= Seq::<char>::empty());
        assert(decimal(n).last() == digit_char(n));
        assert(digit_value(digit_char(n)) == n);
        assert(decimal_value(Seq::<char>::empty()) == 0);
    } else {
        lemma_decimal_value(n / 10);
        assert(decimal(n).drop_last() =~= decimal(n / 10));
        assert(decimal(n).last() == digit_char(n % 10));
        assert(digit_value(digit_char(n % 10)) == n % 10);
        vstd::arithmetic::div_mod::lemma_fundamental_div_mod(n as int, 10);
        assert(decimal_value(decimal(n)) == decimal_value(decimal(n / 10)) * 10 + digit_value(
            digit_char(n % 10),
        ));
    }
}

/// Distinct numbers have distinct decimal renderings.
pub proof fn law_decimal_injective(a: nat, b: nat)
    ensures
        decimal(a) == decimal(b) ==> a == b,
{
    lemma_decimal_value(a);
    lemma_decimal_value(b);
}

proof fn lemma_replace_before_final(s: Seq<char>, p: Seq<char>, to: Seq<char>)
    requires
        p.len() > 0,
        forall|i: int| 0 <= i < s.len() ==> !occurs_at(s + p, p, i, false),
    ensures
        replace_all(s + p, p, to) == s + to,
    decreases s.len(),
{
    let x = s + p;
    if s.len() == 0 {
        assert(x =~= p);
        assert(x.subrange(0, p.len() as int) =~= p);
        assert(x.skip(p.len() as int) =~= Seq::<char>::empty());
        assert(replace_all(Seq::<char>::empty(), p, to) == Seq::<char>::empty());
        assert(replace_all(x, p, to) == to + replace_all(x.skip(p.len() as int), p, to));
        assert(s + to =~= to);
        assert(to + Seq::<char>::empty() =~= to);
    } else {
        assert(!(x.len() >= p.len() && x.subrange(0, p.len() as int) == p)) by {
            if x.len() >= p.len() && x.subrange(0, p.len() as int) == p {
                assert forall|j: int| 0 <= j < p.len() implies char_agrees(#[trigger] x[0 + j], p[j], false) by {
                    assert(x.subrange(0, p.len() as int)[j] == x[j]);
                }
                assert(occurs_at(x, p, 0, false));
            }
        }
        lemma_replace_no_match(x, p, to);
        assert(x[0] == s[0]);
        let s1 = s.skip(1);
        assert(x.skip(1) =~= s1 + p);
        assert forall|i: int| 0 <= i < s1.len() implies !occurs_at(s1 + p, p, i, false) by {
            if occurs_at(s1 + p, p, i, false) {
                assert forall|j: int| 0 <= j < p.len() implies char_agrees(#[trigger] x[(i + 1) + j], p[j], false) by {
                    assert(x[(i + 1) + j] == (s1 + p)[i + j]);
                }
                assert(occurs_at(x, p, i + 1, false));
            }
        }
        lemma_replace_before_final(s1, p, to);
        assert(seq![s[0]] + (s1 + to) =~= s + to);
    }
}

/// Replacing `p` in a text that ends with `p`, and holds no other occurrence
/// of it that starts earlier, replaces just that ending.
pub proof fn law_replace_final_occurrence(s: Seq<char>, p: Seq<char>, to: Seq<char>)
    requires
        p.len() > 0,
        forall|i: int| 0 <= i < s.len() ==> !occurs_at(s + p, p, i, false),
    ensures
        replace_all(s + p, p, to) == s + to,
{
    lemma_replace_before_final(s, p, to);
}

/// The characters of `s`, one per element.
pub fn chars_of(s: &str) -> (r: Vec<char>)
    ensures
        r@ == s@,
{
    let n = s.unicode_len();
    let mut out: Vec<char> = Vec::new();
    let mut i: usize = 0;
    while i < n
        invariant
            n == s@.len(),
            i <= n,
            out@ == s@.subrange(0, i as int),
        decreases n - i,
    {
        let c = s.get_char(i);
        out.push(c);
        i = i + 1;
        assert(out@ =~= s@.subrange(0, i as int));
    }
    assert(out@ =~= s@);
    out
}

fn char_agrees_exec(a: char, b: char, fold: bool) -> (r: bool)
    ensures
        r == char_agrees(a, b, fold),
{
    if fold {
        let ca: u32 = a as u32;
        let cb: u32 = b as u32;
        let la: u32 = if 'A' <= a && a <= 'Z' { ca + 32 } else { ca };
        let lb: u32 = if 'A' <= b && b <= 'Z' { cb + 32 } else { cb };
        la == lb
    } else {
        a == b
    }
}

fn occurs_at_exec(s: &Vec<char>, p: &Vec<char>, i: usize, fold: bool) -> (r: bool)
    requires
        i + p.len() <= s.len(),
    ensures
        r == occurs_at(s@, p@, i as int, fold),
{
    let mut j: usize = 0;
    while j < p.len()
        invariant
            i + p.len() <= s.len(),
            j <= p.len(),
            forall|k: int| 0 <= k < j ==> char_agrees(#[trigger] s@[i + k], p@[k], fold),
        decreases p.len() - j,
    {
        if !char_agrees_exec(s[i + j], p[j], fold) {
            return false;
        }
        j = j + 1;
    }
    true
}

fn search(s: &Vec<char>, p: &Vec<char>, fold: bool) -> (r: bool)
    ensures
        r == exists|i: int| occurs_at(s@, p@, i, fold),
{
    if p.len() > s.len() {
        return false;
    }
    let last = s.len() - p.len();
    let mut i: usize = 0;
    while i < last
        invariant
            last + p.len() == s.len(),
            i <= last,
            forall|k: int| 0 <= k < i ==> !occurs_at(s@, p@, k, fold),
        decreases last - i,
    {
        if occurs_at_exec(s, p, i, fold) {
            return true;
        }
        i = i + 1;
    }
    if occurs_at_exec(s, p, last, fold) {
        return true;
    }
    assert forall|k: int| !occurs_at(s@, p@, k, fold) by {
        if 0 <= k && k < last {
            assert(!occurs_at(s@, p@, k, fold));
        }
    }
    false
}

/// Whether `pattern` occurs in `text` (`str::contains`).
pub fn contains_text(text: &str, pattern: &str) -> (r: bool)
    ensures
        r == contains_seq(text@, pattern@),
{
    let s = chars_of(text);
    let p = chars_of(pattern);
    search(&s, &p, false)
}

/// Whether `pattern` occurs in `text` once both are ASCII-lowercased.
pub fn contains_ignore_ascii_case(text: &str, pattern: &str) -> (r: bool)
    ensures
        r == contains_ignore_case(text@, pattern@),
{
    let s = chars_of(text);
    let p = chars_of(pattern);
    search(&s, &p, true)
}

/// Whether `a` and `b` hold the same characters.
pub fn same_text(a: &str, b: &str) -> (r: bool)
    ensures
        r == (a@ == b@),
{
    let x = a.to_owned();
    let y = b.to_owned();
    x == y
}

proof fn lemma_replace_no_match(s: Seq<char>, from: Seq<char>, to: Seq<char>)
    requires
        from.len() > 0,
        s.len() > 0,
        !(s.len() >= from.len() && s.subrange(0, from.len() as int) == from),
    ensures
        replace_all(s, from, to) == seq![s[0]] + replace_all(s.skip(1), from, to),
{
    if s.len() < from.len() {
        // no occurrence fits: both sides are `s` itself
        assert(replace_all(s.skip(1), from, to) == s.skip(1));
        assert(seq![s[0]] + s.skip(1) =~= s);
    }
}

/// `text` with every occurrence of `from` replaced by `to`, scanning from the
/// left without overlaps (`str::replace`).
pub fn replace_text(text: &str, from: &str, to: &str) -> (r: String)
    requires
        from@.len() > 0,
    ensures
        r@ == replace_all(text@, from@, to@),
{
    let s = chars_of(text);
    let f = chars_of(from);
    let n = s.len();
    let m = f.len();
    let mut out = String::new();
    let mut start: usize = 0;
    let mut i: usize = 0;
    assert(text@.skip(0) =~= text@);
    while i < n
        invariant
            n == s@.len(),
            s@ == text@,
            f@ == from@,
            m == f@.len(),
            m > 0,
            start <= i <= n,
            replace_all(text@, from@, to@) == out@ + text@.subrange(start as int, i as int)
                + replace_all(text@.skip(i as int), from@, to@),
        decreases n - i,
    {
        let fits = m <= n - i;
        let hit = fits && occurs_at_exec(&s, &f, i, false);
        let ghost rest = text@.skip(i as int);
        if hit {
            assert(rest.subrange(0, m as int) =~= from@) by {
                assert forall|k: int| 0 <= k < m implies rest.subrange(0, m as int)[k] == from@[k] by {
                    assert(char_agrees(s@[i + k], f@[k], false));
                }
            }
            assert(rest.skip(m as int) =~= text@.skip(i + m));
            let piece = text.substring_char(start, i);
            out.append(piece);
            out.append(to);
            i = i + m;
            start = i;
            assert(text@.subrange(start as int, i as int) =~= Seq::<char>::empty());
        } else {
            assert(!(rest.len() >= m && rest.subrange(0, m as int) == from@)) by {
                if rest.len() >= m && rest.subrange(0, m as int) == from@ {
                    assert(occurs_at(s@, f@, i as int, false)) by {
                        assert forall|k: int| 0 <= k < m implies char_agrees(#[trigger] s@[i + k], f@[k], false) by {
                            assert(rest.subrange(0, m as int)[k] == rest[k]);
                        }
                    }
                }
            }
            proof {
                lemma_replace_no_match(rest, from@, to@);
            }
            assert(rest.skip(1) =~= text@.skip(i + 1));
            assert(text@.subrange(start as int, i + 1) =~= text@.subrange(start as int, i as int)
                + seq![rest[0]]);
            i = i + 1;
        }
    }
    let tail = text.substring_char(start, n);
    out.append(tail);
    assert(text@.skip(n as int) =~= Seq::<char>::empty());
    assert(out@ =~= replace_all(text@, from@, to@));
    out
}

fn digit_text(d: u64) -> (r: &'static str)
    requires
        d < 10,
    ensures
        r@ == seq![digit_char(d as nat)],
{
    if d == 0 {
        proof { reveal_strlit("0"); }
        "0"
    } else if d == 1 {
        proof { reveal_strlit("1"); }
        "1"
    } else if d == 2 {
        proof { reveal_strlit("2"); }
        "2"
    } else if d == 3 {
        proof { reveal_strlit("3"); }
        "3"
    } else if d == 4 {
        proof { reveal_strlit("4"); }
        "4"
    } else if d == 5 {
        proof { reveal_strlit("5"); }
        "5"
    } else if d == 6 {
        proof { reveal_strlit("6"); }
        "6"
    } else if d == 7 {
        proof { reveal_strlit("7"); }
        "7"
    } else if d == 8 {
        proof { reveal_strlit("8"); }
        "8"
    } else {
        proof { reveal_strlit("9"); }
        "9"
    }
}

/// The decimal rendering of `n` (what `format!("{}", n)` writes).
pub fn decimal_text(n: u64) -> (r: String)
    ensures
        r@ == decimal(n as nat),
    decreases n,
{
    if n < 10 {
        let mut out = String::new();
        out.append(digit_text(n));
        assert(out@ =~= decimal(n as nat));
        out
    } else {
        let mut out = decimal_text(n / 10);
        out.append(digit_text(n % 10));
        out
    }
}

/// The characters with the Unicode `White_Space` property: the ones
/// `char::is_whitespace` accepts and `str::trim` removes.
pub open spec fn is_white_space(c: char) -> bool {
    let n = c as int;
    ||| 0x9 <= n <= 0xD
    ||| n == 0x20 || n == 0x85 || n == 0xA0 || n == 0x1680
    ||| 0x2000 <= n <= 0x200A
    ||| n == 0x2028 || n == 0x2029 || n == 0x202F || n == 0x205F || n == 0x3000
}

/// Every character of `s` is white space.
pub open spec fn all_white(s: Seq<char>) -> bool {
    forall|k: int| 0 <= k < s.len() ==> is_white_space(#[trigger] s[k])
}

/// `i` is the first character of `s` that is not white space.
pub open spec fn first_visible(s: Seq<char>, i: int) -> bool {
    &&& 0 <= i < s.len()
    &&& !is_white_space(s[i])
    &&& forall|k: int| 0 <= k < i ==> is_white_space(#[trigger] s[k])
}

/// `j` is the last character of `s` that is not white space.
pub open spec fn last_visible(s: Seq<char>, j: int) -> bool {
    &&& 0 <= j < s.len()
    &&& !is_white_space(s[j])
    &&& forall|k: int| j < k < s.len() ==> is_white_space(#[trigger] s[k])
}

/// What `str::trim` leaves of `s`: the part from its first to its last
/// character that is not white space, nothing when all of it is white space.
pub open spec fn trimmed(s: Seq<char>) -> Seq<char> {
    if all_white(s) {
        Seq::empty()
    } else {
        let i = choose|i: int| first_visible(s, i);
        let j = choose|j: int| last_visible(s, j);
        s.subrange(i, j + 1)
    }
}

/// A text that is not all white space has a first and a last visible
/// character, and each is unique.
pub proof fn lemma_visible_bounds(s: Seq<char>, k: int)
    requires
        0 <= k < s.len(),
        !is_white_space(s[k]),
    ensures
        exists|i: int| first_visible(s, i),
        exists|j: int| last_visible(s, j),
        forall|i1: int, i2: int| first_visible(s, i1) && first_visible(s, i2) ==> i1 == i2,
        forall|j1: int, j2: int| last_visible(s, j1) && last_visible(s, j2) ==> j1 == j2,
    decreases k,
{
    if exists|m: int| 0 <= m < k && !is_white_space(#[trigger] s[m]) {
        let m = choose|m: int| 0 <= m < k && !is_white_space(#[trigger] s[m]);
        lemma_visible_bounds(s, m);
    } else {
        assert(first_visible(s, k));
    }
    lemma_last_visible_exists(s, k);
    assert forall|i1: int, i2: int| first_visible(s, i1) && first_visible(s, i2) implies i1 == i2 by {
        if i1 < i2 {
            assert(is_white_space(s[i1]));
        } else if i2 < i1 {
            assert(is_white_space(s[i2]));
        }
    }
    assert forall|j1: int, j2: int| last_visible(s, j1) && last_visible(s, j2) implies j1 == j2 by {
        if j1 < j2 {
            assert(is_white_space(s[j2]));
        } else if j2 < j1 {
            assert(is_white_space(s[j1]));
        }
    }
}

/// A text with a visible character at `k` has a last visible character.
proof fn lemma_last_visible_exists(s: Seq<char>, k: int)
    requires
        0 <= k < s.len(),
        !is_white_space(s[k]),
    ensures
        exists|j: int| last_visible(s, j),
    decreases s.len() - k,
{
    if exists|m: int| k < m < s.len() && !is_white_space(#[trigger] s[m]) {
        let m = choose|m: int| k < m < s.len() && !is_white_space(#[trigger] s[m]);
        lemma_last_visible_exists(s, m);
    } else {
        assert(last_visible(s, k));
    }
}

/// The trimmed text of `s` is `s` from its first visible character `i` to
/// its last visible character `j`.
pub proof fn lemma_trimmed_bounds(s: Seq<char>, i: int, j: int)
    requires
        first_visible(s, i),
        last_visible(s, j),
    ensures
        i <= j,
        trimmed(s) == s.subrange(i, j + 1),
{
    lemma_visible_bounds(s, i);
    if j < i {
        assert(is_white_space(s[i]));
    }
    assert(!all_white(s));
}

/// Trimming leaves no white space at either end of the text, and trimming a
/// second time changes nothing.
pub proof fn law_trim_leaves_no_surrounding_space(s: Seq<char>)
    ensures
        trimmed(s).len() > 0 ==> !is_white_space(trimmed(s)[0]) && !is_white_space(
            trimmed(s).last(),
        ),
        trimmed(trimmed(s)) == trimmed(s),
{
    if all_white(s) {
        assert(all_white(trimmed(s)));
    } else {
        let k = choose|k: int| 0 <= k < s.len() && !is_white_space(#[trigger] s[k]);
        lemma_visible_bounds(s, k);
        let i = choose|i: int| first_visible(s, i);
        let j = choose|j: int| last_visible(s, j);
        lemma_trimmed_bounds(s, i, j);
        let t = s.subrange(i, j + 1);
        assert(t[0] == s[i]);
        assert(t.last() == s[j]);
        assert(first_visible(t, 0));
        assert(last_visible(t, t.len() - 1));
        lemma_trimmed_bounds(t, 0, t.len() - 1);
        assert(t.subrange(0, t.len() as int) =~= t);
    }
}

/// Whether `c` is white space, as `char::is_whitespace` says.
pub fn is_white_space_char(c: char) -> (r: bool)
    ensures
        r == is_white_space(c),
{
    let n: u32 = c as u32;
    (0x9 <= n && n <= 0xD) || n == 0x20 || n == 0x85 || n == 0xA0 || n == 0x1680 || (0x2000 <= n
        && n <= 0x200A) || n == 0x2028 || n == 0x2029 || n == 0x202F || n == 0x205F || n == 0x3000
}

/// `s` without its leading and trailing white space, as `str::trim` gives it.
pub fn trim_text(s: &str) -> (r: String)
    ensures
        r@ == trimmed(s@),
{
    let n = s.unicode_len();
    let mut i: usize = 0;
    while i < n && is_white_space_char(s.get_char(i))
        invariant
            n == s@.len(),
            i <= n,
            forall|k: int| 0 <= k < i ==> is_white_space(#[trigger] s@[k]),
        decreases n - i,
    {
        i = i + 1;
    }
    if i == n {
        proof {
            assert(all_white(s@));
        }
        return String::new();
    }
    let mut j: usize = n;
    while j > i + 1 && is_white_space_char(s.get_char(j - 1))
        invariant
            n == s@.len(),
            i < n,
            i < j <= n,
            !is_white_space(s@[i as int]),
            forall|k: int| j <= k < n ==> is_white_space(#[trigger] s@[k]),
        decreases j,
    {
        j = j - 1;
    }
    proof {
        assert(first_visible(s@, i as int));
        assert(last_visible(s@, j - 1));
        lemma_trimmed_bounds(s@, i as int, j - 1);
    }
    s.substring_char(i, j).to_owned()
}

} // verus!
