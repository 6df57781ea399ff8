use vstd::prelude::*;
use vstd::string::*;

verus! {

// Character-sequence utilities: substring search, literal replacement and
// decimal rendering. Archive name templates and command lines are built from
// these, so each executable function carries an exact contract over the
// character sequences involved.

/// The pattern `p` occurs in `s` at position `i`.
pub open spec fn occurs_at(s: Seq<char>, p: Seq<char>, i: int) -> bool {
    0 <= i && i + p.len() <= s.len() && s.subrange(i, i + p.len() as int) == p
}

/// Position of the leftmost occurrence of `p` in `s` at or after `i`.
pub open spec fn find_from(s: Seq<char>, p: Seq<char>, i: int) -> Option<int>
    decreases s.len() - i,
        when p.len() > 0
{
    if i < 0 || i + p.len() > s.len() {
        None
    } else if s.subrange(i, i + p.len() as int) == p {
        Some(i)
    } else {
        find_from(s, p, i + 1)
    }
}

/// `s` with every occurrence of `p` at or after `i` replaced by `rep`,
/// scanning left to right without overlap.
pub open spec fn replace_all_from(s: Seq<char>, p: Seq<char>, rep: Seq<char>, i: int) -> Seq<char>
    decreases s.len() - i,
        when p.len() > 0
{
    if i < 0 || i + p.len() > s.len() {
        if 0 <= i <= s.len() {
            s.subrange(i, s.len() as int)
        } else {
            Seq::empty()
        }
    } else if s.subrange(i, i + p.len() as int) == p {
        rep + replace_all_from(s, p, rep, i + p.len() as int)
    } else {
        seq![s[i]] + replace_all_from(s, p, rep, i + 1)
    }
}

/// `s` with the leftmost occurrence of `p` at or after `i` replaced by `rep`.
pub open spec fn replace_first_from(s: Seq<char>, p: Seq<char>, rep: Seq<char>, i: int) -> Seq<char>
    decreases s.len() - i,
        when p.len() > 0
{
    if i < 0 || i + p.len() > s.len() {
        if 0 <= i <= s.len() {
            s.subrange(i, s.len() as int)
        } else {
            Seq::empty()
        }
    } else if s.subrange(i, i + p.len() as int) == p {
        rep + s.subrange(i + p.len() as int, s.len() as int)
    } else {
        seq![s[i]] + replace_first_from(s, p, rep, i + 1)
    }
}

pub open spec fn spec_replace_all(s: Seq<char>, p: Seq<char>, rep: Seq<char>) -> Seq<char> {
    replace_all_from(s, p, rep, 0)
}

pub open spec fn spec_replace_first(s: Seq<char>, p: Seq<char>, rep: Seq<char>) -> Seq<char> {
    replace_first_from(s, p, rep, 0)
}

/// `p` occurs nowhere in `s`.
pub open spec fn absent(s: Seq<char>, p: Seq<char>) -> bool {
    forall|i: int| !occurs_at(s, p, i)
}

/// Two strings hold the same characters.
pub fn str_equal(a: &str, b: &str) -> (r: bool)
    ensures
        r == (a@ == b@),
{
    let la = a.unicode_len();
    let lb = b.unicode_len();
    if la != lb {
        return false;
    }
    let mut i: usize = 0;
    while i < la
        invariant
            la == a@.len(),
            la == b@.len(),
            i <= la,
            forall|j: int| 0 <= j < i ==> a@[j] == b@[j],
        decreases la - i,
    {
        if a.get_char(i) != b.get_char(i) {
            return false;
        }
        i = i + 1;
    }
    proof {
        assert(a@ =~= b@);
    }
    true
}

/// The characters of `s` starting at `i` begin with `p`.
fn matches_at(s: &str, i: usize, p: &str) -> (r: bool)
    requires
        i + p@.len() <= s@.len(),
        s@.len() <= usize::MAX,
    ensures
        r == (s@.subrange(i as int, i + p@.len() as int) == p@),
{
    let lp = p.unicode_len();
    let mut j: usize = 0;
    while j < lp
        invariant
            lp == p@.len(),
            i + lp <= s@.len(),
            s@.len() <= usize::MAX,
            j <= lp,
            forall|k: int| 0 <= k < j ==> s@[i + k] == p@[k],
        decreases lp - j,
    {
        if s.get_char(i + j) != p.get_char(j) {
            proof {
                assert(s@.subrange(i as int, i + p@.len() as int)[j as int] == s@[i + j]);
            }
            return false;
        }
        j = j + 1;
    }
    proof {
        assert(s@.subrange(i as int, i + p@.len() as int) =~= p@);
    }
    true
}

/// Position of the leftmost occurrence of `p` in `s`, if any.
pub fn find_pattern(s: &str, p: &str) -> (r: Option<usize>)
    requires
        p@.len() > 0,
    ensures
        match r {
            Some(k) => find_from(s@, p@, 0) == Some(k as int),
            None => find_from(s@, p@, 0) is None,
        },
{
    let ls = s.unicode_len();
    let lp = p.unicode_len();
    if lp > ls {
        return None;
    }
    let mut i: usize = 0;
    while i <= ls - lp
        invariant
            ls == s@.len(),
            lp == p@.len(),
            0 < lp <= ls,
            i <= ls - lp + 1,
            find_from(s@, p@, 0) == find_from(s@, p@, i as int),
        decreases ls - i,
    {
        if matches_at(s, i, p) {
            return Some(i);
        }
        i = i + 1;
    }
    None
}

/// `p` occurs somewhere in `s`.
pub fn contains_pattern(s: &str, p: &str) -> (r: bool)
    requires
        p@.len() > 0,
    ensures
        r == (find_from(s@, p@, 0) is Some),
{
    match find_pattern(s, p) {
        Some(_) => true,
        None => false,
    }
}

/// `s` begins with `p`.
pub fn has_prefix(s: &str, p: &str) -> (r: bool)
    ensures
        r == (p@.len() <= s@.len() && s@.subrange(0, p@.len() as int) == p@),
{
    let ls = s.unicode_len();
    let lp = p.unicode_len();
    if lp > ls {
        return false;
    }
    matches_at(s, 0, p)
}

/// `s` ends with `p`.
pub fn has_suffix(s: &str, p: &str) -> (r: bool)
    ensures
        r == (p@.len() <= s@.len() && s@.subrange(s@.len() - p@.len(), s@.len() as int) == p@),
{
    let ls = s.unicode_len();
    let lp = p.unicode_len();
    if lp > ls {
        return false;
    }
    matches_at(s, ls - lp, p)
}

/// `s` with every occurrence of the non-empty pattern `p` replaced by `rep`.
pub fn replace_all(s: &str, p: &str, rep: &str) -> (r: String)
    requires
        p@.len() > 0,
    ensures
        r@ == spec_replace_all(s@, p@, rep@),
{
    let ls = s.unicode_len();
    let lp = p.unicode_len();
    let mut out = String::new();
    let mut i: usize = 0;
    while i < ls
        invariant
            ls == s@.len(),
            lp == p@.len(),
            lp > 0,
            i <= ls,
            spec_replace_all(s@, p@, rep@) == out@ + replace_all_from(s@, p@, rep@, i as int),
        decreases ls - i,
    {
        if lp <= ls - i && matches_at(s, i, p) {
            out.append(rep);
            i = i + lp;
        } else {
            out.append(s.substring_char(i, i + 1));
            proof {
                assert(s@.subrange(i as int, i + 1) =~= seq![s@[i as int]]);
            }
            i = i + 1;
        }
    }
    proof {
        assert(replace_all_from(s@, p@, rep@, ls as int) =~= Seq::<char>::empty());
        assert(out@ =~= out@ + Seq::<char>::empty());
    }
    out
}

/// `s` with the leftmost occurrence of the non-empty pattern `p`
/// replaced by `rep`.
pub fn replace_first(s: &str, p: &str, rep: &str) -> (r: String)
    requires
        p@.len() > 0,
    ensures
        r@ == spec_replace_first(s@, p@, rep@),
{
    let ls = s.unicode_len();
    let lp = p.unicode_len();
    let mut out = String::new();
    let mut i: usize = 0;
    while i < ls
        invariant
            ls == s@.len(),
            lp == p@.len(),
            lp > 0,
            i <= ls,
            spec_replace_first(s@, p@, rep@) == out@ + replace_first_from(s@, p@, rep@, i as int),
        decreases ls - i,
    {
        if lp <= ls - i && matches_at(s, i, p) {
            out.append(rep);
            out.append(s.substring_char(i + lp, ls));
            return out;
        } else {
            out.append(s.substring_char(i, i + 1));
            proof {
                assert(s@.subrange(i as int, i + 1) =~= seq![s@[i as int]]);
            }
            i = i + 1;
        }
    }
    proof {
        assert(replace_first_from(s@, p@, rep@, ls as int) =~= Seq::<char>::empty());
        assert(out@ =~= out@ + Seq::<char>::empty());
    }
    out
}

/// Replacing an absent pattern leaves the text unchanged.
pub proof fn lemma_replace_all_absent(s: Seq<char>, p: Seq<char>, rep: Seq<char>, i: int)
    requires
        p.len() > 0,
        absent(s, p),
        0 <= i <= s.len(),
    ensures
        replace_all_from(s, p, rep, i) == s.subrange(i, s.len() as int),
    decreases s.len() - i,
{
    if i + p.len() > s.len() {
    } else {
        assert(!occurs_at(s, p, i));
        lemma_replace_all_absent(s, p, rep, i + 1);
        assert(seq![s[i]] + s.subrange(i + 1, s.len() as int) =~= s.subrange(i, s.len() as int));
    }
}

/// When `p` occurs leftmost at `k`, replacing the first occurrence splits the
/// text around `k`.
pub proof fn lemma_replace_first_structure(s: Seq<char>, p: Seq<char>, rep: Seq<char>, i: int, k: int)
    requires
        p.len() > 0,
        0 <= i <= k,
        find_from(s, p, i) == Some(k),
    ensures
        occurs_at(s, p, k),
        replace_first_from(s, p, rep, i) == s.subrange(i, k) + rep + s.subrange(
            k + p.len() as int,
            s.len() as int,
        ),
    decreases s.len() - i,
{
    if i + p.len() > s.len() {
        assert(false);
    } else if s.subrange(i, i + p.len() as int) == p {
        assert(k == i);
        assert(s.subrange(i, k) =~= Seq::<char>::empty());
        assert(rep + s.subrange(i + p.len() as int, s.len() as int) =~= s.subrange(i, k) + rep
            + s.subrange(k + p.len() as int, s.len() as int));
    } else {
        lemma_find_from_spec(s, p, i + 1);
        lemma_replace_first_structure(s, p, rep, i + 1, k);
        assert(seq![s[i]] + (s.subrange(i + 1, k) + rep + s.subrange(
            k + p.len() as int,
            s.len() as int,
        )) =~= s.subrange(i, k) + rep + s.subrange(k + p.len() as int, s.len() as int));
    }
}

/// A found position is a real occurrence; a failed search means the pattern is
/// absent from that point on.
pub proof fn lemma_find_from_spec(s: Seq<char>, p: Seq<char>, i: int)
    requires
        p.len() > 0,
        0 <= i,
    ensures
        match find_from(s, p, i) {
            Some(k) => occurs_at(s, p, k) && i <= k,
            None => forall|j: int| j >= i ==> !occurs_at(s, p, j),
        },
    decreases s.len() - i,
{
    if i + p.len() > s.len() {
    } else if s.subrange(i, i + p.len() as int) == p {
    } else {
        lemma_find_from_spec(s, p, i + 1);
    }
}

// ------------------------------------------------------------------
// Decimal rendering.

/// The character for one decimal digit.
pub open spec fn digit_char(d: int) -> char {
    if d == 0 {
        '0'
    } else if d == 1 {
        '1'
    } else if d == 2 {
        '2'
    } else if d == 3 {
        '3'
    } else if d == 4 {
        '4'
    } else if d == 5 {
        '5'
    } else if d == 6 {
        '6'
    } else if d == 7 {
        '7'
    } else if d == 8 {
        '8'
    } else {
        '9'
    }
}

pub open spec fn is_decimal_digit(c: char) -> bool {
    exists|d: int| 0 <= d < 10 && c == digit_char(d)
}

/// Ten to the power `w` (one for non-positive `w`).
pub open spec fn pow10(w: int) -> int
    decreases w,
{
    if w <= 0 {
        1
    } else {
        10 * pow10(w - 1)
    }
}

/// The decimal digits of a non-negative number, most significant first.
pub open spec fn spec_udigits(n: int) -> Seq<char>
    decreases n,
{
    if n < 10 {
        seq![digit_char(n)]
    } else {
        spec_udigits(n / 10).push(digit_char(n % 10))
    }
}

/// A run of `k` zero characters.
pub open spec fn zero_run(k: int) -> Seq<char> {
    if k <= 0 {
        Seq::empty()
    } else {
        Seq::new(k as nat, |i: int| '0')
    }
}

/// The decimal digits of `n`, left-padded with zeros to at least `w` characters.
pub open spec fn spec_padded(n: int, w: int) -> Seq<char> {
    zero_run(w - spec_udigits(n).len()) + spec_udigits(n)
}

fn digit_str(d: u8) -> (r: &'static str)
    requires
        d < 10,
    ensures
        r@ == seq![digit_char(d as int)],
{
    proof {
        reveal_strlit("0");
        reveal_strlit("1");
        reveal_strlit("2");
        reveal_strlit("3");
        reveal_strlit("4");
        reveal_strlit("5");
        reveal_strlit("6");
        reveal_strlit("7");
        reveal_strlit("8");
        reveal_strlit("9");
    }
    let r: &'static str = if d == 0 {
        "0"
    } else if d == 1 {
        "1"
    } else if d == 2 {
        "2"
    } else if d == 3 {
        "3"
    } else if d == 4 {
        "4"
    } else if d == 5 {
        "5"
    } else if d == 6 {
        "6"
    } else if d == 7 {
        "7"
    } else {
        "8"
    };
    let r: &'static str = if d == 9 {
        "9"
    } else {
        r
    };
    proof {
        assert(r@ =~= seq![digit_char(d as int)]);
    }
    r
}

/// Renders a non-negative number in decimal.
pub fn format_u128(n: u128) -> (r: String)
    ensures
        r@ == spec_udigits(n as int),
    decreases n,
{
    if n < 10 {
        let s = String::from_str(digit_str(n as u8));
        s
    } else {
        let mut front = format_u128(n / 10);
        front.append(digit_str((n % 10) as u8));
        proof {
            assert(spec_udigits((n / 10) as int).push(digit_char((n % 10) as int)) =~= spec_udigits(
                (n / 10) as int,
            ) + seq![digit_char((n % 10) as int)]);
        }
        front
    }
}

/// The decimal digits of a number, with a leading minus sign when negative.
pub open spec fn spec_idigits(n: int) -> Seq<char> {
    if n >= 0 {
        spec_udigits(n)
    } else {
        seq!['-'] + spec_udigits(-n)
    }
}

/// Renders a possibly negative number in decimal, with a leading minus sign
/// when negative.
pub fn format_i64(n: i64) -> (r: String)
    ensures
        r@ == spec_idigits(n as int),
{
    if n >= 0 {
        format_u128(n as u128)
    } else {
        let magnitude: u64 = if n == i64::MIN {
            9223372036854775808u64
        } else {
            (-n) as u64
        };
        let mut out = String::from_str("-");
        out.append(format_u128(magnitude as u128).as_str());
        proof {
            reveal_strlit("-");
            assert(("-")@ =~= seq!['-']);
        }
        out
    }
}

/// Renders `n` in decimal, left-padded with zeros to at least `w` characters.
pub fn format_padded(n: u64, w: usize) -> (r: String)
    requires
        w <= 64,
    ensures
        r@ == spec_padded(n as int, w as int),
{
    let mut out = format_u128(n as u128);
    proof {
        assert(out@ =~= zero_run(0) + spec_udigits(n as int));
    }
    while out.as_str().unicode_len() < w
        invariant
            w <= 64,
            out@.len() >= spec_udigits(n as int).len(),
            out@ == zero_run(out@.len() - spec_udigits(n as int).len()) + spec_udigits(n as int),
            spec_udigits(n as int).len() >= w ==> out@.len() == spec_udigits(n as int).len(),
            spec_udigits(n as int).len() < w ==> out@.len() <= w,
        decreases w - out@.len(),
    {
        let mut next = String::from_str("0");
        next.append(out.as_str());
        proof {
            reveal_strlit("0");
            assert(("0")@ =~= seq!['0']);
            let k = out@.len() - spec_udigits(n as int).len();
            assert(seq!['0'] + (zero_run(k) + spec_udigits(n as int)) =~= zero_run(k + 1)
                + spec_udigits(n as int));
        }
        out = next;
    }
    proof {
        if spec_udigits(n as int).len() >= w {
            assert(out@.len() == spec_udigits(n as int).len());
            assert(zero_run(out@.len() - spec_udigits(n as int).len()) =~= zero_run(
                w - spec_udigits(n as int).len(),
            ));
        }
    }
    out
}

/// Decimal digit strings contain only digits, and the digit count grows with
/// the number: below `10^w` there are at most `w` digits.
proof fn lemma_udigits_all_digits(n: int)
    requires
        0 <= n,
    ensures
        spec_udigits(n).len() >= 1,
        forall|i: int| 0 <= i < spec_udigits(n).len() ==> is_decimal_digit(#[trigger] spec_udigits(n)[i]),
    decreases n,
{
    if n < 10 {
        assert(is_decimal_digit(digit_char(n)));
    } else {
        lemma_udigits_all_digits(n / 10);
        assert(0 <= n % 10 < 10);
        assert(is_decimal_digit(digit_char(n % 10)));
    }
}

proof fn lemma_udigits_len_bound(n: int, w: int)
    requires
        0 <= n,
        1 <= w,
        n < pow10(w),
    ensures
        spec_udigits(n).len() <= w,
    decreases w,
{
    if n < 10 {
    } else {
        assert(pow10(w) == 10 * pow10(w - 1));
        assert(n / 10 < pow10(w - 1));
        lemma_udigits_len_bound(n / 10, w - 1);
    }
}

/// A zero-padded field has exactly the requested width and holds only digits.
pub proof fn lemma_padded_width(n: int, w: int)
    requires
        0 <= n,
        1 <= w,
        n < pow10(w),
    ensures
        spec_padded(n, w).len() == w,
        forall|i: int|
            0 <= i < spec_padded(n, w).len() ==> is_decimal_digit(#[trigger] spec_padded(n, w)[i]),
{
    lemma_udigits_all_digits(n);
    lemma_udigits_len_bound(n, w);
    assert(is_decimal_digit('0')) by {
        assert('0' == digit_char(0));
    }
    assert forall|i: int| 0 <= i < spec_padded(n, w).len() implies is_decimal_digit(
        #[trigger] spec_padded(n, w)[i],
    ) by {
        let k = w - spec_udigits(n).len();
        if i < k {
            assert(spec_padded(n, w)[i] == '0');
        } else {
            assert(spec_padded(n, w)[i] == spec_udigits(n)[i - k]);
        }
    }
}


/// `s` without a final `suffix`, or `s` itself when it does not end so.
pub open spec fn spec_stripped_suffix(s: Seq<char>, suffix: Seq<char>) -> Seq<char> {
    if suffix.len() <= s.len() && s.subrange(s.len() - suffix.len(), s.len() as int) == suffix {
        s.subrange(0, s.len() - suffix.len())
    } else {
        s
    }
}

/// Stripping a suffix that was just appended gives back the original text.
pub proof fn lemma_strip_appended(s: Seq<char>, suffix: Seq<char>)
    ensures
        spec_stripped_suffix(s + suffix, suffix) == s,
{
    let whole = s + suffix;
    assert(whole.subrange(whole.len() - suffix.len(), whole.len() as int) =~= suffix);
    assert(whole.subrange(0, whole.len() - suffix.len()) =~= s);
}

/// Removes a final `suffix` from `s` when present.
pub fn strip_suffix(s: &str, suffix: &str) -> (r: String)
    ensures
        r@ == spec_stripped_suffix(s@, suffix@),
{
    let ls = s.unicode_len();
    let lsuf = suffix.unicode_len();
    if has_suffix(s, suffix) {
        String::from_str(s.substring_char(0, ls - lsuf))
    } else {
        String::from_str(s)
    }
}


/// Index of the last occurrence of `c` in `s`.
pub open spec fn last_index_of(s: Seq<char>, c: char) -> Option<int>
    decreases s.len(),
{
    if s.len() == 0 {
        None
    } else if s.last() == c {
        Some(s.len() - 1)
    } else {
        last_index_of(s.drop_last(), c)
    }
}

/// The characters after the last `c`, or all of `s` when `c` is absent.
pub open spec fn spec_tail_after_last(s: Seq<char>, c: char) -> Seq<char> {
    match last_index_of(s, c) {
        Some(i) => s.subrange(i + 1, s.len() as int),
        None => s,
    }
}

/// The characters before the last `c`, empty when `c` is absent.
pub open spec fn spec_head_before_last(s: Seq<char>, c: char) -> Seq<char> {
    match last_index_of(s, c) {
        Some(i) => s.subrange(0, i),
        None => Seq::empty(),
    }
}

/// `s` with every trailing `c` removed.
pub open spec fn spec_trim_trailing(s: Seq<char>, c: char) -> Seq<char>
    decreases s.len(),
{
    if s.len() > 0 && s.last() == c {
        spec_trim_trailing(s.drop_last(), c)
    } else {
        s
    }
}

/// Position just past the last occurrence of `c` in `s` (zero when absent).
fn scan_last(s: &str, c: char) -> (r: usize)
    ensures
        r == 0 ==> last_index_of(s@, c) is None,
        r > 0 ==> r <= s@.len() && last_index_of(s@, c) == Some(r - 1),
{
    let ls = s.unicode_len();
    let mut i: usize = ls;
    proof {
        assert(s@.take(ls as int) =~= s@);
    }
    while i > 0
        invariant
            ls == s@.len(),
            i <= ls,
            last_index_of(s@, c) == last_index_of(s@.take(i as int), c),
        decreases i,
    {
        if s.get_char(i - 1) == c {
            proof {
                assert(s@.take(i as int).last() == s@[i - 1]);
            }
            return i;
        }
        proof {
            assert(s@.take(i as int).drop_last() =~= s@.take(i as int - 1));
            assert(s@.take(i as int).last() == s@[i - 1]);
        }
        i = i - 1;
    }
    proof {
        assert(s@.take(0) =~= Seq::<char>::empty());
    }
    0
}

/// The text after the last occurrence of `c`, or `s` itself when `c` is
/// absent.
pub fn tail_after_last(s: &str, c: char) -> (r: String)
    ensures
        r@ == spec_tail_after_last(s@, c),
{
    let ls = s.unicode_len();
    let cut = scan_last(s, c);
    String::from_str(s.substring_char(cut, ls))
}

/// The text before the last occurrence of `c`, empty when `c` is absent.
pub fn head_before_last(s: &str, c: char) -> (r: String)
    ensures
        r@ == spec_head_before_last(s@, c),
{
    let cut = scan_last(s, c);
    if cut == 0 {
        String::new()
    } else {
        String::from_str(s.substring_char(0, cut - 1))
    }
}

/// Removes every trailing `c` from `s`.
pub fn trim_trailing(s: &str, c: char) -> (r: String)
    ensures
        r@ == spec_trim_trailing(s@, c),
{
    let ls = s.unicode_len();
    let mut i: usize = ls;
    proof {
        assert(s@.take(ls as int) =~= s@);
    }
    while i > 0 && s.get_char(i - 1) == c
        invariant
            ls == s@.len(),
            i <= ls,
            spec_trim_trailing(s@, c) == spec_trim_trailing(s@.take(i as int), c),
        decreases i,
    {
        proof {
            assert(s@.take(i as int).drop_last() =~= s@.take(i as int - 1));
            assert(s@.take(i as int).last() == s@[i - 1]);
        }
        i = i - 1;
    }
    proof {
        if i > 0 {
            assert(s@.take(i as int).last() == s@[i - 1]);
        } else {
            assert(s@.take(0) =~= Seq::<char>::empty());
        }
    }
    String::from_str(s.substring_char(0, i))
}

} // verus!
