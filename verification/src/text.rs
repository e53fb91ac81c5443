//! Text handling shared by every module: whitespace, case, searching,
//! splitting, escaping and decimal numbers, each with its specification
//! over the characters of the text.
use vstd::prelude::*;

verus! {

// ---------------------------------------------------------------------
// Specifications
// ---------------------------------------------------------------------

/// Unicode `White_Space`, the property that `char::is_whitespace` tests.
pub open spec fn is_ws(c: char) -> bool {
    ||| c == ' '
    ||| ('\t' <= c && c <= '\r')
    ||| c == '\u{85}'
    ||| c == '\u{a0}'
    ||| c == '\u{1680}'
    ||| ('\u{2000}' <= c && c <= '\u{200a}')
    ||| c == '\u{2028}'
    ||| c == '\u{2029}'
    ||| c == '\u{202f}'
    ||| c == '\u{205f}'
    ||| c == '\u{3000}'
}

/// Leading whitespace removed.
pub open spec fn trim_start_seq(s: Seq<char>) -> Seq<char>
    decreases s.len(),
{
    if s.len() > 0 && is_ws(s[0]) {
        trim_start_seq(s.drop_first())
    } else {
        s
    }
}

/// Trailing whitespace removed.
pub open spec fn trim_end_seq(s: Seq<char>) -> Seq<char>
    decreases s.len(),
{
    if s.len() > 0 && is_ws(s.last()) {
        trim_end_seq(s.drop_last())
    } else {
        s
    }
}

/// Leading and trailing whitespace removed (`str::trim`).
pub open spec fn trim_seq(s: Seq<char>) -> Seq<char> {
    trim_end_seq(trim_start_seq(s))
}

/// `char::to_ascii_lowercase`.
pub open spec fn lower_char(c: char) -> char {
    if 'A' <= c && c <= 'Z' {
        ((c as u32) + 32) as char
    } else {
        c
    }
}

/// `str::to_ascii_lowercase`.
pub open spec fn ascii_lower_seq(s: Seq<char>) -> Seq<char> {
    s.map_values(|c: char| lower_char(c))
}

/// `p` is a prefix of `s`.
pub open spec fn has_prefix(s: Seq<char>, p: Seq<char>) -> bool {
    p.len() <= s.len() && s.take(p.len() as int) == p
}

/// `p` occurs in `s` at position `i`.
pub open spec fn occurs_at(s: Seq<char>, p: Seq<char>, i: int) -> bool {
    0 <= i && i + p.len() <= s.len() && s.subrange(i, i + p.len()) == p
}

/// `p` occurs somewhere in `s` (`str::contains` with a string pattern).
pub open spec fn has_substring(s: Seq<char>, p: Seq<char>) -> bool {
    exists|i: int| occurs_at(s, p, i)
}

/// Repeated removal of the prefix `p` (`str::trim_start_matches`), for a
/// non-empty `p`.
pub open spec fn strip_all_prefix(s: Seq<char>, p: Seq<char>) -> Seq<char>
    decreases s.len(),
{
    if p.len() > 0 && has_prefix(s, p) {
        strip_all_prefix(s.skip(p.len() as int), p)
    } else {
        s
    }
}

/// Repeated removal of the suffix `p` (`str::trim_end_matches`), for a
/// non-empty `p`.
pub open spec fn strip_all_suffix(s: Seq<char>, p: Seq<char>) -> Seq<char>
    decreases s.len(),
{
    if p.len() > 0 && p.len() <= s.len() && s.skip(s.len() - p.len()) == p {
        strip_all_suffix(s.take(s.len() - p.len()), p)
    } else {
        s
    }
}

/// Pieces finished so far and the piece being read, when `s` is split on `c`.
pub open spec fn split_state(s: Seq<char>, c: char) -> (Seq<Seq<char>>, Seq<char>)
    decreases s.len(),
{
    if s.len() == 0 {
        (Seq::empty(), Seq::empty())
    } else {
        let (done, cur) = split_state(s.drop_last(), c);
        if s.last() == c {
            (done.push(cur), Seq::empty())
        } else {
            (done, cur.push(s.last()))
        }
    }
}

/// `str::split` with a character pattern: every piece, empty ones included.
pub open spec fn split_seq(s: Seq<char>, c: char) -> Seq<Seq<char>> {
    split_state(s, c).0.push(split_state(s, c).1)
}

/// Tokens finished so far and the token being read, when `s` is split on whitespace.
pub open spec fn words_state(s: Seq<char>) -> (Seq<Seq<char>>, Seq<char>)
    decreases s.len(),
{
    if s.len() == 0 {
        (Seq::empty(), Seq::empty())
    } else {
        let (done, cur) = words_state(s.drop_last());
        if is_ws(s.last()) {
            if cur.len() > 0 {
                (done.push(cur), Seq::empty())
            } else {
                (done, cur)
            }
        } else {
            (done, cur.push(s.last()))
        }
    }
}

/// `str::split_whitespace`: the non-empty runs of non-whitespace characters.
pub open spec fn words_seq(s: Seq<char>) -> Seq<Seq<char>> {
    let (done, cur) = words_state(s);
    if cur.len() > 0 {
        done.push(cur)
    } else {
        done
    }
}

/// The first token of `s`, or nothing.
pub open spec fn first_word(s: Seq<char>) -> Seq<char> {
    if words_seq(s).len() > 0 {
        words_seq(s)[0]
    } else {
        Seq::empty()
    }
}

/// The pieces joined with `sep` between them (`[String]::join`).
pub open spec fn join_seq(parts: Seq<Seq<char>>, sep: Seq<char>) -> Seq<char>
    decreases parts.len(),
{
    if parts.len() == 0 {
        Seq::empty()
    } else if parts.len() == 1 {
        parts[0]
    } else {
        join_seq(parts.drop_last(), sep) + sep + parts.last()
    }
}

/// The non-empty members of a sequence of texts, in order.
pub open spec fn non_empty_only(parts: Seq<Seq<char>>) -> Seq<Seq<char>>
    decreases parts.len(),
{
    if parts.len() == 0 {
        Seq::empty()
    } else if parts.last().len() > 0 {
        non_empty_only(parts.drop_last()).push(parts.last())
    } else {
        non_empty_only(parts.drop_last())
    }
}

/// Every piece trimmed.
pub open spec fn trim_all(parts: Seq<Seq<char>>) -> Seq<Seq<char>> {
    parts.map_values(|p: Seq<char>| trim_seq(p))
}

/// A line of `str::lines` without its ending: a final `\r` is dropped
/// from lines that ended with `\n`.
pub open spec fn strip_cr(line: Seq<char>) -> Seq<char> {
    if line.len() > 0 && line.last() == '\r' {
        line.drop_last()
    } else {
        line
    }
}

/// The non-empty lines of `s`, as `s.lines().filter(|l| !l.is_empty())` gives them.
pub open spec fn non_empty_lines(s: Seq<char>) -> Seq<Seq<char>> {
    let pieces = split_seq(s, '\n');
    let ended = pieces.drop_last().map_values(|l: Seq<char>| strip_cr(l));
    non_empty_only(ended.push(pieces.last()))
}

/// The lines of `s`, as `s.lines()` gives them: a final empty piece (after
/// a last `\n`) is no line.
pub open spec fn all_lines(s: Seq<char>) -> Seq<Seq<char>> {
    let pieces = split_seq(s, '\n');
    let ended = pieces.drop_last().map_values(|l: Seq<char>| strip_cr(l));
    if pieces.last().len() == 0 {
        ended
    } else {
        ended.push(pieces.last())
    }
}

/// The first `n` characters (all of them when there are fewer).
pub open spec fn first_chars(s: Seq<char>, n: nat) -> Seq<char> {
    if n <= s.len() {
        s.take(n as int)
    } else {
        s
    }
}

/// The last `n` characters (all of them when there are fewer).
pub open spec fn last_chars(s: Seq<char>, n: nat) -> Seq<char> {
    if n <= s.len() {
        s.skip(s.len() - n)
    } else {
        s
    }
}

/// What `&` `<` `>` become in HTML text.
pub open spec fn html_char(c: char) -> Seq<char> {
    if c == '&' {
        seq!['&', 'a', 'm', 'p', ';']
    } else if c == '<' {
        seq!['&', 'l', 't', ';']
    } else if c == '>' {
        seq!['&', 'g', 't', ';']
    } else {
        seq![c]
    }
}

/// `&`, `<` and `>` replaced by their HTML entities.
pub open spec fn html_escape_seq(s: Seq<char>) -> Seq<char>
    decreases s.len(),
{
    if s.len() == 0 {
        Seq::empty()
    } else {
        html_escape_seq(s.drop_last()) + html_char(s.last())
    }
}

/// A single quote inside a single-quoted shell word: `'"'"'`.
pub open spec fn shell_char(c: char) -> Seq<char> {
    if c == '\'' {
        seq!['\'', '"', '\'', '"', '\'']
    } else {
        seq![c]
    }
}

/// Body of a single-quoted shell word.
pub open spec fn shell_quote_body(s: Seq<char>) -> Seq<char>
    decreases s.len(),
{
    if s.len() == 0 {
        Seq::empty()
    } else {
        shell_quote_body(s.drop_last()) + shell_char(s.last())
    }
}

/// `s` as one single-quoted shell word.
pub open spec fn shell_quote_seq(s: Seq<char>) -> Seq<char> {
    seq!['\''] + shell_quote_body(s) + seq!['\'']
}

/// An ASCII decimal digit.
pub open spec fn is_digit(c: char) -> bool {
    '0' <= c && c <= '9'
}

/// Every character is an ASCII decimal digit.
pub open spec fn all_digits(s: Seq<char>) -> bool {
    forall|i: int| 0 <= i < s.len() ==> is_digit(#[trigger] s[i])
}

/// The character of the digit `d`.
pub open spec fn digit_char(d: nat) -> char {
    ((d + 48) as u32) as char
}

/// The value of a string of decimal digits.
pub open spec fn digits_val(s: Seq<char>) -> nat
    decreases s.len(),
{
    if s.len() == 0 {
        0
    } else {
        digits_val(s.drop_last()) * 10 + ((s.last() as u32) - 48) as nat
    }
}

/// `from_str` of an unsigned integer type whose largest value is `max`:
/// an optional `+`, then at least one digit, and a value that fits.
pub open spec fn parse_unsigned(s: Seq<char>, max: nat) -> Option<nat> {
    let d = if s.len() > 0 && s[0] == '+' {
        s.drop_first()
    } else {
        s
    };
    if d.len() > 0 && all_digits(d) && digits_val(d) <= max {
        Some(digits_val(d))
    } else {
        None
    }
}

/// Decimal notation of a natural number (`Display` of an unsigned integer).
pub open spec fn decimal(n: nat) -> Seq<char>
    decreases n,
{
    if n < 10 {
        seq![digit_char(n)]
    } else {
        decimal(n / 10).push(digit_char(n % 10))
    }
}

/// Decimal notation of an integer (`Display` of a signed integer).
pub open spec fn signed_decimal(n: int) -> Seq<char> {
    if n < 0 {
        seq!['-'] + decimal((-n) as nat)
    } else {
        decimal(n as nat)
    }
}

/// `bool` as `Display` writes it.
pub open spec fn bool_text(b: bool) -> Seq<char> {
    if b {
        seq!['t', 'r', 'u', 'e']
    } else {
        seq!['f', 'a', 'l', 's', 'e']
    }
}

/// The text of each `String`.
pub open spec fn views(v: Seq<String>) -> Seq<Seq<char>> {
    v.map_values(|s: String| s@)
}

// ---------------------------------------------------------------------
// Building strings
// ---------------------------------------------------------------------

/// `String::push`.
#[verifier::external_body]
pub(crate) fn push_char(s: &mut String, c: char)
    ensures
        final(s)@ == old(s)@.push(c),
{
    s.push(c)
}

/// A new `String` holding `s`.
pub fn owned(s: &str) -> (r: String)
    ensures
        r@ == s@,
{
    let mut r = String::new();
    r.append(s);
    r
}

/// The characters of `s`.
pub fn chars_of(s: &str) -> (v: Vec<char>)
    ensures
        v@ == s@,
{
    let mut v: Vec<char> = Vec::new();
    for c in it: s.chars()
        invariant
            v@ == it.seq().take(it.index() as int),
    {
        v.push(c);
    }
    v
}

/// A `String` of the characters `v[lo..hi]`.
pub fn string_from_range(v: &Vec<char>, lo: usize, hi: usize) -> (r: String)
    requires
        lo <= hi <= v@.len(),
    ensures
        r@ == v@.subrange(lo as int, hi as int),
{
    let mut r = String::new();
    let mut i = lo;
    while i < hi
        invariant
            lo <= i <= hi <= v@.len(),
            r@ == v@.subrange(lo as int, i as int),
        decreases hi - i,
    {
        push_char(&mut r, v[i]);
        i += 1;
    }
    r
}

/// `s` and `t` hold the same characters.
pub fn str_eq(s: &str, t: &str) -> (r: bool)
    ensures
        r == (s@ == t@),
{
    let a = chars_of(s);
    let b = chars_of(t);
    if a.len() != b.len() {
        return false;
    }
    let mut i: usize = 0;
    while i < a.len()
        invariant
            a.len() == b.len(),
            a@ == s@,
            b@ == t@,
            i <= a.len(),
            forall|k: int| 0 <= k < i ==> a@[k] == b@[k],
        decreases a.len() - i,
    {
        if a[i] != b[i] {
            return false;
        }
        i += 1;
    }
    assert(a@ =~= b@);
    true
}

// ---------------------------------------------------------------------
// Whitespace and case
// ---------------------------------------------------------------------

/// `char::is_whitespace`.
pub fn is_whitespace(c: char) -> (r: bool)
    ensures
        r == is_ws(c),
{
    c == ' ' || ('\t' <= c && c <= '\r') || c == '\u{85}' || c == '\u{a0}' || c == '\u{1680}'
        || ('\u{2000}' <= c && c <= '\u{200a}') || c == '\u{2028}' || c == '\u{2029}'
        || c == '\u{202f}' || c == '\u{205f}' || c == '\u{3000}'
}

/// `str::trim`.
pub fn trim(s: &str) -> (r: String)
    ensures
        r@ == trim_seq(s@),
{
    let v = chars_of(s);
    let n = v.len();
    let mut i: usize = 0;
    assert(v@.skip(0) =~= v@);
    while i < n && is_whitespace(v[i])
        invariant
            i <= n,
            n == v@.len(),
            trim_start_seq(v@) == trim_start_seq(v@.skip(i as int)),
        decreases n - i,
    {
        assert(v@.skip(i as int).drop_first() =~= v@.skip(i + 1));
        i += 1;
    }
    assert(trim_start_seq(v@) == v@.skip(i as int));
    let mut j: usize = n;
    while j > i && is_whitespace(v[j - 1])
        invariant
            i <= j <= n,
            n == v@.len(),
            trim_end_seq(v@.skip(i as int)) == trim_end_seq(v@.subrange(i as int, j as int)),
        decreases j,
    {
        assert(v@.subrange(i as int, j as int).drop_last() =~= v@.subrange(i as int, j - 1));
        j -= 1;
    }
    assert(v@.skip(i as int) =~= v@.subrange(i as int, n as int));
    string_from_range(&v, i, j)
}

/// `char::to_ascii_lowercase`.
pub fn to_lower_char(c: char) -> (r: char)
    ensures
        r == lower_char(c),
{
    if 'A' <= c && c <= 'Z' {
        ((c as u8) + 32) as char
    } else {
        c
    }
}

/// `str::to_ascii_lowercase`.
pub fn ascii_lower(s: &str) -> (r: String)
    ensures
        r@ == ascii_lower_seq(s@),
{
    let v = chars_of(s);
    let mut r = String::new();
    let mut i: usize = 0;
    while i < v.len()
        invariant
            i <= v@.len(),
            v@ == s@,
            r@ == ascii_lower_seq(v@.take(i as int)),
        decreases v.len() - i,
    {
        push_char(&mut r, to_lower_char(v[i]));
        assert(ascii_lower_seq(v@.take(i + 1)) =~= ascii_lower_seq(v@.take(i as int)).push(
            lower_char(v@[i as int]),
        ));
        i += 1;
    }
    assert(v@.take(v@.len() as int) =~= v@);
    r
}

/// `str::eq_ignore_ascii_case`.
pub fn eq_ignore_ascii_case(s: &str, t: &str) -> (r: bool)
    ensures
        r == (ascii_lower_seq(s@) == ascii_lower_seq(t@)),
{
    let a = ascii_lower(s);
    let b = ascii_lower(t);
    str_eq(a.as_str(), b.as_str())
}

// ---------------------------------------------------------------------
// Searching
// ---------------------------------------------------------------------

/// `p` occurs in `v` at `i`.
fn matches_at(v: &Vec<char>, p: &Vec<char>, i: usize) -> (r: bool)
    requires
        i <= v@.len(),
    ensures
        r == occurs_at(v@, p@, i as int),
{
    let vl = v.len();
    if p.len() > vl - i {
        return false;
    }
    let mut k: usize = 0;
    while k < p.len()
        invariant
            vl == v@.len(),
            i + p@.len() <= v@.len(),
            k <= p@.len(),
            forall|m: int| 0 <= m < k ==> v@[i + m] == p@[m],
        decreases p.len() - k,
    {
        assert(i + k < v@.len());
        if v[i + k] != p[k] {
            assert(v@.subrange(i as int, i + p@.len())[k as int] != p@[k as int]);
            return false;
        }
        k += 1;
    }
    assert(v@.subrange(i as int, i + p@.len()) =~= p@);
    true
}

/// `str::starts_with` with a string pattern.
pub fn starts_with(s: &str, p: &str) -> (r: bool)
    ensures
        r == has_prefix(s@, p@),
{
    let v = chars_of(s);
    let q = chars_of(p);
    let r = matches_at(&v, &q, 0);
    proof {
        if r {
            assert(v@.take(q@.len() as int) =~= v@.subrange(0, q@.len() as int));
        } else if has_prefix(s@, p@) {
            assert(v@.take(q@.len() as int) =~= v@.subrange(0, q@.len() as int));
        }
    }
    r
}

/// `str::contains` with a string pattern.
pub fn contains(s: &str, p: &str) -> (r: bool)
    ensures
        r == has_substring(s@, p@),
{
    let v = chars_of(s);
    let q = chars_of(p);
    let n = v.len();
    let mut i: usize = 0;
    while i < n
        invariant
            v@ == s@,
            q@ == p@,
            n == v@.len(),
            i <= n,
            forall|k: int| 0 <= k < i ==> !occurs_at(s@, p@, k),
        decreases n - i,
    {
        if matches_at(&v, &q, i) {
            return true;
        }
        i += 1;
    }
    if matches_at(&v, &q, n) {
        return true;
    }
    assert forall|k: int| !occurs_at(s@, p@, k) by {
        if 0 <= k <= n {
            assert(k < i || k == n);
        }
    }
    false
}

/// `str::trim_start_matches` with a non-empty string pattern.
pub fn trim_start_matches(s: &str, p: &str) -> (r: String)
    requires
        p@.len() > 0,
    ensures
        r@ == strip_all_prefix(s@, p@),
{
    let v = chars_of(s);
    let q = chars_of(p);
    let mut i: usize = 0;
    assert(v@.skip(0) =~= v@);
    while i <= v.len() && matches_at(&v, &q, i)
        invariant
            v@ == s@,
            q@ == p@,
            q@.len() > 0,
            i <= v@.len(),
            strip_all_prefix(s@, p@) == strip_all_prefix(v@.skip(i as int), p@),
        decreases v.len() - i,
    {
        proof {
            let rest = v@.skip(i as int);
            assert(rest.take(q@.len() as int) =~= v@.subrange(i as int, i + q@.len()));
            assert(rest.skip(q@.len() as int) =~= v@.skip(i + q@.len()));
        }
        i = i + q.len();
    }
    proof {
        let rest = v@.skip(i as int);
        if has_prefix(rest, p@) {
            assert(rest.take(q@.len() as int) =~= v@.subrange(i as int, i + q@.len()));
        }
    }
    string_from_range(&v, i, v.len())
}

/// `str::trim_end_matches` with a non-empty string pattern.
pub fn trim_end_matches(s: &str, p: &str) -> (r: String)
    requires
        p@.len() > 0,
    ensures
        r@ == strip_all_suffix(s@, p@),
{
    let v = chars_of(s);
    let q = chars_of(p);
    let mut j: usize = v.len();
    assert(v@.take(j as int) =~= v@);
    while j >= q.len() && matches_at(&v, &q, j - q.len())
        invariant
            v@ == s@,
            q@ == p@,
            q@.len() > 0,
            j <= v@.len(),
            strip_all_suffix(s@, p@) == strip_all_suffix(v@.take(j as int), p@),
        decreases j,
    {
        proof {
            let rest = v@.take(j as int);
            assert(rest.skip(rest.len() - q@.len()) =~= v@.subrange(j - q@.len(), j as int));
            assert(rest.take(rest.len() - q@.len()) =~= v@.take(j - q@.len()));
        }
        j = j - q.len();
    }
    proof {
        let rest = v@.take(j as int);
        if q@.len() <= rest.len() {
            assert(rest.skip(rest.len() - q@.len()) =~= v@.subrange(j - q@.len(), j as int));
        }
    }
    string_from_range(&v, 0, j)
}

// ---------------------------------------------------------------------
// Splitting and joining
// ---------------------------------------------------------------------

/// `s.split(c)`: every piece, empty ones included.
pub fn split_on(s: &str, c: char) -> (r: Vec<String>)
    ensures
        views(r@) == split_seq(s@, c),
{
    let v = chars_of(s);
    let mut done: Vec<String> = Vec::new();
    let mut cur = String::new();
    let mut i: usize = 0;
    while i < v.len()
        invariant
            i <= v@.len(),
            v@ == s@,
            (views(done@), cur@) == split_state(v@.take(i as int), c),
        decreases v.len() - i,
    {
        let ghost prev = v@.take(i as int);
        assert(v@.take(i + 1).drop_last() =~= prev);
        if v[i] == c {
            let piece = cur;
            done.push(piece);
            cur = String::new();
            assert(views(done@) =~= split_state(prev, c).0.push(split_state(prev, c).1));
        } else {
            push_char(&mut cur, v[i]);
        }
        i += 1;
    }
    assert(v@.take(v@.len() as int) =~= v@);
    done.push(cur);
    assert(views(done@) =~= split_seq(s@, c));
    done
}

/// The first piece of `s.split(c)`.
pub fn before_first(s: &str, c: char) -> (r: String)
    ensures
        r@ == split_seq(s@, c)[0],
{
    let mut pieces = split_on(s, c);
    assert(views(pieces@).len() == pieces@.len());
    assert(pieces@.len() > 0);
    assert(views(pieces@)[0] == pieces@[0]@);
    pieces.swap_remove(0)
}

/// `s.split_whitespace()`.
pub fn split_words(s: &str) -> (r: Vec<String>)
    ensures
        views(r@) == words_seq(s@),
{
    let v = chars_of(s);
    let mut done: Vec<String> = Vec::new();
    let mut cur = String::new();
    let mut i: usize = 0;
    while i < v.len()
        invariant
            i <= v@.len(),
            v@ == s@,
            (views(done@), cur@) == words_state(v@.take(i as int)),
        decreases v.len() - i,
    {
        let ghost prev = v@.take(i as int);
        assert(v@.take(i + 1).drop_last() =~= prev);
        if is_whitespace(v[i]) {
            if cur.unicode_len() > 0 {
                let piece = cur;
                done.push(piece);
                cur = String::new();
                assert(views(done@) =~= words_state(prev).0.push(words_state(prev).1));
            }
        } else {
            push_char(&mut cur, v[i]);
        }
        i += 1;
    }
    assert(v@.take(v@.len() as int) =~= v@);
    if cur.unicode_len() > 0 {
        done.push(cur);
    }
    assert(views(done@) =~= words_seq(s@));
    done
}

/// The texts joined with `sep` between them.
pub fn join(parts: &Vec<String>, sep: &str) -> (r: String)
    ensures
        r@ == join_seq(views(parts@), sep@),
{
    let mut r = String::new();
    let mut i: usize = 0;
    while i < parts.len()
        invariant
            i <= parts@.len(),
            r@ == join_seq(views(parts@).take(i as int), sep@),
        decreases parts.len() - i,
    {
        let ghost prev = views(parts@).take(i as int);
        assert(views(parts@).take(i + 1).drop_last() =~= prev);
        if i > 0 {
            r.append(sep);
        }
        r.append(parts[i].as_str());
        assert(views(parts@).take(i + 1).last() == parts@[i as int]@);
        i += 1;
    }
    assert(views(parts@).take(parts@.len() as int) =~= views(parts@));
    r
}

/// The trimmed, non-empty pieces of `s.split(c)`.
pub fn split_trimmed_non_empty(s: &str, c: char) -> (r: Vec<String>)
    ensures
        views(r@) == non_empty_only(trim_all(split_seq(s@, c))),
{
    let pieces = split_on(s, c);
    let mut r: Vec<String> = Vec::new();
    let mut i: usize = 0;
    while i < pieces.len()
        invariant
            i <= pieces@.len(),
            views(pieces@) == split_seq(s@, c),
            views(r@) == non_empty_only(trim_all(views(pieces@).take(i as int))),
        decreases pieces.len() - i,
    {
        let t = trim(pieces[i].as_str());
        let ghost prev = trim_all(views(pieces@).take(i as int));
        assert(trim_all(views(pieces@).take(i + 1)) =~= prev.push(t@));
        assert(prev.push(t@).drop_last() =~= prev);
        if t.unicode_len() > 0 {
            r.push(t);
            assert(views(r@) =~= non_empty_only(prev).push(t@));
        }
        i += 1;
    }
    assert(views(pieces@).take(pieces@.len() as int) =~= views(pieces@));
    r
}

/// The non-empty lines of `s`, as `s.lines().filter(|l| !l.is_empty())` gives them.
pub fn lines_non_empty(s: &str) -> (r: Vec<String>)
    ensures
        views(r@) == non_empty_lines(s@),
{
    let pieces = split_on(s, '\n');
    let ghost ps = split_seq(s@, '\n');
    let ghost ended = ps.drop_last().map_values(|l: Seq<char>| strip_cr(l)).push(ps.last());
    let mut r: Vec<String> = Vec::new();
    let mut i: usize = 0;
    while i < pieces.len()
        invariant
            i <= pieces@.len(),
            views(pieces@) == ps,
            ps.len() > 0,
            ended.len() == ps.len(),
            forall|k: int| 0 <= k < ps.len() - 1 ==> ended[k] == strip_cr(ps[k]),
            ended.last() == ps.last(),
            views(r@) == non_empty_only(ended.take(i as int)),
        decreases pieces.len() - i,
    {
        let line = pieces[i].as_str();
        let chars = chars_of(line);
        let n = chars.len();
        let keep_cr = i + 1 == pieces.len() || n == 0 || chars[n - 1] != '\r';
        let t = if keep_cr {
            owned(line)
        } else {
            string_from_range(&chars, 0, n - 1)
        };
        proof {
            assert(views(pieces@)[i as int] == pieces@[i as int]@);
            if !keep_cr {
                assert(chars@.drop_last() =~= chars@.subrange(0, n - 1));
            }
            assert(t@ == ended[i as int]);
            assert(ended.take(i + 1).drop_last() =~= ended.take(i as int));
        }
        if n > 0 && t.unicode_len() > 0 {
            r.push(t);
        }
        i += 1;
    }
    assert(ended.take(ended.len() as int) =~= ended);
    r
}

/// `s.lines()`.
pub fn lines_of(s: &str) -> (r: Vec<String>)
    ensures
        views(r@) == all_lines(s@),
{
    let pieces = split_on(s, '\n');
    let ghost ps = split_seq(s@, '\n');
    assert(pieces@.len() == ps.len());
    let last = pieces.len() - 1;
    let mut r: Vec<String> = Vec::new();
    let mut i: usize = 0;
    while i < last
        invariant
            i <= last,
            last + 1 == pieces@.len(),
            views(pieces@) == ps,
            views(r@) == ps.take(i as int).map_values(|l: Seq<char>| strip_cr(l)),
        decreases last - i,
    {
        let line = pieces[i].as_str();
        let chars = chars_of(line);
        let n = chars.len();
        let t = if n > 0 && chars[n - 1] == '\r' {
            string_from_range(&chars, 0, n - 1)
        } else {
            owned(line)
        };
        proof {
            assert(views(pieces@)[i as int] == pieces@[i as int]@);
            if n > 0 && chars@[n - 1] == '\r' {
                assert(chars@.drop_last() =~= chars@.subrange(0, n - 1));
            }
            assert(t@ == strip_cr(ps[i as int]));
        }
        let ghost before = r@;
        r.push(t);
        assert(views(r@) =~= views(before).push(t@));
        assert(ps.take(i + 1).map_values(|l: Seq<char>| strip_cr(l)) =~= ps.take(i as int).map_values(
            |l: Seq<char>| strip_cr(l),
        ).push(strip_cr(ps[i as int])));
        i += 1;
    }
    assert(ps.take(last as int) =~= ps.drop_last());
    assert(views(pieces@)[last as int] == pieces@[last as int]@);
    if pieces[last].unicode_len() > 0 {
        let t = owned(pieces[last].as_str());
        let ghost before = r@;
        r.push(t);
        assert(views(r@) =~= views(before).push(t@));
    }
    r
}

// ---------------------------------------------------------------------
// Cutting
// ---------------------------------------------------------------------

/// The first `n` characters of `s` (`s.chars().take(n)`).
pub fn take_chars(s: &str, n: usize) -> (r: String)
    ensures
        r@ == first_chars(s@, n as nat),
{
    let v = chars_of(s);
    let hi = if n <= v.len() {
        n
    } else {
        v.len()
    };
    let r = string_from_range(&v, 0, hi);
    assert(v@.subrange(0, v@.len() as int) =~= v@);
    r
}

/// The last `n` characters of `s`.
pub fn tail_chars(s: &str, n: usize) -> (r: String)
    ensures
        r@ == last_chars(s@, n as nat),
{
    let v = chars_of(s);
    let lo = if n <= v.len() {
        v.len() - n
    } else {
        0
    };
    let r = string_from_range(&v, lo, v.len());
    assert(v@.subrange(0, v@.len() as int) =~= v@);
    r
}

// ---------------------------------------------------------------------
// Escaping
// ---------------------------------------------------------------------

/// `&`, `<` and `>` replaced by `&amp;`, `&lt;` and `&gt;`.
pub fn html_escape(s: &str) -> (r: String)
    ensures
        r@ == html_escape_seq(s@),
{
    let v = chars_of(s);
    let mut r = String::new();
    let mut i: usize = 0;
    while i < v.len()
        invariant
            i <= v@.len(),
            v@ == s@,
            r@ == html_escape_seq(v@.take(i as int)),
        decreases v.len() - i,
    {
        let c = v[i];
        assert(v@.take(i + 1).drop_last() =~= v@.take(i as int));
        if c == '&' {
            r.append("&amp;");
            proof {
                reveal_strlit("&amp;");
            }
        } else if c == '<' {
            r.append("&lt;");
            proof {
                reveal_strlit("&lt;");
            }
        } else if c == '>' {
            r.append("&gt;");
            proof {
                reveal_strlit("&gt;");
            }
        } else {
            push_char(&mut r, c);
        }
        assert(r@ =~= html_escape_seq(v@.take(i + 1)));
        i += 1;
    }
    assert(v@.take(v@.len() as int) =~= v@);
    r
}

/// `s` as one single-quoted shell word: `'...'`, a quote inside written `'"'"'`.
pub fn shell_escape(s: &str) -> (r: String)
    ensures
        r@ == shell_quote_seq(s@),
{
    let v = chars_of(s);
    let mut r = String::new();
    push_char(&mut r, '\'');
    let mut i: usize = 0;
    while i < v.len()
        invariant
            i <= v@.len(),
            v@ == s@,
            r@ == seq!['\''] + shell_quote_body(v@.take(i as int)),
        decreases v.len() - i,
    {
        let c = v[i];
        assert(v@.take(i + 1).drop_last() =~= v@.take(i as int));
        if c == '\'' {
            push_char(&mut r, '\'');
            push_char(&mut r, '"');
            push_char(&mut r, '\'');
            push_char(&mut r, '"');
            push_char(&mut r, '\'');
        } else {
            push_char(&mut r, c);
        }
        assert(r@ =~= seq!['\''] + shell_quote_body(v@.take(i + 1)));
        i += 1;
    }
    assert(v@.take(v@.len() as int) =~= v@);
    push_char(&mut r, '\'');
    r
}

// ---------------------------------------------------------------------
// Numbers
// ---------------------------------------------------------------------

proof fn lemma_digits_val_take(s: Seq<char>, i: int)
    requires
        0 < i <= s.len(),
    ensures
        digits_val(s.take(i)) == digits_val(s.take(i - 1)) * 10 + ((s[i - 1] as u32) - 48) as nat,
{
    assert(s.take(i).drop_last() =~= s.take(i - 1));
}

proof fn lemma_digits_val_grows(s: Seq<char>, i: int)
    requires
        0 <= i <= s.len(),
    ensures
        digits_val(s.take(i)) <= digits_val(s),
    decreases s.len() - i,
{
    if i < s.len() {
        lemma_digits_val_grows(s, i + 1);
        lemma_digits_val_take(s, i + 1);
        assert(digits_val(s.take(i)) <= digits_val(s.take(i)) * 10) by (nonlinear_arith);
    } else {
        assert(s.take(i) =~= s);
    }
}

/// `from_str` of an unsigned integer type whose largest value is `max`.
pub fn parse_decimal(s: &str, max: u64) -> (r: Option<u64>)
    ensures
        match parse_unsigned(s@, max as nat) {
            Some(n) => r == Some(n as u64),
            None => r is None,
        },
{
    let v = chars_of(s);
    let start: usize = if v.len() > 0 && v[0] == '+' {
        1
    } else {
        0
    };
    let ghost d = if s@.len() > 0 && s@[0] == '+' {
        s@.drop_first()
    } else {
        s@
    };
    assert(d =~= v@.skip(start as int));
    if start >= v.len() {
        assert(d.len() == 0);
        return None;
    }
    let mut acc: u64 = 0;
    let mut i: usize = start;
    while i < v.len()
        invariant
            start <= i <= v@.len(),
            d =~= v@.skip(start as int),
            d == (if s@.len() > 0 && s@[0] == '+' {
                s@.drop_first()
            } else {
                s@
            }),
            d.len() > 0,
            acc as nat == digits_val(d.take(i - start)),
            acc <= max,
            forall|k: int| 0 <= k < i - start ==> is_digit(#[trigger] d[k]),
        decreases v.len() - i,
    {
        let c = v[i];
        proof {
            lemma_digits_val_take(d, i - start + 1);
        }
        if !('0' <= c && c <= '9') {
            assert(!is_digit(d[i - start]));
            assert(!all_digits(d));
            assert(parse_unsigned(s@, max as nat) is None);
            return None;
        }
        let digit = (c as u32 - 48) as u64;
        if digit > max || acc > (max - digit) / 10 {
            proof {
                assert(acc * 10 + digit > max) by (nonlinear_arith)
                    requires
                        digit > max || acc > (max - digit) / 10,
                        digit <= 9,
                {
                }
                lemma_digits_val_grows(d, i - start + 1);
                assert(digits_val(d) > max);
                assert(parse_unsigned(s@, max as nat) is None);
            }
            return None;
        }
        proof {
            assert(acc * 10 + digit <= max) by (nonlinear_arith)
                requires
                    acc <= (max - digit) / 10,
                    digit <= max,
            {
            }
        }
        acc = acc * 10 + digit;
        i += 1;
    }
    assert(d.take(i - start) =~= d);
    Some(acc)
}

/// Appends the decimal notation of `n`.
pub fn push_decimal(s: &mut String, n: u64)
    ensures
        final(s)@ == old(s)@ + decimal(n as nat),
    decreases n,
{
    if n >= 10 {
        push_decimal(s, n / 10);
    }
    let d = (n % 10) as u8;
    push_char(s, (d + 48) as char);
}

/// `n.to_string()` for an unsigned integer.
pub fn u64_text(n: u64) -> (r: String)
    ensures
        r@ == decimal(n as nat),
{
    let mut r = String::new();
    push_decimal(&mut r, n);
    r
}

/// `n.to_string()` for a signed integer.
pub fn i128_text(n: i128) -> (r: String)
    requires
        -0x1_0000_0000_0000_0000 < n < 0x1_0000_0000_0000_0000,
    ensures
        r@ == signed_decimal(n as int),
{
    let mut r = String::new();
    if n < 0 {
        push_char(&mut r, '-');
        push_decimal(&mut r, (-n) as u64);
    } else {
        push_decimal(&mut r, n as u64);
    }
    r
}

// ---------------------------------------------------------------------
// Laws of HTML escaping
// ---------------------------------------------------------------------

/// Reads HTML entities back, left to right: `&lt;`, `&gt;` and `&amp;`
/// become `<`, `>` and `&`; every other character stays.
pub open spec fn html_unescape_seq(s: Seq<char>) -> Seq<char>
    decreases s.len(),
{
    if s.len() == 0 {
        Seq::empty()
    } else if s.len() >= 4 && s.take(4) == seq!['&', 'l', 't', ';'] {
        seq!['<'] + html_unescape_seq(s.skip(4))
    } else if s.len() >= 4 && s.take(4) == seq!['&', 'g', 't', ';'] {
        seq!['>'] + html_unescape_seq(s.skip(4))
    } else if s.len() >= 5 && s.take(5) == seq!['&', 'a', 'm', 'p', ';'] {
        seq!['&'] + html_unescape_seq(s.skip(5))
    } else {
        seq![s[0]] + html_unescape_seq(s.skip(1))
    }
}

proof fn lemma_html_escape_append(a: Seq<char>, b: Seq<char>)
    ensures
        html_escape_seq(a + b) == html_escape_seq(a) + html_escape_seq(b),
    decreases b.len(),
{
    if b.len() == 0 {
        assert(a + b =~= a);
        assert(html_escape_seq(a) + html_escape_seq(b) =~= html_escape_seq(a));
    } else {
        lemma_html_escape_append(a, b.drop_last());
        assert((a + b).drop_last() =~= a + b.drop_last());
        assert((a + b).last() == b.last());
        assert(html_escape_seq(a) + html_escape_seq(b.drop_last()) + html_char(b.last())
            =~= html_escape_seq(a) + (html_escape_seq(b.drop_last()) + html_char(b.last())));
    }
}

proof fn lemma_html_unescape_char(c: char, t: Seq<char>)
    ensures
        html_unescape_seq(html_char(c) + t) == seq![c] + html_unescape_seq(t),
{
    let h = html_char(c);
    let s = h + t;
    if c == '<' {
        assert(s.take(4) =~= seq!['&', 'l', 't', ';']);
        assert(s.skip(4) =~= t);
    } else if c == '>' {
        assert(s.take(4)[1] == 'g');
        assert(s.take(4) != seq!['&', 'l', 't', ';']);
        assert(s.take(4) =~= seq!['&', 'g', 't', ';']);
        assert(s.skip(4) =~= t);
    } else if c == '&' {
        assert(s.take(4)[1] == 'a');
        assert(s.take(4) != seq!['&', 'l', 't', ';']);
        assert(s.take(4) != seq!['&', 'g', 't', ';']);
        assert(s.take(5) =~= seq!['&', 'a', 'm', 'p', ';']);
        assert(s.skip(5) =~= t);
    } else {
        assert(s[0] == c);
        if s.len() >= 4 {
            assert(s.take(4)[0] == c);
            assert(s.take(4) != seq!['&', 'l', 't', ';']);
            assert(s.take(4) != seq!['&', 'g', 't', ';']);
        }
        if s.len() >= 5 {
            assert(s.take(5)[0] == c);
            assert(s.take(5) != seq!['&', 'a', 'm', 'p', ';']);
        }
        assert(s.skip(1) =~= t);
    }
}

/// Escaping loses nothing: reading the entities back gives the text again.
pub proof fn lemma_html_escape_round_trip(s: Seq<char>)
    ensures
        html_unescape_seq(html_escape_seq(s)) == s,
    decreases s.len(),
{
    if s.len() > 0 {
        let rest = s.drop_first();
        lemma_html_escape_round_trip(rest);
        assert(s =~= seq![s[0]] + rest);
        lemma_html_escape_append(seq![s[0]], rest);
        let one = seq![s[0]];
        assert(one.drop_last() =~= Seq::<char>::empty());
        assert(one.last() == s[0]);
        assert(html_escape_seq(one) == html_escape_seq(one.drop_last()) + html_char(one.last()));
        assert(html_escape_seq(Seq::<char>::empty()) == Seq::<char>::empty());
        assert(html_escape_seq(one) =~= html_char(s[0]));
        lemma_html_unescape_char(s[0], html_escape_seq(rest));
        assert(seq![s[0]] + rest =~= s);
    }
}

/// An escaped text holds no `<` and no `>`.
pub proof fn lemma_html_escape_has_no_angle_brackets(s: Seq<char>)
    ensures
        forall|i: int|
            0 <= i < html_escape_seq(s).len() ==> #[trigger] html_escape_seq(s)[i] != '<'
                && html_escape_seq(s)[i] != '>',
    decreases s.len(),
{
    if s.len() > 0 {
        lemma_html_escape_has_no_angle_brackets(s.drop_last());
        let e = html_escape_seq(s.drop_last());
        let h = html_char(s.last());
        assert forall|i: int| 0 <= i < (e + h).len() implies (e + h)[i] != '<' && (e + h)[i]
            != '>' by {
            if i < e.len() {
                assert((e + h)[i] == e[i]);
            } else {
                assert((e + h)[i] == h[i - e.len()]);
            }
        }
    }
}

} // verus!
