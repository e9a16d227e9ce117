//! Text helpers shared by the views: decimal rendering and parsing of
//! integers, placeholder substitution, joining, padding and comparison of
//! strings, all stated over the character sequences that the strings hold.
use vstd::prelude::*;
use vstd::string::*;

verus! {

/// The character that stands for the decimal digit `d` (for `0 <= d <= 9`).
pub open spec fn digit_char(d: int) -> char {
    if d == 0 {
        '0'
    } else if d == 1 {
        '1'
    } else if d == 2 {
        '2'
    } else if d == 3 {
        '3'
    } else if d == 4 {
        '4'
    } else if d == 5 {
        '5'
    } else if d == 6 {
        '6'
    } else if d == 7 {
        '7'
    } else if d == 8 {
        '8'
    } else {
        '9'
    }
}

/// The decimal representation of `n`, most significant digit first, without
/// leading zeros (zero itself is "0"). This is what `{}` prints for an
/// unsigned integer.
pub open spec fn decimal(n: nat) -> Seq<char>
    decreases n,
{
    if n < 10 {
        seq![digit_char(n as int)]
    } else {
        decimal(n / 10).push(digit_char((n % 10) as int))
    }
}

/// `true` for the ASCII decimal digits.
pub open spec fn is_digit(c: char) -> bool {
    '0' <= c && c <= '9'
}

/// The value of an ASCII decimal digit.
pub open spec fn digit_value(c: char) -> int {
    (c as int) - ('0' as int)
}

/// Every character of `s` is an ASCII decimal digit.
pub open spec fn all_digits(s: Seq<char>) -> bool {
    forall|i: int| 0 <= i < s.len() ==> #[trigger] is_digit(s[i])
}

/// The number that a string of decimal digits denotes.
pub open spec fn digits_value(s: Seq<char>) -> nat
    decreases s.len(),
{
    if s.len() == 0 {
        0
    } else {
        (digits_value(s.drop_last()) * 10 + digit_value(s.last())) as nat
    }
}

/// The part of `s` that holds the digits of an unsigned number: `s` without
/// one leading `+`, if it has one.
pub open spec fn unsigned_body(s: Seq<char>) -> Seq<char> {
    if s.len() > 0 && s[0] == '+' {
        s.skip(1)
    } else {
        s
    }
}

/// What `str::parse::<usize>` gives back: the number, where the text is an
/// optional `+` followed by at least one decimal digit and the value fits in
/// a `usize`; nothing otherwise.
pub open spec fn parse_usize_spec(s: Seq<char>) -> Option<usize> {
    let body = unsigned_body(s);
    if body.len() > 0 && all_digits(body) && digits_value(body) <= usize::MAX {
        Some(digits_value(body) as usize)
    } else {
        None
    }
}

/// `s` preceded by enough copies of `fill` to make it `width` characters
/// long; `s` itself when it is already that long.
pub open spec fn pad_left(s: Seq<char>, width: nat, fill: char) -> Seq<char> {
    if s.len() < width {
        Seq::new((width - s.len()) as nat, |i: int| fill) + s
    } else {
        s
    }
}

/// Every non-overlapping occurrence of `pattern` in `s`, taken from the left,
/// replaced by `with`.
pub open spec fn replace_spec(s: Seq<char>, pattern: Seq<char>, with: Seq<char>) -> Seq<char>
    decreases s.len(),
{
    if pattern.len() == 0 || s.len() < pattern.len() {
        s
    } else if s.take(pattern.len() as int) == pattern {
        with + replace_spec(s.skip(pattern.len() as int), pattern, with)
    } else {
        seq![s[0]] + replace_spec(s.skip(1), pattern, with)
    }
}

/// The items joined, with `sep` between each two neighbours.
pub open spec fn join_spec(items: Seq<Seq<char>>, sep: Seq<char>) -> Seq<char>
    decreases items.len(),
{
    if items.len() == 0 {
        Seq::empty()
    } else if items.len() == 1 {
        items[0]
    } else {
        join_spec(items.drop_last(), sep) + sep + items.last()
    }
}

/// The code of a character with ASCII upper case letters taken to lower case.
pub open spec fn ascii_lower_code(c: char) -> u32 {
    if 'A' <= c && c <= 'Z' {
        ((c as u32) + 32) as u32
    } else {
        c as u32
    }
}

/// The two strings are equal once ASCII letters are taken to one case.
pub open spec fn eq_ignore_ascii_case_spec(a: Seq<char>, b: Seq<char>) -> bool {
    a.len() == b.len() && forall|i: int|
        0 <= i < a.len() ==> #[trigger] ascii_lower_code(a[i]) == ascii_lower_code(b[i])
}

/// A path separator: `/` or `\`.
pub open spec fn is_path_separator(c: char) -> bool {
    c == '/' || c == '\\'
}

/// What follows the last path separator of `s` (all of `s` where it has none).
pub open spec fn after_last_separator(s: Seq<char>) -> Seq<char>
    decreases s.len(),
{
    if s.len() == 0 {
        s
    } else if is_path_separator(s.last()) {
        Seq::empty()
    } else {
        after_last_separator(s.drop_last()).push(s.last())
    }
}

fn digit_str(d: u64) -> (s: &'static str)
    requires
        d < 10,
    ensures
        s@ == seq![digit_char(d as int)],
{
    proof {
        reveal_strlit("0");
        reveal_strlit("1");
        reveal_strlit("2");
        reveal_strlit("3");
        reveal_strlit("4");
        reveal_strlit("5");
        reveal_strlit("6");
        reveal_strlit("7");
        reveal_strlit("8");
        reveal_strlit("9");
    }
    if d == 0 {
        "0"
    } else if d == 1 {
        "1"
    } else if d == 2 {
        "2"
    } else if d == 3 {
        "3"
    } else if d == 4 {
        "4"
    } else if d == 5 {
        "5"
    } else if d == 6 {
        "6"
    } else if d == 7 {
        "7"
    } else if d == 8 {
        "8"
    } else {
        "9"
    }
}

/// Appends the decimal representation of `n` to `out`.
pub fn push_decimal(out: &mut String, n: u64)
    ensures
        final(out)@ == old(out)@ + decimal(n as nat),
    decreases n,
{
    if n >= 10 {
        push_decimal(out, n / 10);
    }
    out.append(digit_str(n % 10));
    proof {
        if n >= 10 {
            assert(decimal(n as nat) == decimal((n / 10) as nat).push(digit_char((n % 10) as int)));
        }
    }
}

/// The decimal representation of `n`, as `n.to_string()` gives it.
pub fn format_u64(n: u64) -> (s: String)
    ensures
        s@ == decimal(n as nat),
{
    let mut s = String::new();
    push_decimal(&mut s, n);
    s
}


/// The digit characters are digits and denote their own value.
pub proof fn lemma_digit_char(d: int)
    requires
        0 <= d < 10,
    ensures
        is_digit(digit_char(d)),
        digit_value(digit_char(d)) == d,
{
    assert('0' as int == 48);
    assert('9' as int == 57);
}

/// Facts about the decimal representation: it is a non-empty string of
/// digits whose value is the number it represents.
pub proof fn lemma_decimal_digits(n: nat)
    ensures
        decimal(n).len() > 0,
        all_digits(decimal(n)),
        digits_value(decimal(n)) == n,
    decreases n,
{
    if n < 10 {
        lemma_digit_char(n as int);
        let e = decimal(n);
        assert(e.drop_last() =~= Seq::<char>::empty());
        assert(digits_value(Seq::<char>::empty()) == 0);
        assert(digits_value(e) == digits_value(e.drop_last()) * 10 + digit_value(e.last()));
    } else {
        lemma_digit_char((n % 10) as int);
        lemma_decimal_digits(n / 10);
        let d = decimal(n / 10);
        let e = decimal(n);
        assert(e.drop_last() =~= d);
        assert(e.last() == digit_char((n % 10) as int));
        assert(digits_value(e) == digits_value(d) * 10 + digit_value(e.last()));
        assert((n / 10) * 10 + n % 10 == n);
        assert(all_digits(e)) by {
            assert forall|i: int| 0 <= i < e.len() implies #[trigger] is_digit(e[i]) by {
                if i < d.len() {
                    assert(e[i] == d[i]);
                }
            }
        }
    }
}

/// A prefix of a digit string never denotes more than the whole string.
pub proof fn lemma_digits_value_prefix(s: Seq<char>, k: int)
    requires
        0 <= k <= s.len(),
        all_digits(s),
    ensures
        digits_value(s.take(k)) <= digits_value(s),
    decreases s.len(),
{
    if k == s.len() {
        assert(s.take(k) =~= s);
    } else {
        let t = s.drop_last();
        assert(all_digits(t)) by {
            assert forall|i: int| 0 <= i < t.len() implies #[trigger] is_digit(t[i]) by {
                assert(t[i] == s[i]);
            }
        }
        lemma_digits_value_prefix(t, k);
        assert(t.take(k) =~= s.take(k));
        assert(is_digit(s[s.len() - 1]));
    }
}

/// Reading back the decimal representation of a `usize` gives that number:
/// `n.to_string().parse::<usize>() == Ok(n)`.
pub proof fn lemma_parse_format_roundtrip(n: usize)
    ensures
        parse_usize_spec(decimal(n as nat)) == Some(n),
{
    lemma_decimal_digits(n as nat);
    let d = decimal(n as nat);
    assert(is_digit(d[0]));
    assert(unsigned_body(d) == d);
}

/// Parses an unsigned decimal number as `str::parse::<usize>` does.
pub fn parse_usize(s: &str) -> (r: Option<usize>)
    ensures
        r == parse_usize_spec(s@),
{
    let n = s.unicode_len();
    let mut start: usize = 0;
    if n > 0 && s.get_char(0) == '+' {
        start = 1;
    }
    let ghost body = unsigned_body(s@);
    assert(body =~= s@.skip(start as int));
    if start >= n {
        return None;
    }
    let mut acc: usize = 0;
    let mut i: usize = start;
    assert(body.take(0) =~= Seq::<char>::empty());
    while i < n
        invariant
            start <= i <= n,
            n == s@.len(),
            body == s@.skip(start as int),
            body == unsigned_body(s@),
            all_digits(body.take(i - start)),
            acc == digits_value(body.take(i - start)),
        decreases n - i,
    {
        let c = s.get_char(i);
        let ghost k: int = i - start;
        assert(body[k] == c);
        if !('0' <= c && c <= '9') {
            assert(!all_digits(body)) by {
                assert(!is_digit(body[k]));
            }
            return None;
        }
        let d: usize = ((c as u32) - ('0' as u32)) as usize;
        assert(d == digit_value(c));
        assert(body.take(k + 1).drop_last() =~= body.take(k));
        assert(body.take(k + 1).last() == c);
        if acc > (usize::MAX - d) / 10 {
            assert(acc * 10 + d > usize::MAX) by (nonlinear_arith)
                requires
                    acc > (usize::MAX - d) / 10,
                    d <= 9,
            ;
            assert(digits_value(body.take(k + 1)) == acc * 10 + d);
            proof {
                if all_digits(body) {
                    lemma_digits_value_prefix(body, k + 1);
                }
            }
            return None;
        }
        assert(acc * 10 + d <= usize::MAX) by (nonlinear_arith)
            requires
                acc <= (usize::MAX - d) / 10,
                d <= 9,
        ;
        acc = acc * 10 + d;
        assert(all_digits(body.take(k + 1))) by {
            assert forall|j: int| 0 <= j < k + 1 implies #[trigger] is_digit(body.take(k + 1)[j]) by {
                if j < k {
                    assert(body.take(k + 1)[j] == body.take(k)[j]);
                }
            }
        }
        i = i + 1;
    }
    assert(body.take(n - start) =~= body);
    Some(acc)
}

/// Two strings hold the same characters.
pub fn str_eq(a: &str, b: &str) -> (r: bool)
    ensures
        r == (a@ == b@),
{
    let n = a.unicode_len();
    let m = b.unicode_len();
    if n != m {
        return false;
    }
    let mut i: usize = 0;
    while i < n
        invariant
            n == a@.len(),
            m == b@.len(),
            n == m,
            i <= n,
            forall|j: int| 0 <= j < i ==> a@[j] == b@[j],
        decreases n - i,
    {
        if a.get_char(i) != b.get_char(i) {
            return false;
        }
        i = i + 1;
    }
    assert(a@ =~= b@);
    true
}

fn ascii_lower(c: char) -> (r: u32)
    ensures
        r == ascii_lower_code(c),
{
    if 'A' <= c && c <= 'Z' {
        (c as u32) + 32
    } else {
        c as u32
    }
}

/// Compares two strings as `str::eq_ignore_ascii_case` does.
pub fn eq_ignore_ascii_case(a: &str, b: &str) -> (r: bool)
    ensures
        r == eq_ignore_ascii_case_spec(a@, b@),
{
    let n = a.unicode_len();
    let m = b.unicode_len();
    if n != m {
        return false;
    }
    let mut i: usize = 0;
    while i < n
        invariant
            n == a@.len(),
            m == b@.len(),
            n == m,
            i <= n,
            forall|j: int| 0 <= j < i ==> #[trigger] ascii_lower_code(a@[j]) == ascii_lower_code(b@[j]),
        decreases n - i,
    {
        if ascii_lower(a.get_char(i)) != ascii_lower(b.get_char(i)) {
            return false;
        }
        i = i + 1;
    }
    true
}

fn matches_at(s: &str, p: &str, i: usize, n: usize, m: usize) -> (r: bool)
    requires
        n == s@.len(),
        m == p@.len(),
        i + m <= n,
    ensures
        r == (s@.subrange(i as int, (i + m) as int) == p@),
{
    let mut j: usize = 0;
    while j < m
        invariant
            n == s@.len(),
            m == p@.len(),
            i + m <= n,
            j <= m,
            forall|k: int| 0 <= k < j ==> s@[i + k] == p@[k],
        decreases m - j,
    {
        if s.get_char(i + j) != p.get_char(j) {
            assert(s@.subrange(i as int, (i + m) as int)[j as int] != p@[j as int]);
            return false;
        }
        j = j + 1;
    }
    assert(s@.subrange(i as int, (i + m) as int) =~= p@);
    true
}

/// Where the pattern does not occur, replacing it leaves the text as it is:
/// a format without a placeholder is shown unchanged.
pub proof fn lemma_replace_absent(s: Seq<char>, pattern: Seq<char>, with: Seq<char>)
    requires
        pattern.len() > 0,
        forall|i: int| 0 <= i <= s.len() - pattern.len() ==> #[trigger] s.subrange(i, i + pattern.len()) != pattern,
    ensures
        replace_spec(s, pattern, with) == s,
    decreases s.len(),
{
    if s.len() >= pattern.len() {
        assert(s.subrange(0int, 0int + pattern.len()) != pattern);
        assert(s.take(pattern.len() as int) =~= s.subrange(0int, 0int + pattern.len()));
        let t = s.skip(1);
        assert forall|i: int| 0 <= i <= t.len() - pattern.len() implies #[trigger] t.subrange(
            i,
            i + pattern.len(),
        ) != pattern by {
            assert(t.subrange(i, i + pattern.len()) =~= s.subrange(i + 1, i + 1 + pattern.len()));
        }
        lemma_replace_absent(t, pattern, with);
        assert(seq![s[0]] + t =~= s);
    }
}

/// Replacing a pattern with itself leaves the text as it is.
pub proof fn lemma_replace_identity(s: Seq<char>, pattern: Seq<char>)
    requires
        pattern.len() > 0,
    ensures
        replace_spec(s, pattern, pattern) == s,
    decreases s.len(),
{
    if s.len() >= pattern.len() {
        if s.take(pattern.len() as int) == pattern {
            lemma_replace_identity(s.skip(pattern.len() as int), pattern);
            assert(pattern + s.skip(pattern.len() as int) =~= s);
        } else {
            lemma_replace_identity(s.skip(1), pattern);
            assert(seq![s[0]] + s.skip(1) =~= s);
        }
    }
}

/// Replaces every occurrence of `pattern` in `s` with `with`, as
/// `str::replace` does for a non-empty pattern.
pub fn replace_all(s: &str, pattern: &str, with: &str) -> (r: String)
    requires
        pattern@.len() > 0,
    ensures
        r@ == replace_spec(s@, pattern@, with@),
{
    let n = s.unicode_len();
    let m = pattern.unicode_len();
    let mut out = String::new();
    let mut i: usize = 0;
    assert(s@.skip(0) =~= s@);
    while i < n
        invariant
            n == s@.len(),
            m == pattern@.len(),
            m > 0,
            i <= n,
            out@ + replace_spec(s@.skip(i as int), pattern@, with@) == replace_spec(s@, pattern@, with@),
        decreases n - i,
    {
        let ghost x = s@.skip(i as int);
        if m <= n - i && matches_at(s, pattern, i, n, m) {
            assert(x.take(m as int) =~= s@.subrange(i as int, (i + m) as int));
            assert(x.skip(m as int) =~= s@.skip((i + m) as int));
            assert(out@ + with@ + replace_spec(s@.skip((i + m) as int), pattern@, with@)
                == out@ + (with@ + replace_spec(s@.skip((i + m) as int), pattern@, with@)));
            out.append(with);
            i = i + m;
        } else {
            let c = s.substring_char(i, i + 1);
            assert(c@ =~= seq![x[0]]);
            assert(x.skip(1) =~= s@.skip((i + 1) as int));
            proof {
                if x.len() < m {
                    assert(replace_spec(x, pattern@, with@) == x);
                    assert(replace_spec(x.skip(1), pattern@, with@) == x.skip(1));
                    assert(x =~= seq![x[0]] + x.skip(1));
                } else {
                    assert(x.take(m as int) =~= s@.subrange(i as int, (i + m) as int));
                }
            }
            assert(out@ + c@ + replace_spec(s@.skip((i + 1) as int), pattern@, with@)
                == out@ + (c@ + replace_spec(s@.skip((i + 1) as int), pattern@, with@)));
            out.append(c);
            i = i + 1;
        }
    }
    assert(s@.skip(n as int) =~= Seq::<char>::empty());
    assert(out@ + Seq::<char>::empty() =~= out@);
    out
}


/// `s` padded on the left with `fill` to `width` characters, as `{:>width$}`
/// (with a space) or `{:0width$}` (with a zero) print an unsigned number.
pub fn pad_left_str(s: &str, width: usize, fill: &str) -> (r: String)
    requires
        fill@.len() == 1,
    ensures
        r@ == pad_left(s@, width as nat, fill@[0]),
{
    let n = s.unicode_len();
    let mut r = String::new();
    let mut k: usize = n;
    assert(r@ =~= Seq::new((k - n) as nat, |i: int| fill@[0]));
    while k < width
        invariant
            n == s@.len(),
            n <= k,
            n < width ==> k <= width,
            n >= width ==> k == n,
            fill@.len() == 1,
            r@ =~= Seq::new((k - n) as nat, |i: int| fill@[0]),
        decreases width - k,
    {
        r.append(fill);
        k = k + 1;
        assert(r@ =~= Seq::new((k - n) as nat, |i: int| fill@[0]));
    }
    r.append(s);
    proof {
        if n >= width {
            assert(r@ =~= s@);
        } else {
            assert(r@ =~= Seq::new((width - n) as nat, |i: int| fill@[0]) + s@);
        }
    }
    r
}

/// Joins the strings with `sep` between neighbours, as `slice::join` does.
pub fn join(items: &Vec<String>, sep: &str) -> (r: String)
    ensures
        r@ == join_spec(items@.map_values(|x: String| x@), sep@),
{
    let ghost views = items@.map_values(|x: String| x@);
    let mut r = String::new();
    let mut i: usize = 0;
    assert(views.take(0) =~= Seq::<Seq<char>>::empty());
    while i < items.len()
        invariant
            i <= items.len(),
            views == items@.map_values(|x: String| x@),
            r@ == join_spec(views.take(i as int), sep@),
        decreases items.len() - i,
    {
        assert(views.take((i + 1) as int).drop_last() =~= views.take(i as int));
        assert(views.take((i + 1) as int).last() == items[i as int]@);
        if i > 0 {
            r.append(sep);
        } else {
            assert(r@ =~= Seq::<char>::empty());
        }
        r.append(items[i].as_str());
        i = i + 1;
    }
    assert(views.take(items.len() as int) =~= views);
    r
}

/// Where the text after the last separator starts: no separator follows
/// `k`, and `k` is the start or follows a separator.
pub proof fn lemma_after_last_separator(s: Seq<char>, k: int)
    requires
        0 <= k <= s.len(),
        forall|j: int| k <= j < s.len() ==> !#[trigger] is_path_separator(s[j]),
        k == 0 || is_path_separator(s[k - 1]),
    ensures
        after_last_separator(s) == s.skip(k),
    decreases s.len(),
{
    if s.len() == 0 {
        assert(s.skip(k) =~= s);
    } else if is_path_separator(s.last()) {
        assert(k == s.len());
        assert(s.skip(k) =~= Seq::<char>::empty());
    } else {
        let t = s.drop_last();
        assert(k < s.len());
        assert forall|j: int| k <= j < t.len() implies !#[trigger] is_path_separator(t[j]) by {
            assert(t[j] == s[j]);
        }
        if k > 0 {
            assert(t[k - 1] == s[k - 1]);
        }
        lemma_after_last_separator(t, k);
        assert(t.skip(k).push(s.last()) =~= s.skip(k));
    }
}

/// The file name in a path: what follows its last `/` or `\`, as
/// `path.split(['/', '\\']).last()` gives it.
pub fn after_last_separator_str(s: &str) -> (r: String)
    ensures
        r@ == after_last_separator(s@),
{
    let n = s.unicode_len();
    let mut start: usize = 0;
    let mut i: usize = 0;
    while i < n
        invariant
            n == s@.len(),
            start <= i <= n,
            forall|j: int| start <= j < i ==> !#[trigger] is_path_separator(s@[j]),
            start == 0 || is_path_separator(s@[start - 1]),
        decreases n - i,
    {
        let c = s.get_char(i);
        if c == '/' || c == '\\' {
            start = i + 1;
        }
        i = i + 1;
    }
    proof {
        lemma_after_last_separator(s@, start as int);
    }
    let part = s.substring_char(start, n);
    assert(part@ =~= s@.skip(start as int));
    String::from_str(part)
}


/// Whether `char::is_alphabetic` holds of `c`: whether it has the Unicode
/// property Alphabetic.
pub uninterp spec fn char_is_alphabetic(c: char) -> bool;

/// Calls `char::is_alphabetic` from std. The contract names its result and
/// states nothing more: which characters are alphabetic is Unicode's table.
#[verifier::external_body]
fn is_alphabetic(c: char) -> (r: bool)
    ensures
        r == char_is_alphabetic(c),
{
    c.is_alphabetic()
}

/// The characters at which a label starts: letters and `-`.
pub open spec fn is_label_start(c: char) -> bool {
    char_is_alphabetic(c) || c == '-'
}

/// `s` without the leading characters that are neither letters nor `-`
/// (icons and the spaces after them).
pub open spec fn trim_label_start_spec(s: Seq<char>) -> Seq<char>
    decreases s.len(),
{
    if s.len() == 0 {
        s
    } else if is_label_start(s[0]) {
        s
    } else {
        trim_label_start_spec(s.skip(1))
    }
}

proof fn lemma_trim_label_start(s: Seq<char>, i: int)
    requires
        0 <= i <= s.len(),
        forall|j: int| 0 <= j < i ==> !#[trigger] is_label_start(s[j]),
        i == s.len() || is_label_start(s[i]),
    ensures
        trim_label_start_spec(s) == s.skip(i),
    decreases i,
{
    if i == 0 {
        assert(s.skip(0) =~= s);
    } else {
        let t = s.skip(1);
        assert forall|j: int| 0 <= j < i - 1 implies !#[trigger] is_label_start(t[j]) by {
            assert(t[j] == s[j + 1]);
        }
        if i < s.len() {
            assert(t[i - 1] == s[i]);
        }
        lemma_trim_label_start(t, i - 1);
        assert(t.skip(i - 1) =~= s.skip(i));
    }
}

/// The name shown for an element identifier: the identifier without its
/// leading icon, as `trim_start_matches(|c| !c.is_alphabetic() && c != '-')`
/// gives it.
pub fn trim_label_start(s: &str) -> (r: String)
    ensures
        r@ == trim_label_start_spec(s@),
{
    let n = s.unicode_len();
    let mut i: usize = 0;
    while i < n
        invariant
            n == s@.len(),
            i <= n,
            forall|j: int| 0 <= j < i ==> !#[trigger] is_label_start(s@[j]),
        ensures
            i <= n,
            forall|j: int| 0 <= j < i ==> !#[trigger] is_label_start(s@[j]),
            i == n || is_label_start(s@[i as int]),
        decreases n - i,
    {
        let c = s.get_char(i);
        if is_alphabetic(c) || c == '-' {
            break;
        }
        i = i + 1;
    }
    proof {
        lemma_trim_label_start(s@, i as int);
    }
    let part = s.substring_char(i, n);
    assert(part@ =~= s@.skip(i as int));
    String::from_str(part)
}

} // verus!
