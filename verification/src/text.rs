//! Text helpers: whitespace trimming, case folding, searching and the
//! validation of user-entered text fields.

use vstd::prelude::*;

verus! {

/// The characters with the Unicode `White_Space` property.
pub open spec fn is_white_space(c: char) -> bool {
    let u = c as u32;
    ||| 0x9 <= u <= 0xd
    ||| u == 0x20
    ||| u == 0x85
    ||| u == 0xa0
    ||| u == 0x1680
    ||| 0x2000 <= u <= 0x200a
    ||| u == 0x2028
    ||| u == 0x2029
    ||| u == 0x202f
    ||| u == 0x205f
    ||| u == 0x3000
}

/// `s` without its leading white space.
pub open spec fn trim_start_ws(s: Seq<char>) -> Seq<char>
    decreases s.len(),
{
    if s.len() > 0 && is_white_space(s[0]) {
        trim_start_ws(s.drop_first())
    } else {
        s
    }
}

/// `s` without its trailing white space.
pub open spec fn trim_end_ws(s: Seq<char>) -> Seq<char>
    decreases s.len(),
{
    if s.len() > 0 && is_white_space(s.last()) {
        trim_end_ws(s.drop_last())
    } else {
        s
    }
}

/// `s` without leading and trailing white space.
pub open spec fn trim_ws(s: Seq<char>) -> Seq<char> {
    trim_end_ws(trim_start_ws(s))
}

/// Calls `str::trim`, documented to remove leading and trailing characters
/// that have the Unicode `White_Space` property; the contract states exactly that.
#[verifier::external_body]
pub(crate) fn trim_str(s: &str) -> (r: &str)
    ensures
        r@ == trim_ws(s@),
{
    s.trim()
}

/// The text kept of an optional field: `None` for a missing or blank value,
/// otherwise the value without surrounding white space.
pub open spec fn normalized_text(text: Option<Seq<char>>) -> Option<Seq<char>> {
    match text {
        None => None,
        Some(v) => if trim_ws(v).len() == 0 {
            None
        } else {
            Some(trim_ws(v))
        },
    }
}

/// The view of an optional string.
pub open spec fn opt_view(text: Option<String>) -> Option<Seq<char>> {
    match text {
        None => None,
        Some(v) => Some(v@),
    }
}

/// Trims an optional text field and drops it when nothing is left.
pub fn normalize_optional_text(text: Option<String>) -> (r: Option<String>)
    ensures
        opt_view(r) == normalized_text(opt_view(text)),
        match text {
            None => r is None,
            Some(v) => if trim_ws(v@).len() == 0 {
                r is None
            } else {
                r is Some && r->0@ == trim_ws(v@)
            },
        },
{
    match text {
        None => None,
        Some(value) => {
            let trimmed = trim_str(value.as_str()).to_owned();
            if trimmed.as_str().is_empty() {
                None
            } else {
                Some(trimmed)
            }
        },
    }
}

/// The message that reports a blank required field.
pub open spec fn blank_field_message(field_name: Seq<char>) -> Seq<char> {
    field_name + "不能为空"@
}

/// Trims a required text field; a field that is blank is refused with a
/// message naming it.
pub fn require_non_empty(value: &str, field_name: &str) -> (r: Result<String, String>)
    ensures
        trim_ws(value@).len() == 0 ==> r is Err && r->Err_0@ == blank_field_message(field_name@),
        trim_ws(value@).len() > 0 ==> r is Ok && r->Ok_0@ == trim_ws(value@),
{
    let trimmed = trim_str(value);
    if trimmed.is_empty() {
        Err(String::from_str(field_name).concat("不能为空"))
    } else {
        Ok(trimmed.to_owned())
    }
}

/// Code point of the ASCII lower-case form of `c`; other characters keep theirs.
pub open spec fn ascii_lower_code(c: char) -> u32 {
    let u = c as u32;
    if 65 <= u <= 90 {
        (u + 32) as u32
    } else {
        u
    }
}

/// The ASCII lower-case form of `c`.
pub open spec fn ascii_lower_char(c: char) -> char {
    if 65 <= c as u32 <= 90 {
        ascii_lower_code(c) as char
    } else {
        c
    }
}

/// Every character of `s` is ASCII.
pub open spec fn is_ascii_text(s: Seq<char>) -> bool {
    forall|i: int| 0 <= i < s.len() ==> (#[trigger] s[i] as u32) < 128
}

/// `s` with each ASCII upper-case letter replaced by its lower-case form.
pub open spec fn ascii_lowercase(s: Seq<char>) -> Seq<char> {
    Seq::new(s.len(), |i: int| ascii_lower_char(s[i]))
}

/// The Unicode lower-case form of a text, as `str::to_lowercase` computes it.
pub uninterp spec fn lowercase(s: Seq<char>) -> Seq<char>;

/// Calls `str::to_lowercase`. Its result is named by `lowercase`; for ASCII
/// text the documented per-character mapping is stated: `A`..`Z` become
/// `a`..`z` and every other ASCII character is kept.
#[verifier::external_body]
pub(crate) fn to_lowercase(s: &str) -> (r: String)
    ensures
        r@ == lowercase(s@),
        is_ascii_text(s@) ==> r@ == ascii_lowercase(s@),
{
    s.to_lowercase()
}

/// The characters of `s`, in order.
pub fn chars_of(s: &str) -> (r: Vec<char>)
    ensures
        r@ == s@,
{
    let n = s.unicode_len();
    let mut out: Vec<char> = Vec::new();
    let mut i: usize = 0;
    while i < n
        invariant
            n == s@.len(),
            i <= n,
            out@ == s@.subrange(0, i as int),
        decreases n - i,
    {
        out.push(s.get_char(i));
        i = i + 1;
    }
    out
}

/// Whether two texts hold the same characters.
pub fn text_eq(a: &str, b: &str) -> (r: bool)
    ensures
        r == (a@ == b@),
{
    let n = a.unicode_len();
    if n != b.unicode_len() {
        return false;
    }
    let mut i: usize = 0;
    while i < n
        invariant
            n == a@.len(),
            n == b@.len(),
            i <= n,
            forall|j: int| 0 <= j < i ==> a@[j] == b@[j],
        decreases n - i,
    {
        if a.get_char(i) != b.get_char(i) {
            return false;
        }
        i = i + 1;
    }
    assert(a@ =~= b@);
    true
}

/// `needle` occurs in `haystack` as a run of consecutive characters.
pub open spec fn contains_text(haystack: Seq<char>, needle: Seq<char>) -> bool {
    exists|i: int|
        0 <= i && i + needle.len() <= haystack.len() && #[trigger] haystack.subrange(
            i,
            i + needle.len(),
        ) == needle
}

/// Whether `needle` matches `haystack` at position `at`.
fn matches_at(haystack: &Vec<char>, needle: &Vec<char>, at: usize) -> (r: bool)
    requires
        at + needle@.len() <= haystack@.len(),
    ensures
        r == (haystack@.subrange(at as int, at + needle@.len()) == needle@),
{
    let hl = haystack.len();
    let mut j: usize = 0;
    while j < needle.len()
        invariant
            hl == haystack@.len(),
            at + needle@.len() <= haystack@.len(),
            j <= needle@.len(),
            forall|k: int| 0 <= k < j ==> haystack@[at + k] == needle@[k],
        decreases needle@.len() - j,
    {
        if haystack[at + j] != needle[j] {
            assert(haystack@.subrange(at as int, at + needle@.len())[j as int] != needle@[j as int]);
            return false;
        }
        j = j + 1;
    }
    assert(haystack@.subrange(at as int, at + needle@.len()) =~= needle@);
    true
}

/// Whether `needle` occurs in `haystack`, as `str::contains` answers for a
/// text pattern.
pub fn text_contains(haystack: &str, needle: &str) -> (r: bool)
    ensures
        r == contains_text(haystack@, needle@),
{
    let h = chars_of(haystack);
    let n = chars_of(needle);
    if n.len() > h.len() {
        return false;
    }
    let last = h.len() - n.len();
    let mut i: usize = 0;
    loop
        invariant
            h@ == haystack@,
            n@ == needle@,
            last + n@.len() == h@.len(),
            i <= last,
            forall|k: int| 0 <= k < i ==> #[trigger] h@.subrange(k, k + n@.len()) != n@,
        ensures
            forall|k: int| 0 <= k <= last ==> #[trigger] h@.subrange(k, k + n@.len()) != n@,
        decreases last - i,
    {
        if matches_at(&h, &n, i) {
            return true;
        }
        if i == last {
            break;
        }
        i = i + 1;
    }
    assert forall|k: int| 0 <= k && k + needle@.len() <= haystack@.len() implies
        #[trigger] haystack@.subrange(k, k + needle@.len()) != needle@ by {
        assert(k <= last);
    }
    false
}

/// Whether two texts are equal once ASCII letters are folded to lower case,
/// as `str::eq_ignore_ascii_case` answers.
pub open spec fn eq_ignore_ascii_case_spec(a: Seq<char>, b: Seq<char>) -> bool {
    &&& a.len() == b.len()
    &&& forall|i: int| 0 <= i < a.len() ==> ascii_lower_code(#[trigger] a[i]) == ascii_lower_code(b[i])
}

fn lower_code(c: char) -> (r: u32)
    ensures
        r == ascii_lower_code(c),
{
    let u = c as u32;
    if 65 <= u && u <= 90 {
        u + 32
    } else {
        u
    }
}

/// ASCII case-insensitive comparison of two texts.
pub fn text_eq_ignore_ascii_case(a: &str, b: &str) -> (r: bool)
    ensures
        r == eq_ignore_ascii_case_spec(a@, b@),
{
    let n = a.unicode_len();
    if n != b.unicode_len() {
        return false;
    }
    let mut i: usize = 0;
    while i < n
        invariant
            n == a@.len(),
            n == b@.len(),
            i <= n,
            forall|j: int| 0 <= j < i ==> ascii_lower_code(#[trigger] a@[j]) == ascii_lower_code(b@[j]),
        decreases n - i,
    {
        if lower_code(a.get_char(i)) != lower_code(b.get_char(i)) {
            return false;
        }
        i = i + 1;
    }
    true
}

/// The decimal digit character for `d` (taken modulo ten).
pub open spec fn digit_char(d: nat) -> char {
    let d = d % 10;
    if d == 0 { '0' } else if d == 1 { '1' } else if d == 2 { '2' } else if d == 3 { '3' }
    else if d == 4 { '4' } else if d == 5 { '5' } else if d == 6 { '6' } else if d == 7 { '7' }
    else if d == 8 { '8' } else { '9' }
}

/// The decimal digits of `n`, most significant first, without leading zeros.
pub open spec fn decimal_digits(n: nat) -> Seq<char>
    decreases n,
{
    if n < 10 {
        seq![digit_char(n)]
    } else {
        decimal_digits(n / 10).push(digit_char(n % 10))
    }
}

/// The decimal text of an integer, with a leading `-` when it is negative,
/// as Rust's `Display` writes an integer.
pub open spec fn decimal(n: int) -> Seq<char> {
    if n < 0 {
        seq!['-'] + decimal_digits((-n) as nat)
    } else {
        decimal_digits(n as nat)
    }
}

fn digit_text(d: u64) -> (r: &'static str)
    requires
        d < 10,
    ensures
        r@ == seq![digit_char(d as nat)],
{
    proof {
        reveal_strlit("0");
        reveal_strlit("1");
        reveal_strlit("2");
        reveal_strlit("3");
        reveal_strlit("4");
        reveal_strlit("5");
        reveal_strlit("6");
        reveal_strlit("7");
        reveal_strlit("8");
        reveal_strlit("9");
    }
    if d == 0 { "0" } else if d == 1 { "1" } else if d == 2 { "2" } else if d == 3 { "3" }
    else if d == 4 { "4" } else if d == 5 { "5" } else if d == 6 { "6" } else if d == 7 { "7" }
    else if d == 8 { "8" } else { "9" }
}

fn append_digits(out: &mut String, m: u64)
    ensures
        final(out)@ == old(out)@ + decimal_digits(m as nat),
    decreases m,
{
    if m >= 10 {
        append_digits(out, m / 10);
    }
    out.append(digit_text(m % 10));
    proof {
        if m >= 10 {
            assert(decimal_digits(m as nat) == decimal_digits((m / 10) as nat).push(digit_char((m % 10) as nat)));
        }
    }
}

/// Writes an integer in decimal.
pub fn decimal_text(n: i64) -> (r: String)
    ensures
        r@ == decimal(n as int),
{
    let mut out = String::new();
    if n < 0 {
        out.append("-");
        let magnitude: u64 = (0i128 - n as i128) as u64;
        append_digits(&mut out, magnitude);
        proof {
            reveal_strlit("-");
        }
    } else {
        append_digits(&mut out, n as u64);
    }
    out
}

/// Trimming is idempotent: text without surrounding white space is kept as is.
pub proof fn lemma_trim_ws_idempotent(s: Seq<char>)
    ensures
        trim_ws(trim_ws(s)) == trim_ws(s),
{
    lemma_trim_start_ws_edge(s);
    lemma_trim_end_ws_edge(trim_start_ws(s));
    lemma_trim_ws_of_trimmed(trim_ws(s));
}

proof fn lemma_trim_start_ws_edge(s: Seq<char>)
    ensures
        trim_start_ws(s).len() > 0 ==> !is_white_space(trim_start_ws(s)[0]),
        trim_start_ws(s).len() <= s.len(),
    decreases s.len(),
{
    if s.len() > 0 && is_white_space(s[0]) {
        lemma_trim_start_ws_edge(s.drop_first());
    }
}

proof fn lemma_trim_end_ws_edge(s: Seq<char>)
    ensures
        trim_end_ws(s).len() > 0 ==> !is_white_space(trim_end_ws(s).last()),
        trim_end_ws(s).len() > 0 ==> trim_end_ws(s)[0] == s[0],
        trim_end_ws(s).len() <= s.len(),
    decreases s.len(),
{
    if s.len() > 0 && is_white_space(s.last()) {
        lemma_trim_end_ws_edge(s.drop_last());
    }
}

/// Text that neither starts nor ends with white space is kept by trimming.
pub proof fn lemma_trim_ws_of_trimmed(t: Seq<char>)
    requires
        t.len() > 0 ==> !is_white_space(t[0]) && !is_white_space(t.last()),
    ensures
        trim_ws(t) == t,
{
}

/// Text made only of the lower-case letters `a`..`z` and `_`.
pub open spec fn is_plain_lower(s: Seq<char>) -> bool
    decreases s.len(),
{
    s.len() == 0 || ({
        let u = s[0] as u32;
        (u == 95 || (97 <= u <= 122)) && is_plain_lower(s.drop_first())
    })
}

/// Plain lower-case text is ASCII, unchanged by ASCII lower-casing, and
/// unchanged by trimming.
pub proof fn lemma_plain_lower(s: Seq<char>)
    requires
        is_plain_lower(s),
    ensures
        is_ascii_text(s),
        ascii_lowercase(s) == s,
        trim_ws(s) == s,
    decreases s.len(),
{
    if s.len() > 0 {
        let t = s.drop_first();
        lemma_plain_lower(t);
        assert forall|i: int| 0 <= i < s.len() implies (#[trigger] s[i] as u32) < 128
            && ascii_lower_char(s[i]) == s[i] by {
            if i > 0 {
                assert(s[i] == t[i - 1]);
                assert(ascii_lowercase(t)[i - 1] == t[i - 1]);
            }
        }
        assert(ascii_lowercase(s) =~= s);
        lemma_plain_lower_last(s);
        lemma_trim_ws_of_trimmed(s);
    }
}

proof fn lemma_plain_lower_last(s: Seq<char>)
    requires
        is_plain_lower(s),
        s.len() > 0,
    ensures
        ({
            let u = s.last() as u32;
            u == 95 || (97 <= u <= 122)
        }),
    decreases s.len(),
{
    if s.len() > 1 {
        lemma_plain_lower_last(s.drop_first());
        assert(s.drop_first().last() == s.last());
    }
}

/// An optional field is dropped only when it is missing or nothing but
/// white space; otherwise it is kept, without its surrounding white space.
pub proof fn lemma_normalized_text_drops_only_blank(v: Seq<char>)
    ensures
        normalized_text(None) is None,
        normalized_text(Some(v)) is None <==> trim_ws(v).len() == 0,
        trim_ws(v).len() > 0 ==> normalized_text(Some(v)) == Some(trim_ws(v)),
{
}

/// Normalising an optional text twice gives what normalising it once gave.
pub proof fn lemma_normalized_text_idempotent(text: Option<Seq<char>>)
    ensures
        normalized_text(normalized_text(text)) == normalized_text(text),
{
    if let Some(v) = text {
        lemma_trim_ws_idempotent(v);
    }
}

/// Every character of `s` is white space.
pub open spec fn all_white_space(s: Seq<char>) -> bool {
    forall|i: int| 0 <= i < s.len() ==> is_white_space(#[trigger] s[i])
}

proof fn lemma_trim_start_pad(p: Seq<char>, x: Seq<char>)
    requires
        all_white_space(p),
    ensures
        trim_start_ws(p + x) == trim_start_ws(x),
    decreases p.len(),
{
    if p.len() > 0 {
        assert((p + x)[0] == p[0]);
        assert((p + x).drop_first() =~= p.drop_first() + x);
        assert(all_white_space(p.drop_first())) by {
            assert forall|i: int| 0 <= i < p.drop_first().len() implies is_white_space(
                #[trigger] p.drop_first()[i],
            ) by {
                assert(p.drop_first()[i] == p[i + 1]);
            }
        }
        lemma_trim_start_pad(p.drop_first(), x);
    } else {
        assert(p + x =~= x);
    }
}

proof fn lemma_trim_end_pad(x: Seq<char>, q: Seq<char>)
    requires
        all_white_space(q),
    ensures
        trim_end_ws(x + q) == trim_end_ws(x),
    decreases q.len(),
{
    if q.len() > 0 {
        assert((x + q).last() == q.last());
        assert((x + q).drop_last() =~= x + q.drop_last());
        assert(all_white_space(q.drop_last())) by {
            assert forall|i: int| 0 <= i < q.drop_last().len() implies is_white_space(
                #[trigger] q.drop_last()[i],
            ) by {
                assert(q.drop_last()[i] == q[i]);
            }
        }
        lemma_trim_end_pad(x, q.drop_last());
    } else {
        assert(x + q =~= x);
    }
}

proof fn lemma_trim_start_append(s: Seq<char>, q: Seq<char>)
    ensures
        trim_start_ws(s + q) == if trim_start_ws(s).len() > 0 {
            trim_start_ws(s) + q
        } else {
            trim_start_ws(q)
        },
    decreases s.len(),
{
    if s.len() == 0 {
        assert(s + q =~= q);
    } else {
        assert((s + q)[0] == s[0]);
        if is_white_space(s[0]) {
            assert((s + q).drop_first() =~= s.drop_first() + q);
            lemma_trim_start_append(s.drop_first(), q);
        }
    }
}

/// White space around a text does not change what trimming it gives.
pub proof fn lemma_trim_ws_ignores_padding(p: Seq<char>, s: Seq<char>, q: Seq<char>)
    requires
        all_white_space(p),
        all_white_space(q),
    ensures
        trim_ws(p + s + q) == trim_ws(s),
{
    assert(p + s + q =~= p + (s + q));
    lemma_trim_start_pad(p, s + q);
    lemma_trim_start_append(s, q);
    if trim_start_ws(s).len() > 0 {
        lemma_trim_end_pad(trim_start_ws(s), q);
    } else {
        lemma_trim_start_pad(q, Seq::empty());
        assert(q + Seq::<char>::empty() =~= q);
        assert(trim_start_ws(s) =~= Seq::<char>::empty());
    }
}

/// `a` and `b` are ASCII texts that differ at most in the case of letters.
pub open spec fn same_ascii_ignoring_case(a: Seq<char>, b: Seq<char>) -> bool {
    is_ascii_text(a) && is_ascii_text(b) && eq_ignore_ascii_case_spec(a, b)
}

proof fn lemma_white_space_ignores_case(x: char, y: char)
    requires
        (x as u32) < 128,
        (y as u32) < 128,
        ascii_lower_code(x) == ascii_lower_code(y),
    ensures
        is_white_space(x) == is_white_space(y),
        ascii_lower_char(x) == ascii_lower_char(y),
{
    assert((x as u32) as char == x);
    assert((y as u32) as char == y);
}

proof fn lemma_same_case_drop_first(a: Seq<char>, b: Seq<char>)
    requires
        same_ascii_ignoring_case(a, b),
        a.len() > 0,
    ensures
        same_ascii_ignoring_case(a.drop_first(), b.drop_first()),
{
    assert forall|i: int| 0 <= i < a.drop_first().len() implies (#[trigger] a.drop_first()[i] as u32) < 128
        && (b.drop_first()[i] as u32) < 128 && ascii_lower_code(a.drop_first()[i]) == ascii_lower_code(b.drop_first()[i]) by {
        assert(a.drop_first()[i] == a[i + 1]);
        assert(b.drop_first()[i] == b[i + 1]);
    }
}

proof fn lemma_same_case_drop_last(a: Seq<char>, b: Seq<char>)
    requires
        same_ascii_ignoring_case(a, b),
        a.len() > 0,
    ensures
        same_ascii_ignoring_case(a.drop_last(), b.drop_last()),
{
    assert forall|i: int| 0 <= i < a.drop_last().len() implies (#[trigger] a.drop_last()[i] as u32) < 128
        && (b.drop_last()[i] as u32) < 128 && ascii_lower_code(a.drop_last()[i]) == ascii_lower_code(b.drop_last()[i]) by {
        assert(a.drop_last()[i] == a[i]);
        assert(b.drop_last()[i] == b[i]);
    }
}

proof fn lemma_trim_start_same_case(a: Seq<char>, b: Seq<char>)
    requires
        same_ascii_ignoring_case(a, b),
    ensures
        same_ascii_ignoring_case(trim_start_ws(a), trim_start_ws(b)),
    decreases a.len(),
{
    if a.len() > 0 {
        lemma_white_space_ignores_case(a[0], b[0]);
        if is_white_space(a[0]) {
            lemma_same_case_drop_first(a, b);
            lemma_trim_start_same_case(a.drop_first(), b.drop_first());
        }
    }
}

proof fn lemma_trim_end_same_case(a: Seq<char>, b: Seq<char>)
    requires
        same_ascii_ignoring_case(a, b),
    ensures
        same_ascii_ignoring_case(trim_end_ws(a), trim_end_ws(b)),
    decreases a.len(),
{
    if a.len() > 0 {
        lemma_white_space_ignores_case(a.last(), b.last());
        if is_white_space(a.last()) {
            lemma_same_case_drop_last(a, b);
            lemma_trim_end_same_case(a.drop_last(), b.drop_last());
        }
    }
}

/// Texts that differ at most in the case of ASCII letters trim to texts that
/// do too, and lower-case to the same text.
pub proof fn lemma_trim_and_lowercase_ignore_ascii_case(a: Seq<char>, b: Seq<char>)
    requires
        same_ascii_ignoring_case(a, b),
    ensures
        same_ascii_ignoring_case(trim_ws(a), trim_ws(b)),
        ascii_lowercase(trim_ws(a)) == ascii_lowercase(trim_ws(b)),
{
    lemma_trim_start_same_case(a, b);
    lemma_trim_end_same_case(trim_start_ws(a), trim_start_ws(b));
    let (ta, tb) = (trim_ws(a), trim_ws(b));
    assert forall|i: int| 0 <= i < ta.len() implies #[trigger] ascii_lowercase(ta)[i] == ascii_lowercase(tb)[i] by {
        lemma_white_space_ignores_case(ta[i], tb[i]);
    }
    assert(ascii_lowercase(ta) =~= ascii_lowercase(tb));
}

} // verus!
