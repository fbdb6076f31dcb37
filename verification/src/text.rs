use vstd::prelude::*;
use vstd::string::StringSliceAdditionalSpecFns;
use vstd::string::StrSliceExecFns;
use vstd::string::StringExecFns;
use vstd::utf8::encode_utf8_decode_utf8;
use vstd::std_specs::iter::IteratorSpec;

verus! {

/// Tells whether two string slices hold the same characters.
pub fn str_eq(a: &str, b: &str) -> (same: bool)
    ensures
        same == (a@ == b@),
{
    let x = a.as_bytes();
    let y = b.as_bytes();
    if x.len() != y.len() {
        return false;
    }
    let mut i: usize = 0;
    while i < x.len()
        invariant
            i <= x.len(),
            x.len() == y.len(),
            x@ == a.spec_bytes(),
            y@ == b.spec_bytes(),
            forall|k: int| 0 <= k < i ==> x@[k] == y@[k],
        decreases x.len() - i,
    {
        if x[i] != y[i] {
            return false;
        }
        i += 1;
    }
    proof {
        assert(x@ =~= y@);
        encode_utf8_decode_utf8(a@);
        encode_utf8_decode_utf8(b@);
    }
    true
}

/// Tells whether `c` occurs in `s`.
pub fn contains_char(s: &str, c: char) -> (found: bool)
    ensures
        found == s@.contains(c),
{
    let mut it = s.chars();
    let ghost mut seen: int = 0;
    loop
        invariant
            0 <= seen <= s@.len(),
            it.obeys_prophetic_iter_laws(),
            it.remaining() == s@.skip(seen),
            forall|k: int| 0 <= k < seen ==> s@[k] != c,
        decreases s@.len() - seen,
    {
        match it.next() {
            Some(x) => {
                if x == c {
                    return true;
                }
                proof {
                    assert(s@.skip(seen).drop_first() =~= s@.skip(seen + 1));
                    seen = seen + 1;
                }
            },
            None => {
                return false;
            },
        }
    }
}

/// Tells whether `s` begins with `c`.
pub fn starts_with_char(s: &str, c: char) -> (yes: bool)
    ensures
        yes == (s@.len() > 0 && s@[0] == c),
{
    let mut it = s.chars();
    match it.next() {
        Some(x) => x == c,
        None => false,
    }
}

/// The lower-case form of an ASCII capital letter; any other character
/// itself.
pub open spec fn ascii_lower(c: char) -> char {
    if 'A' <= c && c <= 'Z' {
        ((c as u8) + 32) as char
    } else {
        c
    }
}

/// Whether two texts are equal up to the case of their ASCII letters.
pub open spec fn same_ignoring_ascii_case(a: Seq<char>, b: Seq<char>) -> bool {
    &&& a.len() == b.len()
    &&& forall|i: int| 0 <= i < a.len() ==> ascii_lower(#[trigger] a[i]) == ascii_lower(b[i])
}

/// The lower-case form of an ASCII capital letter; any other character
/// itself.
pub fn to_ascii_lower(c: char) -> (lower: char)
    ensures
        lower == ascii_lower(c),
{
    if 'A' <= c && c <= 'Z' {
        ((c as u8) + 32) as char
    } else {
        c
    }
}

/// Tells whether two string slices are equal up to the case of their
/// ASCII letters.
pub fn eq_ignore_ascii_case(a: &str, b: &str) -> (same: bool)
    ensures
        same == same_ignoring_ascii_case(a@, b@),
{
    let x = chars_of(a);
    let y = chars_of(b);
    if x.len() != y.len() {
        return false;
    }
    let mut i: usize = 0;
    while i < x.len()
        invariant
            i <= x.len(),
            x.len() == y.len(),
            x@ == a@,
            y@ == b@,
            forall|k: int| 0 <= k < i ==> ascii_lower(#[trigger] x@[k]) == ascii_lower(y@[k]),
        decreases x.len() - i,
    {
        if to_ascii_lower(x[i]) != to_ascii_lower(y[i]) {
            return false;
        }
        i += 1;
    }
    true
}

/// The characters of `s`, in order, as a vector.
pub fn chars_of(s: &str) -> (v: Vec<char>)
    ensures
        v@ == s@,
{
    let mut v: Vec<char> = Vec::new();
    let mut it = s.chars();
    loop
        invariant
            v@.len() <= s@.len(),
            it.obeys_prophetic_iter_laws(),
            it.remaining() == s@.skip(v@.len() as int),
            v@ == s@.take(v@.len() as int),
        decreases s@.len() - v@.len(),
    {
        match it.next() {
            Some(x) => {
                proof {
                    let n = v@.len() as int;
                    assert(s@.skip(n).drop_first() =~= s@.skip(n + 1));
                    assert(s@.take(n).push(x) =~= s@.take(n + 1));
                }
                v.push(x);
            },
            None => {
                proof {
                    assert(s@.take(s@.len() as int) =~= s@);
                }
                return v;
            },
        }
    }
}

/// The decimal digit for a value below ten.
pub open spec fn digit_char(d: int) -> char {
    if d == 0 {
        '0'
    } else if d == 1 {
        '1'
    } else if d == 2 {
        '2'
    } else if d == 3 {
        '3'
    } else if d == 4 {
        '4'
    } else if d == 5 {
        '5'
    } else if d == 6 {
        '6'
    } else if d == 7 {
        '7'
    } else if d == 8 {
        '8'
    } else {
        '9'
    }
}

/// The decimal numeral of `n`: no sign, no leading zero, `"0"` for zero.
pub open spec fn decimal(n: nat) -> Seq<char>
    decreases n,
{
    if n < 10 {
        seq![digit_char(n as int)]
    } else {
        decimal(n / 10).push(digit_char((n % 10) as int))
    }
}

fn digit_str(d: u64) -> (s: &'static str)
    requires
        d < 10,
    ensures
        s@ == seq![digit_char(d as int)],
{
    proof {
        reveal_strlit("0");
        reveal_strlit("1");
        reveal_strlit("2");
        reveal_strlit("3");
        reveal_strlit("4");
        reveal_strlit("5");
        reveal_strlit("6");
        reveal_strlit("7");
        reveal_strlit("8");
        reveal_strlit("9");
    }
    let s = if d == 0 {
        "0"
    } else if d == 1 {
        "1"
    } else if d == 2 {
        "2"
    } else if d == 3 {
        "3"
    } else if d == 4 {
        "4"
    } else if d == 5 {
        "5"
    } else if d == 6 {
        "6"
    } else if d == 7 {
        "7"
    } else if d == 8 {
        "8"
    } else {
        "9"
    };
    assert(s@ =~= seq![digit_char(d as int)]);
    s
}

/// Appends the decimal numeral of `n` to `out`.
pub fn push_decimal(out: &mut String, n: u64)
    ensures
        final(out)@ == old(out)@ + decimal(n as nat),
    decreases n,
{
    if n >= 10 {
        push_decimal(out, n / 10);
    }
    out.append(digit_str(n % 10));
    proof {
        if n >= 10 {
            assert(old(out)@ + decimal((n / 10) as nat) + seq![digit_char((n % 10) as int)]
                =~= old(out)@ + decimal(n as nat));
        } else {
            assert(old(out)@ + seq![digit_char((n % 10) as int)] =~= old(out)@ + decimal(
                n as nat,
            ));
        }
    }
}

/// Whether `c` is white space, that is whether it has the Unicode property
/// `White_Space`.
pub open spec fn is_whitespace(c: char) -> bool {
    let n = c as u32;
    ||| 0x09 <= n <= 0x0D
    ||| n == 0x20
    ||| n == 0x85
    ||| n == 0xA0
    ||| n == 0x1680
    ||| 0x2000 <= n <= 0x200A
    ||| n == 0x2028
    ||| n == 0x2029
    ||| n == 0x202F
    ||| n == 0x205F
    ||| n == 0x3000
}

/// Tells whether `c` is white space.
pub fn char_is_whitespace(c: char) -> (yes: bool)
    ensures
        yes == is_whitespace(c),
{
    let n = c as u32;
    (0x09 <= n && n <= 0x0D) || n == 0x20 || n == 0x85 || n == 0xA0 || n == 0x1680 || (0x2000 <= n
        && n <= 0x200A) || n == 0x2028 || n == 0x2029 || n == 0x202F || n == 0x205F || n
        == 0x3000
}

/// The index of the first character at or after `from` that is no white
/// space; the length of `s` if there is none.
pub open spec fn first_solid(s: Seq<char>, from: int) -> int
    decreases s.len() - from,
{
    if from >= s.len() {
        s.len() as int
    } else if from >= 0 && !is_whitespace(s[from]) {
        from
    } else {
        first_solid(s, from + 1)
    }
}

/// The index behind the last character before `upto` that is no white
/// space; zero if there is none.
pub open spec fn last_solid_end(s: Seq<char>, upto: int) -> int
    decreases upto,
{
    if upto <= 0 {
        0
    } else if upto <= s.len() && !is_whitespace(s[upto - 1]) {
        upto
    } else {
        last_solid_end(s, upto - 1)
    }
}

/// `s` without the white space at its start and at its end.
pub open spec fn trimmed(s: Seq<char>) -> Seq<char> {
    let start = first_solid(s, 0);
    let end = last_solid_end(s, s.len() as int);
    if start < end {
        s.subrange(start, end)
    } else {
        Seq::empty()
    }
}

/// `s` without the white space at its start and at its end.
pub fn trim(s: &str) -> (t: String)
    ensures
        t@ == trimmed(s@),
{
    let chars = chars_of(s);
    let n = chars.len();
    let mut start: usize = 0;
    while start < n && char_is_whitespace(chars[start])
        invariant
            start <= n,
            n == s@.len(),
            chars@ == s@,
            first_solid(s@, 0) == first_solid(s@, start as int),
        decreases n - start,
    {
        start += 1;
    }
    let mut end: usize = n;
    while end > 0 && char_is_whitespace(chars[end - 1])
        invariant
            end <= n,
            n == s@.len(),
            chars@ == s@,
            last_solid_end(s@, n as int) == last_solid_end(s@, end as int),
        decreases end,
    {
        end -= 1;
    }
    if start < end {
        String::from_str(s.substring_char(start, end))
    } else {
        String::new()
    }
}

/// Whether `s` ends with `suffix`.
pub open spec fn has_suffix(s: Seq<char>, suffix: Seq<char>) -> bool {
    suffix.len() <= s.len() && s.subrange(s.len() - suffix.len(), s.len() as int) == suffix
}

/// Tells whether `s` ends with `suffix`.
pub fn ends_with(s: &str, suffix: &str) -> (yes: bool)
    ensures
        yes == has_suffix(s@, suffix@),
{
    let x = chars_of(s);
    let y = chars_of(suffix);
    if y.len() > x.len() {
        return false;
    }
    let offset = x.len() - y.len();
    let mut i: usize = 0;
    while i < y.len()
        invariant
            i <= y.len(),
            offset + y.len() == x.len(),
            x@ == s@,
            y@ == suffix@,
            forall|k: int| 0 <= k < i ==> x@[offset + k] == y@[k],
        decreases y.len() - i,
    {
        if x[offset + i] != y[i] {
            proof {
                assert(s@.subrange(offset as int, s@.len() as int)[i as int] == x@[offset + i]);
            }
            return false;
        }
        i += 1;
    }
    proof {
        assert(s@.subrange(offset as int, s@.len() as int) =~= suffix@);
    }
    true
}

/// Where the word begins that is in progress after the first `upto`
/// characters of `s`; `upto` if none is.
pub open spec fn word_start(s: Seq<char>, upto: int) -> int
    decreases upto,
{
    if upto <= 0 {
        0
    } else if is_whitespace(s[upto - 1]) {
        upto
    } else {
        word_start(s, upto - 1)
    }
}

/// The words that are complete within the first `upto` characters of `s`.
pub open spec fn words_before(s: Seq<char>, upto: int) -> Seq<Seq<char>>
    decreases upto,
{
    if upto <= 0 {
        Seq::empty()
    } else if is_whitespace(s[upto - 1]) && word_start(s, upto - 1) < upto - 1 {
        words_before(s, upto - 1).push(s.subrange(word_start(s, upto - 1), upto - 1))
    } else {
        words_before(s, upto - 1)
    }
}

/// The words of `s`: its longest runs of characters that are no white
/// space, in order.
pub open spec fn words(s: Seq<char>) -> Seq<Seq<char>> {
    let n = s.len() as int;
    if word_start(s, n) < n {
        words_before(s, n).push(s.subrange(word_start(s, n), n))
    } else {
        words_before(s, n)
    }
}

/// The texts of a vector of strings.
pub open spec fn texts(strings: Seq<String>) -> Seq<Seq<char>> {
    strings.map_values(|t: String| t@)
}

/// Splits `s` at white space into its words.
pub fn split_whitespace(s: &str) -> (parts: Vec<String>)
    ensures
        texts(parts@) == words(s@),
{
    let chars = chars_of(s);
    let n = chars.len();
    let mut parts: Vec<String> = Vec::new();
    let mut start: usize = 0;
    let mut i: usize = 0;
    assert(texts(parts@) =~= words_before(s@, 0));
    while i < n
        invariant
            i <= n,
            n == s@.len(),
            chars@ == s@,
            start == word_start(s@, i as int),
            start <= i,
            texts(parts@) == words_before(s@, i as int),
        decreases n - i,
    {
        if char_is_whitespace(chars[i]) {
            if start < i {
                let ghost before = parts@;
                let word = String::from_str(s.substring_char(start, i));
                parts.push(word);
                assert(texts(parts@) =~= texts(before).push(s@.subrange(start as int, i as int)));
            }
            start = i + 1;
        }
        i += 1;
    }
    if start < n {
        let ghost before = parts@;
        let word = String::from_str(s.substring_char(start, n));
        parts.push(word);
        assert(texts(parts@) =~= texts(before).push(s@.subrange(start as int, n as int)));
    }
    parts
}

/// Up to the first character that is no white space there is only white
/// space.
pub proof fn lemma_first_solid(s: Seq<char>, from: int)
    requires
        0 <= from <= s.len(),
    ensures
        from <= first_solid(s, from) <= s.len(),
        forall|k: int| from <= k < first_solid(s, from) ==> is_whitespace(#[trigger] s[k]),
        first_solid(s, from) < s.len() ==> !is_whitespace(s[first_solid(s, from)]),
    decreases s.len() - from,
{
    if from < s.len() && is_whitespace(s[from]) {
        lemma_first_solid(s, from + 1);
    }
}

/// Behind the last character that is no white space there is only white
/// space.
pub proof fn lemma_last_solid_end(s: Seq<char>, upto: int)
    requires
        0 <= upto <= s.len(),
    ensures
        0 <= last_solid_end(s, upto) <= upto,
        forall|k: int| last_solid_end(s, upto) <= k < upto ==> is_whitespace(#[trigger] s[k]),
        last_solid_end(s, upto) > 0 ==> !is_whitespace(s[last_solid_end(s, upto) - 1]),
    decreases upto,
{
    if upto > 0 && is_whitespace(s[upto - 1]) {
        lemma_last_solid_end(s, upto - 1);
    }
}

/// Trimming takes away white space only, and all of it at both ends: the
/// text is white space, then the trimmed text, then white space; and the
/// trimmed text, unless it is empty, begins and ends with characters that
/// are no white space.
pub proof fn lemma_trimmed_is_the_core(s: Seq<char>)
    ensures
        ({
            let start = first_solid(s, 0);
            let end = last_solid_end(s, s.len() as int);
            let core = trimmed(s);
            &&& 0 <= start <= s.len() && 0 <= end <= s.len()
            &&& forall|k: int| 0 <= k < start ==> is_whitespace(#[trigger] s[k])
            &&& forall|k: int| end <= k < s.len() ==> is_whitespace(#[trigger] s[k])
            &&& if start < end {
                &&& core == s.subrange(start, end)
                &&& !is_whitespace(core.first())
                &&& !is_whitespace(core.last())
            } else {
                &&& core.len() == 0
                &&& forall|k: int| 0 <= k < s.len() ==> is_whitespace(#[trigger] s[k])
            }
        }),
{
    lemma_first_solid(s, 0);
    lemma_last_solid_end(s, s.len() as int);
}

/// The word in progress begins no later than where the scan stands, and
/// holds no white space.
pub proof fn lemma_word_in_progress(s: Seq<char>, upto: int)
    requires
        0 <= upto <= s.len(),
    ensures
        0 <= word_start(s, upto) <= upto,
        forall|k: int| word_start(s, upto) <= k < upto ==> !is_whitespace(#[trigger] s[k]),
    decreases upto,
{
    if upto > 0 && !is_whitespace(s[upto - 1]) {
        lemma_word_in_progress(s, upto - 1);
    }
}

/// Whether a text is a word: it has a character, and none of its
/// characters is white space.
pub open spec fn is_word(w: Seq<char>) -> bool {
    &&& w.len() > 0
    &&& forall|k: int| 0 <= k < w.len() ==> !is_whitespace(#[trigger] w[k])
}

/// The complete words of a text are words.
pub proof fn lemma_words_before_are_words(s: Seq<char>, upto: int)
    requires
        0 <= upto <= s.len(),
    ensures
        forall|i: int| 0 <= i < words_before(s, upto).len() ==> is_word(#[trigger] words_before(s, upto)[i]),
    decreases upto,
{
    if upto > 0 {
        lemma_words_before_are_words(s, upto - 1);
        lemma_word_in_progress(s, upto - 1);
        let before = words_before(s, upto - 1);
        let start = word_start(s, upto - 1);
        if is_whitespace(s[upto - 1]) && start < upto - 1 {
            let word = s.subrange(start, upto - 1);
            assert(is_word(word)) by {
                assert forall|k: int| 0 <= k < word.len() implies !is_whitespace(
                    #[trigger] word[k],
                ) by {
                    assert(word[k] == s[start + k]);
                }
            }
            assert forall|i: int| 0 <= i < before.push(word).len() implies is_word(
                #[trigger] before.push(word)[i],
            ) by {
                if i < before.len() {
                    assert(before.push(word)[i] == before[i]);
                }
            }
        }
    }
}

/// Every word of a text has a character and holds no white space.
pub proof fn lemma_words_are_words(s: Seq<char>)
    ensures
        forall|i: int| 0 <= i < words(s).len() ==> is_word(#[trigger] words(s)[i]),
{
    let n = s.len() as int;
    lemma_words_before_are_words(s, n);
    lemma_word_in_progress(s, n);
    let before = words_before(s, n);
    let start = word_start(s, n);
    if start < n {
        let word = s.subrange(start, n);
        assert(is_word(word)) by {
            assert forall|k: int| 0 <= k < word.len() implies !is_whitespace(
                #[trigger] word[k],
            ) by {
                assert(word[k] == s[start + k]);
            }
        }
        assert forall|i: int| 0 <= i < before.push(word).len() implies is_word(
            #[trigger] before.push(word)[i],
        ) by {
            if i < before.len() {
                assert(before.push(word)[i] == before[i]);
            }
        }
    }
}

} // verus!
