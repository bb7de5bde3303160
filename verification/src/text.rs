//! Text operations that the library takes from the `regex` crate and from std.
use vstd::prelude::*;
use vstd::utf8::is_ascii_chars;

verus! {

/// What `regex::Regex::new(pattern)` followed by `Regex::is_match(text)` gives:
/// `None` where the pattern does not compile, else whether the pattern matches
/// somewhere in the text.
pub uninterp spec fn regex_match(pattern: Seq<char>, text: Seq<char>) -> Option<bool>;

/// What `regex::Regex::new(pattern)` followed by `Regex::replace_all(text, replacement)`
/// gives: `None` where the pattern does not compile, else the text with every match
/// replaced.
pub uninterp spec fn regex_replaced(pattern: Seq<char>, text: Seq<char>, replacement: Seq<char>) -> Option<Seq<char>>;

/// What `regex::Regex::new(pattern)` followed by `Regex::captures(text)` and
/// `Captures::get(group)` gives: `None` where the pattern does not compile, else
/// the text of the group in the first match, if there is a match and the group took
/// part in it.
pub uninterp spec fn regex_captured(pattern: Seq<char>, text: Seq<char>, group: usize) -> Option<Option<Seq<char>>>;

/// Whether `c` is white space as `char::is_whitespace` and `str::trim` take it: a
/// character with the Unicode `White_Space` property.
pub open spec fn is_white_space(c: char) -> bool {
    ||| '\u{9}' <= c <= '\u{d}'
    ||| c == ' '
    ||| c == '\u{85}'
    ||| c == '\u{a0}'
    ||| c == '\u{1680}'
    ||| '\u{2000}' <= c <= '\u{200a}'
    ||| c == '\u{2028}'
    ||| c == '\u{2029}'
    ||| c == '\u{202f}'
    ||| c == '\u{205f}'
    ||| c == '\u{3000}'
}

/// `s` without its leading white space.
pub open spec fn trim_start(s: Seq<char>) -> Seq<char>
    decreases s.len(),
{
    if s.len() > 0 && is_white_space(s[0]) {
        trim_start(s.drop_first())
    } else {
        s
    }
}

/// `s` without its trailing white space.
pub open spec fn trim_end(s: Seq<char>) -> Seq<char>
    decreases s.len(),
{
    if s.len() > 0 && is_white_space(s.last()) {
        trim_end(s.drop_last())
    } else {
        s
    }
}

/// `s` without leading and trailing white space, as `str::trim` gives it.
pub open spec fn trimmed(s: Seq<char>) -> Seq<char> {
    trim_end(trim_start(s))
}

/// The pattern of a text made only of word characters: `^[\w_\d]+$`.
pub open spec fn word_pattern() -> Seq<char> {
    "^[\\w_\\d]+$"@
}

/// Whether `c` is an ASCII letter, an ASCII digit or `_`.
pub open spec fn is_ascii_word_char(c: char) -> bool {
    ||| 'a' <= c <= 'z'
    ||| 'A' <= c <= 'Z'
    ||| '0' <= c <= '9'
    ||| c == '_'
}

/// Whether `s` is not empty and made only of ASCII letters, ASCII digits and `_`.
pub open spec fn ascii_word_text(s: Seq<char>) -> bool {
    s.len() > 0 && forall|i: int| 0 <= i < s.len() ==> is_ascii_word_char(#[trigger] s[i])
}

/// The pattern of an e-mail address: `^\S+@\S+\.\S+$`.
pub open spec fn email_pattern() -> Seq<char> {
    "^\\S+@\\S+\\.\\S+$"@
}

/// Whether `s` has no white space and holds an `@` with text before it, then a
/// `.` with text between the two and text after it.
pub open spec fn email_text(s: Seq<char>) -> bool {
    &&& forall|k: int| 0 <= k < s.len() ==> !is_white_space(#[trigger] s[k])
    &&& exists|i: int, j: int| 1 <= i && i + 2 <= j && j + 2 <= s.len() && #[trigger] s[i] == '@' && #[trigger] s[j] == '.'
}

/// Compiles `pattern` with `regex::Regex::new` and asks `Regex::is_match` whether it
/// matches `text`. The contract claims that the outcome is a function of the
/// pattern and the text (named `regex_match`); what that function is in general,
/// which takes the regex crate's syntax and Unicode tables to state, is left unsaid.
/// Of one pattern it claims what the crate's syntax documents: `^[\w_\d]+$`
/// compiles, and on a text of ASCII characters it matches exactly where the text is
/// not empty and each character is a word character (`\w`, whose ASCII members are
/// the letters, the digits and `_`) or a digit (`\d`), `^` and `$` anchoring the
/// match at the ends of the text. Of `^\S+@\S+\.\S+$` it claims likewise
/// that it compiles and, on a text of ASCII characters, matches exactly where the
/// text has no white space (`\S` being any character that is not white space) and
/// splits into non-empty runs around an `@` and, after it, a `.`.
#[verifier::external_body]
pub(crate) fn regex_is_match(pattern: &str, text: &str) -> (r: Option<bool>)
    ensures
        r == regex_match(pattern@, text@),
        pattern@ == word_pattern() && is_ascii_chars(text@) ==> r == Some(ascii_word_text(text@)),
        pattern@ == email_pattern() && is_ascii_chars(text@) ==> r == Some(email_text(text@)),
{
    regex::Regex::new(pattern).ok().map(|re| re.is_match(text))
}

/// The pattern of one character that a path may not hold: `[/?*:|<>\\]`.
pub open spec fn path_unsafe_pattern() -> Seq<char> {
    "[/?*:|<>\\\\]"@
}

/// Whether a path may not hold `c`: `/`, `?`, `*`, `:`, `|`, `<`, `>` or a backslash.
pub open spec fn is_path_unsafe(c: char) -> bool {
    c == '/' || c == '?' || c == '*' || c == ':' || c == '|' || c == '<' || c == '>' || c == '\\'
}

/// Compiles `pattern` with `regex::Regex::new` and replaces every match in `text`
/// with `replacement` by `Regex::replace_all`. The contract claims that the outcome
/// is a function of the three (named `regex_replaced`). Of one pattern it claims
/// what the crate's syntax documents: `[/?*:|<>\\]` compiles and matches each
/// single character of its class, so replacing its matches by `_` (which holds no
/// `$` to expand) replaces each of those characters by `_` and keeps the others.
#[verifier::external_body]
pub(crate) fn regex_replace_all(pattern: &str, text: &str, replacement: &str) -> (r: Option<String>)
    ensures
        r is Some <==> regex_replaced(pattern@, text@, replacement@) is Some,
        r matches Some(s) ==> regex_replaced(pattern@, text@, replacement@) == Some(s@),
        pattern@ == path_unsafe_pattern() && replacement@ == "_"@ ==> (r matches Some(s) && s@.len() == text@.len()
            && forall|i: int| 0 <= i < text@.len() ==> #[trigger] s@[i] == (if is_path_unsafe(text@[i]) { '_' } else { text@[i] })),
{
    regex::Regex::new(pattern).ok().map(|re| re.replace_all(text, replacement).to_string())
}

/// Compiles `pattern` with `regex::Regex::new`, finds its first match in `text` with
/// `Regex::captures` and takes the text of capture group `group` with `Captures::get`.
/// The contract claims only that the outcome is a function of the three (named
/// `regex_captured`).
#[verifier::external_body]
pub(crate) fn regex_capture(pattern: &str, text: &str, group: usize) -> (r: Option<Option<String>>)
    ensures
        match regex_captured(pattern@, text@, group) {
            None => r is None,
            Some(None) => r == Some(None::<String>),
            Some(Some(g)) => r is Some && r->0 is Some && r->0->0@ == g,
        },
{
    regex::Regex::new(pattern).ok().map(|re| {
        re.captures(text).and_then(|c| c.get(group)).map(|m| m.as_str().to_string())
    })
}

/// Calls `str::trim`. The contract claims what std documents: the text without
/// its leading and trailing white space, white space being the characters with the
/// Unicode `White_Space` property.
#[verifier::external_body]
pub(crate) fn trim(s: &str) -> (r: &str)
    ensures
        r@ == trimmed(s@),
{
    s.trim()
}

/// `c` with A-Z mapped to a-z.
pub open spec fn ascii_lower(c: char) -> char {
    if 'A' <= c <= 'Z' {
        ((c as u32) + 32) as char
    } else {
        c
    }
}

fn lower_char(c: char) -> (l: char)
    ensures
        l == ascii_lower(c),
{
    if 'A' <= c && c <= 'Z' {
        let code: u32 = c as u32;
        let b: u8 = code as u8;
        assert(b as u32 == code) by (bit_vector)
            requires
                65 <= code <= 90,
                b == code as u8;
        (b + 32) as char
    } else {
        c
    }
}

/// `s` with A-Z mapped to a-z, as `str::to_ascii_lowercase` gives it.
pub fn to_ascii_lowercase(s: &str) -> (r: String)
    ensures
        r@ == s@.map_values(|c: char| ascii_lower(c)),
{
    broadcast use vstd::string::axiom_spec_iter;
    let mut r = String::new();
    for c in it: s.chars()
        invariant
            it.seq() == s@,
            r@ == s@.take(it.index() as int).map_values(|c: char| ascii_lower(c)),
    {
        push_char(&mut r, lower_char(c));
        assert(s@.take(it.index() + 1).map_values(|c: char| ascii_lower(c))
            =~= s@.take(it.index() as int).map_values(|c: char| ascii_lower(c)).push(ascii_lower(c)));
    }
    assert(s@.take(s@.len() as int) =~= s@);
    r
}

/// The character of the decimal digit `d`.
pub open spec fn digit_char(d: nat) -> char {
    (48 + d) as char
}

/// The decimal text of `n`, without leading zeros.
pub open spec fn decimal(n: nat) -> Seq<char>
    decreases n,
{
    if n < 10 {
        seq![digit_char(n)]
    } else {
        decimal(n / 10).push(digit_char(n % 10))
    }
}

fn push_decimal(s: &mut String, n: u64)
    ensures
        final(s)@ == old(s)@ + decimal(n as nat),
    decreases n,
{
    if n >= 10 {
        push_decimal(s, n / 10);
    }
    let d: u8 = (n % 10) as u8;
    push_char(s, (d + 48) as char);
    proof {
        if n < 10 {
            assert(decimal(n as nat) =~= seq![digit_char(n as nat)]);
        }
    }
}

/// The decimal text of `n`, as `u64::to_string` writes it.
pub fn u64_to_string(n: u64) -> (r: String)
    ensures
        r@ == decimal(n as nat),
{
    let mut r = String::new();
    push_decimal(&mut r, n);
    proof {
        assert(Seq::<char>::empty() + decimal(n as nat) =~= decimal(n as nat));
    }
    r
}

/// Calls `String::push`.
#[verifier::external_body]
pub(crate) fn push_char(s: &mut String, c: char)
    ensures
        final(s)@ == old(s)@.push(c),
{
    s.push(c)
}

} // verus!
