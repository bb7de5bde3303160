//! Settings read from the environment: how a flag's text is read.
use vstd::prelude::*;
use crate::text::{ascii_lower, to_ascii_lowercase, trim, trimmed};

verus! {

/// Whether the text of a flag turns it on: anything but blank text, `0` and
/// `false` in any case of ASCII letters (after trimming).
pub open spec fn spec_env_bool(s: Seq<char>) -> bool {
    let t = trimmed(s);
    !(t.len() == 0 || t == "0"@ || t.map_values(|c: char| ascii_lower(c)) == "false"@)
}

/// A flag is off where its trimmed text is blank, is `0`, or spells `false` in any
/// case of its letters (`False`, `FALSE`, ...); any other text turns it on: a
/// trimmed text of one character other than `0`, or of a length other than 0, 1
/// and 5, always does.
pub proof fn lemma_env_bool(s: Seq<char>)
    ensures
        trimmed(s).len() == 0 ==> !spec_env_bool(s),
        trimmed(s) == "0"@ ==> !spec_env_bool(s),
        trimmed(s).len() == 1 && trimmed(s)[0] != '0' ==> spec_env_bool(s),
        trimmed(s).len() != 0 && trimmed(s).len() != 1 && trimmed(s).len() != 5 ==> spec_env_bool(s),
        trimmed(s).len() == 5 ==> (!spec_env_bool(s) <==> (
            ascii_lower(trimmed(s)[0]) == 'f' && ascii_lower(trimmed(s)[1]) == 'a' && ascii_lower(trimmed(s)[2]) == 'l'
                && ascii_lower(trimmed(s)[3]) == 's' && ascii_lower(trimmed(s)[4]) == 'e')),
{
    reveal_strlit("0");
    reveal_strlit("false");
    let t = trimmed(s);
    let lowered = t.map_values(|c: char| ascii_lower(c));
    if t.len() == 1 && t[0] != '0' {
        assert(t != "0"@) by {
            assert(t[0] != "0"@[0]);
        }
    }
    if t.len() == 5 {
        if ascii_lower(t[0]) == 'f' && ascii_lower(t[1]) == 'a' && ascii_lower(t[2]) == 'l'
            && ascii_lower(t[3]) == 's' && ascii_lower(t[4]) == 'e' {
            assert(lowered =~= "false"@);
        }
        if lowered == "false"@ {
            assert(lowered[0] == 'f' && lowered[1] == 'a' && lowered[2] == 'l' && lowered[3] == 's' && lowered[4] == 'e');
        }
    }
}

/// Reads the text of a flag.
pub fn env_bool(s: &str) -> (b: bool)
    ensures
        b == spec_env_bool(s@),
{
    let t = trim(s);
    let text = String::from_str(t);
    let zero = String::from_str("0");
    let lowered = to_ascii_lowercase(t);
    let no = String::from_str("false");
    !(t.is_empty() || text == zero || lowered == no)
}

/// Whether a flag is on, from its environment variable (`None` where it is unset
/// or not Unicode): off where unset.
pub fn flag(var: Option<String>) -> (b: bool)
    ensures
        b == match var {
            Some(s) => spec_env_bool(s@),
            None => false,
        },
{
    match var {
        Some(s) => env_bool(s.as_str()),
        None => false,
    }
}

} // verus!
