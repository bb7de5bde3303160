//! Validators of user input: each is a list of rules, each rule with the message
//! that is reported when it fails.
use vstd::prelude::*;
use vstd::utf8::{encode_utf8, is_ascii_chars};
use crate::text::{ascii_word_text, email_pattern, email_text, regex_is_match, regex_match, word_pattern};

verus! {

/// One rule that a string must satisfy.
#[derive(Clone, Copy)]
pub enum Rule {
    /// The UTF-8 length in bytes is at least this.
    MinLen(usize),
    /// The UTF-8 length in bytes is at most this.
    MaxLen(usize),
    /// The regular expression matches the string.
    Matches(&'static str),
}

/// The length in bytes of the UTF-8 encoding of `s`, as `str::len` returns it.
pub open spec fn byte_len(s: Seq<char>) -> usize {
    encode_utf8(s).len() as usize
}

/// Whether `s` satisfies `rule`.
pub open spec fn rule_holds(rule: Rule, s: Seq<char>) -> bool {
    match rule {
        Rule::MinLen(n) => byte_len(s) >= n,
        Rule::MaxLen(n) => byte_len(s) <= n,
        Rule::Matches(pattern) => regex_match(pattern@, s) == Some(true),
    }
}

/// The message of the first rule in `rules` that `s` fails, if any.
pub open spec fn first_failure(rules: Seq<(&'static str, Rule)>, s: Seq<char>) -> Option<&'static str>
    decreases rules.len(),
{
    if rules.len() == 0 {
        None
    } else if !rule_holds(rules[0].1, s) {
        Some(rules[0].0)
    } else {
        first_failure(rules.drop_first(), s)
    }
}

/// A validator: rules checked in order.
pub struct Validator {
    pub rules: Vec<(&'static str, Rule)>,
}

fn check_rule(rule: Rule, value: &str) -> (ok: bool)
    ensures
        ok == rule_holds(rule, value@),
        rule matches Rule::Matches(p) ==> (p@ == word_pattern() && is_ascii_chars(value@)
            ==> ok == ascii_word_text(value@)),
        rule matches Rule::Matches(p) ==> (p@ == email_pattern() && is_ascii_chars(value@)
            ==> ok == email_text(value@)),
{
    match rule {
        Rule::MinLen(n) => value.len() >= n,
        Rule::MaxLen(n) => value.len() <= n,
        Rule::Matches(pattern) => match regex_is_match(pattern, value) {
            Some(matched) => matched,
            None => false,
        },
    }
}

proof fn lemma_first_failure_step(rules: Seq<(&'static str, Rule)>, i: int, s: Seq<char>)
    requires
        0 <= i < rules.len(),
        first_failure(rules, s) == first_failure(rules.subrange(i, rules.len() as int), s),
        rule_holds(rules[i].1, s),
    ensures
        first_failure(rules, s) == first_failure(rules.subrange(i + 1, rules.len() as int), s),
{
    assert(rules.subrange(i, rules.len() as int).drop_first() =~= rules.subrange(i + 1, rules.len() as int));
}

/// A value passes a validator exactly when it satisfies every rule; where it
/// fails, the message reported is that of a rule it fails, and it satisfies every
/// rule before that one.
pub proof fn lemma_first_failure(rules: Seq<(&'static str, Rule)>, s: Seq<char>)
    ensures
        first_failure(rules, s) is None <==> forall|i: int| 0 <= i < rules.len() ==> rule_holds(#[trigger] rules[i].1, s),
        first_failure(rules, s) is Some ==> exists|k: int|
            0 <= k < rules.len() && !rule_holds(#[trigger] rules[k].1, s) && first_failure(rules, s) == Some(rules[k].0)
                && forall|i: int| 0 <= i < k ==> rule_holds(#[trigger] rules[i].1, s),
    decreases rules.len(),
{
    if rules.len() > 0 {
        let rest = rules.drop_first();
        lemma_first_failure(rest, s);
        assert forall|i: int| 0 < i < rules.len() implies rules[i] == rest[i - 1] by {}
        if rule_holds(rules[0].1, s) {
            if first_failure(rules, s) is Some {
                let k = choose|k: int|
                    0 <= k < rest.len() && !rule_holds(#[trigger] rest[k].1, s) && first_failure(rest, s) == Some(rest[k].0)
                        && forall|i: int| 0 <= i < k ==> rule_holds(#[trigger] rest[i].1, s);
                assert(rules[k + 1] == rest[k]);
                assert forall|i: int| 0 <= i < k + 1 implies rule_holds(#[trigger] rules[i].1, s) by {
                    if i > 0 {
                        assert(rules[i] == rest[i - 1]);
                    }
                }
            } else {
                assert forall|i: int| 0 <= i < rules.len() implies rule_holds(#[trigger] rules[i].1, s) by {
                    if i > 0 {
                        assert(rules[i] == rest[i - 1]);
                    }
                }
            }
        }
    }
}

impl Validator {
    /// Checks `value` against the rules in order; the message of the first rule that
    /// fails is the error.
    pub fn run(&self, value: &str) -> (r: Result<(), &'static str>)
        ensures
            r == match first_failure(self.rules@, value@) {
                Some(message) => Err(message),
                None => Ok(()),
            },
            self.rules@ == username_rules() && is_ascii_chars(value@) ==> (r is Ok <==> username_shape(value@)),
            self.rules@ == email_rules() && is_ascii_chars(value@) ==> (r is Ok <==> email_shape(value@)),
    {
        let ghost rules = self.rules@;
        let ghost checking_username = rules == username_rules() && is_ascii_chars(value@);
        let ghost checking_email = rules == email_rules() && is_ascii_chars(value@);
        let mut i: usize = 0;
        assert(rules.subrange(0, rules.len() as int) =~= rules);
        while i < self.rules.len()
            invariant
                i <= rules.len(),
                rules == self.rules@,
                checking_username == (rules == username_rules() && is_ascii_chars(value@)),
                first_failure(rules, value@) == first_failure(rules.subrange(i as int, rules.len() as int), value@),
                checking_username && i > 0 ==> byte_len(value@) >= 3,
                checking_username && i > 1 ==> byte_len(value@) <= 32,
                checking_username && i > 2 ==> ascii_word_text(value@),
                checking_email == (rules == email_rules() && is_ascii_chars(value@)),
                checking_email && i > 0 ==> byte_len(value@) >= 5,
                checking_email && i > 1 ==> byte_len(value@) <= 254,
                checking_email && i > 2 ==> email_text(value@),
            decreases rules.len() - i,
        {
            let (message, rule) = self.rules[i];
            if !check_rule(rule, value) {
                assert(rules.subrange(i as int, rules.len() as int)[0] == rules[i as int]);
                proof {
                    if checking_username {
                        assert(!username_shape(value@));
                    }
                    if checking_email {
                        assert(!email_shape(value@));
                    }
                }
                return Err(message);
            }
            proof { lemma_first_failure_step(rules, i as int, value@); }
            i = i + 1;
        }
        assert(rules.subrange(i as int, rules.len() as int).len() == 0);
        Ok(())
    }
}

/// The rules of a password.
pub open spec fn password_rules() -> Seq<(&'static str, Rule)> {
    seq![
        ("Password length shall not be less than 8.", Rule::MinLen(8)),
        ("Password length shall not be more than 128.", Rule::MaxLen(128)),
    ]
}

/// The validator of a password.
pub fn password() -> (v: Validator)
    ensures
        v.rules@ == password_rules(),
{
    Validator {
        rules: vec![
            ("Password length shall not be less than 8.", Rule::MinLen(8)),
            ("Password length shall not be more than 128.", Rule::MaxLen(128)),
        ],
    }
}

/// The rules of a username.
pub open spec fn username_rules() -> Seq<(&'static str, Rule)> {
    seq![
        ("Username length shall not be less than 3.", Rule::MinLen(3)),
        ("Username length shall not be more than 32.", Rule::MaxLen(32)),
        ("Username can only contain letters, \"_\" and numbers.", Rule::Matches("^[\\w_\\d]+$")),
    ]
}

/// Whether `s` has the shape of an ASCII username: from 3 to 32 bytes, made only
/// of letters, digits and `_`.
pub open spec fn username_shape(s: Seq<char>) -> bool {
    3 <= byte_len(s) <= 32 && ascii_word_text(s)
}

/// A text of ASCII characters passes the username rules exactly when it is from 3
/// to 32 bytes long and made only of letters, digits and `_` (such as `player1`),
/// given that the regular expression of the rules matches such texts as the regex
/// crate documents it (the fact that `regex_is_match` gives of it).
pub proof fn lemma_username_rules(s: Seq<char>)
    requires
        is_ascii_chars(s),
        regex_match(word_pattern(), s) == Some(ascii_word_text(s)),
    ensures
        first_failure(username_rules(), s) is None <==> 3 <= byte_len(s) <= 32 && ascii_word_text(s),
{
    let rules = username_rules();
    lemma_first_failure(rules, s);
    assert(rules[0].1 == Rule::MinLen(3));
    assert(rules[1].1 == Rule::MaxLen(32));
    assert(rules[2].1 == Rule::Matches("^[\\w_\\d]+$"));
    if 3 <= byte_len(s) <= 32 && ascii_word_text(s) {
        assert forall|i: int| 0 <= i < rules.len() implies rule_holds(#[trigger] rules[i].1, s) by {
            assert(i == 0 || i == 1 || i == 2);
        }
    }
    if first_failure(rules, s) is None {
        assert(rule_holds(rules[0].1, s));
        assert(rule_holds(rules[1].1, s));
        assert(rule_holds(rules[2].1, s));
    }
}

/// The validator of a username.
pub fn username() -> (v: Validator)
    ensures
        v.rules@ == username_rules(),
{
    Validator {
        rules: vec![
            ("Username length shall not be less than 3.", Rule::MinLen(3)),
            ("Username length shall not be more than 32.", Rule::MaxLen(32)),
            ("Username can only contain letters, \"_\" and numbers.", Rule::Matches("^[\\w_\\d]+$")),
        ],
    }
}

/// The rules of a nickname.
pub open spec fn nickname_rules() -> Seq<(&'static str, Rule)> {
    seq![
        ("Nickname length shall not be less than 2.", Rule::MinLen(2)),
        ("Username length shall not be more than 32.", Rule::MaxLen(32)),
    ]
}

/// The validator of a nickname.
pub fn nickname() -> (v: Validator)
    ensures
        v.rules@ == nickname_rules(),
{
    Validator {
        rules: vec![
            ("Nickname length shall not be less than 2.", Rule::MinLen(2)),
            ("Username length shall not be more than 32.", Rule::MaxLen(32)),
        ],
    }
}

/// The rules of an e-mail address.
pub open spec fn email_rules() -> Seq<(&'static str, Rule)> {
    seq![
        ("E-mail address length shall not be less than 5.", Rule::MinLen(5)),
        ("E-mail address length shall not be more than 254.", Rule::MaxLen(254)),
        ("Invalid e-mail address", Rule::Matches("^\\S+@\\S+\\.\\S+$")),
    ]
}

/// Whether `s` has the shape of an e-mail address: from 5 to 254 bytes, without
/// white space, with an `@` that has text before it, and after it a `.` with text
/// on both sides.
pub open spec fn email_shape(s: Seq<char>) -> bool {
    5 <= byte_len(s) <= 254 && email_text(s)
}

/// A text of ASCII characters passes the e-mail rules exactly when it is from 5 to
/// 254 bytes long, has no white space, and reads `name@domain.end` with none of the
/// three parts empty, given that the regular expression of the rules matches such
/// texts as the regex crate documents it (the fact that `regex_is_match` gives of
/// it).
pub proof fn lemma_email_rules(s: Seq<char>)
    requires
        is_ascii_chars(s),
        regex_match(email_pattern(), s) == Some(email_text(s)),
    ensures
        first_failure(email_rules(), s) is None <==> email_shape(s),
{
    let rules = email_rules();
    lemma_first_failure(rules, s);
    assert(rules[0].1 == Rule::MinLen(5));
    assert(rules[1].1 == Rule::MaxLen(254));
    assert(rules[2].1 == Rule::Matches("^\\S+@\\S+\\.\\S+$"));
    if email_shape(s) {
        assert forall|i: int| 0 <= i < rules.len() implies rule_holds(#[trigger] rules[i].1, s) by {
            assert(i == 0 || i == 1 || i == 2);
        }
    }
    if first_failure(rules, s) is None {
        assert(rule_holds(rules[0].1, s));
        assert(rule_holds(rules[1].1, s));
        assert(rule_holds(rules[2].1, s));
    }
}

/// A password passes its rules exactly when it is from 8 to 128 bytes long; a
/// shorter one is refused for being too short, a longer one for being too long.
pub proof fn lemma_password_rules(s: Seq<char>)
    ensures
        first_failure(password_rules(), s) is None <==> 8 <= byte_len(s) <= 128,
        byte_len(s) < 8 ==> first_failure(password_rules(), s) == Some("Password length shall not be less than 8."),
        byte_len(s) > 128 ==> first_failure(password_rules(), s) == Some("Password length shall not be more than 128."),
{
    reveal_with_fuel(first_failure, 3);
}

/// A nickname passes its rules exactly when it is from 2 to 32 bytes long; a
/// shorter one is refused for being too short, a longer one for being too long.
pub proof fn lemma_nickname_rules(s: Seq<char>)
    ensures
        first_failure(nickname_rules(), s) is None <==> 2 <= byte_len(s) <= 32,
        byte_len(s) < 2 ==> first_failure(nickname_rules(), s) == Some("Nickname length shall not be less than 2."),
        byte_len(s) > 32 ==> first_failure(nickname_rules(), s) == Some("Username length shall not be more than 32."),
{
    reveal_with_fuel(first_failure, 3);
}

/// A username shorter than 3 bytes is refused for being too short, and one longer
/// than 32 bytes for being too long, whatever it is made of.
pub proof fn lemma_username_lengths(s: Seq<char>)
    ensures
        byte_len(s) < 3 ==> first_failure(username_rules(), s) == Some("Username length shall not be less than 3."),
        byte_len(s) > 32 ==> first_failure(username_rules(), s) == Some("Username length shall not be more than 32."),
{
    reveal_with_fuel(first_failure, 4);
}

/// The validator of an e-mail address.
pub fn email() -> (v: Validator)
    ensures
        v.rules@ == email_rules(),
{
    Validator {
        rules: vec![
            ("E-mail address length shall not be less than 5.", Rule::MinLen(5)),
            ("E-mail address length shall not be more than 254.", Rule::MaxLen(254)),
            ("Invalid e-mail address", Rule::Matches("^\\S+@\\S+\\.\\S+$")),
        ],
    }
}

} // verus!
