use vstd::prelude::*;
use crate::error::{ErrorKind, ForgeError, ForgeResult};
use crate::utils::{
    ascii_lower, is_quote, lemma_unquote_ascii_lower, lemma_unquote_quoted, str_equals, to_lowercase,
    unicode_lowercase, unquote, unquoted,
};

verus! {

/// A value read from the environment, with the key it was read under.
pub struct EnvValue<'a> {
    pub key: &'a str,
    pub value: String,
}

impl<'a> Default for EnvValue<'a> {
    /// The value of an unset variable: empty key, empty value.
    fn default() -> (r: Self)
        ensures
            r.key@.len() == 0,
            r.value@.len() == 0,
    {
        proof {
            reveal_strlit("");
        }
        EnvValue { key: "", value: String::new() }
    }
}

/// A source of environment values, looked up by key.
pub trait Env {
    fn value<'a, T: AsRef<str> + ?Sized>(&self, key: &'a T) -> ForgeResult<EnvValue<'a>>;
}

/// The boolean that a lower-cased token stands for, if any:
/// `true`, `on`, `1` are true; the empty token, `false`, `off`, `0` are false.
pub open spec fn bool_token(t: Seq<char>) -> Option<bool> {
    if t == "true"@ || t == "on"@ || t == "1"@ {
        Some(true)
    } else if t == ""@ || t == "false"@ || t == "off"@ || t == "0"@ {
        Some(false)
    } else {
        None
    }
}

/// How an environment value reads as a boolean: unquoted, lower-cased, then
/// looked up among the accepted tokens.
pub open spec fn bool_reading(value: Seq<char>) -> Option<bool> {
    bool_token(unicode_lowercase(unquoted(value)))
}

/// Exactly `true`, `on` and `1` read as true; exactly the empty token,
/// `false`, `off` and `0` read as false; every other token reads as none.
pub proof fn lemma_accepted_tokens(t: Seq<char>)
    ensures
        bool_token(t) == Some(true) <==> (t == "true"@ || t == "on"@ || t == "1"@),
        bool_token(t) == Some(false) <==> (t == ""@ || t == "false"@ || t == "off"@ || t
            == "0"@),
        bool_token(t) is None <==> !(t == "true"@ || t == "on"@ || t == "1"@ || t == ""@ || t
            == "false"@ || t == "off"@ || t == "0"@),
{
    reveal_strlit("true");
    reveal_strlit("on");
    reveal_strlit("1");
    reveal_strlit("");
    reveal_strlit("false");
    reveal_strlit("off");
    reveal_strlit("0");
    assert("1"@[0] != "0"@[0]);
    assert("true"@.len() == 4 && "on"@.len() == 2 && "1"@.len() == 1);
    assert(""@.len() == 0 && "false"@.len() == 5 && "off"@.len() == 3 && "0"@.len() == 1);
}

/// How an all-ASCII value reads as a boolean: there lower-casing is ASCII
/// lower-casing, so this is `bool_reading` for such values.
pub open spec fn ascii_bool_reading(value: Seq<char>) -> Option<bool> {
    bool_token(ascii_lower(unquoted(value)))
}

/// Wrapping a value in a pair of quotes does not change how it reads, unless
/// the value is itself quoted (then only the outer pair is removed).
pub proof fn lemma_quoted_reads_alike(q: char, value: Seq<char>)
    requires
        is_quote(q),
        unquoted(value) == value,
    ensures
        bool_reading(seq![q] + value + seq![q]) == bool_reading(value),
{
    lemma_unquote_quoted(q, value);
}

/// Letter case does not matter: two ASCII values that differ only in the
/// case of their letters read as the same boolean, or both as none.
pub proof fn lemma_reading_ignores_case(v1: Seq<char>, v2: Seq<char>)
    requires
        ascii_lower(v1) == ascii_lower(v2),
    ensures
        ascii_bool_reading(v1) == ascii_bool_reading(v2),
{
    lemma_unquote_ascii_lower(v1, v2);
}

/// The message of the error for a value that is not a boolean.
pub open spec fn invalid_bool_message(key: Seq<char>, value: Seq<char>) -> Seq<char> {
    "[Env] Invalid boolean value for key '"@ + key + "': '"@ + value
        + "' (expected: true, on, 1 / false, off, 0, <empty>)"@
}

/// The boolean that an already lower-cased token stands for, if any.
pub fn parse_bool_token(token: &str) -> (r: Option<bool>)
    ensures
        r == bool_token(token@),
        r == Some(true) <==> (token@ == "true"@ || token@ == "on"@ || token@ == "1"@),
        r == Some(false) <==> (token@ == ""@ || token@ == "false"@ || token@ == "off"@
            || token@ == "0"@),
        r is None <==> !(token@ == "true"@ || token@ == "on"@ || token@ == "1"@ || token@
            == ""@ || token@ == "false"@ || token@ == "off"@ || token@ == "0"@),
{
    proof {
        lemma_accepted_tokens(token@);
    }
    if str_equals(token, "true") || str_equals(token, "on") || str_equals(token, "1") {
        Some(true)
    } else if str_equals(token, "") || str_equals(token, "false") || str_equals(token, "off")
        || str_equals(token, "0") {
        Some(false)
    } else {
        None
    }
}

/// Builds the message of the error for a value that is not a boolean.
pub fn invalid_bool_text(key: &str, value: &str) -> (r: String)
    ensures
        r@ == invalid_bool_message(key@, value@),
{
    let mut msg = String::from_str("[Env] Invalid boolean value for key '");
    msg.append(key);
    msg.append("': '");
    msg.append(value);
    msg.append("' (expected: true, on, 1 / false, off, 0, <empty>)");
    msg
}

impl<'a> EnvValue<'a> {
    /// Reads the value as a boolean (see `bool_reading`); a value that is no
    /// accepted token is an `Env` error naming the key and the value.
    pub fn as_bool(&self) -> (r: ForgeResult<bool>)
        ensures
            match bool_reading(self.value@) {
                Some(b) => r == Ok::<bool, ForgeError>(b),
                None => r matches Err(e) && e.kind == ErrorKind::Env && e.description@
                    == invalid_bool_message(self.key@, self.value@),
            },
            vstd::utf8::is_ascii_chars(self.value@) ==> bool_reading(self.value@)
                == ascii_bool_reading(self.value@),
            ({
                let t = unicode_lowercase(unquoted(self.value@));
                &&& r == Ok::<bool, ForgeError>(true) <==> (t == "true"@ || t == "on"@ || t
                    == "1"@)
                &&& r == Ok::<bool, ForgeError>(false) <==> (t == ""@ || t == "false"@ || t
                    == "off"@ || t == "0"@)
                &&& !(t == "true"@ || t == "on"@ || t == "1"@ || t == ""@ || t == "false"@
                    || t == "off"@ || t == "0"@) ==> (r matches Err(e) && e.kind
                    == ErrorKind::Env)
            }),
    {
        proof {
            lemma_accepted_tokens(unicode_lowercase(unquoted(self.value@)));
        }
        let bare = unquote(self.value.as_str());
        proof {
            let v = self.value@;
            if vstd::utf8::is_ascii_chars(v) && unquoted(v) != v {
                assert forall|i: int| 0 <= i < bare@.len() implies '\0' <= #[trigger] bare@[i]
                    <= '\u{7f}' by {
                    assert(bare@[i] == v[i + 1]);
                }
            }
        }
        let lowered = to_lowercase(bare);
        match parse_bool_token(lowered.as_str()) {
            Some(b) => Ok(b),
            None => {
                let msg = invalid_bool_text(self.key, self.value.as_str());
                Err(ForgeError::from_str(ErrorKind::Env, msg.as_str()))
            },
        }
    }
}

} // verus!
