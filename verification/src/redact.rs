//! Removing what identifies a user from log text: account numbers, the home
//! directory, network addresses, and whatever else the caller names.
//!
//! Account numbers and addresses are found by regular expressions, which the
//! `regex` crate compiles and applies; the home directory and the caller's
//! strings are replaced here.

use vstd::prelude::*;
use regex::Regex;
use crate::patterns::{build_network_regex, network_regex, ACCOUNT_NUMBER_PATTERN};
use crate::text::{chars_of, replace_all, replaced, string_of};

verus! {

/// What stands in place of an account number.
pub const ACCOUNT_NUMBER_REPLACEMENT: &'static str = "[REDACTED ACCOUNT NUMBER]";

/// What stands in place of a network address: the character before it, as
/// it was, and the mark.
pub const NETWORK_INFO_REPLACEMENT: &'static str = "$start[REDACTED]";

/// What stands in place of a string that the caller wants removed.
pub const CUSTOM_STRING_REPLACEMENT: &'static str = "[REDACTED]";

/// What stands in place of the home directory.
pub const HOME_DIR_REPLACEMENT: &'static str = "~";

/// Whether `regex::Regex::new` compiles `pattern`: it does unless the
/// pattern is no expression of the syntax or its program is larger than the
/// limit that the builder sets by default.
pub uninterp spec fn regex_compiles(pattern: Seq<char>) -> bool;

/// What `regex::Regex::replace_all` returns for `haystack` and `replacement`
/// on the regular expression that `regex::Regex::new` compiles from
/// `pattern`.
pub uninterp spec fn regex_replace_all(
    pattern: Seq<char>,
    haystack: Seq<char>,
    replacement: Seq<char>,
) -> Seq<char>;

/// Compiles `pattern` with `regex::Regex::new` and calls
/// `regex::Regex::replace_all` on the result, which replaces every
/// non-overlapping match in `haystack` by `replacement`, expanded for each
/// match. `None` stands for a pattern that was not compiled, which depends
/// on the pattern alone. The text that comes back otherwise is a function
/// of the three arguments. The contract gives both a name and claims
/// nothing else.
#[verifier::external_body]
fn replace_all_matches(pattern: &str, haystack: &str, replacement: &str) -> (out: Option<String>)
    ensures
        out is Some <==> regex_compiles(pattern@),
        out matches Some(text) ==> text@ == regex_replace_all(pattern@, haystack@, replacement@),
{
    match Regex::new(pattern) {
        Ok(regex) => Some(regex.replace_all(haystack, replacement).into_owned()),
        Err(_) => None,
    }
}

/// The two patterns of the redaction compile, so that everything can be
/// redacted.
pub open spec fn patterns_compile() -> bool {
    regex_compiles(ACCOUNT_NUMBER_PATTERN@) && regex_compiles(network_regex())
}

/// `strings` without the empty ones.
pub open spec fn without_empty(strings: Seq<Seq<char>>) -> Seq<Seq<char>>
    decreases strings.len(),
{
    if strings.len() == 0 {
        Seq::empty()
    } else if strings.last().len() == 0 {
        without_empty(strings.drop_last())
    } else {
        without_empty(strings.drop_last()).push(strings.last())
    }
}

/// `input` with every run of sixteen digits replaced.
pub open spec fn account_number_redacted(input: Seq<char>) -> Seq<char> {
    regex_replace_all(ACCOUNT_NUMBER_PATTERN@, input, ACCOUNT_NUMBER_REPLACEMENT@)
}

/// `input` with the home directory replaced by a tilde.
pub open spec fn home_dir_redacted(home_dir: Option<Seq<char>>, input: Seq<char>) -> Seq<char> {
    match home_dir {
        Some(home) => replaced(input, home, HOME_DIR_REPLACEMENT@),
        None => input,
    }
}

/// `input` with every IPv4, IPv6 and MAC address replaced.
pub open spec fn network_info_redacted(input: Seq<char>) -> Seq<char> {
    regex_replace_all(network_regex(), input, NETWORK_INFO_REPLACEMENT@)
}

/// `input` with each of `strings` replaced, one after the other in the order
/// given.
pub open spec fn custom_strings_redacted(strings: Seq<Seq<char>>, input: Seq<char>) -> Seq<char>
    decreases strings.len(),
{
    if strings.len() == 0 {
        input
    } else {
        replaced(
            custom_strings_redacted(strings.drop_last(), input),
            strings.last(),
            CUSTOM_STRING_REPLACEMENT@,
        )
    }
}

/// The four redactions in their order: account numbers, the home directory,
/// network addresses, the caller's strings.
pub open spec fn redacted(
    custom_strings: Seq<Seq<char>>,
    home_dir: Option<Seq<char>>,
    input: Seq<char>,
) -> Seq<char> {
    custom_strings_redacted(
        custom_strings,
        network_info_redacted(home_dir_redacted(home_dir, account_number_redacted(input))),
    )
}

/// The texts that a vector of strings stands for.
pub open spec fn string_views(strings: Seq<String>) -> Seq<Seq<char>> {
    strings.map_values(|s: String| s@)
}

/// The text of a string that may be there or not.
pub open spec fn text_of(text: Option<String>) -> Option<Seq<char>> {
    match text {
        Some(text) => Some(text@),
        None => None,
    }
}

/// Redacts log text. Redacting needs the regular expression engine to
/// compile the two patterns; where it does not, a redaction returns `None`
/// and has redacted nothing.
#[derive(Debug)]
pub struct Redactor {
    custom_strings: Vec<String>,
    home_dir: Option<String>,
}

impl Redactor {
    /// The strings that are removed on the caller's behalf.
    pub closed spec fn custom_strings(&self) -> Seq<Seq<char>> {
        string_views(self.custom_strings@)
    }

    /// The home directory that is replaced by a tilde.
    pub closed spec fn home_dir(&self) -> Option<Seq<char>> {
        text_of(self.home_dir)
    }

    /// Makes a redactor that removes `redact_custom_strings`, the empty ones
    /// left out, and `home_dir`.
    pub fn new(redact_custom_strings: Vec<String>, home_dir: Option<String>) -> (redactor: Redactor)
        ensures
            redactor.custom_strings() == without_empty(string_views(redact_custom_strings@)),
            redactor.home_dir() == text_of(home_dir),
    {
        let mut custom_strings: Vec<String> = Vec::new();
        let mut at: usize = 0;
        assert(string_views(redact_custom_strings@).take(0) =~= Seq::<Seq<char>>::empty());
        assert(string_views(custom_strings@) =~= Seq::<Seq<char>>::empty());
        while at < redact_custom_strings.len()
            invariant
                at <= redact_custom_strings.len(),
                string_views(custom_strings@) == without_empty(
                    string_views(redact_custom_strings@).take(at as int),
                ),
            decreases redact_custom_strings.len() - at,
        {
            let ghost all = string_views(redact_custom_strings@);
            assert(all.take(at + 1).drop_last() =~= all.take(at as int));
            assert(all.take(at + 1).last() == redact_custom_strings@[at as int]@);
            if !redact_custom_strings[at].as_str().is_empty() {
                let ghost before = custom_strings@;
                custom_strings.push(redact_custom_strings[at].clone());
                assert(string_views(custom_strings@) =~= string_views(before).push(
                    redact_custom_strings@[at as int]@,
                ));
            }
            at += 1;
        }
        assert(string_views(redact_custom_strings@).take(at as int) =~= string_views(
            redact_custom_strings@,
        ));
        Redactor { custom_strings, home_dir }
    }

    /// Replaces every account number in `input`.
    pub fn redact_account_number(input: &str) -> (out: Option<String>)
        ensures
            out is Some <==> regex_compiles(ACCOUNT_NUMBER_PATTERN@),
            out matches Some(text) ==> text@ == account_number_redacted(input@),
    {
        replace_all_matches(ACCOUNT_NUMBER_PATTERN, input, ACCOUNT_NUMBER_REPLACEMENT)
    }

    /// Replaces the home directory in `input` by a tilde.
    pub fn redact_home_dir(&self, input: &str) -> (out: String)
        ensures
            out@ == home_dir_redacted(self.home_dir(), input@),
    {
        match &self.home_dir {
            Some(home) => {
                let replaced = replace_all(
                    &chars_of(input),
                    &chars_of(home.as_str()),
                    &chars_of(HOME_DIR_REPLACEMENT),
                );
                string_of(&replaced)
            },
            None => input.to_owned(),
        }
    }

    /// Replaces every IPv4, IPv6 and MAC address in `input`.
    pub fn redact_network_info(input: &str) -> (out: Option<String>)
        ensures
            out is Some <==> regex_compiles(network_regex()),
            out matches Some(text) ==> text@ == network_info_redacted(input@),
    {
        let pattern = build_network_regex();
        replace_all_matches(pattern.as_str(), input, NETWORK_INFO_REPLACEMENT)
    }

    /// Replaces each of the caller's strings in `input`.
    pub fn redact_custom_strings(&self, input: &str) -> (out: String)
        ensures
            out@ == custom_strings_redacted(self.custom_strings(), input@),
    {
        let replacement = chars_of(CUSTOM_STRING_REPLACEMENT);
        let mut out = chars_of(input);
        let mut at: usize = 0;
        assert(self.custom_strings().take(0) =~= Seq::<Seq<char>>::empty());
        while at < self.custom_strings.len()
            invariant
                at <= self.custom_strings.len(),
                replacement@ == CUSTOM_STRING_REPLACEMENT@,
                out@ == custom_strings_redacted(self.custom_strings().take(at as int), input@),
            decreases self.custom_strings.len() - at,
        {
            let ghost all = self.custom_strings();
            assert(all.take(at + 1).drop_last() =~= all.take(at as int));
            assert(all.take(at + 1).last() == self.custom_strings@[at as int]@);
            out = replace_all(&out, &chars_of(self.custom_strings[at].as_str()), &replacement);
            at += 1;
        }
        assert(self.custom_strings().take(at as int) =~= self.custom_strings());
        string_of(&out)
    }

    /// Redacts `input`: account numbers first, then the home directory, then
    /// network addresses, then the caller's strings. Returns the redacted
    /// text whenever the two patterns compile, and `None` where one of them
    /// does not.
    pub fn redact(&self, input: &str) -> (out: Option<String>)
        ensures
            out is Some <==> patterns_compile(),
            out matches Some(text) ==> text@ == redacted(
                self.custom_strings(),
                self.home_dir(),
                input@,
            ),
    {
        let out1 = match Self::redact_account_number(input) {
            Some(text) => text,
            None => {
                return None;
            },
        };
        let out2 = self.redact_home_dir(out1.as_str());
        let out3 = match Self::redact_network_info(out2.as_str()) {
            Some(text) => text,
            None => {
                return None;
            },
        };
        Some(self.redact_custom_strings(out3.as_str()))
    }
}

} // verus!
