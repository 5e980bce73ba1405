//! Keyword heuristics that turn page text and URLs into compliance verdicts.
//!
//! Every heuristic is a substring match against a configurable keyword list.
//! A coincidental substring is a false positive that the heuristics accept.

use vstd::prelude::*;
use crate::text::{
    contains, contains_all, contains_all_words, contains_any, contains_any_word, contains_chars,
    to_chars, views_of,
};

verus! {

/// Whether `c` is an ASCII letter or digit.
pub open spec fn is_ascii_alnum(c: char) -> bool {
    ('a' <= c && c <= 'z') || ('A' <= c && c <= 'Z') || ('0' <= c && c <= '9')
}

/// `c` with an ASCII capital letter turned into its small form.
pub open spec fn ascii_lower(c: char) -> char {
    if 'A' <= c && c <= 'Z' {
        ((c as u32) + 32) as char
    } else {
        c
    }
}

/// The ASCII letters and digits of `s`, in order, in small form.
///
/// Serialized URLs are ASCII, so for them this is "lower-cased, alphanumeric only".
pub open spec fn normalized(s: Seq<char>) -> Seq<char>
    decreases s.len(),
{
    if s.len() == 0 {
        Seq::empty()
    } else if is_ascii_alnum(s.last()) {
        normalized(s.drop_last()).push(ascii_lower(s.last()))
    } else {
        normalized(s.drop_last())
    }
}

fn lower_char(c: char) -> (r: char)
    ensures
        r == ascii_lower(c),
{
    if 'A' <= c && c <= 'Z' {
        ((c as u8) + 32) as char
    } else {
        c
    }
}

/// The ASCII letters and digits of `s`, in small form.
pub fn normalize(s: &str) -> (r: Vec<char>)
    ensures
        r@ == normalized(s@),
{
    let mut r: Vec<char> = Vec::new();
    let mut seen: Ghost<Seq<char>> = Ghost(Seq::empty());
    for c in iter: s.chars()
        invariant
            seen@ =~= iter.seq().subrange(0, iter.index() as int),
            r@ == normalized(seen@),
    {
        proof {
            let next = seen@.push(c);
            assert(next.drop_last() =~= seen@);
            seen@ = next;
        }
        if ('a' <= c && c <= 'z') || ('A' <= c && c <= 'Z') || ('0' <= c && c <= '9') {
            r.push(lower_char(c));
        }
    }
    assert(seen@ =~= s@);
    r
}

/// The keyword lists behind each heuristic, all in small letters.
pub struct Keywords {
    /// Phrases that disclose a privacy policy.
    pub privacy: Vec<String>,
    /// Words that offer to refuse cookies.
    pub refusal: Vec<String>,
    /// Fragments of a normalized URL that mark a sign-up page.
    pub signup: Vec<String>,
    /// Phrases that state a password policy in page text.
    pub policy_language: Vec<String>,
    /// Fragments of a script address that name a password-strength library.
    pub strength_libraries: Vec<String>,
    /// Words that an inline script must all hold to count as a strength check.
    pub strength_script_terms: Vec<String>,
}

/// A list of strings built from literals.
fn owned_list(items: &[&str]) -> (r: Vec<String>)
    ensures
        views_of(r@) == items@.map_values(|w: &str| w@),
{
    let mut r: Vec<String> = Vec::new();
    let mut i: usize = 0;
    while i < items.len()
        invariant
            i <= items@.len(),
            views_of(r@) =~= items@.subrange(0, i as int).map_values(|w: &str| w@),
        decreases items@.len() - i,
    {
        let item: String = items[i].to_owned();
        let ghost before = r@;
        r.push(item);
        assert(views_of(r@) =~= views_of(before).push(items@[i as int]@));
        assert(items@.subrange(0, i + 1).map_values(|w: &str| w@) =~= items@.subrange(
            0,
            i as int,
        ).map_values(|w: &str| w@).push(items@[i as int]@));
        i = i + 1;
    }
    assert(items@.subrange(0, items@.len() as int) =~= items@);
    r
}

impl Keywords {
    /// Whether `text` discloses a privacy policy.
    pub open spec fn privacy_in(&self, text: Seq<char>) -> bool {
        contains_any(text, views_of(self.privacy@))
    }

    /// Whether `text` offers to refuse cookies.
    pub open spec fn refusal_in(&self, text: Seq<char>) -> bool {
        contains_any(text, views_of(self.refusal@))
    }

    /// Whether `url` looks like a sign-up page.
    pub open spec fn signup_url(&self, url: Seq<char>) -> bool {
        contains_any(normalized(url), views_of(self.signup@))
    }

    /// Whether `text` states a password policy.
    pub open spec fn policy_language_in(&self, text: Seq<char>) -> bool {
        contains_any(text, views_of(self.policy_language@))
    }

    /// Whether a script address names a password-strength library.
    pub open spec fn strength_library_in(&self, src: Seq<char>) -> bool {
        contains_any(src, views_of(self.strength_libraries@))
    }

    /// Whether an inline script's text reads as a password-strength check.
    pub open spec fn strength_script_in(&self, text: Seq<char>) -> bool {
        contains_all(text, views_of(self.strength_script_terms@))
    }

    /// The keyword lists in use by default, in Portuguese and English.
    pub fn standard() -> (r: Keywords)
        ensures
            views_of(r.privacy@) == seq![
                "política de privacidade"@,
                "notificação de privacidade"@,
                "aviso de privacidade"@,
                "privacy policy"@,
                "privacy notice"@,
            ],
            views_of(r.refusal@) == seq![
                "recusar"@,
                "rejeitar"@,
                "negar"@,
                "não aceitar"@,
                "refuse"@,
                "reject"@,
                "do not accept"@,
            ],
            views_of(r.signup@) == seq![
                "cadastro"@,
                "signup"@,
                "criarconta"@,
                "novaconta"@,
                "cadastrarse"@,
            ],
            views_of(r.policy_language@) == seq![
                "mínimo de"@,
                "caracteres"@,
                "número"@,
                "especial"@,
                "letra maiúscula"@,
                "complexidade"@,
                "requisitos de senha"@,
                "password must"@,
                "at least"@,
                "uppercase"@,
                "lowercase"@,
                "digit"@,
                "special character"@,
            ],
            views_of(r.strength_libraries@) == seq![
                "zxcvbn"@,
                "pwstrength"@,
                "password-strength"@,
                "strength-meter"@,
            ],
            views_of(r.strength_script_terms@) == seq!["password"@, "strength"@],
    {
        let privacy = owned_list(
            &[
                "política de privacidade",
                "notificação de privacidade",
                "aviso de privacidade",
                "privacy policy",
                "privacy notice",
            ],
        );
        let refusal = owned_list(
            &["recusar", "rejeitar", "negar", "não aceitar", "refuse", "reject", "do not accept"],
        );
        let signup = owned_list(&["cadastro", "signup", "criarconta", "novaconta", "cadastrarse"]);
        let policy_language = owned_list(
            &[
                "mínimo de",
                "caracteres",
                "número",
                "especial",
                "letra maiúscula",
                "complexidade",
                "requisitos de senha",
                "password must",
                "at least",
                "uppercase",
                "lowercase",
                "digit",
                "special character",
            ],
        );
        let strength_libraries = owned_list(
            &["zxcvbn", "pwstrength", "password-strength", "strength-meter"],
        );
        let strength_script_terms = owned_list(&["password", "strength"]);
        Keywords {
            privacy,
            refusal,
            signup,
            policy_language,
            strength_libraries,
            strength_script_terms,
        }
    }

    /// Whether `text` (lower-cased page text) discloses a privacy policy.
    pub fn has_privacy_policy(&self, text: &str) -> (r: bool)
        ensures
            r == self.privacy_in(text@),
    {
        contains_any_word(text, &self.privacy)
    }

    /// Whether `text` (lower-cased page text or banner text) offers to refuse cookies.
    pub fn has_cookie_refusal(&self, text: &str) -> (r: bool)
        ensures
            r == self.refusal_in(text@),
    {
        contains_any_word(text, &self.refusal)
    }

    /// Whether `url` looks like a sign-up page: a keyword occurs in its normalized form.
    pub fn looks_like_signup(&self, url: &str) -> (r: bool)
        ensures
            r == self.signup_url(url@),
    {
        let n = normalize(url);
        let mut i: usize = 0;
        while i < self.signup.len()
            invariant
                n@ == normalized(url@),
                i <= self.signup@.len(),
                forall|j: int|
                    0 <= j < i ==> !contains(n@, #[trigger] views_of(self.signup@)[j]),
            decreases self.signup@.len() - i,
        {
            let w = to_chars(self.signup[i].as_str());
            if contains_chars(&n, &w) {
                assert(views_of(self.signup@)[i as int] == w@);
                return true;
            }
            i = i + 1;
        }
        false
    }

    /// Whether `text` (lower-cased page text) states a password policy.
    pub fn has_policy_language(&self, text: &str) -> (r: bool)
        ensures
            r == self.policy_language_in(text@),
    {
        contains_any_word(text, &self.policy_language)
    }

    /// Whether a script address (lower-cased) names a password-strength library.
    pub fn names_strength_library(&self, src: &str) -> (r: bool)
        ensures
            r == self.strength_library_in(src@),
    {
        contains_any_word(src, &self.strength_libraries)
    }

    /// Whether an inline script's text (lower-cased) reads as a password-strength check.
    pub fn is_strength_script(&self, text: &str) -> (r: bool)
        ensures
            r == self.strength_script_in(text@),
    {
        contains_all_words(text, &self.strength_script_terms)
    }
}

/// Whether no cookie was set by the observed response: the site did not drop
/// cookies before asking for consent. Essential cookies are not told apart.
pub fn check_cookie_consent(set_cookies: &Vec<String>) -> (r: bool)
    ensures
        r == (set_cookies@.len() == 0),
{
    set_cookies.len() == 0
}

} // verus!
