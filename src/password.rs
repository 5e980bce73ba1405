//! The password-policy check of a sign-up page.

use vstd::prelude::*;
use crate::compliance::Keywords;
use crate::html::{select_attr, select_text, selected_attrs_of, selected_texts_of};
use crate::page::{page_text, page_text_of};
use crate::text::{lower_of, lowercase, opt_views_of, views_of};

verus! {

/// The CSS selector of password fields.
pub const PASSWORD_INPUT_SELECTOR: &'static str = "input[type=password]";

/// The CSS selector of scripts.
pub const SCRIPT_SELECTOR: &'static str = "script";

/// The outcome of checking one page for a password policy.
///
/// `passed_checks` means something only where `password_input` holds and
/// `error` does not.
#[derive(Clone, Copy, Debug, PartialEq, Eq, Structural)]
pub struct PasswordResult {
    /// The page has a password field.
    pub password_input: bool,
    /// The page shows a password-strength policy.
    pub passed_checks: bool,
    /// The page could not be fetched or read.
    pub error: bool,
}

impl PasswordResult {
    /// The check found a password field and met no error: its verdict counts.
    pub open spec fn confirmed(self) -> bool {
        self.password_input && !self.error
    }
}

/// The result of a check whose page could not be fetched or read.
pub open spec fn fetch_error_result() -> PasswordResult {
    PasswordResult { password_input: false, passed_checks: false, error: true }
}

/// The value is present and not empty.
pub open spec fn declared(o: Option<Seq<char>>) -> bool {
    o is Some && o->0.len() > 0
}

/// Some value of `attrs` is present and not empty.
pub open spec fn any_declared(attrs: Seq<Option<Seq<char>>>) -> bool {
    exists|i: int| 0 <= i < attrs.len() && declared(#[trigger] attrs[i])
}

/// A password field of `html` declares a minimum length or a pattern.
pub open spec fn declares_constraint(html: Seq<char>) -> bool {
    any_declared(selected_attrs_of(html, PASSWORD_INPUT_SELECTOR@, "minlength"@))
        || any_declared(selected_attrs_of(html, PASSWORD_INPUT_SELECTOR@, "pattern"@))
}

/// Some script source in `sources` names a password-strength library.
pub open spec fn any_strength_library(kw: Keywords, sources: Seq<Option<Seq<char>>>) -> bool {
    exists|i: int|
        0 <= i < sources.len() && (#[trigger] sources[i]) is Some && kw.strength_library_in(
            lower_of(sources[i]->0),
        )
}

/// Some inline script text in `texts` reads as a password-strength check.
pub open spec fn any_strength_script(kw: Keywords, texts: Seq<Seq<char>>) -> bool {
    exists|i: int| 0 <= i < texts.len() && kw.strength_script_in(lower_of(#[trigger] texts[i]))
}

/// `html` checks password strength in a script, by a known library or inline.
pub open spec fn has_strength_script(kw: Keywords, html: Seq<char>) -> bool {
    any_strength_library(kw, selected_attrs_of(html, SCRIPT_SELECTOR@, "src"@))
        || any_strength_script(kw, selected_texts_of(html, SCRIPT_SELECTOR@))
}

/// `html` shows a password policy: a declared constraint, a strength-checking
/// script, or policy language in its text.
pub open spec fn shows_policy(kw: Keywords, html: Seq<char>) -> bool {
    declares_constraint(html) || has_strength_script(kw, html) || kw.policy_language_in(
        page_text_of(html),
    )
}

/// The outcome of checking the page whose body is `html`, or `None` where the
/// page could not be fetched or read.
pub open spec fn password_check_of(kw: Keywords, html: Option<Seq<char>>) -> PasswordResult {
    match html {
        None => fetch_error_result(),
        Some(h) => if selected_attrs_of(h, PASSWORD_INPUT_SELECTOR@, "type"@).len() == 0 {
            PasswordResult { password_input: false, passed_checks: false, error: false }
        } else {
            PasswordResult { password_input: true, passed_checks: shows_policy(kw, h), error: false }
        },
    }
}

fn any_declared_value(attrs: &Vec<Option<String>>) -> (r: bool)
    ensures
        r == any_declared(opt_views_of(attrs@)),
{
    let ghost all = opt_views_of(attrs@);
    let mut i: usize = 0;
    while i < attrs.len()
        invariant
            i <= attrs@.len(),
            all == opt_views_of(attrs@),
            forall|j: int| 0 <= j < i ==> !declared(#[trigger] all[j]),
        decreases attrs@.len() - i,
    {
        match &attrs[i] {
            Some(v) => {
                if !v.as_str().is_empty() {
                    assert(declared(all[i as int]));
                    return true;
                }
            },
            None => {},
        }
        i = i + 1;
    }
    false
}

fn any_library_source(kw: &Keywords, sources: &Vec<Option<String>>) -> (r: bool)
    ensures
        r == any_strength_library(*kw, opt_views_of(sources@)),
{
    let ghost all = opt_views_of(sources@);
    let mut i: usize = 0;
    while i < sources.len()
        invariant
            i <= sources@.len(),
            all == opt_views_of(sources@),
            forall|j: int|
                0 <= j < i ==> !((#[trigger] all[j]) is Some && kw.strength_library_in(
                    lower_of(all[j]->0),
                )),
        decreases sources@.len() - i,
    {
        match &sources[i] {
            Some(src) => {
                let lowered = lowercase(src.as_str());
                if kw.names_strength_library(lowered.as_str()) {
                    assert(all[i as int] is Some);
                    return true;
                }
            },
            None => {},
        }
        i = i + 1;
    }
    false
}

fn any_strength_text(kw: &Keywords, texts: &Vec<String>) -> (r: bool)
    ensures
        r == any_strength_script(*kw, views_of(texts@)),
{
    let ghost all = views_of(texts@);
    let mut i: usize = 0;
    while i < texts.len()
        invariant
            i <= texts@.len(),
            all == views_of(texts@),
            forall|j: int| 0 <= j < i ==> !kw.strength_script_in(lower_of(#[trigger] all[j])),
        decreases texts@.len() - i,
    {
        let lowered = lowercase(texts[i].as_str());
        if kw.is_strength_script(lowered.as_str()) {
            assert(kw.strength_script_in(lower_of(all[i as int])));
            return true;
        }
        i = i + 1;
    }
    false
}

/// Checks the page whose body is `html` (`None` where it could not be fetched or
/// read) for a password-strength policy.
///
/// A page without a password field has no policy to check, which is no error.
/// Otherwise the policy shows in a declared constraint on the field, in a
/// strength-checking script, or in policy language in the page text.
pub fn password_has_basic_checks(kw: &Keywords, html: Option<&str>) -> (r: PasswordResult)
    ensures
        r == password_check_of(
            *kw,
            match html {
                Some(h) => Some(h@),
                None => None,
            },
        ),
{
    let h = match html {
        Some(h) => h,
        None => {
            return PasswordResult { password_input: false, passed_checks: false, error: true };
        },
    };
    let fields = select_attr(h, PASSWORD_INPUT_SELECTOR, "type");
    if fields.len() == 0 {
        assert(opt_views_of(fields@).len() == 0);
        return PasswordResult { password_input: false, passed_checks: false, error: false };
    }
    assert(opt_views_of(fields@).len() > 0);
    let minlength = select_attr(h, PASSWORD_INPUT_SELECTOR, "minlength");
    let pattern = select_attr(h, PASSWORD_INPUT_SELECTOR, "pattern");
    let sources = select_attr(h, SCRIPT_SELECTOR, "src");
    let scripts = select_text(h, SCRIPT_SELECTOR);
    let passed = any_declared_value(&minlength) || any_declared_value(&pattern)
        || any_library_source(kw, &sources) || any_strength_text(kw, &scripts)
        || kw.has_policy_language(page_text(h).as_str());
    PasswordResult { password_input: true, passed_checks: passed, error: false }
}

} // verus!
