//! The results of a crawl run: one named verdict per compliance signal.

use vstd::prelude::*;

verus! {

/// Name of the verdict given when the seed URL cannot be processed or reached.
pub const CHECK_URL_ERROR: &'static str = "Erro ao processar URL";

/// Name of the verdict given when the site's robots.txt forbids crawling.
pub const CHECK_CRAWL_DENIED: &'static str = "Website inserido não permite a ação de webcrawlers";

/// Name of the privacy-policy verdict.
pub const CHECK_PRIVACY_POLICY: &'static str = "Política de Privacidade";

/// Name of the verdict on an option to refuse cookies.
pub const CHECK_COOKIE_REFUSAL: &'static str = "Opção de recusar coleta de Cookies";

/// Name of the verdict on cookies being set only after consent.
pub const CHECK_COOKIE_CONSENT: &'static str = "Coleta cookies somente após consentimento do usuário";

/// Name of the password-policy verdict.
pub const CHECK_PASSWORD_POLICY: &'static str = "Tem uma política de força de senha";

/// One verdict of a crawl run.
#[derive(Clone, Debug)]
pub struct CheckResult {
    /// Name of the compliance signal.
    pub check: String,
    /// Whether the site passed.
    pub passed: bool,
    /// Why no verdict could be reached, where that is so.
    pub error: Option<String>,
}

/// The mathematical value of a `CheckResult`.
pub struct CheckView {
    pub check: Seq<char>,
    pub passed: bool,
    pub error: Option<Seq<char>>,
}

impl View for CheckResult {
    type V = CheckView;

    open spec fn view(&self) -> CheckView {
        CheckView {
            check: self.check@,
            passed: self.passed,
            error: match self.error {
                Some(e) => Some(e@),
                None => None,
            },
        }
    }
}

/// The views of a list of verdicts.
pub open spec fn check_views(v: Seq<CheckResult>) -> Seq<CheckView> {
    v.map_values(|c: CheckResult| c@)
}

/// A verdict named `name` with no error.
pub open spec fn verdict_view(name: Seq<char>, passed: bool) -> CheckView {
    CheckView { check: name, passed, error: None }
}

impl CheckResult {
    /// A verdict named `name`, with no error.
    pub fn verdict(name: &str, passed: bool) -> (r: CheckResult)
        ensures
            r@ == verdict_view(name@, passed),
    {
        CheckResult { check: name.to_owned(), passed, error: None }
    }

    /// A failed verdict named `name` that carries the error `message`.
    pub fn failure(name: &str, message: String) -> (r: CheckResult)
        ensures
            r@ == (CheckView { check: name@, passed: false, error: Some(message@) }),
    {
        CheckResult { check: name.to_owned(), passed: false, error: Some(message) }
    }

    /// A copy of this verdict.
    pub fn duplicate(&self) -> (r: CheckResult)
        ensures
            r@ == self@,
    {
        let error = match &self.error {
            Some(e) => Some(e.clone()),
            None => None,
        };
        CheckResult { check: self.check.clone(), passed: self.passed, error }
    }
}

/// A copy of a list of verdicts.
pub fn duplicate_all(v: &Vec<CheckResult>) -> (r: Vec<CheckResult>)
    ensures
        check_views(r@) == check_views(v@),
{
    let mut r: Vec<CheckResult> = Vec::new();
    let mut i: usize = 0;
    while i < v.len()
        invariant
            i <= v@.len(),
            check_views(r@) =~= check_views(v@.subrange(0, i as int)),
        decreases v@.len() - i,
    {
        let c = v[i].duplicate();
        let ghost before = r@;
        r.push(c);
        assert(check_views(r@) =~= check_views(before).push(v@[i as int]@));
        assert(v@.subrange(0, i + 1) =~= v@.subrange(0, i as int).push(v@[i as int]));
        i = i + 1;
    }
    assert(v@.subrange(0, v@.len() as int) =~= v@);
    r
}

} // verus!
