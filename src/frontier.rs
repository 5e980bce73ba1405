//! The crawl frontier: a breadth-first, same-host traversal under a page budget,
//! written as a state machine.
//!
//! The machine decides; its driver performs. The driver asks `next_step` what to
//! do, performs it (fetch a robots.txt, fetch a page), and hands the outcome back
//! through `on_event`, until the step is `Finished`.
//!
//! Policies:
//! - The seed's robots.txt is asked for once, before anything else; the seed
//!   is then the first page visited, and is fetched once like every other.
//! - URLs are compared by their serialization as the URL parser writes it; no
//!   further normalization (query order, trailing slash) takes place.
//! - A URL is admitted to the frontier at most once, and only while the pages
//!   visited plus those waiting stay under the budget; every admitted URL is
//!   visited in admission order, so nothing beyond the budget is ever queued.
//! - A visited URL counts against the budget whether or not robots.txt lets
//!   the crawler fetch it.
//! - The password policy of the first sign-up page whose check finds a password
//!   field without error is the one reported.
//! - Privacy-policy and refusal signals hold once any fetched page shows them;
//!   cookie consent reflects the latest page that answered.

use vstd::prelude::*;
use crate::address::{parse_url, url_host, url_host_of, url_join_of, url_parse_of, url_path_of};
use crate::compliance::{check_cookie_consent, Keywords};
use crate::page::{in_scope, links_of, page_links, page_text, page_text_of};
use crate::password::{password_check_of, password_has_basic_checks, PasswordResult};
use crate::report::{
    check_views, duplicate_all, verdict_view, CheckResult, CheckView, CHECK_COOKIE_CONSENT,
    CHECK_COOKIE_REFUSAL, CHECK_CRAWL_DENIED, CHECK_PASSWORD_POLICY, CHECK_PRIVACY_POLICY,
    CHECK_URL_ERROR,
};
use crate::robots::{check_robots, robots_allow_of, robots_url, CRAWLER_AGENT, ROBOTS_PATH};
use crate::text::{opt_view, views_of};

verus! {

/// The page budget of a crawl run that fetches pages over plain HTTP.
pub const DEFAULT_PAGE_BUDGET: usize = 30;

/// The error given where a seed URL has no place for a robots.txt.
pub const NO_ROBOTS_LOCATION: &'static str = "URL sem localização para robots.txt";

/// Where a crawl run stands.
#[derive(Clone, Copy, Debug, PartialEq, Eq, Structural)]
pub enum Phase {
    /// Waiting for the seed origin's robots.txt.
    SeedRobots,
    /// Waiting for the robots.txt of the URL being visited.
    Robots,
    /// Waiting for the page being visited.
    Page,
    /// Nothing is pending; the next step is to be decided.
    Ready,
    /// The run is over.
    Done,
}

/// What the driver is to do next.
pub enum Step {
    /// Fetch the robots.txt at `robots_url`; answer with `RobotsFetched` or `RobotsUnreachable`.
    CheckRobots { robots_url: String },
    /// Fetch the page at `url`; answer with `PageLoaded` or `PageUnreachable`.
    Fetch { url: String },
    /// The run is over, with these results.
    Finished { results: Vec<CheckResult> },
}

/// What the driver reports back.
pub enum Event {
    /// The robots.txt was fetched; this is its text.
    RobotsFetched { text: String },
    /// The robots.txt could not be fetched.
    RobotsUnreachable { reason: String },
    /// The page answered: the values of its `Set-Cookie` headers, and its body
    /// where it could be read as text.
    PageLoaded { set_cookies: Vec<String>, body: Option<String> },
    /// The page could not be fetched.
    PageUnreachable { reason: String },
}

/// What one fetched page contributed, as the run recorded it.
pub struct PageRecord {
    /// The page's URL.
    pub url: Seq<char>,
    /// The URL looks like a sign-up page.
    pub signup: bool,
    /// The password check of the page, where `signup` holds.
    pub password: PasswordResult,
    /// Whether the response set no cookie; none where the page did not answer.
    pub no_cookies: Option<bool>,
    /// The page body, where the page answered with readable text.
    pub body: Option<Seq<char>>,
}

/// The record of a fetched page.
pub open spec fn record_of(
    kw: Keywords,
    url: Seq<char>,
    no_cookies: Option<bool>,
    body: Option<Seq<char>>,
) -> PageRecord {
    let signup = kw.signup_url(url);
    PageRecord {
        url,
        signup,
        password: if signup {
            password_check_of(kw, body)
        } else {
            PasswordResult { password_input: false, passed_checks: false, error: false }
        },
        no_cookies,
        body,
    }
}

/// Some recorded page discloses a privacy policy.
pub open spec fn privacy_found(kw: Keywords, pages: Seq<PageRecord>) -> bool
    decreases pages.len(),
{
    if pages.len() == 0 {
        false
    } else {
        privacy_found(kw, pages.drop_last()) || (pages.last().body is Some && kw.privacy_in(
            page_text_of(pages.last().body->0),
        ))
    }
}

/// Some recorded page offers to refuse cookies.
pub open spec fn refusal_found(kw: Keywords, pages: Seq<PageRecord>) -> bool
    decreases pages.len(),
{
    if pages.len() == 0 {
        false
    } else {
        refusal_found(kw, pages.drop_last()) || (pages.last().body is Some && kw.refusal_in(
            page_text_of(pages.last().body->0),
        ))
    }
}

/// The latest recorded page that answered set no cookie; false where none answered.
pub open spec fn latest_no_cookies(pages: Seq<PageRecord>) -> bool
    decreases pages.len(),
{
    if pages.len() == 0 {
        false
    } else {
        match pages.last().no_cookies {
            Some(b) => b,
            None => latest_no_cookies(pages.drop_last()),
        }
    }
}

/// The password check of the first recorded sign-up page whose check found a
/// password field without error.
pub open spec fn first_confirmed(pages: Seq<PageRecord>) -> Option<PasswordResult>
    decreases pages.len(),
{
    if pages.len() == 0 {
        None
    } else {
        match first_confirmed(pages.drop_last()) {
            Some(p) => Some(p),
            None => if pages.last().signup && pages.last().password.confirmed() {
                Some(pages.last().password)
            } else {
                None
            },
        }
    }
}

/// The results of a run that was allowed to crawl: privacy policy, cookie
/// refusal, cookie consent, and the password policy where one was confirmed.
pub open spec fn report_of(
    privacy: bool,
    refusal: bool,
    consent: bool,
    password: Option<PasswordResult>,
) -> Seq<CheckView> {
    let base = seq![
        verdict_view(CHECK_PRIVACY_POLICY@, privacy),
        verdict_view(CHECK_COOKIE_REFUSAL@, refusal),
        verdict_view(CHECK_COOKIE_CONSENT@, consent),
    ];
    match password {
        Some(p) => base.push(verdict_view(CHECK_PASSWORD_POLICY@, p.passed_checks)),
        None => base,
    }
}

/// `seen` after offering it `links` in order: a link is admitted where it has
/// the base host, is not yet admitted, and the budget leaves room.
pub open spec fn enqueue_links(
    seen: Seq<Seq<char>>,
    base_host: Option<Seq<char>>,
    budget: nat,
    links: Seq<Seq<char>>,
) -> Seq<Seq<char>>
    decreases links.len(),
{
    if links.len() == 0 {
        seen
    } else {
        let s = enqueue_links(seen, base_host, budget, links.drop_last());
        let u = links.last();
        if url_host_of(u) == base_host && !s.contains(u) && s.len() < budget {
            s.push(u)
        } else {
            s
        }
    }
}

/// The mathematical state of a crawl run.
pub struct CrawlView {
    pub keywords: Keywords,
    pub budget: nat,
    /// The seed URL as the parser serialized it.
    pub seed: Seq<char>,
    /// The seed's host: the scope of the crawl.
    pub base_host: Option<Seq<char>>,
    /// Every URL admitted to the frontier, in admission order; the first `next`
    /// of them are visited, the rest wait.
    pub seen: Seq<Seq<char>>,
    pub next: nat,
    /// The positions in `seen` of the URLs fetched, in order.
    pub fetched_at: Seq<int>,
    /// What each answered fetch contributed, in order.
    pub pages: Seq<PageRecord>,
    pub privacy: bool,
    pub refusal: bool,
    pub consent: bool,
    pub password: Option<PasswordResult>,
    pub phase: Phase,
    /// The robots.txt location asked for, while one is pending.
    pub robots_at: Seq<char>,
    /// The results, once the run is over.
    pub outcome: Seq<CheckView>,
}

impl CrawlView {
    /// The URLs fetched, in order.
    pub open spec fn fetched(self) -> Seq<Seq<char>> {
        self.fetched_at.map_values(|i: int| self.seen[i])
    }

    /// The URL being visited.
    pub open spec fn current(self) -> Seq<char> {
        self.seen[self.next - 1]
    }

    /// The invariant of a crawl run.
    pub open spec fn wf(self) -> bool {
        &&& self.seen.len() <= self.budget
        &&& self.next <= self.seen.len()
        &&& self.seen.no_duplicates()
        &&& self.base_host == url_host_of(self.seed)
        &&& forall|i: int| 0 <= i < self.seen.len() ==> url_host_of(#[trigger] self.seen[i]) == self.base_host
        &&& self.seen.len() > 0 ==> self.seen[0] == self.seed
        &&& self.seen.len() > 0 ==> self.fetched_at.len() > 0 && self.fetched_at[0] == 0
        &&& self.fetched_at.len() > 0 ==> self.fetched_at[0] == 0
        &&& forall|a: int, b: int|
            0 <= a < b < self.fetched_at.len() ==> self.fetched_at[a] < self.fetched_at[b]
        &&& forall|a: int|
            0 <= a < self.fetched_at.len() ==> 0 <= #[trigger] self.fetched_at[a] < self.next
        &&& self.pages.len() == if self.phase == Phase::Page {
            self.fetched_at.len() - 1
        } else {
            self.fetched_at.len() as int
        }
        &&& forall|a: int|
            0 <= a < self.pages.len() ==> (#[trigger] self.pages[a]) == record_of(
                self.keywords,
                self.seen[self.fetched_at[a]],
                self.pages[a].no_cookies,
                self.pages[a].body,
            )
        &&& self.phase == Phase::Page ==> self.fetched_at.len() > 0 && self.fetched_at.last()
            == self.next - 1
        &&& self.phase == Phase::Robots ==> self.next > 0 && forall|a: int|
            0 <= a < self.fetched_at.len() ==> #[trigger] self.fetched_at[a] < self.next - 1
        &&& self.phase == Phase::SeedRobots ==> self.seen.len() == 0
        &&& self.privacy == privacy_found(self.keywords, self.pages)
        &&& self.refusal == refusal_found(self.keywords, self.pages)
        &&& self.consent == latest_no_cookies(self.pages)
        &&& self.password == first_confirmed(self.pages)
    }
}

/// One crawl run.
pub struct Crawler {
    keywords: Keywords,
    budget: usize,
    seed: String,
    base_host: Option<String>,
    seen: Vec<String>,
    next: usize,
    privacy: bool,
    refusal: bool,
    consent: bool,
    password: Option<PasswordResult>,
    phase: Phase,
    robots_at: String,
    outcome: Vec<CheckResult>,
    fetched_at: Ghost<Seq<int>>,
    pages: Ghost<Seq<PageRecord>>,
}

impl View for Crawler {
    type V = CrawlView;

    closed spec fn view(&self) -> CrawlView {
        CrawlView {
            keywords: self.keywords,
            budget: self.budget as nat,
            seed: self.seed@,
            base_host: opt_view(self.base_host),
            seen: views_of(self.seen@),
            next: self.next as nat,
            fetched_at: self.fetched_at@,
            pages: self.pages@,
            privacy: self.privacy,
            refusal: self.refusal,
            consent: self.consent,
            password: self.password,
            phase: self.phase,
            robots_at: self.robots_at@,
            outcome: check_views(self.outcome@),
        }
    }
}

/// Whether `a` and `b` are the same run but for `seen`.
pub open spec fn same_but_seen(a: CrawlView, b: CrawlView) -> bool {
    a == (CrawlView { seen: a.seen, ..b })
}

impl Crawler {
    /// Where the run stands.
    pub fn phase(&self) -> (r: Phase)
        ensures
            r == self@.phase,
    {
        self.phase
    }

    /// How many URLs the run has visited so far.
    pub fn pages_visited(&self) -> (r: usize)
        ensures
            r == self@.next,
    {
        self.next
    }
}

impl Crawler {
    /// Starts a crawl run from `seed` with `budget` pages, using `keywords`.
    ///
    /// A seed that does not parse as a URL ends the run at once, with a single
    /// failed result that carries the parser's error. Otherwise the first step
    /// asks for the seed origin's robots.txt.
    pub fn new(seed: &str, budget: usize, keywords: Keywords) -> (r: Crawler)
        ensures
            r@.wf(),
            r@.keywords == keywords,
            r@.budget == budget,
            r@.seen.len() == 0,
            r@.fetched_at.len() == 0,
            url_parse_of(seed@) is None ==> {
                &&& r@.phase == Phase::Done
                &&& r@.outcome.len() == 1
                &&& r@.outcome[0].check == CHECK_URL_ERROR@
                &&& !r@.outcome[0].passed
                &&& r@.outcome[0].error is Some
            },
            url_parse_of(seed@) is Some ==> r@.seed == url_parse_of(seed@)->0,
            url_parse_of(seed@) is Some && url_join_of(r@.seed, ROBOTS_PATH@) is Some ==> r@.phase
                == Phase::SeedRobots && r@.robots_at == url_join_of(r@.seed, ROBOTS_PATH@)->0,
            url_parse_of(seed@) is Some && url_join_of(r@.seed, ROBOTS_PATH@) is None ==> r@.phase
                == Phase::Done && r@.outcome == seq![
                CheckView { check: CHECK_URL_ERROR@, passed: false, error: Some(NO_ROBOTS_LOCATION@) },
            ],
    {
        let (seed_text, outcome, phase, robots_at) = match parse_url(seed) {
            Err(e) => (seed.to_owned(), vec![CheckResult::failure(CHECK_URL_ERROR, e)], Phase::Done, String::new()),
            Ok(t) => match robots_url(t.as_str()) {
                Some(r) => (t, Vec::new(), Phase::SeedRobots, r),
                None => (t, vec![CheckResult::failure(CHECK_URL_ERROR, NO_ROBOTS_LOCATION.to_owned())], Phase::Done, String::new()),
            },
        };
        let base_host = url_host(seed_text.as_str());
        let r = Crawler {
            keywords,
            budget,
            seed: seed_text,
            base_host,
            seen: Vec::new(),
            next: 0,
            privacy: false,
            refusal: false,
            consent: false,
            password: None,
            phase,
            robots_at,
            outcome,
            fetched_at: Ghost(Seq::empty()),
            pages: Ghost(Seq::empty()),
        };
        proof {
            assert(views_of(r.seen@) =~= Seq::<Seq<char>>::empty());
        }
        r
    }

    /// Whether `url` was already admitted to the frontier.
    fn has_seen(&self, url: &String) -> (r: bool)
        ensures
            r == self@.seen.contains(url@),
    {
        let mut i: usize = 0;
        while i < self.seen.len()
            invariant
                i <= self.seen@.len(),
                forall|k: int| 0 <= k < i ==> self@.seen[k] != url@,
            decreases self.seen@.len() - i,
        {
            if self.seen[i] == *url {
                assert(self@.seen[i as int] == url@);
                return true;
            }
            i = i + 1;
        }
        false
    }

    /// Offers the frontier the links of the page being visited.
    fn enqueue(&mut self, links: &Vec<String>)
        requires
            old(self)@.wf(),
            old(self)@.phase == Phase::Page,
        ensures
            final(self)@.wf(),
            final(self)@.seen == enqueue_links(
                old(self)@.seen,
                old(self)@.base_host,
                old(self)@.budget,
                views_of(links@),
            ),
            same_but_seen(final(self)@, old(self)@),
            final(self)@.seen.len() >= old(self)@.seen.len(),
            forall|k: int| 0 <= k < old(self)@.seen.len() ==> final(self)@.seen[k] == old(self)@.seen[k],
    {
        let ghost start = self@;
        let ghost all = views_of(links@);
        let mut i: usize = 0;
        while i < links.len()
            invariant
                i <= links@.len(),
                all == views_of(links@),
                start.wf(),
                start.phase == Phase::Page,
                self@.wf(),
                same_but_seen(self@, start),
                self@.seen == enqueue_links(start.seen, start.base_host, start.budget, all.subrange(0, i as int)),
                self@.seen.len() >= start.seen.len(),
                forall|k: int| 0 <= k < start.seen.len() ==> self@.seen[k] == start.seen[k],
            decreases links@.len() - i,
        {
            proof {
                assert(all.subrange(0, i + 1).drop_last() =~= all.subrange(0, i as int));
            }
            let u = &links[i];
            if self.seen.len() < self.budget && in_scope(u.as_str(), &self.base_host)
                && !self.has_seen(u) {
                let ghost before = self@;
                self.seen.push(u.clone());
                proof {
                    assert(self@.seen =~= before.seen.push(u@));
                    assert(self@.seen.no_duplicates());
                    assert forall|a: int| 0 <= a < self@.pages.len() implies (#[trigger] self@.pages[a]) == record_of(
                        self@.keywords,
                        self@.seen[self@.fetched_at[a]],
                        self@.pages[a].no_cookies,
                        self@.pages[a].body,
                    ) by {
                        assert(before.pages[a] == self@.pages[a]);
                    }
                }
            }
            i = i + 1;
        }
        proof {
            assert(all.subrange(0, links@.len() as int) =~= all);
        }
    }
}


impl Crawler {
    /// Ends the run with the results of the signals gathered.
    fn finish(&mut self)
        requires
            old(self)@.wf(),
            old(self)@.phase == Phase::Ready || old(self)@.phase == Phase::SeedRobots,
            old(self)@.fetched_at.len() == old(self)@.pages.len(),
        ensures
            final(self)@.wf(),
            final(self)@ == (CrawlView {
                phase: Phase::Done,
                outcome: report_of(
                    old(self)@.privacy,
                    old(self)@.refusal,
                    old(self)@.consent,
                    old(self)@.password,
                ),
                ..old(self)@
            }),
    {
        let mut results: Vec<CheckResult> = Vec::new();
        results.push(CheckResult::verdict(CHECK_PRIVACY_POLICY, self.privacy));
        results.push(CheckResult::verdict(CHECK_COOKIE_REFUSAL, self.refusal));
        results.push(CheckResult::verdict(CHECK_COOKIE_CONSENT, self.consent));
        match self.password {
            Some(p) => {
                results.push(CheckResult::verdict(CHECK_PASSWORD_POLICY, p.passed_checks));
            },
            None => {},
        }
        self.outcome = results;
        self.phase = Phase::Done;
        proof {
            assert(check_views(self.outcome@) =~= report_of(
                self.privacy,
                self.refusal,
                self.consent,
                self.password,
            ));
        }
    }

    /// What the driver is to do next.
    ///
    /// While an answer is pending, the pending request is repeated. Otherwise the
    /// next waiting URL is visited, which counts against the budget, and its
    /// robots.txt is asked for; a URL with no place for a robots.txt is passed
    /// over, unfetched. With no URL waiting the run finishes with its results.
    pub fn next_step(&mut self) -> (r: Step)
        requires
            old(self)@.wf(),
        ensures
            final(self)@.wf(),
            old(self)@.phase != Phase::Ready ==> final(self)@ == old(self)@,
            old(self)@.phase == Phase::Done ==> (r matches Step::Finished { results } && check_views(results@) == old(self)@.outcome),
            old(self)@.phase == Phase::SeedRobots || old(self)@.phase == Phase::Robots ==> (r matches Step::CheckRobots { robots_url } && robots_url@ == old(self)@.robots_at),
            old(self)@.phase == Phase::Page ==> (r matches Step::Fetch { url } && url@ == old(self)@.current()),
            old(self)@.phase == Phase::Ready ==> {
                &&& final(self)@.seen == old(self)@.seen
                &&& final(self)@.pages == old(self)@.pages
                &&& final(self)@.fetched_at == old(self)@.fetched_at
                &&& old(self)@.next <= final(self)@.next
                &&& forall|j: int| old(self)@.next <= j < final(self)@.next - 1 ==> url_join_of(#[trigger] old(self)@.seen[j], ROBOTS_PATH@) is None
                &&& r is Fetch ==> false
                &&& r matches Step::CheckRobots { robots_url } ==> {
                    &&& final(self)@.phase == Phase::Robots
                    &&& old(self)@.next < final(self)@.next
                    &&& url_join_of(final(self)@.current(), ROBOTS_PATH@) == Some(robots_url@)
                    &&& final(self)@.robots_at == robots_url@
                }
                &&& r matches Step::Finished { results } ==> {
                    &&& final(self)@.phase == Phase::Done
                    &&& final(self)@.next == old(self)@.seen.len()
                    &&& final(self)@.outcome == report_of(old(self)@.privacy, old(self)@.refusal, old(self)@.consent, old(self)@.password)
                    &&& check_views(results@) == final(self)@.outcome
                    &&& forall|j: int| old(self)@.next <= j < old(self)@.seen.len() ==> url_join_of(#[trigger] old(self)@.seen[j], ROBOTS_PATH@) is None
                }
            },
    {
        match self.phase {
            Phase::Done => Step::Finished { results: duplicate_all(&self.outcome) },
            Phase::SeedRobots => Step::CheckRobots { robots_url: self.robots_at.clone() },
            Phase::Robots => Step::CheckRobots { robots_url: self.robots_at.clone() },
            Phase::Page => Step::Fetch { url: self.seen[self.next - 1].clone() },
            Phase::Ready => {
                let ghost start = self@;
                while self.next < self.seen.len()
                    invariant
                        self@.wf(),
                        self@.phase == Phase::Ready,
                        start == old(self)@,
                        self@ == (CrawlView { next: self@.next, ..start }),
                        start.next <= self@.next,
                        forall|j: int| start.next <= j < self@.next ==> url_join_of(#[trigger] start.seen[j], ROBOTS_PATH@) is None,
                    decreases self@.seen.len() - self@.next,
                {
                    self.next = self.next + 1;
                    match robots_url(self.seen[self.next - 1].as_str()) {
                        Some(r) => {
                            self.robots_at = r;
                            self.phase = Phase::Robots;
                            return Step::CheckRobots { robots_url: self.robots_at.clone() };
                        },
                        None => {},
                    }
                }
                self.finish();
                Step::Finished { results: duplicate_all(&self.outcome) }
            },
        }
    }
}


/// The view of an optional string slice.
pub open spec fn str_view(o: Option<&str>) -> Option<Seq<char>> {
    match o {
        Some(s) => Some(s@),
        None => None,
    }
}

/// The state after the page being visited answered (`no_cookies` is some) or
/// failed (none), with `body` where it could be read.
pub open spec fn page_answered(old: CrawlView, no_cookies: Option<bool>, body: Option<Seq<char>>) -> CrawlView {
    let text_shows_privacy = body is Some && old.keywords.privacy_in(page_text_of(body->0));
    let text_shows_refusal = body is Some && old.keywords.refusal_in(page_text_of(body->0));
    let rec = record_of(old.keywords, old.current(), no_cookies, body);
    CrawlView {
        seen: match body {
            Some(h) => enqueue_links(old.seen, old.base_host, old.budget, links_of(old.current(), h)),
            None => old.seen,
        },
        pages: old.pages.push(rec),
        privacy: old.privacy || text_shows_privacy,
        refusal: old.refusal || text_shows_refusal,
        consent: match no_cookies {
            Some(b) => b,
            None => old.consent,
        },
        password: match old.password {
            Some(p) => Some(p),
            None => if rec.signup && rec.password.confirmed() {
                Some(rec.password)
            } else {
                None
            },
        },
        phase: Phase::Ready,
        ..old
    }
}

impl Crawler {
    /// Takes in the answer of the page being visited.
    fn answer_page(&mut self, no_cookies: Option<bool>, body: Option<&str>)
        requires
            old(self)@.wf(),
            old(self)@.phase == Phase::Page,
        ensures
            final(self)@.wf(),
            final(self)@ == page_answered(old(self)@, no_cookies, str_view(body)),
    {
        let ghost start = self@;
        let cur: String = self.seen[self.next - 1].clone();
        match body {
            Some(h) => {
                let links = page_links(cur.as_str(), h);
                self.enqueue(&links);
            },
            None => {},
        }
        let signup = self.keywords.looks_like_signup(cur.as_str());
        let check = if signup {
            password_has_basic_checks(&self.keywords, body)
        } else {
            PasswordResult { password_input: false, passed_checks: false, error: false }
        };
        if self.password.is_none() && signup && check.password_input && !check.error {
            self.password = Some(check);
        }
        match no_cookies {
            Some(b) => {
                self.consent = b;
            },
            None => {},
        }
        match body {
            Some(h) => {
                let text = page_text(h);
                if self.keywords.has_privacy_policy(text.as_str()) {
                    self.privacy = true;
                }
                if self.keywords.has_cookie_refusal(text.as_str()) {
                    self.refusal = true;
                }
            },
            None => {},
        }
        let ghost rec = record_of(start.keywords, cur@, no_cookies, str_view(body));
        self.pages = Ghost(self.pages@.push(rec));
        self.phase = Phase::Ready;
        proof {
            assert(self@.pages.drop_last() =~= start.pages);
            assert(cur@ == start.current());
            assert(self@ == page_answered(start, no_cookies, str_view(body)));
            let v = self@;
            assert(v.seen[v.next - 1] == start.seen[start.next - 1]);
            assert(v.pages.last() == record_of(v.keywords, v.seen[v.fetched_at[v.pages.len() - 1]], v.pages.last().no_cookies, v.pages.last().body));
            assert(v.privacy == privacy_found(v.keywords, v.pages));
            assert(v.refusal == refusal_found(v.keywords, v.pages));
            assert(v.consent == latest_no_cookies(v.pages));
            assert(v.password == first_confirmed(v.pages));
        }
    }

    /// Takes the driver's answer to the pending step. An answer that does not
    /// fit the pending step leaves the run as it was.
    ///
    /// To the seed's robots.txt: unreachable ends the run with a single failed
    /// result carrying the reason; forbidding the seed ends it with a single
    /// failed result and no error; allowing it starts the crawl at the seed.
    /// To a later robots.txt: unreachable or forbidding passes the URL over,
    /// allowing it asks for the page. A page's answer updates the signals and
    /// admits its in-scope links.
    pub fn on_event(&mut self, event: Event)
        requires
            old(self)@.wf(),
        ensures
            final(self)@.wf(),
            old(self)@.phase == Phase::SeedRobots ==> match event {
                Event::RobotsUnreachable { reason } => final(self)@ == (CrawlView {
                    phase: Phase::Done,
                    outcome: seq![
                        CheckView { check: CHECK_URL_ERROR@, passed: false, error: Some(reason@) },
                    ],
                    ..old(self)@
                }),
                Event::RobotsFetched { text } => if !robots_allow_of(
                    text@,
                    CRAWLER_AGENT@,
                    url_path_of(old(self)@.seed),
                ) {
                    final(self)@ == (CrawlView {
                        phase: Phase::Done,
                        outcome: seq![verdict_view(CHECK_CRAWL_DENIED@, false)],
                        ..old(self)@
                    })
                } else if old(self)@.budget == 0 {
                    final(self)@ == (CrawlView {
                        phase: Phase::Done,
                        outcome: report_of(false, false, false, None),
                        ..old(self)@
                    })
                } else {
                    final(self)@ == (CrawlView {
                        seen: seq![old(self)@.seed],
                        next: 1,
                        fetched_at: seq![0int],
                        phase: Phase::Page,
                        ..old(self)@
                    })
                },
                _ => final(self)@ == old(self)@,
            },
            old(self)@.phase == Phase::Robots ==> match event {
                Event::RobotsFetched { text } => if robots_allow_of(
                    text@,
                    CRAWLER_AGENT@,
                    url_path_of(old(self)@.current()),
                ) {
                    final(self)@ == (CrawlView {
                        fetched_at: old(self)@.fetched_at.push(old(self)@.next - 1),
                        phase: Phase::Page,
                        ..old(self)@
                    })
                } else {
                    final(self)@ == (CrawlView { phase: Phase::Ready, ..old(self)@ })
                },
                Event::RobotsUnreachable { .. } => final(self)@ == (CrawlView {
                    phase: Phase::Ready,
                    ..old(self)@
                }),
                _ => final(self)@ == old(self)@,
            },
            old(self)@.phase == Phase::Page ==> match event {
                Event::PageLoaded { set_cookies, body } => final(self)@ == page_answered(
                    old(self)@,
                    Some(set_cookies@.len() == 0),
                    opt_view(body),
                ),
                Event::PageUnreachable { .. } => final(self)@ == page_answered(
                    old(self)@,
                    None,
                    None,
                ),
                _ => final(self)@ == old(self)@,
            },
            old(self)@.phase == Phase::Ready || old(self)@.phase == Phase::Done ==> final(self)@
                == old(self)@,
    {
        match self.phase {
            Phase::SeedRobots => match event {
                Event::RobotsUnreachable { reason } => {
                    self.outcome = vec![CheckResult::failure(CHECK_URL_ERROR, reason)];
                    self.phase = Phase::Done;
                    proof {
                        assert(check_views(self.outcome@) =~= seq![
                            CheckView { check: CHECK_URL_ERROR@, passed: false, error: Some(reason@) },
                        ]);
                    }
                },
                Event::RobotsFetched { text } => {
                    if !check_robots(Some(text.as_str()), self.seed.as_str()) {
                        self.outcome = vec![CheckResult::verdict(CHECK_CRAWL_DENIED, false)];
                        self.phase = Phase::Done;
                        proof {
                            assert(check_views(self.outcome@) =~= seq![
                                verdict_view(CHECK_CRAWL_DENIED@, false),
                            ]);
                        }
                    } else if self.budget == 0 {
                        self.finish();
                    } else {
                        self.seen.push(self.seed.clone());
                        self.next = 1;
                        self.fetched_at = Ghost(Seq::empty().push(0int));
                        self.phase = Phase::Page;
                        proof {
                            assert(self@.seen =~= seq![self@.seed]);
                        }
                    }
                },
                _ => {},
            },
            Phase::Robots => match event {
                Event::RobotsFetched { text } => {
                    if check_robots(Some(text.as_str()), self.seen[self.next - 1].as_str()) {
                        self.fetched_at = Ghost(self.fetched_at@.push(self.next - 1));
                        self.phase = Phase::Page;
                    } else {
                        self.phase = Phase::Ready;
                    }
                },
                Event::RobotsUnreachable { .. } => {
                    self.phase = Phase::Ready;
                },
                _ => {},
            },
            Phase::Page => match event {
                Event::PageLoaded { set_cookies, body } => {
                    let no_cookies = check_cookie_consent(&set_cookies);
                    match &body {
                        Some(h) => self.answer_page(Some(no_cookies), Some(h.as_str())),
                        None => self.answer_page(Some(no_cookies), None),
                    }
                },
                Event::PageUnreachable { .. } => self.answer_page(None, None),
                _ => {},
            },
            _ => {},
        }
    }
}


/// A crawl run never visits more distinct URLs than its page budget, and every
/// URL it visits has the seed's host.
pub proof fn visits_stay_within_budget_and_host(v: CrawlView)
    requires
        v.wf(),
    ensures
        v.next <= v.budget,
        v.seen.subrange(0, v.next as int).no_duplicates(),
        forall|i: int| 0 <= i < v.next ==> url_host_of(#[trigger] v.seen[i]) == url_host_of(v.seed),
{
    let visited = v.seen.subrange(0, v.next as int);
    assert forall|a: int, b: int| 0 <= a < b < visited.len() implies visited[a] != visited[b] by {
        assert(visited[a] == v.seen[a] && visited[b] == v.seen[b]);
    }
}

/// No URL is fetched twice in a crawl run, and every URL fetched is a visited one.
pub proof fn no_url_fetched_twice(v: CrawlView)
    requires
        v.wf(),
    ensures
        v.fetched().no_duplicates(),
        forall|a: int|
            0 <= a < v.fetched().len() ==> exists|i: int|
                0 <= i < v.next && v.seen[i] == #[trigger] v.fetched()[a],
{
    let f = v.fetched();
    assert forall|a: int, b: int| 0 <= a < b < f.len() implies f[a] != f[b] by {
        assert(v.fetched_at[a] < v.fetched_at[b]);
    }
    assert forall|a: int| 0 <= a < f.len() implies exists|i: int|
        0 <= i < v.next && v.seen[i] == #[trigger] f[a] by {
        assert(0 <= v.fetched_at[a] < v.next);
    }
}

/// Cookie consent reflects the latest page that answered, not an accumulation:
/// a page that set cookies followed by one that set none gives consent, and the
/// reverse order does not.
pub proof fn consent_follows_latest_page(pages: Seq<PageRecord>, first: PageRecord, second: PageRecord)
    requires
        first.no_cookies is Some,
        second.no_cookies is Some,
    ensures
        latest_no_cookies(pages.push(first).push(second)) == second.no_cookies->0,
{
}

proof fn first_confirmed_found(kw: Keywords, pages: Seq<PageRecord>)
    requires
        forall|a: int|
            0 <= a < pages.len() ==> (#[trigger] pages[a]) == record_of(
                kw,
                pages[a].url,
                pages[a].no_cookies,
                pages[a].body,
            ),
    ensures
        first_confirmed(pages) is Some <==> exists|a: int|
            0 <= a < pages.len() && kw.signup_url((#[trigger] pages[a]).url) && password_check_of(
                kw,
                pages[a].body,
            ).confirmed(),
    decreases pages.len(),
{
    if pages.len() > 0 {
        let rest = pages.drop_last();
        assert forall|a: int| 0 <= a < rest.len() implies (#[trigger] rest[a]) == record_of(
            kw,
            rest[a].url,
            rest[a].no_cookies,
            rest[a].body,
        ) by {
            assert(rest[a] == pages[a]);
        }
        first_confirmed_found(kw, rest);
        let last = pages.last();
        assert(last == pages[pages.len() - 1]);
        if first_confirmed(rest) is Some {
            let a = choose|a: int|
                0 <= a < rest.len() && kw.signup_url((#[trigger] rest[a]).url) && password_check_of(
                    kw,
                    rest[a].body,
                ).confirmed();
            assert(pages[a] == rest[a]);
        } else if !(last.signup && last.password.confirmed()) {
            assert forall|a: int|
                0 <= a < pages.len() && kw.signup_url((#[trigger] pages[a]).url) implies !password_check_of(
                kw,
                pages[a].body,
            ).confirmed() by {
                if a < rest.len() {
                    assert(pages[a] == rest[a]);
                }
            }
        }
    }
}

/// The password-policy verdict is among a run's results exactly when some
/// fetched URL looks like a sign-up page and its password check found a
/// password field without error. Each recorded page is a fetched URL.
pub proof fn password_verdict_iff_confirmed_signup(v: CrawlView)
    requires
        v.wf(),
    ensures
        report_of(v.privacy, v.refusal, v.consent, v.password).len() == 4 <==> exists|a: int|
            0 <= a < v.pages.len() && v.keywords.signup_url((#[trigger] v.pages[a]).url)
                && password_check_of(v.keywords, v.pages[a].body).confirmed(),
        forall|a: int| 0 <= a < v.pages.len() ==> (#[trigger] v.pages[a]).url == v.fetched()[a],
        report_of(v.privacy, v.refusal, v.consent, v.password).len() == 3
            || report_of(v.privacy, v.refusal, v.consent, v.password).len() == 4,
{
    assert forall|a: int| 0 <= a < v.pages.len() implies (#[trigger] v.pages[a]) == record_of(
        v.keywords,
        v.pages[a].url,
        v.pages[a].no_cookies,
        v.pages[a].body,
    ) by {
        assert(v.pages[a] == record_of(
            v.keywords,
            v.seen[v.fetched_at[a]],
            v.pages[a].no_cookies,
            v.pages[a].body,
        ));
    }
    first_confirmed_found(v.keywords, v.pages);
}

} // verus!
