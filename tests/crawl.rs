use caramelo::frontier::{Crawler, Event, Phase, Step};
use caramelo::report::{
    CHECK_COOKIE_CONSENT, CHECK_COOKIE_REFUSAL, CHECK_CRAWL_DENIED, CHECK_PASSWORD_POLICY,
    CHECK_PRIVACY_POLICY, CHECK_URL_ERROR,
};
use caramelo::{CheckResult, Keywords};

/// A fake site: its robots.txt (none: unreachable) and its pages by URL, each
/// with the cookies it sets and its body.
struct Site<'a> {
    robots: Option<&'a str>,
    pages: Vec<(&'a str, Vec<&'a str>, &'a str)>,
}

/// Drives a crawl run against `site`; returns the results and the URLs fetched.
fn run(seed: &str, budget: usize, site: &Site) -> (Vec<CheckResult>, Vec<String>) {
    let mut crawler = Crawler::new(seed, budget, Keywords::standard());
    let mut fetched = Vec::new();
    for _ in 0..10_000 {
        match crawler.next_step() {
            Step::Finished { results } => return (results, fetched),
            Step::CheckRobots { .. } => {
                let event = match site.robots {
                    Some(text) => Event::RobotsFetched { text: text.to_string() },
                    None => Event::RobotsUnreachable { reason: "connection refused".to_string() },
                };
                crawler.on_event(event);
            }
            Step::Fetch { url } => {
                fetched.push(url.clone());
                let event = match site.pages.iter().find(|p| p.0 == url) {
                    Some((_, cookies, body)) => Event::PageLoaded {
                        set_cookies: cookies.iter().map(|c| c.to_string()).collect(),
                        body: Some(body.to_string()),
                    },
                    None => Event::PageUnreachable { reason: "not found".to_string() },
                };
                crawler.on_event(event);
            }
        }
    }
    panic!("the crawl run did not finish");
}

fn verdict(results: &[CheckResult], name: &str) -> Option<bool> {
    results.iter().find(|r| r.check == name).map(|r| r.passed)
}

#[test]
fn malformed_seed_gives_single_failure_with_error() {
    for seed in ["not a url", "", "http://", "://missing-scheme"] {
        let site = Site { robots: Some(""), pages: vec![] };
        let (results, fetched) = run(seed, 30, &site);
        assert_eq!(results.len(), 1, "seed {:?}", seed);
        assert_eq!(results[0].check, CHECK_URL_ERROR);
        assert!(!results[0].passed);
        assert!(results[0].error.is_some());
        assert!(fetched.is_empty());
    }
}

#[test]
fn malformed_seed_ends_run_at_once() {
    let mut crawler = Crawler::new("not a url", 30, Keywords::standard());
    assert_eq!(crawler.phase(), Phase::Done);
    match crawler.next_step() {
        Step::Finished { results } => assert_eq!(results.len(), 1),
        _ => panic!("expected the run to be over"),
    }
}

#[test]
fn robots_denial_gives_single_failure_without_error() {
    let site = Site {
        robots: Some("User-agent: *\nDisallow: /"),
        pages: vec![("https://example.com/", vec![], "<p>privacy policy</p>")],
    };
    let (results, fetched) = run("https://example.com", 30, &site);
    assert_eq!(results.len(), 1);
    assert_eq!(results[0].check, CHECK_CRAWL_DENIED);
    assert!(!results[0].passed);
    assert!(results[0].error.is_none());
    assert!(fetched.is_empty());
}

#[test]
fn robots_denial_for_this_crawler_only() {
    let site = Site {
        robots: Some("User-agent: DataSniffingCaramelo\nDisallow: /\n\nUser-agent: *\nAllow: /"),
        pages: vec![],
    };
    let (results, _) = run("https://example.com/", 30, &site);
    assert_eq!(results.len(), 1);
    assert_eq!(results[0].check, CHECK_CRAWL_DENIED);
}

#[test]
fn unreachable_seed_gives_single_failure_with_error() {
    let site = Site { robots: None, pages: vec![] };
    let (results, fetched) = run("http://127.0.0.1:9/", 30, &site);
    assert_eq!(results.len(), 1);
    assert_eq!(results[0].check, CHECK_URL_ERROR);
    assert!(!results[0].passed);
    assert_eq!(results[0].error.as_deref(), Some("connection refused"));
    assert!(fetched.is_empty());
}

#[test]
fn privacy_page_without_cookies_or_signup() {
    let site = Site {
        robots: Some("User-agent: *\nAllow: /"),
        pages: vec![(
            "https://example.com/",
            vec![],
            "<html><body><h1>Welcome</h1><a href=\"/about\">About</a>\
             <footer>Read our Privacy Policy</footer></body></html>",
        ), ("https://example.com/about", vec![], "<p>About us</p>")],
    };
    let (results, fetched) = run("https://example.com/", 30, &site);
    assert_eq!(fetched, vec!["https://example.com/", "https://example.com/about"]);
    assert_eq!(results.len(), 3);
    assert_eq!(results[0].check, CHECK_PRIVACY_POLICY);
    assert!(results[0].passed);
    assert_eq!(results[1].check, CHECK_COOKIE_REFUSAL);
    assert!(!results[1].passed);
    assert_eq!(results[2].check, CHECK_COOKIE_CONSENT);
    assert!(results[2].passed);
    assert!(results.iter().all(|r| r.error.is_none()));
}

#[test]
fn refusal_option_found_on_any_page() {
    let site = Site {
        robots: Some(""),
        pages: vec![
            ("https://example.com/", vec![], "<a href=\"cookies\">Cookies</a>"),
            ("https://example.com/cookies", vec![], "<button>Rejeitar cookies</button>"),
        ],
    };
    let (results, _) = run("https://example.com/", 30, &site);
    assert_eq!(verdict(&results, CHECK_COOKIE_REFUSAL), Some(true));
    assert_eq!(verdict(&results, CHECK_PRIVACY_POLICY), Some(false));
}

#[test]
fn consent_reflects_latest_page_cookies_then_none() {
    let site = Site {
        robots: Some(""),
        pages: vec![
            ("https://example.com/", vec!["track=1; Path=/"], "<a href=\"/b\">b</a>"),
            ("https://example.com/b", vec![], "<p>b</p>"),
        ],
    };
    let (results, fetched) = run("https://example.com/", 30, &site);
    assert_eq!(fetched.len(), 2);
    assert_eq!(verdict(&results, CHECK_COOKIE_CONSENT), Some(true));
}

#[test]
fn consent_reflects_latest_page_none_then_cookies() {
    let site = Site {
        robots: Some(""),
        pages: vec![
            ("https://example.com/", vec![], "<a href=\"/b\">b</a>"),
            ("https://example.com/b", vec!["track=1; Path=/"], "<p>b</p>"),
        ],
    };
    let (results, fetched) = run("https://example.com/", 30, &site);
    assert_eq!(fetched.len(), 2);
    assert_eq!(verdict(&results, CHECK_COOKIE_CONSENT), Some(false));
}

#[test]
fn consent_ignores_a_page_that_did_not_answer() {
    let site = Site {
        robots: Some(""),
        pages: vec![("https://example.com/", vec![], "<a href=\"/gone\">gone</a>")],
    };
    let (results, fetched) = run("https://example.com/", 30, &site);
    assert_eq!(fetched, vec!["https://example.com/", "https://example.com/gone"]);
    assert_eq!(verdict(&results, CHECK_COOKIE_CONSENT), Some(true));
}

#[test]
fn crawl_stays_within_budget() {
    let mut links = String::new();
    for i in 0..60 {
        links.push_str(&format!("<a href=\"/p{}\">p</a>", i));
    }
    let site = Site { robots: Some(""), pages: vec![("https://example.com/", vec![], links.as_str())] };
    let (_, fetched) = run("https://example.com/", 30, &site);
    assert_eq!(fetched.len(), 30);
    assert_eq!(fetched[0], "https://example.com/");
    assert_eq!(fetched[1], "https://example.com/p0");
    assert_eq!(fetched[29], "https://example.com/p28");
    let (_, fetched) = run("https://example.com/", 5, &site);
    assert_eq!(fetched.len(), 5);
}

#[test]
fn zero_budget_visits_nothing() {
    let site = Site { robots: Some(""), pages: vec![("https://example.com/", vec![], "privacy policy")] };
    let (results, fetched) = run("https://example.com/", 0, &site);
    assert!(fetched.is_empty());
    assert_eq!(results.len(), 3);
    assert_eq!(verdict(&results, CHECK_PRIVACY_POLICY), Some(false));
    assert_eq!(verdict(&results, CHECK_COOKIE_CONSENT), Some(false));
}

#[test]
fn crawl_stays_on_seed_host() {
    let site = Site {
        robots: Some(""),
        pages: vec![(
            "https://example.com/",
            vec![],
            "<a href=\"https://other.org/x\">x</a><a href=\"https://sub.example.com/\">s</a>\
             <a href=\"mailto:a@example.com\">m</a><a href=\"/local\">l</a>",
        )],
    };
    let (_, fetched) = run("https://example.com/", 30, &site);
    assert_eq!(fetched, vec!["https://example.com/", "https://example.com/local"]);
}

#[test]
fn no_url_fetched_twice() {
    let site = Site {
        robots: Some(""),
        pages: vec![
            ("https://example.com/", vec![], "<a href=\"/a\">a</a><a href=\"/b\">b</a><a href=\"/\">home</a>"),
            ("https://example.com/a", vec![], "<a href=\"/b\">b</a><a href=\"/\">home</a><a href=\"/a\">a</a>"),
            ("https://example.com/b", vec![], "<a href=\"https://example.com/a\">a</a><a href=\"./\">up</a>"),
        ],
    };
    let (_, fetched) = run("https://example.com/", 30, &site);
    assert_eq!(fetched, vec!["https://example.com/", "https://example.com/a", "https://example.com/b"]);
}

#[test]
fn links_resolve_against_their_own_page() {
    let site = Site {
        robots: Some(""),
        pages: vec![
            ("https://example.com/", vec![], "<a href=\"docs/\">docs</a>"),
            ("https://example.com/docs/", vec![], "<a href=\"intro\">intro</a>"),
            ("https://example.com/docs/intro", vec![], "<p>intro</p>"),
        ],
    };
    let (_, fetched) = run("https://example.com/", 30, &site);
    assert_eq!(fetched[2], "https://example.com/docs/intro");
}

#[test]
fn robots_disallowed_page_is_skipped_but_counted() {
    let site = Site {
        robots: Some("User-agent: *\nDisallow: /private"),
        pages: vec![
            ("https://example.com/", vec![], "<a href=\"/private/x\">x</a><a href=\"/open\">o</a>"),
            ("https://example.com/private/x", vec![], "privacy policy"),
            ("https://example.com/open", vec![], "<p>open</p>"),
        ],
    };
    let (results, fetched) = run("https://example.com/", 30, &site);
    assert_eq!(fetched, vec!["https://example.com/", "https://example.com/open"]);
    assert_eq!(verdict(&results, CHECK_PRIVACY_POLICY), Some(false));
    let (_, fetched) = run("https://example.com/", 2, &site);
    assert_eq!(fetched, vec!["https://example.com/"]);
}

#[test]
fn password_verdict_present_for_signup_page_with_field() {
    let site = Site {
        robots: Some(""),
        pages: vec![
            ("https://example.com/", vec![], "<a href=\"/signup\">Sign up</a>"),
            (
                "https://example.com/signup",
                vec![],
                "<form><input type=\"password\" minlength=\"8\"></form>",
            ),
        ],
    };
    let (results, _) = run("https://example.com/", 30, &site);
    assert_eq!(results.len(), 4);
    assert_eq!(results[3].check, CHECK_PASSWORD_POLICY);
    assert!(results[3].passed);
}

#[test]
fn password_verdict_failed_for_field_without_policy() {
    let site = Site {
        robots: Some(""),
        pages: vec![
            ("https://example.com/", vec![], "<a href=\"/Criar-Conta\">Criar conta</a>"),
            ("https://example.com/Criar-Conta", vec![], "<input type=\"password\" name=\"p\">"),
        ],
    };
    let (results, _) = run("https://example.com/", 30, &site);
    assert_eq!(results.len(), 4);
    assert_eq!(verdict(&results, CHECK_PASSWORD_POLICY), Some(false));
}

#[test]
fn password_verdict_absent_without_field_or_on_error() {
    let site = Site {
        robots: Some(""),
        pages: vec![
            ("https://example.com/", vec![], "<a href=\"/cadastro\">c</a><a href=\"/signup\">s</a>"),
            ("https://example.com/cadastro", vec![], "<form><input type=\"text\"></form>"),
        ],
    };
    let (results, fetched) = run("https://example.com/", 30, &site);
    assert_eq!(fetched.len(), 3);
    assert_eq!(results.len(), 3);
    assert_eq!(verdict(&results, CHECK_PASSWORD_POLICY), None);
}

#[test]
fn password_verdict_absent_without_signup_url() {
    let site = Site {
        robots: Some(""),
        pages: vec![
            ("https://example.com/", vec![], "<a href=\"/login\">l</a>"),
            ("https://example.com/login", vec![], "<input type=\"password\" minlength=\"8\">"),
        ],
    };
    let (results, _) = run("https://example.com/", 30, &site);
    assert_eq!(results.len(), 3);
}

#[test]
fn first_confirmed_password_check_wins() {
    let site = Site {
        robots: Some(""),
        pages: vec![
            ("https://example.com/", vec![], "<a href=\"/signup\">s</a><a href=\"/cadastro\">c</a>"),
            ("https://example.com/signup", vec![], "<input type=\"password\">"),
            ("https://example.com/cadastro", vec![], "<input type=\"password\" pattern=\".{8,}\">"),
        ],
    };
    let (results, _) = run("https://example.com/", 30, &site);
    assert_eq!(verdict(&results, CHECK_PASSWORD_POLICY), Some(false));
}

#[test]
fn pending_step_is_repeated_until_answered() {
    let mut crawler = Crawler::new("https://example.com/", 30, Keywords::standard());
    assert_eq!(crawler.phase(), Phase::SeedRobots);
    for _ in 0..2 {
        match crawler.next_step() {
            Step::CheckRobots { robots_url } => assert_eq!(robots_url, "https://example.com/robots.txt"),
            _ => panic!("expected a robots.txt request"),
        }
    }
    crawler.on_event(Event::PageUnreachable { reason: "wrong answer".to_string() });
    assert_eq!(crawler.phase(), Phase::SeedRobots);
    crawler.on_event(Event::RobotsFetched { text: String::new() });
    assert_eq!(crawler.phase(), Phase::Page);
    match crawler.next_step() {
        Step::Fetch { url } => assert_eq!(url, "https://example.com/"),
        _ => panic!("expected a page request"),
    }
}
