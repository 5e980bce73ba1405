//! Crawl-and-analyse engine that evaluates privacy-compliance signals of a website:
//! a privacy-policy disclosure, cookies set only after consent, an option to refuse
//! cookies, and a password-strength policy on sign-up pages.
//!
//! The engine does no I/O. A crawl run is a state machine (`frontier::Crawler`)
//! that says what to fetch next and takes the answers; the task registry keeps
//! the runs of a process and their results.

pub mod address;
pub mod compliance;
pub mod frontier;
pub mod html;
pub mod page;
pub mod password;
pub mod registry;
pub mod report;
pub mod robots;
pub mod text;

pub use compliance::{check_cookie_consent, Keywords};
pub use frontier::{Crawler, Event, Phase, Step, DEFAULT_PAGE_BUDGET};
pub use page::{in_scope, page_links, page_text};
pub use password::{password_has_basic_checks, PasswordResult};
pub use registry::{PollResult, TaskRegistry, TaskStatus};
pub use report::CheckResult;
pub use robots::{check_robots, robots_url, CRAWLER_AGENT};
