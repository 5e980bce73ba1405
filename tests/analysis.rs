use caramelo::compliance::normalize;
use caramelo::text::{contains_all_words, contains_any_word, contains_text, to_chars};
use caramelo::{
    check_cookie_consent, check_robots, in_scope, page_links, page_text, password_has_basic_checks,
    robots_url, Keywords, PasswordResult,
};

#[test]
fn substring_search() {
    assert!(contains_text("privacy policy", "policy"));
    assert!(contains_text("abc", ""));
    assert!(contains_text("", ""));
    assert!(!contains_text("", "a"));
    assert!(!contains_text("polic", "policy"));
    assert!(contains_text("política de privacidade", "ítica"));
    assert_eq!(to_chars("aé"), vec!['a', 'é']);
}

#[test]
fn keyword_lists_match_any_or_all() {
    let words = vec!["reject".to_string(), "refuse".to_string()];
    assert!(contains_any_word("click to refuse", &words));
    assert!(!contains_any_word("accept all", &words));
    assert!(!contains_any_word("anything", &vec![]));
    let terms = vec!["password".to_string(), "strength".to_string()];
    assert!(contains_all_words("checkpasswordstrength()", &terms));
    assert!(!contains_all_words("checkpassword()", &terms));
    assert!(contains_all_words("anything", &vec![]));
}

#[test]
fn privacy_policy_keywords() {
    let kw = Keywords::standard();
    assert!(kw.has_privacy_policy("leia a política de privacidade"));
    assert!(kw.has_privacy_policy("our privacy notice"));
    assert!(kw.has_privacy_policy("xxprivacy policyxx"));
    assert!(!kw.has_privacy_policy("privacy"));
    assert!(!kw.has_privacy_policy("Privacy Policy"));
}

#[test]
fn cookie_refusal_keywords() {
    let kw = Keywords::standard();
    assert!(kw.has_cookie_refusal("recusar cookies"));
    assert!(kw.has_cookie_refusal("i do not accept"));
    assert!(kw.has_cookie_refusal("não aceitar"));
    assert!(!kw.has_cookie_refusal("accept all cookies"));
}

#[test]
fn signup_heuristic_on_normalized_url() {
    let kw = Keywords::standard();
    assert_eq!(normalize("https://Ex.com/Criar-Conta?x=1"), "httpsexcomcriarcontax1".chars().collect::<Vec<_>>());
    assert!(kw.looks_like_signup("https://example.com/SignUp"));
    assert!(kw.looks_like_signup("https://example.com/sign-up"));
    assert!(kw.looks_like_signup("https://example.com/criar-conta"));
    assert!(kw.looks_like_signup("https://example.com/nova_conta"));
    assert!(kw.looks_like_signup("https://example.com/cadastrar-se"));
    assert!(kw.looks_like_signup("https://example.com/Cadastro"));
    assert!(!kw.looks_like_signup("https://example.com/login"));
    assert!(!kw.looks_like_signup("https://example.com/criar"));
}

#[test]
fn cookie_consent_means_no_cookie_set() {
    assert!(check_cookie_consent(&vec![]));
    assert!(!check_cookie_consent(&vec!["id=1".to_string()]));
}

#[test]
fn page_text_is_lower_cased_text() {
    let t = page_text("<html><body><p>Hello</p><p>WORLD</p></body></html>");
    assert_eq!(t, "hello world");
    let t = page_text("<title>Política</title>");
    assert!(t.contains("política"));
    assert!(!t.contains("<title>"));
}

#[test]
fn page_links_resolve_against_page() {
    let links = page_links(
        "https://example.com/docs/a",
        "<a href=\"b\">b</a><a>no href</a><a href=\"/c\">c</a><a href=\"https://x.org/\">x</a>\
         <a href=\"http://[bad\">bad</a>",
    );
    assert_eq!(
        links,
        vec!["https://example.com/docs/b", "https://example.com/c", "https://x.org/"]
    );
}

#[test]
fn scope_is_the_host() {
    let base = Some("example.com".to_string());
    assert!(in_scope("https://example.com/a", &base));
    assert!(in_scope("http://example.com:8080/a", &base));
    assert!(!in_scope("https://www.example.com/a", &base));
    assert!(!in_scope("mailto:a@example.com", &base));
    assert!(in_scope("mailto:a@example.com", &None));
}

#[test]
fn robots_location_is_at_origin() {
    assert_eq!(robots_url("https://example.com/a/b?q=1#f").as_deref(), Some("https://example.com/robots.txt"));
    assert_eq!(robots_url("http://example.com:8080/x").as_deref(), Some("http://example.com:8080/robots.txt"));
    assert_eq!(robots_url("mailto:a@example.com"), None);
}

#[test]
fn robots_decides_on_path() {
    let txt = "User-agent: *\nDisallow: /admin/";
    assert!(check_robots(Some(txt), "https://example.com/"));
    assert!(check_robots(Some(txt), "https://example.com/about?admin/"));
    assert!(!check_robots(Some(txt), "https://example.com/admin/x"));
    let with_allow = "User-agent: *\nDisallow: /admin/\nAllow: /admin/public";
    assert!(check_robots(Some(with_allow), "https://example.com/admin/public/y"));
    assert!(!check_robots(Some(with_allow), "https://example.com/admin/x"));
    assert!(check_robots(Some(""), "https://example.com/admin/x"));
    assert!(!check_robots(None, "https://example.com/"));
}

#[test]
fn password_check_without_page_is_error() {
    let kw = Keywords::standard();
    assert_eq!(
        password_has_basic_checks(&kw, None),
        PasswordResult { password_input: false, passed_checks: false, error: true }
    );
}

#[test]
fn password_check_without_field() {
    let kw = Keywords::standard();
    assert_eq!(
        password_has_basic_checks(&kw, Some("<form><input type=\"text\"></form> at least")),
        PasswordResult { password_input: false, passed_checks: false, error: false }
    );
}

#[test]
fn password_check_constraint_on_field() {
    let kw = Keywords::standard();
    let ok = PasswordResult { password_input: true, passed_checks: true, error: false };
    let no = PasswordResult { password_input: true, passed_checks: false, error: false };
    assert_eq!(password_has_basic_checks(&kw, Some("<input type=\"password\" minlength=\"8\">")), ok);
    assert_eq!(password_has_basic_checks(&kw, Some("<input type=\"password\" pattern=\"(?=.*\\d).{8,}\">")), ok);
    assert_eq!(password_has_basic_checks(&kw, Some("<input type=\"password\" minlength=\"\">")), no);
    assert_eq!(password_has_basic_checks(&kw, Some("<input type=\"password\">")), no);
}

#[test]
fn password_check_strength_script() {
    let kw = Keywords::standard();
    let ok = PasswordResult { password_input: true, passed_checks: true, error: false };
    assert_eq!(
        password_has_basic_checks(&kw, Some("<input type=\"password\"><script src=\"/js/ZXCVBN.min.js\"></script>")),
        ok
    );
    assert_eq!(
        password_has_basic_checks(&kw, Some("<input type=\"password\"><script>function checkPasswordStrength(p) {}</script>")),
        ok
    );
}

#[test]
fn password_check_policy_language() {
    let kw = Keywords::standard();
    let ok = PasswordResult { password_input: true, passed_checks: true, error: false };
    assert_eq!(
        password_has_basic_checks(&kw, Some("<input type=\"password\"><p>Use AT LEAST 8 characters</p>")),
        ok
    );
    assert_eq!(
        password_has_basic_checks(&kw, Some("<input type=\"password\"><p>Mínimo de 8 caracteres</p>")),
        ok
    );
}

#[test]
fn adjacent_text_nodes_are_joined_by_a_space() {
    let t = page_text("<p><span>Privacy</span><span>Policy</span></p>");
    assert_eq!(t, "privacy policy");
    assert!(Keywords::standard().has_privacy_policy(&t));
    assert_eq!(caramelo::html::document_text("<b>A</b>"), "A");
    assert_eq!(caramelo::html::select_text("<script>a</script><script></script>", "script"), vec!["a", ""]);
}
