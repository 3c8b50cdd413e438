use code_lens::cli::{build_claims, format_token_info, token_duration_of, DurationOption, TokenDuration};
use code_lens::mailer::{doc_gen_mail, sender_mailbox, TemplateRenderer};
use code_lens::text::{json_escape, replace_all, u64_to_string};
use code_lens::tokens::{build_token_claims, refreshed_claims, validate_exp_months, RegisterTokenDto, TokenClaims};
use code_lens::errors::AppError;
use code_lens::wiki::{bearer_header, docs_gen_body, docs_gen_url, wiki_response_outcome, WikiConfig};

#[test]
fn decimal_formatting_is_exact() {
    assert_eq!(u64_to_string(0), "0");
    assert_eq!(u64_to_string(7), "7");
    assert_eq!(u64_to_string(50), "50");
    assert_eq!(u64_to_string(60), "60");
    assert_eq!(u64_to_string(1234567890), "1234567890");
    assert_eq!(u64_to_string(u64::MAX), "18446744073709551615");
}

#[test]
fn json_escaping_covers_quotes_backslashes_and_controls() {
    assert_eq!(json_escape("plain"), "plain");
    assert_eq!(json_escape("a\"b"), "a\\\"b");
    assert_eq!(json_escape("a\\b"), "a\\\\b");
    assert_eq!(json_escape("a\nb\tc\r"), "a\\nb\\tc\\r");
    assert_eq!(json_escape("\u{1}"), "\\u0001");
    assert_eq!(json_escape("\u{1f}"), "\\u001f");
}

#[test]
fn replace_all_replaces_every_occurrence_left_to_right() {
    assert_eq!(replace_all("a-b-c", "-", "+"), "a+b+c");
    assert_eq!(replace_all("aaaa", "aa", "b"), "bb");
    assert_eq!(replace_all("nothing here", "xyz", "!"), "nothing here");
    assert_eq!(replace_all("{{k}} and {{k}}", "{{k}}", "v"), "v and v");
}

#[test]
fn render_fills_placeholders() {
    let context = vec![("repository_name".to_string(), "demo".to_string())];
    let html = TemplateRenderer::render("doc-gen", &context);
    assert_eq!(
        html,
        "<html><body><h1>Documentation generation started</h1><p>Repository: demo</p></body></html>"
    );
    let welcome = TemplateRenderer::render(
        "welcome",
        &vec![("username".to_string(), "ada".to_string())],
    );
    assert_eq!(
        welcome,
        "<html><body><h1>Welcome to Code Lens</h1><p>Hello ada!</p></body></html>"
    );
}

#[test]
fn render_applies_context_pairs_in_order() {
    let context = vec![
        ("username".to_string(), "{{second}}".to_string()),
        ("second".to_string(), "final".to_string()),
    ];
    let html = TemplateRenderer::render("welcome", &context);
    assert_eq!(
        html,
        "<html><body><h1>Welcome to Code Lens</h1><p>Hello final!</p></body></html>"
    );
}

#[test]
fn doc_gen_mail_names_the_repository() {
    let mail = doc_gen_mail("owner@example.com", "demo");
    assert_eq!(mail.to, "owner@example.com");
    assert_eq!(
        mail.subject,
        "Code Lens - Documentation Generation Started for demo"
    );
    assert_eq!(
        mail.html,
        "<html><body><h1>Documentation generation started</h1><p>Repository: demo</p></body></html>"
    );
}

#[test]
fn sender_mailbox_wraps_the_smtp_user() {
    assert_eq!(sender_mailbox("bot@example.com"), "Code Lens <bot@example.com>");
}

#[test]
fn wiki_request_parts_are_exact() {
    let config = WikiConfig {
        service_url: "http://wiki:3000".to_string(),
        api_key: "SECRET-REDACTED".to_string(),
    };
    assert_eq!(docs_gen_url(&config), "http://wiki:3000/docs-gen");
    assert_eq!(bearer_header(&config), "Bearer SECRET-REDACTED");
    let body = docs_gen_body("id-1", "/clones/id-1", "a.txt\nb \"quoted\".txt\n");
    assert_eq!(
        body,
        "{\"repo_id\":\"id-1\",\"repo_path\":\"/clones/id-1\",\"file_tree\":\"a.txt\\nb \\\"quoted\\\".txt\\n\"}"
    );
}

#[test]
fn token_durations_have_their_days_and_labels() {
    assert_eq!(TokenDuration::OneMonth.duration(), 30);
    assert_eq!(TokenDuration::SixMonths.duration(), 180);
    assert_eq!(TokenDuration::OneYear.duration(), 365);
    assert_eq!(TokenDuration::OneMonth.label(), "1 mes");
    assert_eq!(TokenDuration::SixMonths.label(), "6 meses");
    assert_eq!(TokenDuration::OneYear.label(), "1 año");
}

#[test]
fn duration_options_map_to_durations() {
    assert_eq!(token_duration_of(DurationOption::OneMonth), TokenDuration::OneMonth);
    assert_eq!(token_duration_of(DurationOption::SixMonths), TokenDuration::SixMonths);
    assert_eq!(token_duration_of(DurationOption::OneYear), TokenDuration::OneYear);
}

#[test]
fn token_info_message_is_exact() {
    let message = format_token_info("tok123", "https://example.com/r", TokenDuration::OneMonth);
    assert_eq!(
        message,
        "✅ Proceso completado!\n\n📦 Repositorio: https://example.com/r\n⏱️  Duración: 1 mes\n🔑 Token:\n\ntok123"
    );
}

#[test]
fn claims_expire_a_duration_past_issue() {
    let claims = build_claims("https://example.com/r", TokenDuration::OneMonth, "jti-1".to_string(), 1_000_000);
    assert_eq!(claims.sub, "https://example.com/r");
    assert_eq!(claims.jti, "jti-1");
    assert_eq!(claims.iat, 1_000_000);
    assert_eq!(claims.exp, 1_000_000 + 30 * 86400);
}

#[test]
fn registration_claims_count_months_of_thirty_days() {
    let dto = RegisterTokenDto {
        repository_url: "https://example.com/r".to_string(),
        expiration_months: 6,
    };
    let claims = build_token_claims(&dto, "id-5".to_string(), 2_000);
    assert_eq!(claims.id, "id-5");
    assert_eq!(claims.repository_url, "https://example.com/r");
    assert_eq!(claims.expiration_months, 6);
    assert_eq!(claims.exp, 2_000 + 6 * 30 * 86400);
}

#[test]
fn refreshing_restarts_the_expiry() {
    let decoded = TokenClaims {
        id: "id-5".to_string(),
        repository_url: "https://example.com/r".to_string(),
        expiration_months: 12,
        exp: 5,
    };
    let refreshed = refreshed_claims(&decoded, 9_000);
    assert_eq!(refreshed.id, "id-5");
    assert_eq!(refreshed.expiration_months, 12);
    assert_eq!(refreshed.exp, 9_000 + 12 * 30 * 86400);
}

#[test]
fn expiration_months_rule_accepts_one_six_or_twelve() {
    assert!(validate_exp_months(1));
    assert!(validate_exp_months(6));
    assert!(validate_exp_months(12));
    assert!(!validate_exp_months(0));
    assert!(!validate_exp_months(3));
    assert!(!validate_exp_months(24));
}

#[test]
fn wiki_success_statuses_are_accepted() {
    assert!(wiki_response_outcome(200, "").is_ok());
    assert!(wiki_response_outcome(204, "ignored").is_ok());
    assert!(wiki_response_outcome(299, "").is_ok());
}

#[test]
fn wiki_failure_carries_status_and_body() {
    let err = wiki_response_outcome(404, "not found here").unwrap_err();
    match err {
        AppError::WikiService(m) => assert_eq!(m, "HTTP 404: not found here"),
        other => panic!("unexpected error: {:?}", other),
    }
    assert!(wiki_response_outcome(199, "").is_err());
    assert!(wiki_response_outcome(300, "").is_err());
}
