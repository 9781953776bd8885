use wprs::auth::{auth_settings, token_report};
use wprs::config::Config;
use wprs::endpoint::{new_post_url, site_url};
use wprs::posts::{create, create_at, creation_report, post_status, post_title, title_for_date};
use wprs::text::decimal_string;

fn sample_config() -> Config {
    Config {
        author: "marcus".to_string(),
        auth_url: "https://public-api.wordpress.com/oauth2/authorize".to_string(),
        token_url: "https://public-api.wordpress.com/oauth2/token".to_string(),
        blog_id: 123456,
        blog_url: "https://example.wordpress.com".to_string(),
        client_id: 98765,
        client_secret: "SECRET-REDACTED".to_string(),
        token: "abc123".to_string(),
    }
}

#[test]
fn decimal_of_small_and_large_numbers() {
    assert_eq!(decimal_string(0), "0");
    assert_eq!(decimal_string(7), "7");
    assert_eq!(decimal_string(10), "10");
    assert_eq!(decimal_string(1234), "1234");
    assert_eq!(decimal_string(u32::MAX), "4294967295");
}

#[test]
fn site_endpoint_names_the_blog() {
    assert_eq!(
        site_url(123456),
        "https://public-api.wordpress.com/rest/v1.1/sites/123456"
    );
    assert_eq!(site_url(0), "https://public-api.wordpress.com/rest/v1.1/sites/0");
}

#[test]
fn new_post_endpoint_names_the_blog() {
    assert_eq!(
        new_post_url(42),
        "https://public-api.wordpress.com/rest/v1.1/sites/42/posts/new"
    );
}

#[test]
fn status_follows_publish_flag() {
    assert_eq!(post_status(true), "publish");
    assert_eq!(post_status(false), "draft");
}

#[test]
fn title_prefixes_the_date() {
    assert_eq!(title_for_date("Mar  4, 2026"), "Tinker Weekly: Mar  4, 2026");
    assert_eq!(title_for_date(""), "Tinker Weekly: ");
}

#[test]
fn title_names_the_date_two_days_ahead() {
    assert_eq!(post_title(0), Some("Tinker Weekly: Jan  3, 1970".to_string()));
    // 2023-11-14 22:13:20 UTC
    assert_eq!(
        post_title(1_700_000_000),
        Some("Tinker Weekly: Nov 16, 2023".to_string())
    );
    // 2024-02-27 12:00:00 UTC, two days before a leap day
    assert_eq!(
        post_title(1_709_035_200),
        Some("Tinker Weekly: Feb 29, 2024".to_string())
    );
    // the last second before the epoch still lands on Jan 2
    assert_eq!(post_title(-1), Some("Tinker Weekly: Jan  2, 1970".to_string()));
}

#[test]
fn title_out_of_range_is_none() {
    assert_eq!(post_title(i64::MAX), None);
    assert_eq!(post_title(i64::MAX - 1000), None);
    assert_eq!(post_title(i64::MIN), None);
}

#[test]
fn create_at_fills_every_field() {
    let post = create_at(sample_config(), "<p>Hello</p>".to_string(), false, 0).unwrap();
    assert_eq!(
        post.url,
        "https://public-api.wordpress.com/rest/v1.1/sites/123456/posts/new"
    );
    assert_eq!(post.token, "abc123");
    assert_eq!(post.author, "marcus");
    assert_eq!(post.title, "Tinker Weekly: Jan  3, 1970");
    assert_eq!(post.content, "<p>Hello</p>");
    assert_eq!(post.tags, "team-meeting");
    assert_eq!(post.status, "draft");
}

#[test]
fn create_at_publishes_when_asked() {
    let post = create_at(sample_config(), String::new(), true, 1_700_000_000).unwrap();
    assert_eq!(post.status, "publish");
    assert_eq!(post.title, "Tinker Weekly: Nov 16, 2023");
    assert_eq!(post.content, "");
}

#[test]
fn create_at_out_of_range_is_none() {
    assert!(create_at(sample_config(), "x".to_string(), true, i64::MAX).is_none());
}

#[test]
fn create_now_titles_the_post() {
    let post = create(sample_config(), "body".to_string(), true).unwrap();
    assert!(post.title.starts_with("Tinker Weekly: "));
    assert!(post.title.len() > "Tinker Weekly: ".len());
    assert_eq!(post.status, "publish");
    assert_eq!(post.tags, "team-meeting");
    assert_eq!(post.content, "body");
}

#[test]
fn report_of_created_post_shows_short_url() {
    assert_eq!(
        creation_report(Ok("https://wp.me/p1-2".to_string())),
        "New post created: https://wp.me/p1-2"
    );
}

#[test]
fn report_of_unreadable_answer_shows_error() {
    assert_eq!(
        creation_report(Err("missing field `short_URL`".to_string())),
        "Error parsing response: missing field `short_URL`"
    );
}

#[test]
fn auth_settings_of_config() {
    let s = auth_settings(sample_config());
    assert_eq!(s.client_id, "98765");
    assert_eq!(s.client_secret, "SECRET-REDACTED");
    assert_eq!(s.auth_url, "https://public-api.wordpress.com/oauth2/authorize");
    assert_eq!(s.token_url, "https://public-api.wordpress.com/oauth2/token");
    assert_eq!(s.redirect_url, "https://example.wordpress.com");
    assert_eq!(s.scopes, vec!["read".to_string(), "write".to_string()]);
}

#[test]
fn token_report_with_token() {
    assert_eq!(
        token_report(Some("tok".to_string())),
        vec!["Update wprs.conf with token".to_string(), "Token: tok".to_string()]
    );
}

#[test]
fn token_report_without_token() {
    assert_eq!(token_report(None), vec!["Error fetching token".to_string()]);
}
