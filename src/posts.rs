//! Composing a new post: its title, status, form fields and endpoint, and the
//! report printed once the server has answered.
use vstd::prelude::*;
use crate::config::Config;
use crate::endpoint::{new_post_url, new_post_url_of};
use crate::text::opt_view;

verus! {

/// Seconds in a day of UTC time.
pub const SECONDS_PER_DAY: i64 = 86400;

/// How many days after the moment of writing the title's date lies.
pub const DAYS_AHEAD: i64 = 2;

/// The text `"%b %e, %Y"` gives for the UTC date at `ts` seconds after the
/// Unix epoch, or `None` where that moment lies outside the calendar's range.
pub uninterp spec fn utc_date_text(ts: int) -> Option<Seq<char>>;

/// Relies on chrono's `DateTime::from_timestamp` (`None` out of range) and
/// `DateTime::format` with `"%b %e, %Y"`, as in "Mar  4, 2026".
#[verifier::external_body]
fn format_utc_date(ts: i64) -> (r: Option<String>)
    ensures
        opt_view(r) == utc_date_text(ts as int),
{
    match chrono::DateTime::from_timestamp(ts, 0) {
        Some(t) => Some(t.format("%b %e, %Y").to_string()),
        None => None,
    }
}

/// Relies on chrono's `Utc::now` and `DateTime::timestamp`: the current
/// moment, in seconds after the Unix epoch. Nothing is known of its value.
#[verifier::external_body]
fn utc_now() -> (r: i64) {
    chrono::Utc::now().timestamp()
}

/// The words every title starts with.
pub open spec fn title_prefix() -> Seq<char> {
    "Tinker Weekly: "@
}

/// The tags every post is filed under.
pub open spec fn post_tags() -> Seq<char> {
    "team-meeting"@
}

/// The status a post gets: published at once, or kept as a draft.
pub open spec fn status_of(publish: bool) -> Seq<char> {
    if publish {
        "publish"@
    } else {
        "draft"@
    }
}

/// The moment whose date the title names: `DAYS_AHEAD` days after `now`.
pub open spec fn title_moment(now: int) -> int {
    now + DAYS_AHEAD * SECONDS_PER_DAY
}

/// The title of a post written at `now`, where that date can be named.
pub open spec fn post_title_of(now: int) -> Option<Seq<char>> {
    if i64::MIN <= title_moment(now) <= i64::MAX {
        match utc_date_text(title_moment(now)) {
            Some(d) => Some(title_prefix() + d),
            None => None,
        }
    } else {
        None
    }
}

/// The status field of a post.
pub fn post_status(publish: bool) -> (r: String)
    ensures
        r@ == status_of(publish),
{
    if publish {
        String::from_str("publish")
    } else {
        String::from_str("draft")
    }
}

/// The title for a post whose date reads `date`.
pub fn title_for_date(date: &str) -> (r: String)
    ensures
        r@ == title_prefix() + date@,
{
    let mut s = String::from_str("Tinker Weekly: ");
    s.append(date);
    s
}

/// The title for a post written at `now` (seconds after the Unix epoch):
/// `None` where the date `DAYS_AHEAD` days later cannot be named.
pub fn post_title(now: i64) -> (r: Option<String>)
    ensures
        opt_view(r) == post_title_of(now as int),
        title_moment(now as int) > i64::MAX ==> r is None,
{
    if now > i64::MAX - DAYS_AHEAD * SECONDS_PER_DAY {
        return None;
    }
    let moment: i64 = now + DAYS_AHEAD * SECONDS_PER_DAY;
    match format_utc_date(moment) {
        Some(d) => Some(title_for_date(d.as_str())),
        None => None,
    }
}

/// A post ready to be sent: the endpoint, the bearer token, and the form
/// fields in the order they are submitted.
pub struct NewPost {
    pub url: String,
    pub token: String,
    pub author: String,
    pub title: String,
    pub content: String,
    pub tags: String,
    pub status: String,
}

/// `p` is the post that `config` sends with body `content` under `title`.
pub open spec fn is_post_for(
    p: NewPost,
    config: Config,
    content: Seq<char>,
    publish: bool,
    title: Seq<char>,
) -> bool {
    &&& p.url@ == new_post_url_of(config.blog_id as nat)
    &&& p.token@ == config.token@
    &&& p.author@ == config.author@
    &&& p.title@ == title
    &&& p.content@ == content
    &&& p.tags@ == post_tags()
    &&& p.status@ == status_of(publish)
}

/// The post that `config` sends with body `content`, written at `now`
/// (seconds after the Unix epoch); `None` where its title cannot be named.
pub fn create_at(config: Config, content: String, publish: bool, now: i64) -> (r: Option<NewPost>)
    ensures
        r is Some <==> post_title_of(now as int) is Some,
        r matches Some(p) ==> post_title_of(now as int) == Some(p.title@) && is_post_for(
            p,
            config,
            content@,
            publish,
            p.title@,
        ),
{
    match post_title(now) {
        Some(title) => Some(
            NewPost {
                url: new_post_url(config.blog_id),
                token: config.token,
                author: config.author,
                title,
                content,
                tags: String::from_str("team-meeting"),
                status: post_status(publish),
            },
        ),
        None => None,
    }
}

/// The post that `config` sends with body `content`, titled after the
/// current time; `None` where that title cannot be named.
pub fn create(config: Config, content: String, publish: bool) -> (r: Option<NewPost>)
    ensures
        r matches Some(p) ==> (exists|now: i64| post_title_of(now as int) == Some(p.title@))
            && is_post_for(p, config, content@, publish, p.title@),
{
    let now: i64 = utc_now();
    create_at(config, content, publish, now)
}

/// What the server's answer to a new post amounts to: the post's short
/// address, or the reason the answer could not be read.
pub open spec fn creation_report_of(answer: Result<Seq<char>, Seq<char>>) -> Seq<char> {
    match answer {
        Ok(url) => "New post created: "@ + url,
        Err(e) => "Error parsing response: "@ + e,
    }
}

/// The view of the server's answer.
pub open spec fn answer_view(answer: Result<String, String>) -> Result<Seq<char>, Seq<char>> {
    match answer {
        Ok(u) => Ok(u@),
        Err(e) => Err(e@),
    }
}

/// The line reported once the server has answered a new post.
pub fn creation_report(answer: Result<String, String>) -> (r: String)
    ensures
        r@ == creation_report_of(answer_view(answer)),
{
    match answer {
        Ok(url) => {
            let mut s = String::from_str("New post created: ");
            s.append(url.as_str());
            s
        },
        Err(e) => {
            let mut s = String::from_str("Error parsing response: ");
            s.append(e.as_str());
            s
        },
    }
}

} // verus!
