//! The remote page query: its tags, its URL, and the posts it returns.
use vstd::prelude::*;
use vstd::string::StringExecFns;
use crate::names::{decimal, decimal_text, Partition};

verus! {

/// Posts asked for per remote page.
pub const QUERY_LIMIT: u32 = 100;

pub const ENDPOINT: &'static str = "https://konachan.com/post.json";

/// The one remote record the rotator needs: an id and a direct image URL.
#[derive(Clone, Debug)]
pub struct Post {
    pub id: u32,
    pub jpeg_url: String,
}

/// The rating filter that selects a partition's posts.
pub open spec fn rating_spec(p: Partition) -> Seq<char> {
    match p {
        Partition::Safe => "rating:s"@,
        Partition::Explicit => "rating:e"@,
    }
}

pub fn rating_filter(p: Partition) -> (r: &'static str)
    ensures
        r@ == rating_spec(p),
{
    match p {
        Partition::Safe => "rating:s",
        Partition::Explicit => "rating:e",
    }
}

/// The tags of a query: best score first, newer than the cutoff date, the
/// user's tags, and the partition's rating.
pub open spec fn tags_spec(date: Seq<char>, user_tags: Seq<char>, p: Partition) -> Seq<char> {
    "order:score date:>"@ + date + " "@ + user_tags + " "@ + rating_spec(p)
}

pub fn query_tags(date: &str, user_tags: &str, p: Partition) -> (r: String)
    ensures
        r@ == tags_spec(date@, user_tags@, p),
{
    String::from_str("order:score date:>").concat(date).concat(" ").concat(user_tags).concat(
        " ",
    ).concat(rating_filter(p))
}

/// The cutoff instant, `window` seconds before `now` (both in Unix seconds),
/// where it fits in an `i64`.
pub open spec fn cutoff_spec(now: int, window: int) -> Option<int> {
    if i64::MIN <= now - window { Some(now - window) } else { None }
}

pub fn cutoff_secs(now: i64, window: u64) -> (r: Option<i64>)
    ensures
        r matches Some(c) ==> cutoff_spec(now as int, window as int) == Some(c as int),
        r is None ==> cutoff_spec(now as int, window as int) is None,
{
    let c: i128 = now as i128 - window as i128;
    if c >= i64::MIN as i128 {
        Some(c as i64)
    } else {
        None
    }
}

/// The UTC calendar date (`YYYY-MM-DD`) of the instant `secs` seconds after
/// the Unix epoch, where chrono can represent it.
pub uninterp spec fn utc_date_text(secs: int) -> Option<Seq<char>>;

/// Relies on chrono's `DateTime::from_timestamp` (`None` only for seconds out
/// of its range) and its `%Y-%m-%d` format.
#[verifier::external_body]
fn utc_date(secs: i64) -> (r: Option<String>)
    ensures
        r matches Some(s) ==> utc_date_text(secs as int) == Some(s@),
        r is None ==> utc_date_text(secs as int) is None,
{
    match chrono::DateTime::from_timestamp(secs, 0) {
        Some(d) => Some(d.format("%Y-%m-%d").to_string()),
        None => None,
    }
}

pub open spec fn cutoff_date_spec(now: int, window: int) -> Option<Seq<char>> {
    match cutoff_spec(now, window) {
        Some(c) => utc_date_text(c),
        None => None,
    }
}

/// The date of the freshness cutoff, `window` seconds before `now`.
pub fn cutoff_date(now: i64, window: u64) -> (r: Option<String>)
    ensures
        r matches Some(s) ==> cutoff_date_spec(now as int, window as int) == Some(s@),
        r is None ==> cutoff_date_spec(now as int, window as int) is None,
{
    match cutoff_secs(now, window) {
        Some(c) => utc_date(c),
        None => None,
    }
}

/// The URL `base` with the pairs of `params` appended to its query string,
/// in order; `None` where `base` is not an absolute URL.
pub uninterp spec fn url_with_params_text(base: Seq<char>, params: Seq<(Seq<char>, Seq<char>)>) -> Option<Seq<char>>;

pub open spec fn pairs_view(params: Seq<(String, String)>) -> Seq<(Seq<char>, Seq<char>)> {
    params.map_values(|p: (String, String)| (p.0@, p.1@))
}

/// Relies on `reqwest::Url::parse_with_params` (the `url` crate): it parses
/// `base` and appends the pairs form-encoded; it fails only where `base` does
/// not parse.
#[verifier::external_body]
fn url_with_params(base: &str, params: &Vec<(String, String)>) -> (r: Option<String>)
    ensures
        r matches Some(s) ==> url_with_params_text(base@, pairs_view(params@)) == Some(s@),
        r is None ==> url_with_params_text(base@, pairs_view(params@)) is None,
{
    match reqwest::Url::parse_with_params(base, params.iter()) {
        Ok(u) => Some(u.into()),
        Err(_) => None,
    }
}

/// The query parameters that ask for remote page `remote_page` with the
/// given tags, one page's worth of posts at a time.
pub open spec fn page_params_spec(tags: Seq<char>, remote_page: nat) -> Seq<(Seq<char>, Seq<char>)> {
    seq![
        ("tags"@, tags),
        ("page"@, decimal(remote_page)),
        ("limit"@, decimal(QUERY_LIMIT as nat)),
    ]
}

pub open spec fn page_url_spec(page: nat, date: Seq<char>, user_tags: Seq<char>, p: Partition) -> Option<Seq<char>> {
    url_with_params_text(ENDPOINT@, page_params_spec(tags_spec(date, user_tags, p), page + 1))
}

/// The URL that asks for result page `page` (counted from 0; the remote
/// counts from 1), with one page's worth of posts.
pub fn page_url(page: u32, date: &str, user_tags: &str, p: Partition) -> (r: Option<String>)
    requires
        page < u32::MAX,
    ensures
        r matches Some(s) ==> page_url_spec(page as nat, date@, user_tags@, p) == Some(s@),
        r is None ==> page_url_spec(page as nat, date@, user_tags@, p) is None,
{
    let tags = query_tags(date, user_tags, p);
    let mut params: Vec<(String, String)> = Vec::new();
    params.push((String::from_str("tags"), tags));
    params.push((String::from_str("page"), decimal_text(page + 1)));
    params.push((String::from_str("limit"), decimal_text(QUERY_LIMIT)));
    proof {
        assert(pairs_view(params@) =~= page_params_spec(tags_spec(date@, user_tags@, p), page as nat + 1));
    }
    url_with_params(ENDPOINT, &params)
}

/// The post at `offset` of a page; `None` where the page is shorter.
pub fn post_at(posts: &Vec<Post>, offset: u32) -> (r: Option<&Post>)
    ensures
        (offset as int) < posts@.len() ==> r == Some(&posts@[offset as int]),
        (offset as int) >= posts@.len() ==> r is None,
{
    if (offset as usize) < posts.len() {
        Some(&posts[offset as usize])
    } else {
        None
    }
}

} // verus!
