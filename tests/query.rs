use konabg::config::{wallpaper_args, Config, Current};
use konabg::names::Partition;
use konabg::query::{cutoff_date, cutoff_secs, page_url, post_at, query_tags, rating_filter, Post};

#[test]
fn tags_carry_date_user_tags_and_rating() {
    assert_eq!(
        query_tags("2015-05-15", "landscape", Partition::Safe),
        "order:score date:>2015-05-15 landscape rating:s"
    );
    assert_eq!(
        query_tags("2015-05-15", "", Partition::Explicit),
        "order:score date:>2015-05-15  rating:e"
    );
    assert_eq!(rating_filter(Partition::Safe), "rating:s");
    assert_eq!(rating_filter(Partition::Explicit), "rating:e");
}

#[test]
fn cutoff_subtracts_the_window() {
    assert_eq!(cutoff_secs(1000, 400), Some(600));
    assert_eq!(cutoff_secs(0, 0), Some(0));
    assert_eq!(cutoff_secs(i64::MIN, 1), None);
    assert_eq!(cutoff_secs(0, u64::MAX), None);
    assert_eq!(cutoff_secs(i64::MAX, u64::MAX), Some(i64::MIN));
}

#[test]
fn cutoff_date_is_a_utc_calendar_day() {
    assert_eq!(cutoff_date(1431648000, 0), Some("2015-05-15".to_string()));
    assert_eq!(cutoff_date(1431648000, 31536000), Some("2014-05-15".to_string()));
    assert_eq!(cutoff_date(1431648000 + 86399, 0), Some("2015-05-15".to_string()));
    assert_eq!(cutoff_date(i64::MIN, 0), None);
}

#[test]
fn page_url_asks_for_the_next_remote_page() {
    let url = page_url(0, "2015-05-15", "", Partition::Safe).unwrap();
    assert_eq!(
        url,
        "https://konachan.com/post.json?tags=order%3Ascore+date%3A%3E2015-05-15++rating%3As&page=1&limit=100"
    );
    let url = page_url(1, "2015-05-15", "sky", Partition::Explicit).unwrap();
    assert_eq!(
        url,
        "https://konachan.com/post.json?tags=order%3Ascore+date%3A%3E2015-05-15+sky+rating%3Ae&page=2&limit=100"
    );
}

#[test]
fn post_at_reads_within_the_page_only() {
    let posts = vec![
        Post { id: 10, jpeg_url: "https://x/10.jpg".to_string() },
        Post { id: 11, jpeg_url: "https://x/11.jpg".to_string() },
    ];
    assert_eq!(post_at(&posts, 1).map(|p| p.id), Some(11));
    assert_eq!(post_at(&posts, 0).map(|p| p.jpeg_url.clone()), Some("https://x/10.jpg".to_string()));
    assert!(post_at(&posts, 2).is_none());
    assert!(post_at(&Vec::new(), 0).is_none());
}

#[test]
fn default_config_has_a_year_window() {
    let c = Config::default();
    assert_eq!(c.tags, "");
    assert_eq!(c.time, 60 * 60 * 24 * 365);
    assert_eq!(c.proxy, None);
    assert_eq!(Current::empty().bg, None);
    assert_eq!(Current::default().bg, None);
}

#[test]
fn wallpaper_setter_arguments() {
    let args = wallpaper_args("/tmp/1.jpg");
    assert_eq!(
        args,
        vec![
            "img", "/tmp/1.jpg", "--transition-type", "wipe", "--transition-fps", "60",
            "--transition-step", "30"
        ]
    );
}
