use bili_manga::error::BiliMangaError;
use bili_manga::resolver::{
    get_manga_id, last_path_segment, parse_manga_id, path_part, remove_mc_prefix,
};

#[test]
fn manga_id_from_detail_url() {
    let r = get_manga_id("https://manga.bilibili.com/detail/mc12345".to_string());
    assert_eq!(r.unwrap(), 12345);
}

#[test]
fn manga_id_non_numeric_suffix() {
    let r = get_manga_id("https://manga.bilibili.com/detail/mcabc".to_string());
    assert!(matches!(r, Err(BiliMangaError::ParseIntError(_))));
}

#[test]
fn manga_id_malformed_url() {
    let r = get_manga_id("not a url/mc12345".to_string());
    assert!(matches!(r, Err(BiliMangaError::ParseUrlError(_))));
}

#[test]
fn manga_id_trailing_slash_is_int_error() {
    let r = get_manga_id("https://manga.bilibili.com/detail/mc12345/".to_string());
    assert!(matches!(r, Err(BiliMangaError::ParseIntError(_))));
}

#[test]
fn manga_id_inner_mc_is_int_error() {
    let r = get_manga_id("https://manga.bilibili.com/detail/12mc3".to_string());
    assert!(matches!(r, Err(BiliMangaError::ParseIntError(_))));
}

#[test]
fn manga_id_ignores_query_and_fragment() {
    let r = get_manga_id("https://manga.bilibili.com/detail/mc12345?from=manga_homepage".to_string());
    assert_eq!(r.unwrap(), 12345);
    let r = get_manga_id("https://manga.bilibili.com/detail/mc678#top".to_string());
    assert_eq!(r.unwrap(), 678);
}

#[test]
fn manga_id_without_prefix_or_signed() {
    assert_eq!(parse_manga_id("https://x.org/a/42").unwrap(), 42);
    assert_eq!(parse_manga_id("https://x.org/a/mc-7").unwrap(), -7);
    assert!(parse_manga_id("https://x.org/a/mcmc7").is_err());
}

#[test]
fn manga_id_out_of_range() {
    assert!(parse_manga_id("https://x.org/mc9223372036854775808").is_err());
    assert_eq!(parse_manga_id("https://x.org/mc9223372036854775807").unwrap(), i64::MAX);
}

#[test]
fn last_segment_cases() {
    assert_eq!(last_path_segment("a/b/c"), "c");
    assert_eq!(last_path_segment("abc"), "abc");
    assert_eq!(last_path_segment("a/"), "");
    assert_eq!(last_path_segment(""), "");
}

#[test]
fn remove_mc_prefix_cases() {
    assert_eq!(remove_mc_prefix("mc123"), "123");
    assert_eq!(remove_mc_prefix("12mc3"), "12mc3");
    assert_eq!(remove_mc_prefix("mmcc"), "mmcc");
    assert_eq!(remove_mc_prefix("m"), "m");
    assert_eq!(remove_mc_prefix(""), "");
}

#[test]
fn path_part_cases() {
    assert_eq!(path_part("https://h/a/mc1?x=/2"), "https://h/a/mc1");
    assert_eq!(path_part("https://h/a#f?q"), "https://h/a");
    assert_eq!(path_part("https://h/a"), "https://h/a");
    assert_eq!(path_part("?q"), "");
}
