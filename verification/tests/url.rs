use nyaa::model::{Category, Sort};
use nyaa::url::build_search_url;

#[test]
fn search_url_for_a_plain_query() {
    let url = build_search_url("test", Category::All, Sort::Seeders, 1);
    assert_eq!(url, "https://nyaa.si/?f=0&c=0_0&q=test&s=seeders&o=desc&p=1");
}

#[test]
fn search_url_percent_encodes_the_query() {
    let url = build_search_url("foo bar&baz", Category::All, Sort::Date, 2);
    assert_eq!(url, "https://nyaa.si/?f=0&c=0_0&q=foo%20bar%26baz&s=id&o=desc&p=2");
}

#[test]
fn search_url_with_multi_digit_page() {
    let url = build_search_url("x", Category::Anime, Sort::Downloads, 123);
    assert_eq!(url, "https://nyaa.si/?f=0&c=1_0&q=x&s=downloads&o=desc&p=123");
}

#[test]
fn category_wire_codes() {
    assert_eq!(Category::All.wire_code(), "0_0");
    assert_eq!(Category::Anime.wire_code(), "1_0");
    assert_eq!(Category::AnimeMusicVideo.wire_code(), "1_1");
    assert_eq!(Category::AnimeEnglishTranslated.wire_code(), "1_2");
    assert_eq!(Category::AnimeNonEnglishTranslated.wire_code(), "1_3");
    assert_eq!(Category::AnimeRaw.wire_code(), "1_4");
}

#[test]
fn sort_wire_codes_and_cycle() {
    assert_eq!(Sort::Date.wire_code(), "id");
    assert_eq!(Sort::Downloads.wire_code(), "downloads");
    assert_eq!(Sort::Seeders.wire_code(), "seeders");
    assert_eq!(Sort::Size.wire_code(), "size");
    assert_eq!(Sort::Date.cycled(), Sort::Downloads);
    assert_eq!(Sort::Downloads.cycled(), Sort::Seeders);
    assert_eq!(Sort::Seeders.cycled(), Sort::Size);
    assert_eq!(Sort::Size.cycled(), Sort::Date);
    // Four steps return to the start, whatever the start.
    for s in [Sort::Date, Sort::Downloads, Sort::Seeders, Sort::Size] {
        assert_eq!(s.cycled().cycled().cycled().cycled(), s);
    }
}
