use booru::client::{DanbooruClient, DanbooruClientBuilder};
use booru::model::{DanbooruRating, DanbooruSort};

#[test]
fn fresh_builder_list_request_is_empty_with_limit_100() {
    let r = DanbooruClientBuilder::new().get_request();
    assert_eq!(r.url, "https://danbooru.donmai.us/posts.json");
    assert_eq!(r.tags, "");
    assert_eq!(r.limit, "100");
    assert_eq!(r.login, None);
    assert_eq!(r.api_key, None);
}

#[test]
fn scenario_tags_rating_limit_random() {
    let r = DanbooruClientBuilder::new()
        .tag(String::from("1girl"))
        .rating(DanbooruRating::General)
        .limit(50)
        .random(true)
        .get_request();
    assert_eq!(r.tags, "1girl rating:general order:random");
    assert_eq!(r.limit, "50");
}

#[test]
fn tokens_keep_insertion_order_with_duplicates() {
    let b = DanbooruClientBuilder::new()
        .tag(String::from("b"))
        .tag(String::from("a"))
        .tag(String::from("b"))
        .blacklist_tag(String::from("a"));
    assert_eq!(b.tag_string(), "b a b -a");
}

#[test]
fn rating_matches_plain_tag() {
    let ratings = [
        (DanbooruRating::General, "general"),
        (DanbooruRating::Sensitive, "sensitive"),
        (DanbooruRating::Questionable, "questionable"),
        (DanbooruRating::Explicit, "explicit"),
    ];
    for (rating, name) in ratings {
        let via_rating = DanbooruClientBuilder::new().rating(rating).tag_string();
        let via_tag = DanbooruClientBuilder::new()
            .tag(format!("rating:{name}"))
            .tag_string();
        assert_eq!(via_rating, via_tag);
        assert_eq!(rating.name(), name);
    }
}

#[test]
fn sort_matches_plain_tag() {
    let sorts = [
        (DanbooruSort::Id, "id"),
        (DanbooruSort::Score, "score"),
        (DanbooruSort::Rating, "rating"),
        (DanbooruSort::User, "user"),
        (DanbooruSort::Comment, "comment"),
        (DanbooruSort::Random, "random"),
    ];
    for (sort, name) in sorts {
        let via_sort = DanbooruClientBuilder::new().sort(sort).tag_string();
        let via_tag = DanbooruClientBuilder::new()
            .tag(format!("order:{name}"))
            .tag_string();
        assert_eq!(via_sort, via_tag);
        assert_eq!(sort.name(), name);
    }
}

#[test]
fn blacklist_prefixes_with_minus() {
    let b = DanbooruClientBuilder::new().blacklist_tag(String::from("cat"));
    assert_eq!(b.tag_string(), "-cat");
}

#[test]
fn random_true_twice_appends_twice() {
    let b = DanbooruClientBuilder::new().random(true).random(true);
    assert_eq!(b.tag_string(), "order:random order:random");
}

#[test]
fn random_false_appends_nothing() {
    let b = DanbooruClientBuilder::new()
        .tag(String::from("a"))
        .random(false);
    assert_eq!(b.tag_string(), "a");
}

#[test]
fn limit_is_sent_exactly_without_clamping() {
    for (n, s) in [
        (0u32, "0"),
        (7, "7"),
        (42, "42"),
        (100, "100"),
        (101, "101"),
        (1000, "1000"),
        (u32::MAX, "4294967295"),
    ] {
        let r = DanbooruClientBuilder::new().limit(n).get_request();
        assert_eq!(r.limit, s);
    }
}

#[test]
fn by_id_request_ignores_accumulated_state() {
    let configured = DanbooruClientBuilder::new()
        .tag(String::from("1girl"))
        .sort(DanbooruSort::Score)
        .limit(5)
        .get_by_id_request(42);
    let fresh = DanbooruClientBuilder::new().get_by_id_request(42);
    assert_eq!(configured.url, "https://danbooru.donmai.us/posts/42.json");
    assert_eq!(configured.url, fresh.url);
    assert_eq!(configured.login, None);
    assert_eq!(configured.api_key, None);
}

#[test]
fn credentials_are_attached_to_both_requests() {
    let b = DanbooruClientBuilder::new()
        .set_credentials(String::from("abc123"), String::from("someone"));
    let list = b.get_request();
    assert_eq!(list.login, Some(String::from("someone")));
    assert_eq!(list.api_key, Some(String::from("abc123")));
    let by_id = b.get_by_id_request(1);
    assert_eq!(by_id.login, Some(String::from("someone")));
    assert_eq!(by_id.api_key, Some(String::from("abc123")));
}

#[test]
fn client_builder_and_default_start_fresh() {
    let from_client = DanbooruClient::builder().get_request();
    let from_default = DanbooruClientBuilder::default().get_request();
    let from_new = DanbooruClientBuilder::new().get_request();
    assert_eq!(from_client.tags, from_new.tags);
    assert_eq!(from_client.limit, from_new.limit);
    assert_eq!(from_default.tags, from_new.tags);
    assert_eq!(from_default.limit, from_new.limit);
}
