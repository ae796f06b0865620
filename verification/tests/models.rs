use films::attribute::{AttributeValue, DeleteRequest, Item, PutRequest, WriteRequest};
use films::decimal::{i32_to_string, string_to_i32};
use aws_sdk_dynamodb::operation::list_tables::ListTablesError;
use aws_smithy_client::SdkError;
use films::handlers::{
    create_film, create_film_reply, film_query, list_films, welcome, FilmQuery, ListReply,
};
use films::models::{
    as_detail, as_i32, as_measure, as_string, as_string_vec, films_from_items, Film, FilmError,
    FixedResponse, ListOptions,
};

#[test]
fn test_put_request_from_film_and_back() {
    let mut film = Film::new(2022, "Knives Out".into());
    film.cast_mut().append(&mut vec![
        "Daniel Craig".into(),
        "Edward Norton".into(),
        "Janelle Monae".into(),
    ]);
    film.genres_mut()
        .append(&mut vec!["Mystery".into(), "Comedy".into()]);

    let request: PutRequest = (&film).into();

    let item = request.item().unwrap();
    assert_eq!(item.len(), 9);

    let film_back: Film = item.into();

    assert_eq!(film_back, film);
}

#[test]
fn new_film_has_only_year_and_title() {
    let film = Film::new(1999, "The Matrix".to_string());
    assert_eq!(
        film,
        Film {
            year: 1999,
            title: "The Matrix".to_string(),
            genres: vec![],
            cast: vec![],
            href: None,
            thumbnail: None,
            thumbnail_width: None,
            thumbnail_height: None,
            extract: None,
        }
    );
}

#[test]
fn mutable_accessors_reach_their_fields() {
    let mut film = Film::new(2001, "Spirited Away".to_string());
    film.cast_mut().push("Rumi Hiiragi".to_string());
    film.genres_mut().push("Animation".to_string());
    *film.thumbnail_mut() = Some("http://example.com/1.jpg".to_string());
    *film.thumbnail_height() = Some(327);
    *film.thumbnail_width() = Some(200);
    assert_eq!(film.cast, vec!["Rumi Hiiragi".to_string()]);
    assert_eq!(film.genres, vec!["Animation".to_string()]);
    assert_eq!(film.thumbnail, Some("http://example.com/1.jpg".to_string()));
    assert_eq!(film.thumbnail_height, Some(327));
    assert_eq!(film.thumbnail_width, Some(200));
    assert_eq!(film.year, 2001);
    assert_eq!(film.title, "Spirited Away");
}

#[test]
fn put_request_holds_every_attribute() {
    let film = Film {
        year: 2000,
        title: "Coool film".into(),
        genres: vec!["foo".into()],
        cast: vec!["bar".into(), "baz".into()],
        href: Some("".into()),
        thumbnail: Some("thumb.png".into()),
        thumbnail_width: Some(2),
        thumbnail_height: Some(4),
        extract: Some("blah blah".into()),
    };
    let request = PutRequest::from_film(&film);
    let item = request.item().unwrap();
    assert_eq!(item.len(), 9);
    assert_eq!(item.get("year"), Some(&AttributeValue::N("2000".into())));
    assert_eq!(item.get("title"), Some(&AttributeValue::S("Coool film".into())));
    assert_eq!(
        item.get("cast"),
        Some(&AttributeValue::L(vec![
            AttributeValue::S("bar".into()),
            AttributeValue::S("baz".into())
        ]))
    );
    assert_eq!(
        item.get("genres"),
        Some(&AttributeValue::L(vec![AttributeValue::S("foo".into())]))
    );
    assert_eq!(item.get("href"), Some(&AttributeValue::S("".into())));
    assert_eq!(item.get("thumbnail"), Some(&AttributeValue::S("thumb.png".into())));
    assert_eq!(item.get("thumbnail_height"), Some(&AttributeValue::N("4".into())));
    assert_eq!(item.get("thumbnail_width"), Some(&AttributeValue::N("2".into())));
    assert_eq!(item.get("extract"), Some(&AttributeValue::S("blah blah".into())));
    assert_eq!(item.get("rating"), None);
}

#[test]
fn put_request_writes_defaults_for_missing_details() {
    let request = PutRequest::from_film(&Film::new(-44, "Julius Caesar".into()));
    let item = request.item().unwrap();
    assert_eq!(item.get("year"), Some(&AttributeValue::N("-44".into())));
    assert_eq!(item.get("cast"), Some(&AttributeValue::L(vec![])));
    assert_eq!(item.get("genres"), Some(&AttributeValue::L(vec![])));
    assert_eq!(item.get("href"), Some(&AttributeValue::S("default".into())));
    assert_eq!(item.get("thumbnail"), Some(&AttributeValue::S("default".into())));
    assert_eq!(item.get("thumbnail_height"), Some(&AttributeValue::N("0".into())));
    assert_eq!(item.get("thumbnail_width"), Some(&AttributeValue::N("0".into())));
    assert_eq!(item.get("extract"), Some(&AttributeValue::S("".into())));
}

#[test]
fn details_come_back() {
    let film = Film {
        year: 2000,
        title: "Coool film".into(),
        genres: vec!["foo".into()],
        cast: vec!["foo".into()],
        href: Some("Coool_film".into()),
        thumbnail: Some("http://example.com/1.jpg".into()),
        thumbnail_width: Some(2),
        thumbnail_height: Some(-4),
        extract: Some("blah blah".into()),
    };
    let back = Film::from_item(PutRequest::from_film(&film).item().unwrap());
    assert_eq!(back, film);
    let empty_link = Film { href: Some("".into()), ..Film::new(1, "t".into()) };
    assert_eq!(Film::from_item(PutRequest::from_film(&empty_link).item().unwrap()), empty_link);
}

#[test]
fn a_detail_written_like_a_missing_one_comes_back_missing() {
    let film = Film {
        year: 2000,
        title: "Coool film".into(),
        genres: vec![],
        cast: vec![],
        href: Some("default".into()),
        thumbnail: Some("default".into()),
        thumbnail_width: Some(0),
        thumbnail_height: Some(0),
        extract: Some("".into()),
    };
    let back = Film::from_item(PutRequest::from_film(&film).item().unwrap());
    assert_eq!(back, Film::new(2000, "Coool film".into()));
}

#[test]
fn details_are_read_from_their_own_kind_only() {
    let s = AttributeValue::S("x".into());
    let n = AttributeValue::N("12".into());
    assert_eq!(as_detail(Some(&s), "default"), Some("x".to_string()));
    assert_eq!(as_detail(Some(&AttributeValue::S("default".into())), "default"), None);
    assert_eq!(as_detail(Some(&AttributeValue::S("".into())), "default"), Some("".to_string()));
    assert_eq!(as_detail(Some(&AttributeValue::S("".into())), ""), None);
    assert_eq!(as_detail(Some(&n), "default"), None);
    assert_eq!(as_detail(None, "default"), None);
    assert_eq!(as_measure(Some(&n)), Some(12));
    assert_eq!(as_measure(Some(&AttributeValue::N("0".into()))), None);
    assert_eq!(as_measure(Some(&AttributeValue::N("-0".into()))), None);
    assert_eq!(as_measure(Some(&AttributeValue::N("-7".into()))), Some(-7));
    assert_eq!(as_measure(Some(&AttributeValue::N("1.5".into()))), None);
    assert_eq!(as_measure(Some(&s)), None);
    assert_eq!(as_measure(None), None);
}

#[test]
fn round_trip_at_the_ends_of_the_year_range() {
    for year in [i32::MIN, -1, 0, 1, 9, 10, 1895, i32::MAX] {
        let mut film = Film::new(year, "t".into());
        film.genres.push("g".into());
        let back = Film::from_item(PutRequest::from_film(&film).item().unwrap());
        assert_eq!(back, film);
    }
}

#[test]
fn film_from_empty_item_has_defaults() {
    let film = Film::from_item(&Item::new());
    assert_eq!(film, Film::new(0, String::new()));
}

#[test]
fn film_from_item_of_other_kinds_has_defaults() {
    let mut item = Item::new();
    item.insert("year".into(), AttributeValue::S("1987".into()));
    item.insert("title".into(), AttributeValue::N("12".into()));
    item.insert("genres".into(), AttributeValue::S("Drama".into()));
    item.insert(
        "cast".into(),
        AttributeValue::L(vec![
            AttributeValue::S("A".into()),
            AttributeValue::N("7".into()),
            AttributeValue::Unknown,
            AttributeValue::L(vec![]),
        ]),
    );
    let film = Film::from_item(&item);
    assert_eq!(film.year, 0);
    assert_eq!(film.title, "");
    assert_eq!(film.genres, Vec::<String>::new());
    assert_eq!(
        film.cast,
        vec!["A".to_string(), "".to_string(), "".to_string(), "".to_string()]
    );
}

#[test]
fn films_from_items_keeps_the_order() {
    let a = PutRequest::from_film(&Film::new(1, "a".into())).into_item().unwrap();
    let b = PutRequest::from_film(&Film::new(2, "b".into())).into_item().unwrap();
    let films = films_from_items(&vec![a, b]);
    assert_eq!(films, vec![Film::new(1, "a".into()), Film::new(2, "b".into())]);
    assert_eq!(films_from_items(&vec![]), Vec::<Film>::new());
}

#[test]
fn as_string_reads_strings_only() {
    let default = "dflt".to_string();
    assert_eq!(as_string(Some(&AttributeValue::S("x".into())), &default), "x");
    assert_eq!(as_string(Some(&AttributeValue::N("5".into())), &default), "dflt");
    assert_eq!(as_string(Some(&AttributeValue::L(vec![])), &default), "dflt");
    assert_eq!(as_string(Some(&AttributeValue::Unknown), &default), "dflt");
    assert_eq!(as_string(None, &default), "dflt");
}

#[test]
fn as_i32_reads_decimal_numbers_only() {
    assert_eq!(as_i32(Some(&AttributeValue::N("2022".into())), 7), 2022);
    assert_eq!(as_i32(Some(&AttributeValue::N("-3".into())), 7), -3);
    assert_eq!(as_i32(Some(&AttributeValue::N("+3".into())), 7), 3);
    assert_eq!(as_i32(Some(&AttributeValue::N("2147483648".into())), 7), 7);
    assert_eq!(as_i32(Some(&AttributeValue::N("1.5".into())), 7), 7);
    assert_eq!(as_i32(Some(&AttributeValue::N("".into())), 7), 7);
    assert_eq!(as_i32(Some(&AttributeValue::S("2022".into())), 7), 7);
    assert_eq!(as_i32(None, 7), 7);
}

#[test]
fn as_string_vec_reads_lists_only() {
    let list = AttributeValue::L(vec![
        AttributeValue::S("a".into()),
        AttributeValue::N("1".into()),
        AttributeValue::S("b".into()),
    ]);
    assert_eq!(
        as_string_vec(Some(&list)),
        vec!["a".to_string(), "".to_string(), "b".to_string()]
    );
    assert_eq!(as_string_vec(Some(&AttributeValue::S("a".into()))), Vec::<String>::new());
    assert_eq!(as_string_vec(None), Vec::<String>::new());
}

#[test]
fn item_insert_replaces_under_the_same_name() {
    let mut item = Item::new();
    assert_eq!(item.len(), 0);
    assert_eq!(item.get("a"), None);
    item.insert("a".into(), AttributeValue::S("1".into()));
    item.insert("b".into(), AttributeValue::S("2".into()));
    assert_eq!(item.len(), 2);
    item.insert("a".into(), AttributeValue::N("3".into()));
    assert_eq!(item.len(), 2);
    assert_eq!(item.get("a"), Some(&AttributeValue::N("3".into())));
    assert_eq!(item.get("b"), Some(&AttributeValue::S("2".into())));
    assert_eq!(item.get(""), None);
    let entries = item.into_entries();
    assert_eq!(entries.len(), 2);
    assert_eq!(entries[0].name, "a");
    assert_eq!(entries[1].name, "b");
}

#[test]
fn decimal_text_is_what_std_writes() {
    for n in [
        0,
        1,
        -1,
        9,
        10,
        -10,
        99,
        100,
        2022,
        -2022,
        1000000,
        i32::MAX,
        i32::MIN,
        i32::MIN + 1,
    ] {
        assert_eq!(i32_to_string(n), n.to_string());
        assert_eq!(string_to_i32(&n.to_string()), Some(n));
    }
    assert_eq!(i32_to_string(-2147483648), "-2147483648");
    assert_eq!(i32_to_string(407), "407");
}

#[test]
fn decimal_reading_is_what_std_reads() {
    for text in [
        "", "+", "-", "0", "-0", "+0", "007", "+42", "-42", "42 ", " 42", "4 2", "4_2", "0x10",
        "1e3", "१२", "12३", "2147483647", "2147483648", "-2147483648", "-2147483649",
        "99999999999999999999", "-99999999999999999999", "00000000000000000000012", "--1", "+-1",
        "1-", "1+", "a", "é1",
    ] {
        assert_eq!(string_to_i32(text), text.parse::<i32>().ok(), "{:?}", text);
    }
    assert_eq!(string_to_i32("+42"), Some(42));
    assert_eq!(string_to_i32("007"), Some(7));
    assert_eq!(string_to_i32("2147483648"), None);
    assert_eq!(string_to_i32("-2147483648"), Some(i32::MIN));
}

#[test]
fn welcome_says_ok_and_the_address() {
    assert_eq!(
        welcome(Some("localhost:3030".to_string())),
        FixedResponse { status: "200 OK".to_string(), remote_address: "localhost:3030".to_string() }
    );
    assert_eq!(
        welcome(None),
        FixedResponse { status: "200 OK".to_string(), remote_address: "unknown".to_string() }
    );
}

#[test]
fn listing_asks_by_year_where_one_is_given() {
    let mut opts = ListOptions { offset: Some(3), limit: Some(5), title: None, genre: None, year: None };
    assert_eq!(film_query(&opts), FilmQuery::All);
    opts.year = Some(2022);
    opts.title = Some("x".to_string());
    assert_eq!(film_query(&opts), FilmQuery::ByYear(2022));
}

#[test]
fn listing_answers_films_or_not_found() {
    let a = PutRequest::from_film(&Film::new(1, "a".into())).into_item().unwrap();
    assert_eq!(list_films(Some(&vec![a])), ListReply::Films(vec![Film::new(1, "a".into())]));
    assert_eq!(list_films(Some(&vec![])), ListReply::Films(vec![]));
    assert_eq!(
        list_films(None),
        ListReply::NotFound(FixedResponse {
            status: "404 Not Found".to_string(),
            remote_address: "unknown".to_string()
        })
    );
}

#[test]
fn create_film_puts_the_films_item() {
    let film = Film {
        year: 2000,
        title: "Coool film".into(),
        genres: vec!["foo".into()],
        cast: vec!["foo".into()],
        href: Some("".into()),
        thumbnail: Some("".into()),
        thumbnail_width: Some(2),
        thumbnail_height: Some(4),
        extract: Some("blah blah".into()),
    };
    let request = create_film(&film);
    assert_eq!(request.item().unwrap().len(), 9);
    assert_eq!(Film::from_item(request.item().unwrap()), film);
}

#[test]
fn create_film_answers_created_or_server_error() {
    assert_eq!(create_film_reply(true), 201);
    assert_eq!(create_film_reply(false), 500);
}

#[test]
fn film_error_from_a_failed_call_is_unknown() {
    let failure = FilmError::from(SdkError::<String, String>::timeout_error("took too long"));
    match failure {
        FilmError::Unknown(text) => assert!(text.contains("TimeoutError"), "{}", text),
        other => panic!("{:?}", other),
    }
}

#[test]
fn film_error_from_the_clients_failure_is_dynamo() {
    let timeout = SdkError::<ListTablesError, String>::timeout_error("took too long");
    let unhandled = aws_sdk_dynamodb::Error::from(timeout);
    let shown = format!("{:?}", unhandled);
    match FilmError::from(unhandled) {
        FilmError::Dynamo(inner) => assert_eq!(format!("{:?}", inner), shown),
        other => panic!("{:?}", other),
    }
}

#[test]
fn film_error_from_a_reading_failure_is_from_serde() {
    let text = serde_dynamo::AttributeValue::S("not a number".to_string());
    let failed: Result<i32, serde_dynamo::Error> = serde_dynamo::from_attribute_value(text);
    let inner = failed.unwrap_err();
    match FilmError::from(inner.clone()) {
        FilmError::FromSerde(kept) => assert_eq!(kept, inner),
        other => panic!("{:?}", other),
    }
}

#[test]
fn values_of_other_kinds_are_kept_and_not_read_as_films() {
    let mut inner = Item::new();
    inner.insert("k".into(), AttributeValue::Bool(true));
    let mut item = Item::new();
    item.insert("year".into(), AttributeValue::Ns(vec!["1".into(), "2".into()]));
    item.insert("title".into(), AttributeValue::Ss(vec!["a".into()]));
    item.insert("genres".into(), AttributeValue::M(inner));
    item.insert("cast".into(), AttributeValue::Null(true));
    item.insert("href".into(), AttributeValue::B(vec![1, 2, 3]));
    item.insert("thumbnail".into(), AttributeValue::Bs(vec![vec![1], vec![]]));
    item.insert("extract".into(), AttributeValue::Unknown);
    assert_eq!(item.len(), 7);
    assert_eq!(item.get("href"), Some(&AttributeValue::B(vec![1, 2, 3])));
    match item.get("genres") {
        Some(AttributeValue::M(map)) => {
            assert_eq!(map.get("k"), Some(&AttributeValue::Bool(true)))
        }
        other => panic!("{:?}", other),
    }
    assert_eq!(Film::from_item(&item), Film::new(0, String::new()));
}

#[test]
fn requests_hand_back_what_they_were_made_with() {
    let mut key = Item::new();
    key.insert("year".into(), AttributeValue::N("2000".into()));
    key.insert("title".into(), AttributeValue::S("Coool film".into()));
    let delete = WriteRequest::delete(DeleteRequest::new(Some(key)));
    assert!(delete.put_request().is_none());
    let kept = delete.delete_request().unwrap().key().unwrap();
    assert_eq!(kept.len(), 2);
    assert_eq!(kept.get("year"), Some(&AttributeValue::N("2000".into())));

    let put = WriteRequest::put(PutRequest::from_film(&Film::new(1, "a".into())));
    assert!(put.delete_request().is_none());
    assert_eq!(put.put_request().unwrap().item().unwrap().len(), 9);

    let neither = WriteRequest::new(None, None);
    assert!(neither.put_request().is_none() && neither.delete_request().is_none());
    assert!(PutRequest::new(None).item().is_none());
    assert!(PutRequest::new(None).into_item().is_none());
    assert!(DeleteRequest::new(None).key().is_none());
    assert!(DeleteRequest::new(None).into_key().is_none());
    let both = WriteRequest::new(Some(PutRequest::new(None)), Some(DeleteRequest::new(None)));
    assert!(both.put_request().is_some() && both.delete_request().is_some());
}
