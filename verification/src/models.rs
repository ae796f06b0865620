//! Films, and how a film is written into an item and read back from one.
use crate::attribute::{texts, AttributeValue, AttributeView, Item, PutRequest};
use crate::decimal::{decimal_text, i32_to_string, lemma_parse_i32_text, parse_i32, string_to_i32};
use vstd::prelude::*;

verus! {

/// One film. Year and title together identify it.
#[derive(Debug, PartialEq, Eq)]
pub struct Film {
    pub year: i32,
    pub title: String,
    pub genres: Vec<String>,
    pub cast: Vec<String>,
    pub href: Option<String>,
    pub thumbnail: Option<String>,
    pub thumbnail_width: Option<i32>,
    pub thumbnail_height: Option<i32>,
    pub extract: Option<String>,
}

/// What a [`Film`] is, as a mathematical value.
pub struct FilmView {
    pub year: int,
    pub title: Seq<char>,
    pub genres: Seq<Seq<char>>,
    pub cast: Seq<Seq<char>>,
    pub href: Option<Seq<char>>,
    pub thumbnail: Option<Seq<char>>,
    pub thumbnail_width: Option<int>,
    pub thumbnail_height: Option<int>,
    pub extract: Option<Seq<char>>,
}

/// The text of a string that may be missing.
pub open spec fn text_of(string: Option<String>) -> Option<Seq<char>> {
    match string {
        Some(s) => Some(s@),
        None => None,
    }
}

/// The value of a number that may be missing.
pub open spec fn number_of(number: Option<i32>) -> Option<int> {
    match number {
        Some(n) => Some(n as int),
        None => None,
    }
}

impl View for Film {
    type V = FilmView;

    open spec fn view(&self) -> FilmView {
        FilmView {
            year: self.year as int,
            title: self.title@,
            genres: texts(self.genres@),
            cast: texts(self.cast@),
            href: text_of(self.href),
            thumbnail: text_of(self.thumbnail),
            thumbnail_width: number_of(self.thumbnail_width),
            thumbnail_height: number_of(self.thumbnail_height),
            extract: text_of(self.extract),
        }
    }
}

impl FilmView {
    /// The film with this year and title and nothing else.
    pub open spec fn bare(year: int, title: Seq<char>) -> FilmView {
        FilmView {
            year,
            title,
            genres: Seq::empty(),
            cast: Seq::empty(),
            href: None,
            thumbnail: None,
            thumbnail_width: None,
            thumbnail_height: None,
            extract: None,
        }
    }

    /// This film as an item keeps it. An item has no way to tell a detail that
    /// is missing from one that holds the value written for a missing one: a
    /// link or thumbnail "default", an empty extract, a measure of zero. Each
    /// such detail is missing in the film kept.
    pub open spec fn as_stored(self) -> FilmView {
        FilmView {
            href: if self.href == Some("default"@) {
                None
            } else {
                self.href
            },
            thumbnail: if self.thumbnail == Some("default"@) {
                None
            } else {
                self.thumbnail
            },
            thumbnail_width: if self.thumbnail_width == Some(0int) {
                None
            } else {
                self.thumbnail_width
            },
            thumbnail_height: if self.thumbnail_height == Some(0int) {
                None
            } else {
                self.thumbnail_height
            },
            extract: if self.extract == Some(""@) {
                None
            } else {
                self.extract
            },
            ..self
        }
    }

    /// Whether every number of this film is one that an `i32` can hold.
    pub open spec fn in_range(self) -> bool {
        &&& i32::MIN <= self.year <= i32::MAX
        &&& self.thumbnail_width matches Some(w) ==> i32::MIN <= w <= i32::MAX
        &&& self.thumbnail_height matches Some(h) ==> i32::MIN <= h <= i32::MAX
    }
}

impl Film {
    /// A film of the given year and title, with no genres, no cast and no further details.
    pub fn new(year: i32, title: String) -> (film: Film)
        ensures
            film.year == year,
            film.title == title,
            film.genres@.len() == 0,
            film.cast@.len() == 0,
            film.href is None,
            film.thumbnail is None,
            film.thumbnail_width is None,
            film.thumbnail_height is None,
            film.extract is None,
            film@ == FilmView::bare(year as int, title@),
    {
        let film = Film {
            year,
            title,
            genres: Vec::new(),
            cast: Vec::new(),
            href: None,
            thumbnail: None,
            thumbnail_width: None,
            thumbnail_height: None,
            extract: None,
        };
        assert(film@.genres =~= Seq::empty());
        assert(film@.cast =~= Seq::empty());
        film
    }

    /// The cast, to be changed in place.
    pub fn cast_mut(&mut self) -> (cast: &mut Vec<String>)
        ensures
            *cast == old(self).cast,
            *final(self) == (Film { cast: *final(cast), ..*old(self) }),
    {
        &mut self.cast
    }

    /// The genres, to be changed in place.
    pub fn genres_mut(&mut self) -> (genres: &mut Vec<String>)
        ensures
            *genres == old(self).genres,
            *final(self) == (Film { genres: *final(genres), ..*old(self) }),
    {
        &mut self.genres
    }

    /// The thumbnail's address, to be changed in place.
    pub fn thumbnail_mut(&mut self) -> (thumbnail: &mut Option<String>)
        ensures
            *thumbnail == old(self).thumbnail,
            *final(self) == (Film { thumbnail: *final(thumbnail), ..*old(self) }),
    {
        &mut self.thumbnail
    }

    /// The thumbnail's height, to be changed in place.
    pub fn thumbnail_height(&mut self) -> (height: &mut Option<i32>)
        ensures
            *height == old(self).thumbnail_height,
            *final(self) == (Film { thumbnail_height: *final(height), ..*old(self) }),
    {
        &mut self.thumbnail_height
    }

    /// The thumbnail's width, to be changed in place.
    pub fn thumbnail_width(&mut self) -> (width: &mut Option<i32>)
        ensures
            *width == old(self).thumbnail_width,
            *final(self) == (Film { thumbnail_width: *final(width), ..*old(self) }),
    {
        &mut self.thumbnail_width
    }
}

/// The value that may stand behind a reference, as a mathematical value.
pub open spec fn view_of(value: Option<&AttributeValue>) -> Option<AttributeView> {
    match value {
        Some(v) => Some(v@),
        None => None,
    }
}

/// The value under `name` in an item, if there is one.
pub open spec fn lookup(item: Map<Seq<char>, AttributeView>, name: Seq<char>) -> Option<
    AttributeView,
> {
    if item.contains_key(name) {
        Some(item[name])
    } else {
        None
    }
}

/// The text of a string value; `default` for a missing value or one of another kind.
pub open spec fn string_of(value: Option<AttributeView>, default: Seq<char>) -> Seq<char> {
    match value {
        Some(AttributeView::S(text)) => text,
        _ => default,
    }
}

/// The number that a numeric value holds; `default` for a missing value, one of
/// another kind, or one whose text is no decimal `i32`.
pub open spec fn i32_of(value: Option<AttributeView>, default: i32) -> i32 {
    match value {
        Some(AttributeView::N(text)) => match parse_i32(text) {
            Some(n) => n,
            None => default,
        },
        _ => default,
    }
}

/// The texts of a list value, the empty text for each entry that is no string;
/// no texts at all for a missing value or one of another kind.
pub open spec fn strings_of(value: Option<AttributeView>) -> Seq<Seq<char>> {
    match value {
        Some(AttributeView::L(values)) => Seq::new(
            values.len(),
            |i: int| string_of(Some(values[i]), Seq::empty()),
        ),
        _ => Seq::empty(),
    }
}

/// The list value that holds the given texts as strings.
pub open spec fn string_list(list: Seq<Seq<char>>) -> AttributeView {
    AttributeView::L(Seq::new(list.len(), |i: int| AttributeView::S(list[i])))
}

/// The text, or `default` where it is missing.
pub open spec fn text_or(text: Option<Seq<char>>, default: Seq<char>) -> Seq<char> {
    match text {
        Some(t) => t,
        None => default,
    }
}

/// The number, or zero where it is missing.
pub open spec fn number_or_zero(number: Option<int>) -> int {
    match number {
        Some(n) => n,
        None => 0,
    }
}

/// The item that holds a film: nine attributes, every one of them present.
/// A missing link or thumbnail is written as "default", a missing extract as the
/// empty text, a missing measure as zero.
pub open spec fn film_item(film: FilmView) -> Map<Seq<char>, AttributeView> {
    Map::<Seq<char>, AttributeView>::empty().insert(
        "year"@,
        AttributeView::N(decimal_text(film.year)),
    ).insert("title"@, AttributeView::S(film.title)).insert(
        "cast"@,
        string_list(film.cast),
    ).insert("genres"@, string_list(film.genres)).insert(
        "href"@,
        AttributeView::S(text_or(film.href, "default"@)),
    ).insert("thumbnail"@, AttributeView::S(text_or(film.thumbnail, "default"@))).insert(
        "thumbnail_height"@,
        AttributeView::N(decimal_text(number_or_zero(film.thumbnail_height))),
    ).insert(
        "thumbnail_width"@,
        AttributeView::N(decimal_text(number_or_zero(film.thumbnail_width))),
    ).insert("extract"@, AttributeView::S(text_or(film.extract, ""@)))
}

/// The text of a string value that stands for a detail; none where the value
/// is missing, of another kind, or the text `missing` that is written for a
/// missing detail.
pub open spec fn detail_of(value: Option<AttributeView>, missing: Seq<char>) -> Option<Seq<char>> {
    match value {
        Some(AttributeView::S(text)) => if text == missing {
            None
        } else {
            Some(text)
        },
        _ => None,
    }
}

/// The number of a numeric value that stands for a measure; none where the
/// value is missing, of another kind, no decimal `i32`, or the zero that is
/// written for a missing measure.
pub open spec fn measure_of(value: Option<AttributeView>) -> Option<int> {
    match value {
        Some(AttributeView::N(text)) => match parse_i32(text) {
            Some(n) => if n == 0 {
                None
            } else {
                Some(n as int)
            },
            None => None,
        },
        _ => None,
    }
}

/// The film that an item holds. Year and title default to 0 and the empty
/// text, genres and cast to empty lists, where the attribute is missing or of
/// another kind. Link, thumbnail, measures and extract are read as details.
pub open spec fn item_film(item: Map<Seq<char>, AttributeView>) -> FilmView {
    FilmView {
        year: i32_of(lookup(item, "year"@), 0) as int,
        title: string_of(lookup(item, "title"@), Seq::empty()),
        genres: strings_of(lookup(item, "genres"@)),
        cast: strings_of(lookup(item, "cast"@)),
        href: detail_of(lookup(item, "href"@), "default"@),
        thumbnail: detail_of(lookup(item, "thumbnail"@), "default"@),
        thumbnail_width: measure_of(lookup(item, "thumbnail_width"@)),
        thumbnail_height: measure_of(lookup(item, "thumbnail_height"@)),
        extract: detail_of(lookup(item, "extract"@), ""@),
    }
}

/// The nine attribute names are nine different names.
pub proof fn lemma_attribute_names_differ()
    ensures
        "year"@ != "title"@,
        "year"@ != "cast"@,
        "year"@ != "genres"@,
        "year"@ != "href"@,
        "year"@ != "thumbnail"@,
        "year"@ != "thumbnail_height"@,
        "year"@ != "thumbnail_width"@,
        "year"@ != "extract"@,
        "title"@ != "cast"@,
        "title"@ != "genres"@,
        "title"@ != "href"@,
        "title"@ != "thumbnail"@,
        "title"@ != "thumbnail_height"@,
        "title"@ != "thumbnail_width"@,
        "title"@ != "extract"@,
        "cast"@ != "genres"@,
        "cast"@ != "href"@,
        "cast"@ != "thumbnail"@,
        "cast"@ != "thumbnail_height"@,
        "cast"@ != "thumbnail_width"@,
        "cast"@ != "extract"@,
        "genres"@ != "href"@,
        "genres"@ != "thumbnail"@,
        "genres"@ != "thumbnail_height"@,
        "genres"@ != "thumbnail_width"@,
        "genres"@ != "extract"@,
        "href"@ != "thumbnail"@,
        "href"@ != "thumbnail_height"@,
        "href"@ != "thumbnail_width"@,
        "href"@ != "extract"@,
        "thumbnail"@ != "thumbnail_height"@,
        "thumbnail"@ != "thumbnail_width"@,
        "thumbnail"@ != "extract"@,
        "thumbnail_height"@ != "thumbnail_width"@,
        "thumbnail_height"@ != "extract"@,
        "thumbnail_width"@ != "extract"@,
{
    reveal_strlit("year");
    reveal_strlit("title");
    reveal_strlit("cast");
    reveal_strlit("genres");
    reveal_strlit("href");
    reveal_strlit("thumbnail");
    reveal_strlit("thumbnail_height");
    reveal_strlit("thumbnail_width");
    reveal_strlit("extract");
    assert("title"@.len() == 5);
    assert("genres"@.len() == 6);
    assert("extract"@.len() == 7);
    assert("thumbnail"@.len() == 9);
    assert("thumbnail_width"@.len() == 15);
    assert("thumbnail_height"@.len() == 16);
    assert("year"@.len() == 4 && "cast"@.len() == 4 && "href"@.len() == 4);
    assert("year"@[0] != "href"@[0]);
    assert("year"@[0] != "cast"@[0]);
    assert("cast"@[0] != "href"@[0]);
}

/// Every film's item has exactly nine attributes.
pub proof fn lemma_film_item_size(film: FilmView)
    ensures
        film_item(film).dom().finite(),
        film_item(film).dom().len() == 9,
{
    lemma_attribute_names_differ();
    let names = set![
        "year"@,
        "title"@,
        "cast"@,
        "genres"@,
        "href"@,
        "thumbnail"@,
        "thumbnail_height"@,
        "thumbnail_width"@,
        "extract"@,
    ];
    assert(film_item(film).dom() =~= names);
}

/// Writing a film into an item and reading the item back gives the film as
/// an item keeps it.
pub proof fn lemma_item_keeps_film(film: FilmView)
    requires
        film.in_range(),
    ensures
        item_film(film_item(film)) == film.as_stored(),
{
    lemma_attribute_names_differ();
    lemma_parse_i32_text(film.year as i32);
    lemma_parse_i32_text(number_or_zero(film.thumbnail_width) as i32);
    lemma_parse_i32_text(number_or_zero(film.thumbnail_height) as i32);
    let item = film_item(film);
    assert(lookup(item, "year"@) == Some(AttributeView::N(decimal_text(film.year))));
    assert(lookup(item, "title"@) == Some(AttributeView::S(film.title)));
    assert(lookup(item, "genres"@) == Some(string_list(film.genres)));
    assert(lookup(item, "cast"@) == Some(string_list(film.cast)));
    assert(lookup(item, "href"@) == Some(AttributeView::S(text_or(film.href, "default"@))));
    assert(lookup(item, "thumbnail"@) == Some(
        AttributeView::S(text_or(film.thumbnail, "default"@)),
    ));
    assert(lookup(item, "thumbnail_width"@) == Some(
        AttributeView::N(decimal_text(number_or_zero(film.thumbnail_width))),
    ));
    assert(lookup(item, "thumbnail_height"@) == Some(
        AttributeView::N(decimal_text(number_or_zero(film.thumbnail_height))),
    ));
    assert(lookup(item, "extract"@) == Some(AttributeView::S(text_or(film.extract, ""@))));
    assert(strings_of(Some(string_list(film.genres))) =~= film.genres);
    assert(strings_of(Some(string_list(film.cast))) =~= film.cast);
}

/// A film comes back unchanged when it is written into an item and the item
/// is read back, unless one of its details holds the very value that is
/// written for a missing one.
pub proof fn lemma_film_round_trip(film: FilmView)
    requires
        film.in_range(),
        film.href != Some("default"@),
        film.thumbnail != Some("default"@),
        film.thumbnail_width != Some(0int),
        film.thumbnail_height != Some(0int),
        film.extract != Some(""@),
    ensures
        item_film(film_item(film)) == film,
{
    lemma_item_keeps_film(film);
}

/// Reads a string value: its text, or `default` where the value is missing or no string.
pub fn as_string(val: Option<&AttributeValue>, default: &String) -> (text: String)
    ensures
        text@ == string_of(view_of(val), default@),
{
    match val {
        Some(AttributeValue::S(text)) => text.clone(),
        _ => default.clone(),
    }
}

/// Reads a numeric value: the `i32` that its text stands for, or `default` where
/// the value is missing, no number, or holds no decimal `i32`.
pub fn as_i32(val: Option<&AttributeValue>, default: i32) -> (number: i32)
    ensures
        number == i32_of(view_of(val), default),
{
    match val {
        Some(AttributeValue::N(text)) => match string_to_i32(text.as_str()) {
            Some(n) => n,
            None => default,
        },
        _ => default,
    }
}

/// Reads a list value: the text of each entry, empty for an entry that is no
/// string; an empty list where the value is missing or no list.
pub fn as_string_vec(val: Option<&AttributeValue>) -> (list: Vec<String>)
    ensures
        texts(list@) == strings_of(view_of(val)),
{
    match val {
        Some(AttributeValue::L(values)) => {
            let empty = String::new();
            let mut list: Vec<String> = Vec::new();
            let mut i: usize = 0;
            while i < values.len()
                invariant
                    i <= values.len(),
                    list@.len() == i,
                    empty@ == Seq::<char>::empty(),
                    forall|j: int|
                        0 <= j < i ==> (#[trigger] list@[j])@ == string_of(
                            Some(values@[j]@),
                            Seq::empty(),
                        ),
                decreases values.len() - i,
            {
                list.push(as_string(Some(&values[i]), &empty));
                i = i + 1;
            }
            assert(texts(list@) =~= strings_of(view_of(val)));
            list
        },
        _ => {
            let list: Vec<String> = Vec::new();
            assert(texts(list@) =~= strings_of(view_of(val)));
            list
        },
    }
}

/// Reads a detail: the text of a string value, or `None` where the value is
/// missing, no string, or the text `missing`.
pub fn as_detail(val: Option<&AttributeValue>, missing: &str) -> (detail: Option<String>)
    ensures
        text_of(detail) == detail_of(view_of(val), missing@),
{
    match val {
        Some(AttributeValue::S(text)) => {
            let unset: String = missing.to_owned();
            if *text == unset {
                None
            } else {
                Some(text.clone())
            }
        },
        _ => None,
    }
}

/// Reads a measure: the `i32` of a numeric value, or `None` where the value is
/// missing, no number, no decimal `i32`, or zero.
pub fn as_measure(val: Option<&AttributeValue>) -> (measure: Option<i32>)
    ensures
        number_of(measure) == measure_of(view_of(val)),
{
    match val {
        Some(AttributeValue::N(text)) => match string_to_i32(text.as_str()) {
            Some(n) => if n == 0 {
                None
            } else {
                Some(n)
            },
            None => None,
        },
        _ => None,
    }
}

/// The list value that holds a copy of each of the given strings.
fn string_list_value(strings: &Vec<String>) -> (value: AttributeValue)
    ensures
        value@ == string_list(texts(strings@)),
{
    let mut values: Vec<AttributeValue> = Vec::new();
    let mut i: usize = 0;
    while i < strings.len()
        invariant
            i <= strings.len(),
            values@.len() == i,
            forall|j: int| 0 <= j < i ==> (#[trigger] values@[j])@ == AttributeView::S(strings@[j]@),
        decreases strings.len() - i,
    {
        values.push(AttributeValue::S(strings[i].clone()));
        i = i + 1;
    }
    let value = AttributeValue::L(values);
    assert(value@->L_0 =~= string_list(texts(strings@))->L_0);
    value
}

/// A copy of the string, or of `default` where it is missing.
fn string_or(string: &Option<String>, default: &str) -> (text: String)
    ensures
        text@ == text_or(text_of(*string), default@),
{
    match string {
        Some(s) => s.clone(),
        None => default.to_owned(),
    }
}

/// The number, or zero where it is missing.
fn i32_or_zero(number: Option<i32>) -> (n: i32)
    ensures
        n == number_or_zero(number_of(number)),
{
    match number {
        Some(n) => n,
        None => 0,
    }
}

impl Film {
    /// Reads a film from an item. Year and title default to 0 and the empty
    /// text, genres and cast to empty lists. A link or thumbnail "default", an
    /// empty extract and a measure of zero are read as missing.
    pub fn from_item(item: &Item) -> (film: Film)
        ensures
            film@ == item_film(item@),
    {
        let empty = String::new();
        let mut film = Film::new(as_i32(item.get("year"), 0), as_string(item.get("title"), &empty));
        let mut genres: Vec<String> = as_string_vec(item.get("genres"));
        let mut cast: Vec<String> = as_string_vec(item.get("cast"));
        let ghost read_genres = genres@;
        let ghost read_cast = cast@;
        film.genres_mut().append(&mut genres);
        film.cast_mut().append(&mut cast);
        assert(film.genres@ =~= read_genres);
        assert(film.cast@ =~= read_cast);
        film.href = as_detail(item.get("href"), "default");
        *film.thumbnail_mut() = as_detail(item.get("thumbnail"), "default");
        *film.thumbnail_width() = as_measure(item.get("thumbnail_width"));
        *film.thumbnail_height() = as_measure(item.get("thumbnail_height"));
        film.extract = as_detail(item.get("extract"), "");
        film
    }
}

impl PutRequest {
    /// The request that puts `film`: its item is the film's item.
    pub fn from_film(film: &Film) -> (request: PutRequest)
        ensures
            request@ == Some(film_item(film@)),
    {
        let mut item = Item::new();
        item.insert("year".to_owned(), AttributeValue::N(i32_to_string(film.year)));
        item.insert("title".to_owned(), AttributeValue::S(film.title.clone()));
        item.insert("cast".to_owned(), string_list_value(&film.cast));
        item.insert("genres".to_owned(), string_list_value(&film.genres));
        item.insert("href".to_owned(), AttributeValue::S(string_or(&film.href, "default")));
        item.insert(
            "thumbnail".to_owned(),
            AttributeValue::S(string_or(&film.thumbnail, "default")),
        );
        item.insert(
            "thumbnail_height".to_owned(),
            AttributeValue::N(i32_to_string(i32_or_zero(film.thumbnail_height))),
        );
        item.insert(
            "thumbnail_width".to_owned(),
            AttributeValue::N(i32_to_string(i32_or_zero(film.thumbnail_width))),
        );
        item.insert("extract".to_owned(), AttributeValue::S(string_or(&film.extract, "")));
        PutRequest::new(Some(item))
    }
}

/// Reads a film from each of the items, in order.
pub fn films_from_items(items: &Vec<Item>) -> (films: Vec<Film>)
    ensures
        films@.len() == items@.len(),
        forall|i: int| 0 <= i < items@.len() ==> (#[trigger] films@[i])@ == item_film(items@[i]@),
{
    let mut films: Vec<Film> = Vec::new();
    let mut i: usize = 0;
    while i < items.len()
        invariant
            i <= items.len(),
            films@.len() == i,
            forall|j: int| 0 <= j < i ==> (#[trigger] films@[j])@ == item_film(items@[j]@),
        decreases items.len() - i,
    {
        films.push(Film::from_item(&items[i]));
        i = i + 1;
    }
    films
}

/// A fixed reply: a status line and the caller's address.
#[derive(Debug, PartialEq, Eq)]
pub struct FixedResponse {
    pub status: String,
    pub remote_address: String,
}

/// The query parameters for listing films.
#[derive(Debug, PartialEq, Eq)]
pub struct ListOptions {
    pub offset: Option<usize>,
    pub limit: Option<usize>,
    pub title: Option<String>,
    pub genre: Option<String>,
    pub year: Option<u16>,
}

/// The failure type of serde_dynamo, carried as it is.
#[verifier::external_type_specification]
#[verifier::external_body]
pub struct ExSerdeDynamoError(serde_dynamo::Error);

/// The failure type of the store's client, carried as it is.
#[verifier::external_type_specification]
#[verifier::external_body]
pub struct ExDynamoError(aws_sdk_dynamodb::Error);

/// The failure of one call of the store's client, carried as it is.
#[verifier::external_type_specification]
#[verifier::external_body]
#[verifier::reject_recursive_types(E)]
#[verifier::reject_recursive_types(R)]
pub struct ExSdkError<E, R>(aws_smithy_client::SdkError<E, R>);

/// A failure in reading or writing films.
#[derive(Debug)]
pub enum FilmError {
    /// An answer could not be read as films.
    FromSerde(serde_dynamo::Error),
    /// The store's client failed.
    Dynamo(aws_sdk_dynamodb::Error),
    /// Any other failure, as text.
    Unknown(String),
}

impl From<aws_sdk_dynamodb::Error> for FilmError {
    fn from(err: aws_sdk_dynamodb::Error) -> (error: FilmError) {
        FilmError::Dynamo(err)
    }
}

impl vstd::std_specs::convert::FromSpecImpl<aws_sdk_dynamodb::Error> for FilmError {
    open spec fn obeys_from_spec() -> bool {
        true
    }

    open spec fn from_spec(err: aws_sdk_dynamodb::Error) -> FilmError {
        FilmError::Dynamo(err)
    }
}

impl From<serde_dynamo::Error> for FilmError {
    fn from(err: serde_dynamo::Error) -> (error: FilmError) {
        FilmError::FromSerde(err)
    }
}

impl vstd::std_specs::convert::FromSpecImpl<serde_dynamo::Error> for FilmError {
    open spec fn obeys_from_spec() -> bool {
        true
    }

    open spec fn from_spec(err: serde_dynamo::Error) -> FilmError {
        FilmError::FromSerde(err)
    }
}

/// `format!` with `{:?}` on a failed call: the text that `Debug` writes of it.
/// Nothing is claimed of the text.
#[verifier::external_body]
fn debug_text<E: core::fmt::Debug, R: core::fmt::Debug>(
    err: &aws_smithy_client::SdkError<E, R>,
) -> String {
    format!("{err:?}")
}

impl<E: core::fmt::Debug, R: core::fmt::Debug> From<aws_smithy_client::SdkError<E, R>> for FilmError {
    /// The failure of a call: `Unknown`, with the text that `Debug` writes of it.
    fn from(err: aws_smithy_client::SdkError<E, R>) -> (error: FilmError)
        ensures
            error is Unknown,
    {
        FilmError::Unknown(debug_text(&err))
    }
}

impl<E: core::fmt::Debug, R: core::fmt::Debug> vstd::std_specs::convert::FromSpecImpl<aws_smithy_client::SdkError<E, R>> for FilmError {
    open spec fn obeys_from_spec() -> bool {
        false
    }

    open spec fn from_spec(err: aws_smithy_client::SdkError<E, R>) -> FilmError {
        arbitrary()
    }
}

impl<'a> From<&'a Item> for Film {
    /// Reads a film from an item, as `Film::from_item` does.
    fn from(value: &'a Item) -> (film: Film)
        ensures
            film@ == item_film(value@),
    {
        Film::from_item(value)
    }
}

impl<'a> vstd::std_specs::convert::FromSpecImpl<&'a Item> for Film {
    open spec fn obeys_from_spec() -> bool {
        false
    }

    open spec fn from_spec(value: &'a Item) -> Film {
        arbitrary()
    }
}

impl<'a> From<&'a Film> for PutRequest {
    /// The request that puts a film, as `PutRequest::from_film` gives it.
    fn from(film: &'a Film) -> (request: PutRequest)
        ensures
            request@ == Some(film_item(film@)),
    {
        PutRequest::from_film(film)
    }
}

impl<'a> vstd::std_specs::convert::FromSpecImpl<&'a Film> for PutRequest {
    open spec fn obeys_from_spec() -> bool {
        false
    }

    open spec fn from_spec(film: &'a Film) -> PutRequest {
        arbitrary()
    }
}

} // verus!
