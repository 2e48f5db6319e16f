//! Diary entries, comments and owners.

use crate::decimal::{decimal_int, push_decimal};
use vstd::prelude::*;
use vstd::utf8::encode_utf8;

verus! {

/// A calendar date as chrono keeps it, carried through unread.
#[verifier::external_type_specification]
#[verifier::external_body]
pub struct ExNaiveDate(chrono::NaiveDate);

/// A time of day as chrono keeps it, carried through unread.
#[verifier::external_type_specification]
#[verifier::external_body]
pub struct ExNaiveTime(chrono::NaiveTime);

/// A stored diary entry.
#[derive(Debug)]
pub struct DiaryEntry {
    pub id: i32,
    pub title: String,
    pub body: String,
    pub creation_date: chrono::NaiveDate,
    pub creation_time: chrono::NaiveTime,
}

/// Two entries are the same entry when their identifiers agree.
impl PartialEq for DiaryEntry {
    fn eq(&self, other: &DiaryEntry) -> (r: bool)
        ensures
            r == (self.id == other.id),
    {
        self.id == other.id
    }
}

impl vstd::std_specs::cmp::PartialEqSpecImpl for DiaryEntry {
    open spec fn obeys_eq_spec() -> bool {
        true
    }

    open spec fn eq_spec(&self, other: &DiaryEntry) -> bool {
        self.id == other.id
    }
}

/// The path under which the server publishes an entry.
pub open spec fn absolute_url_of(id: i32) -> Seq<char> {
    "/api/entries/"@ + decimal_int(id as int)
}

/// The path of an entry in the front end's routing.
pub open spec fn react_url_of(id: i32) -> Seq<char> {
    "/entry/"@ + decimal_int(id as int)
}

impl DiaryEntry {
    pub fn get_absolute_url(&self) -> (r: String)
        ensures
            r@ == absolute_url_of(self.id),
    {
        let mut url = String::new();
        url.append("/api/entries/");
        push_decimal(&mut url, self.id);
        url
    }

    pub fn get_react_url(&self) -> (r: String)
        ensures
            r@ == react_url_of(self.id),
    {
        let mut url = String::new();
        url.append("/entry/");
        push_decimal(&mut url, self.id);
        url
    }
}

/// A diary entry together with all of its comments.
#[derive(Debug)]
pub struct WholeDiaryEntry {
    pub id: i32,
    pub title: String,
    pub body: String,
    pub creation_date: chrono::NaiveDate,
    pub creation_time: chrono::NaiveTime,
    pub comments: Vec<DiaryComment>,
}

/// A diary entry as the landing page lists it, with the number of its comments.
#[derive(Debug)]
pub struct LandingPageDiaryEntry {
    pub id: i32,
    pub title: String,
    pub body: String,
    pub creation_date: chrono::NaiveDate,
    pub creation_time: chrono::NaiveTime,
    pub comments_count: i32,
}

/// Two listed entries are the same entry when their identifiers agree.
impl PartialEq for LandingPageDiaryEntry {
    fn eq(&self, other: &LandingPageDiaryEntry) -> (r: bool)
        ensures
            r == (self.id == other.id),
    {
        self.id == other.id
    }
}

impl vstd::std_specs::cmp::PartialEqSpecImpl for LandingPageDiaryEntry {
    open spec fn obeys_eq_spec() -> bool {
        true
    }

    open spec fn eq_spec(&self, other: &LandingPageDiaryEntry) -> bool {
        self.id == other.id
    }
}

/// A stored comment on a diary entry.
#[derive(Debug)]
pub struct DiaryComment {
    id: i32,
    pub entry_id: i32,
    body: String,
    pub creation_date: chrono::NaiveDate,
    pub creation_time: chrono::NaiveTime,
}

impl DiaryComment {
    /// The comment's identifier.
    pub closed spec fn key(&self) -> i32 {
        self.id
    }
}

/// Two comments are the same comment when their identifiers agree.
impl PartialEq for DiaryComment {
    fn eq(&self, other: &DiaryComment) -> (r: bool)
        ensures
            r == (self.key() == other.key()),
    {
        self.id == other.id
    }
}

impl vstd::std_specs::cmp::PartialEqSpecImpl for DiaryComment {
    open spec fn obeys_eq_spec() -> bool {
        true
    }

    open spec fn eq_spec(&self, other: &DiaryComment) -> bool {
        self.key() == other.key()
    }
}

/// A comment about to be stored.
pub struct NewDiaryComment {
    pub entry_id: i32,
    pub body: String,
}

/// The body of a comment as a client posts it.
pub struct DeserializableDiaryComment {
    pub body: String,
}

/// A diary entry about to be stored.
pub struct NewDiaryEntry {
    pub title: String,
    pub body: String,
}

/// The number of bytes that a new entry's title and body must each exceed.
pub const MIN_TEXT_BYTES: usize = 3;

/// Whether a new entry's title and body are each longer than `MIN_TEXT_BYTES`
/// bytes in UTF-8.
pub open spec fn entry_text_acceptable(title: Seq<char>, body: Seq<char>) -> bool {
    encode_utf8(title).len() > MIN_TEXT_BYTES && encode_utf8(body).len() > MIN_TEXT_BYTES
}

/// What a client is told when a new entry's title or body is too short.
pub open spec fn short_text_message() -> Seq<char> {
    "The length of the body and title must be greater than 3 characters!"@
}

impl NewDiaryEntry {
    /// Checks a new entry before it is stored: its title and its body must
    /// each be longer than `MIN_TEXT_BYTES` bytes.
    pub fn validate(&self) -> (r: Result<(), ErrorDetails>)
        ensures
            r is Ok <==> entry_text_acceptable(self.title@, self.body@),
            r matches Err(details) ==> details.error_message@ == short_text_message(),
    {
        if self.body.as_str().as_bytes().len() <= MIN_TEXT_BYTES
            || self.title.as_str().as_bytes().len() <= MIN_TEXT_BYTES {
            let message = String::from_str(
                "The length of the body and title must be greater than 3 characters!",
            );
            return Err(ErrorDetails { error_message: message });
        }
        Ok(())
    }
}

/// The title of an entry and the path where it is published.
pub struct DiaryEntryMetaInfo {
    pub title: String,
    pub url: String,
}

/// The message sent to a client whose request was refused.
#[derive(Debug)]
pub struct ErrorDetails {
    pub error_message: String,
}

/// An owner about to be stored.
#[derive(Debug)]
pub struct NewDiaryOwner {
    pub email: String,
    pub password: String,
}

/// A stored owner of the diary, with the token last issued to them, if any.
#[derive(Debug)]
pub struct DiaryOwner {
    pub id: i32,
    pub email: String,
    pub password: String,
    pub jwt: Option<String>,
}

/// Two owners are the same owner when their identifiers agree.
impl PartialEq for DiaryOwner {
    fn eq(&self, other: &DiaryOwner) -> (r: bool)
        ensures
            r == (self.id == other.id),
    {
        self.id == other.id
    }
}

impl vstd::std_specs::cmp::PartialEqSpecImpl for DiaryOwner {
    open spec fn obeys_eq_spec() -> bool {
        true
    }

    open spec fn eq_spec(&self, other: &DiaryOwner) -> bool {
        self.id == other.id
    }
}

} // verus!
