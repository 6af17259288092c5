//! Card kinds, privacy levels and the checks on card edits.
use vstd::prelude::*;

use crate::clock::new_uuid;
use crate::text::{has_non_whitespace, has_visible_char, str_equal, utf8_len};

verus! {

/// Kind of a card.
#[derive(Debug, Clone, Copy, PartialEq, Eq, Structural)]
pub enum CardType {
    DayCard,
    WeekCard,
    FragmentCard,
    MomentCard,
}

/// The storage name of each card kind.
pub open spec fn card_type_name(t: CardType) -> Seq<char> {
    match t {
        CardType::DayCard => "day_card"@,
        CardType::WeekCard => "week_card"@,
        CardType::FragmentCard => "fragment_card"@,
        CardType::MomentCard => "moment_card"@,
    }
}

impl CardType {
    /// Parses the storage name of a card kind.
    pub fn from_db_str(s: &str) -> (r: Option<CardType>)
        ensures
            r == (if s@ == "day_card"@ {
                Some(CardType::DayCard)
            } else if s@ == "week_card"@ {
                Some(CardType::WeekCard)
            } else if s@ == "fragment_card"@ {
                Some(CardType::FragmentCard)
            } else if s@ == "moment_card"@ {
                Some(CardType::MomentCard)
            } else {
                None
            }),
    {
        if str_equal(s, "day_card") {
            Some(CardType::DayCard)
        } else if str_equal(s, "week_card") {
            Some(CardType::WeekCard)
        } else if str_equal(s, "fragment_card") {
            Some(CardType::FragmentCard)
        } else if str_equal(s, "moment_card") {
            Some(CardType::MomentCard)
        } else {
            None
        }
    }

    /// The storage name of this card kind.
    pub fn to_db_str(&self) -> (r: &'static str)
        ensures
            r@ == card_type_name(*self),
    {
        match self {
            CardType::DayCard => "day_card",
            CardType::WeekCard => "week_card",
            CardType::FragmentCard => "fragment_card",
            CardType::MomentCard => "moment_card",
        }
    }
}

/// Who may see a card.
#[derive(Debug, Clone, Copy, PartialEq, Eq, Structural)]
pub enum PrivacyLevel {
    Public,
    FriendsOnly,
    ExchangeOnly,
}

/// The storage name of each privacy level.
pub open spec fn privacy_level_name(p: PrivacyLevel) -> Seq<char> {
    match p {
        PrivacyLevel::Public => "public"@,
        PrivacyLevel::FriendsOnly => "friends_only"@,
        PrivacyLevel::ExchangeOnly => "exchange_only"@,
    }
}

impl PrivacyLevel {
    /// Parses the storage name of a privacy level.
    pub fn from_db_str(s: &str) -> (r: Option<PrivacyLevel>)
        ensures
            r == (if s@ == "public"@ {
                Some(PrivacyLevel::Public)
            } else if s@ == "friends_only"@ {
                Some(PrivacyLevel::FriendsOnly)
            } else if s@ == "exchange_only"@ {
                Some(PrivacyLevel::ExchangeOnly)
            } else {
                None
            }),
    {
        if str_equal(s, "public") {
            Some(PrivacyLevel::Public)
        } else if str_equal(s, "friends_only") {
            Some(PrivacyLevel::FriendsOnly)
        } else if str_equal(s, "exchange_only") {
            Some(PrivacyLevel::ExchangeOnly)
        } else {
            None
        }
    }

    /// The storage name of this privacy level.
    pub fn to_db_str(&self) -> (r: &'static str)
        ensures
            r@ == privacy_level_name(*self),
    {
        match self {
            PrivacyLevel::Public => "public",
            PrivacyLevel::FriendsOnly => "friends_only",
            PrivacyLevel::ExchangeOnly => "exchange_only",
        }
    }
}

impl Default for PrivacyLevel {
    /// Cards are public unless stated otherwise.
    fn default() -> (r: Self)
        ensures
            r == PrivacyLevel::Public,
    {
        PrivacyLevel::Public
    }
}

/// Kind of a media attachment.
#[derive(Debug, Clone, Copy, PartialEq, Eq, Structural)]
pub enum MediaType {
    Image,
    Video,
}

/// A media attachment of a card.
#[derive(Debug, Clone, PartialEq, Eq)]
pub struct MediaItem {
    pub id: u128,
    pub media_type: MediaType,
    pub url: String,
    pub thumbnail_url: Option<String>,
    pub width: Option<i32>,
    pub height: Option<i32>,
}

impl MediaItem {
    /// A new image at `url`, under a fresh random id, with no thumbnail or size.
    pub fn new_image(url: String) -> (r: Self)
        ensures
            r.media_type == MediaType::Image,
            r.url == url,
            r.thumbnail_url is None,
            r.width is None,
            r.height is None,
    {
        MediaItem { id: new_uuid(), media_type: MediaType::Image, url, thumbnail_url: None, width: None, height: None }
    }

    /// A new video at `url`, under a fresh random id, with no thumbnail or size.
    pub fn new_video(url: String) -> (r: Self)
        ensures
            r.media_type == MediaType::Video,
            r.url == url,
            r.thumbnail_url is None,
            r.width is None,
            r.height is None,
    {
        MediaItem { id: new_uuid(), media_type: MediaType::Video, url, thumbnail_url: None, width: None, height: None }
    }
}

/// Period of a popularity ranking.
#[derive(Debug, Clone, Copy, PartialEq, Eq, Structural)]
pub enum TimeRange {
    Day,
    Week,
    Month,
}

impl TimeRange {
    /// The key name of this period.
    pub fn as_str(&self) -> (r: &'static str)
        ensures
            r@ == (match *self {
                TimeRange::Day => "day"@,
                TimeRange::Week => "week"@,
                TimeRange::Month => "month"@,
            }),
    {
        match self {
            TimeRange::Day => "day",
            TimeRange::Week => "week",
            TimeRange::Month => "month",
        }
    }
}

impl Default for TimeRange {
    /// Rankings cover a week unless stated otherwise.
    fn default() -> (r: Self)
        ensures
            r == TimeRange::Week,
    {
        TimeRange::Week
    }
}

/// Short description of a card, embedded in other answers.
#[derive(Debug, Clone, PartialEq, Eq)]
pub struct LifeCardSummary {
    pub id: u128,
    pub title: String,
    pub card_type: CardType,
    pub thumbnail: Option<String>,
}

/// Longest title, in bytes.
pub const MAX_TITLE_BYTES: usize = 200;

/// Most tags of one kind on a card.
pub const MAX_TAGS: usize = 10;

/// Longest tag, in bytes.
pub const MAX_TAG_BYTES: usize = 50;

/// Why a title is refused, if it is.
pub open spec fn title_problem(title: Seq<char>) -> Option<Seq<char>> {
    if !has_visible_char(title) {
        Some("Title cannot be empty"@)
    } else if utf8_len(title) > MAX_TITLE_BYTES {
        Some("Title must be 200 characters or less"@)
    } else {
        None
    }
}

/// Why a list of tags is refused, if it is: `too_many` when there are more
/// than ten, `too_long` when one is longer than 50 bytes.
pub open spec fn tags_problem(tags: Seq<String>, too_many: Seq<char>, too_long: Seq<char>) -> Option<
    Seq<char>,
> {
    if tags.len() > MAX_TAGS {
        Some(too_many)
    } else if exists|i: int| 0 <= i < tags.len() && utf8_len((#[trigger] tags[i])@) > MAX_TAG_BYTES {
        Some(too_long)
    } else {
        None
    }
}

/// Checks a card title: not blank, at most 200 bytes.
pub fn validate_title(title: &str) -> (r: Result<(), String>)
    ensures
        r is Ok <==> title_problem(title@) is None,
        r is Err ==> title_problem(title@) == Some(r->Err_0@),
{
    if !has_non_whitespace(title) {
        return Err("Title cannot be empty".to_owned());
    }
    if title.len() > MAX_TITLE_BYTES {
        return Err("Title must be 200 characters or less".to_owned());
    }
    Ok(())
}

/// Checks a card description: not blank.
pub fn validate_description(description: &str) -> (r: Result<(), String>)
    ensures
        r is Ok <==> has_visible_char(description@),
        r is Err ==> r->Err_0@ == "Description cannot be empty"@,
{
    if !has_non_whitespace(description) {
        return Err("Description cannot be empty".to_owned());
    }
    Ok(())
}

/// Checks a list of tags: at most ten, each at most 50 bytes. The two
/// messages are those given for too many tags and for a too long tag.
pub fn validate_tags(tags: &Vec<String>, too_many: &str, too_long: &str) -> (r: Result<(), String>)
    ensures
        r is Ok <==> tags_problem(tags@, too_many@, too_long@) is None,
        r is Err ==> tags_problem(tags@, too_many@, too_long@) == Some(r->Err_0@),
{
    if tags.len() > MAX_TAGS {
        return Err(too_many.to_owned());
    }
    let mut i: usize = 0;
    while i < tags.len()
        invariant
            i <= tags.len(),
            tags.len() <= MAX_TAGS,
            forall|j: int| 0 <= j < i ==> utf8_len((#[trigger] tags@[j])@) <= MAX_TAG_BYTES,
        decreases tags.len() - i,
    {
        if tags[i].as_str().len() > MAX_TAG_BYTES {
            assert(utf8_len(tags@[i as int]@) > MAX_TAG_BYTES);
            return Err(too_long.to_owned());
        }
        i = i + 1;
    }
    Ok(())
}

/// Changes to an existing card; `None` leaves a field as it is.
#[derive(Debug, Clone, PartialEq, Eq)]
pub struct CardUpdateData {
    pub title: Option<String>,
    pub description: Option<String>,
    pub emotion_tags: Option<Vec<String>>,
    pub interest_tags: Option<Vec<String>>,
    pub privacy_level: Option<PrivacyLevel>,
}

impl CardUpdateData {
    /// Why this edit is refused, if it is: the first failing check in the
    /// order title, description, emotion tags, interest tags.
    pub open spec fn problem(&self) -> Option<Seq<char>> {
        let t = match &self.title {
            Some(t) => title_problem(t@),
            None => None,
        };
        let d = match &self.description {
            Some(d) => if has_visible_char(d@) {
                None
            } else {
                Some("Description cannot be empty"@)
            },
            None => None,
        };
        let e = match &self.emotion_tags {
            Some(tags) => tags_problem(
                tags@,
                "Maximum 10 emotion tags allowed"@,
                "Each emotion tag must be 50 characters or less"@,
            ),
            None => None,
        };
        let i = match &self.interest_tags {
            Some(tags) => tags_problem(
                tags@,
                "Maximum 10 interest tags allowed"@,
                "Each interest tag must be 50 characters or less"@,
            ),
            None => None,
        };
        if t is Some {
            t
        } else if d is Some {
            d
        } else if e is Some {
            e
        } else {
            i
        }
    }

    /// Checks the edit; the error holds the first problem found.
    pub fn validate(&self) -> (r: Result<(), String>)
        ensures
            r is Ok <==> self.problem() is None,
            r is Err ==> self.problem() == Some(r->Err_0@),
    {
        if let Some(title) = &self.title {
            let checked = validate_title(title.as_str());
            if checked.is_err() {
                return checked;
            }
        }
        if let Some(description) = &self.description {
            let checked = validate_description(description.as_str());
            if checked.is_err() {
                return checked;
            }
        }
        if let Some(tags) = &self.emotion_tags {
            let checked = validate_tags(
                tags,
                "Maximum 10 emotion tags allowed",
                "Each emotion tag must be 50 characters or less",
            );
            if checked.is_err() {
                return checked;
            }
        }
        if let Some(tags) = &self.interest_tags {
            let checked = validate_tags(
                tags,
                "Maximum 10 interest tags allowed",
                "Each interest tag must be 50 characters or less",
            );
            if checked.is_err() {
                return checked;
            }
        }
        Ok(())
    }
}

/// Coins awarded for creating a card: five, plus three with media, two with a
/// location, one with emotion tags and one with interest tags.
pub open spec fn spec_creation_reward(
    has_media: bool,
    has_location: bool,
    has_emotion_tags: bool,
    has_interest_tags: bool,
) -> int {
    5 + (if has_media { 3int } else { 0 }) + (if has_location { 2int } else { 0 }) + (if has_emotion_tags {
        1int
    } else {
        0
    }) + (if has_interest_tags { 1int } else { 0 })
}

/// The coin reward for a new card from what it carries.
pub fn calculate_creation_reward(
    has_media: bool,
    has_location: bool,
    has_emotion_tags: bool,
    has_interest_tags: bool,
) -> (r: i32)
    ensures
        r == spec_creation_reward(has_media, has_location, has_emotion_tags, has_interest_tags),
{
    let mut reward: i32 = 5;
    if has_media {
        reward = reward + 3;
    }
    if has_location {
        reward = reward + 2;
    }
    if has_emotion_tags {
        reward = reward + 1;
    }
    if has_interest_tags {
        reward = reward + 1;
    }
    reward
}

} // verus!
