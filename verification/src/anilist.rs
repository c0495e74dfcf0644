//! The anime/manga metadata records a content lookup returns: pages of
//! media with titles, schedules, staff, tags and cover images.  A search
//! produces a page of these records; each record is reduced to a display
//! label and handed to a disambiguation session, and the record behind
//! the chosen label supplies the final detail.

use vstd::prelude::*;

verus! {

/// Arguments of a lookup for one specific media title.
#[derive(Clone, Debug)]
pub struct MediaSpecificArguments {
    pub title: Option<String>,
    pub media_type: Option<MediaType>,
}

/// Arguments of an airing-schedule lookup: a window of broadcast times.
#[derive(Clone, Copy, Debug)]
pub struct ScheduleArguments {
    pub airing_at_greater: Option<i32>,
    pub airing_at_lesser: Option<i32>,
}

/// Seconds in one day.
pub const DAY_SECS: u64 = 86400;

impl ScheduleArguments {
    /// The schedule window for the whole day containing `now_secs` (an
    /// epoch time): from the first second of that day to its last.  The
    /// schedule service takes its bounds as 32-bit timestamps, so the
    /// time must lie within their range.
    pub fn for_day_of(now_secs: u64) -> (r: ScheduleArguments)
        requires
            now_secs - now_secs % DAY_SECS + (DAY_SECS - 1) <= i32::MAX,
        ensures
            r.airing_at_greater == Some((now_secs - now_secs % DAY_SECS) as i32),
            r.airing_at_lesser == Some(
                (now_secs - now_secs % DAY_SECS + (DAY_SECS - 1)) as i32,
            ),
            r.airing_at_greater->0 <= now_secs <= r.airing_at_lesser->0,
            r.airing_at_greater->0 % (DAY_SECS as i32) == 0,
    {
        let day_start = now_secs - now_secs % DAY_SECS;
        let day_end = day_start + (DAY_SECS - 1);
        proof {
            assert(now_secs % DAY_SECS < DAY_SECS) by (nonlinear_arith);
            assert(day_start % DAY_SECS == 0) by {
                vstd::arithmetic::div_mod::lemma_mod_multiples_vanish(
                    0,
                    now_secs as int - now_secs as int % DAY_SECS as int,
                    DAY_SECS as int,
                );
                vstd::arithmetic::div_mod::lemma_fundamental_div_mod(
                    now_secs as int,
                    DAY_SECS as int,
                );
                assert(now_secs as int - now_secs as int % DAY_SECS as int == (now_secs as int
                    / DAY_SECS as int) * DAY_SECS as int);
                vstd::arithmetic::div_mod::lemma_mod_multiples_basic(
                    now_secs as int / DAY_SECS as int,
                    DAY_SECS as int,
                );
            }
        }
        ScheduleArguments {
            airing_at_greater: Some(day_start as i32),
            airing_at_lesser: Some(day_end as i32),
        }
    }
}

/// Arguments of a free search over media titles.
#[derive(Clone, Debug)]
pub struct MediaSearchArguments {
    pub title: Option<String>,
}

/// Response of a specific-title lookup: one page of media.
#[derive(Clone, Debug)]
pub struct MediaSpecific {
    pub page: Option<Page>,
}

/// Response of a free search: one page of media.
#[derive(Clone, Debug)]
pub struct MediaSearch {
    pub page: Option<Page2>,
}

/// Response of an airing-schedule lookup: one page of schedule entries.
#[derive(Clone, Debug)]
pub struct Schedule {
    pub page: Option<Page3>,
}

/// A page of media records from a specific-title lookup.
#[derive(Clone, Debug)]
pub struct Page {
    pub page_info: Option<PageInfo>,
    pub media: Option<Vec<Option<Media>>>,
}

/// A page of media records from a free search.
#[derive(Clone, Debug)]
pub struct Page2 {
    pub page_info: Option<PageInfo>,
    pub media: Option<Vec<Option<Media>>>,
}

/// Position of a page within the full result set.
#[derive(Clone, Copy, Debug)]
pub struct PageInfo {
    pub total: Option<i32>,
    pub per_page: Option<i32>,
    pub current_page: Option<i32>,
    pub last_page: Option<i32>,
    pub has_next_page: Option<bool>,
}

/// A page of airing-schedule entries.
#[derive(Clone, Debug)]
pub struct Page3 {
    pub airing_schedules: Option<Vec<Option<AiringSchedule>>>,
}

/// One media record: everything a detail view shows.
#[derive(Clone, Debug)]
pub struct Media {
    pub id: i32,
    pub type_: Option<MediaType>,
    pub title: Option<MediaTitle>,
    pub episodes: Option<i32>,
    pub volumes: Option<i32>,
    pub genres: Option<Vec<Option<String>>>,
    pub popularity: Option<i32>,
    pub status: Option<MediaStatus>,
    pub average_score: Option<i32>,
    pub tags: Option<Vec<Option<MediaTag>>>,
    pub cover_image: Option<MediaCoverImage>,
    pub format: Option<MediaFormat>,
    pub season: Option<MediaSeason>,
    pub mean_score: Option<i32>,
    pub is_adult: Option<bool>,
    pub duration: Option<i32>,
    pub description: Option<String>,
    pub chapters: Option<i32>,
    pub rankings: Option<Vec<Option<MediaRank>>>,
    pub season_year: Option<i32>,
    pub site_url: Option<String>,
    pub source: Option<MediaSource>,
    pub start_date: Option<FuzzyDate>,
    pub end_date: Option<FuzzyDate>,
}

impl Media {
    /// The record carries everything its list label needs: a preferred
    /// title and a format.
    pub open spec fn has_label_parts(&self) -> bool {
        &&& self.title is Some
        &&& self.title->0.user_preferred is Some
        &&& self.format is Some
    }

    /// The label this record shows in a numbered options list: the
    /// preferred title, the format in parentheses, and an adult-content
    /// mark where it applies.
    pub open spec fn option_label_spec(&self) -> Seq<char>
        recommends
            self.has_label_parts(),
    {
        self.title->0.user_preferred->0@ + " ("@ + self.format->0.label_spec() + ")"@ + (
        if self.is_adult == Some(true) {
            " (NSFW)"@
        } else {
            Seq::<char>::empty()
        })
    }

    /// Builds the list label, or nothing when the record lacks a
    /// preferred title or a format.
    pub fn option_label(&self) -> (r: Option<String>)
        ensures
            match r {
                Some(s) => self.has_label_parts() && s@ == self.option_label_spec(),
                None => !self.has_label_parts(),
            },
    {
        let title = match &self.title {
            Some(t) => t,
            None => {
                return None;
            },
        };
        let preferred = match &title.user_preferred {
            Some(p) => p,
            None => {
                return None;
            },
        };
        let format = match &self.format {
            Some(f) => f,
            None => {
                return None;
            },
        };
        let mut label = preferred.clone();
        label.append(" (");
        let format_name = format.label();
        label.append(format_name.as_str());
        label.append(")");
        let adult = match self.is_adult {
            Some(flag) => flag,
            None => false,
        };
        if adult {
            label.append(" (NSFW)");
        }
        proof {
            if !adult {
                assert(label@ =~= self.option_label_spec());
            }
        }
        Some(label)
    }
}

/// Reduces one page of search results to the display labels a
/// disambiguation session presents, in result order.  Returns nothing
/// when any record is missing or lacks its label parts: such a page
/// cannot be listed.
pub fn media_option_labels(media_list: &Vec<Option<Media>>) -> (r: Option<Vec<String>>)
    ensures
        match r {
            Some(labels) => {
                &&& labels@.len() == media_list@.len()
                &&& forall|i: int|
                    0 <= i < media_list@.len() ==> (#[trigger] media_list@[i]) is Some
                        && media_list@[i]->0.has_label_parts() && labels@[i]@ == media_list@[
                        i
                    ]->0.option_label_spec()
            },
            None => exists|i: int|
                0 <= i < media_list@.len() && ((#[trigger] media_list@[i]) is None
                    || !media_list@[i]->0.has_label_parts()),
        },
{
    let n = media_list.len();
    let mut labels: Vec<String> = Vec::new();
    let mut i: usize = 0;
    while i < n
        invariant
            0 <= i <= n,
            n == media_list@.len(),
            labels@.len() == i,
            forall|j: int|
                0 <= j < i ==> (#[trigger] media_list@[j]) is Some && media_list@[
                    j
                ]->0.has_label_parts() && labels@[j]@ == media_list@[j]->0.option_label_spec(),
        decreases n - i,
    {
        let media = match &media_list[i] {
            Some(m) => m,
            None => {
                return None;
            },
        };
        let label = match media.option_label() {
            Some(s) => s,
            None => {
                return None;
            },
        };
        labels.push(label);
        i = i + 1;
    }
    Some(labels)
}

/// One ranking a media record holds.
#[derive(Clone, Copy, Debug)]
pub struct MediaRank {
    pub rank: i32,
    pub type_: MediaRankType,
}

/// A date that may lack a month or day.
#[derive(Clone, Copy, Debug)]
pub struct FuzzyDate {
    pub day: Option<i32>,
    pub month: Option<i32>,
    pub year: Option<i32>,
}

/// One airing-schedule entry: which episode of which media airs when.
#[derive(Clone, Debug)]
pub struct AiringSchedule {
    pub episode: i32,
    pub airing_at: i32,
    pub media: Option<Media2>,
}

/// The smaller media record a schedule entry carries.
#[derive(Clone, Debug)]
pub struct Media2 {
    pub id: i32,
    pub type_: Option<MediaType>,
    pub title: Option<MediaTitle>,
    pub episodes: Option<i32>,
    pub season: Option<MediaSeason>,
    pub popularity: Option<i32>,
    pub status: Option<MediaStatus>,
    pub average_score: Option<i32>,
}

/// Cover art of a media record, by size.
#[derive(Clone, Debug)]
pub struct MediaCoverImage {
    pub extra_large: Option<String>,
    pub large: Option<String>,
    pub medium: Option<String>,
    pub color: Option<String>,
}

/// The staff connected to a media record.
#[derive(Clone, Debug)]
pub struct StaffConnection {
    pub edges: Option<Vec<Option<StaffEdge>>>,
}

/// One staff connection: who, in which role.
#[derive(Clone, Debug)]
pub struct StaffEdge {
    pub id: Option<i32>,
    pub role: Option<String>,
    pub node: Option<Staff>,
}

/// One staff member.
#[derive(Clone, Debug)]
pub struct Staff {
    pub name: Option<StaffName>,
}

/// A staff member's name.
#[derive(Clone, Debug)]
pub struct StaffName {
    pub first: Option<String>,
    pub last: Option<String>,
}

/// One tag on a media record.
#[derive(Clone, Debug)]
pub struct MediaTag {
    pub id: i32,
    pub name: String,
    pub rank: Option<i32>,
}

/// The titles a media record is known under.
#[derive(Clone, Debug)]
pub struct MediaTitle {
    pub romaji: Option<String>,
    pub english: Option<String>,
    pub native: Option<String>,
    pub user_preferred: Option<String>,
}

/// The release format of a media record.
#[derive(Clone, Copy, PartialEq, Eq, Structural, Debug)]
pub enum MediaFormat {
    Tv,
    TvShort,
    Movie,
    Special,
    Ova,
    Ona,
    Music,
    Manga,
    Novel,
    OneShot,
}

impl MediaFormat {
    /// The display name of this format.
    pub open spec fn label_spec(&self) -> Seq<char> {
        match self {
            MediaFormat::Tv => "TV"@,
            MediaFormat::TvShort => "TV Short "@,
            MediaFormat::Movie => "Movie"@,
            MediaFormat::Special => "Special"@,
            MediaFormat::Ova => "OVA"@,
            MediaFormat::Ona => "ONA"@,
            MediaFormat::Music => "Music"@,
            MediaFormat::Manga => "Manga"@,
            MediaFormat::Novel => "Light Novel"@,
            MediaFormat::OneShot => "One Shot"@,
        }
    }

    /// The display name of this format, as text.
    pub fn label(&self) -> (s: String)
        ensures
            s@ == self.label_spec(),
    {
        match self {
            MediaFormat::Tv => "TV".to_owned(),
            MediaFormat::TvShort => "TV Short ".to_owned(),
            MediaFormat::Movie => "Movie".to_owned(),
            MediaFormat::Special => "Special".to_owned(),
            MediaFormat::Ova => "OVA".to_owned(),
            MediaFormat::Ona => "ONA".to_owned(),
            MediaFormat::Music => "Music".to_owned(),
            MediaFormat::Manga => "Manga".to_owned(),
            MediaFormat::Novel => "Light Novel".to_owned(),
            MediaFormat::OneShot => "One Shot".to_owned(),
        }
    }
}

/// What a media ranking ranks by.
#[derive(Clone, Copy, PartialEq, Eq, Structural, Debug)]
pub enum MediaRankType {
    Rated,
    Popular,
}

/// The season a media record belongs to.
#[derive(Clone, Copy, PartialEq, Eq, Structural, Debug)]
pub enum MediaSeason {
    Winter,
    Spring,
    Summer,
    Fall,
}

/// What a media record was adapted from.
#[derive(Clone, Copy, PartialEq, Eq, Structural, Debug)]
pub enum MediaSource {
    Original,
    Manga,
    LightNovel,
    VisualNovel,
    VideoGame,
    Other,
    Novel,
    Doujinshi,
    Anime,
    WebNovel,
    LiveAction,
    Game,
    Comic,
    MultimediaProject,
    PictureBook,
}

/// The release status of a media record.
#[derive(Clone, Copy, PartialEq, Eq, Structural, Debug)]
pub enum MediaStatus {
    Finished,
    Releasing,
    NotYetReleased,
    Cancelled,
    Hiatus,
}

impl MediaStatus {
    /// The display name of this status.
    pub open spec fn label_spec(&self) -> Seq<char> {
        match self {
            MediaStatus::Finished => "Finished"@,
            MediaStatus::Releasing => "Releasing"@,
            MediaStatus::NotYetReleased => "Not Yet Released"@,
            MediaStatus::Cancelled => "Cancelled"@,
            MediaStatus::Hiatus => "Hiatus"@,
        }
    }

    /// The display name of this status, as text.
    pub fn label(&self) -> (s: String)
        ensures
            s@ == self.label_spec(),
    {
        match self {
            MediaStatus::Finished => "Finished".to_owned(),
            MediaStatus::Releasing => "Releasing".to_owned(),
            MediaStatus::NotYetReleased => "Not Yet Released".to_owned(),
            MediaStatus::Cancelled => "Cancelled".to_owned(),
            MediaStatus::Hiatus => "Hiatus".to_owned(),
        }
    }
}

/// Whether a media record is an anime or a manga.
#[derive(Clone, Copy, PartialEq, Eq, Structural, Debug)]
pub enum MediaType {
    Anime,
    Manga,
}

impl MediaType {
    /// The display name of this media kind.
    pub open spec fn label_spec(&self) -> Seq<char> {
        match self {
            MediaType::Anime => "Anime"@,
            MediaType::Manga => "Manga"@,
        }
    }

    /// The display name of this media kind, as text.
    pub fn label(&self) -> (s: String)
        ensures
            s@ == self.label_spec(),
    {
        match self {
            MediaType::Anime => "Anime".to_owned(),
            MediaType::Manga => "Manga".to_owned(),
        }
    }
}

} // verus!
