use ebina::anilist::{Media, MediaFormat, MediaStatus, MediaTitle, MediaType, ScheduleArguments};
use ebina::metrics::{CommandCounter, UrlCounter};
use ebina::storage::{Categories, Difficulties, Feed, NewServerSettings};

#[test]
fn it_works() {
    let result = 2 + 2;
    assert_eq!(result, 4);
}

#[test]
fn command_counter_counts_per_name() {
    let mut counter = CommandCounter::new();
    let ping = "ping".to_string();
    let manga = "manga".to_string();
    assert_eq!(counter.counts.get(&ping), 0);
    counter.counts.increment(&ping);
    counter.counts.increment(&ping);
    counter.counts.increment(&manga);
    assert_eq!(counter.counts.get(&ping), 2);
    assert_eq!(counter.counts.get(&manga), 1);
    assert_eq!(counter.counts.get(&"never".to_string()), 0);
}

#[test]
fn url_counter_counts_independently() {
    let mut counter = UrlCounter::new();
    let kind = "mangadex".to_string();
    counter.counts.increment(&kind);
    assert_eq!(counter.counts.get(&kind), 1);
}

#[test]
fn media_labels_render_their_display_names() {
    assert_eq!(MediaFormat::Tv.label(), "TV");
    assert_eq!(MediaFormat::Novel.label(), "Light Novel");
    assert_eq!(MediaFormat::OneShot.label(), "One Shot");
    assert_eq!(MediaStatus::NotYetReleased.label(), "Not Yet Released");
    assert_eq!(MediaStatus::Hiatus.label(), "Hiatus");
    assert_eq!(MediaType::Anime.label(), "Anime");
    assert_eq!(MediaType::Manga.label(), "Manga");
}

fn media_named(preferred: &str, format: MediaFormat, adult: Option<bool>) -> Media {
    Media {
        id: 1,
        type_: Some(MediaType::Manga),
        title: Some(MediaTitle {
            romaji: None,
            english: None,
            native: None,
            user_preferred: Some(preferred.to_string()),
        }),
        episodes: None,
        volumes: None,
        genres: None,
        popularity: None,
        status: None,
        average_score: None,
        tags: None,
        cover_image: None,
        format: Some(format),
        season: None,
        mean_score: None,
        is_adult: adult,
        duration: None,
        description: None,
        chapters: None,
        rankings: None,
        season_year: None,
        site_url: None,
        source: None,
        start_date: None,
        end_date: None,
    }
}

#[test]
fn media_option_labels_follow_the_list_format() {
    let plain = media_named("To LOVE-Ru", MediaFormat::Manga, Some(false));
    assert_eq!(plain.option_label(), Some("To LOVE-Ru (Manga)".to_string()));
    let adult = media_named("Something", MediaFormat::Manga, Some(true));
    assert_eq!(adult.option_label(), Some("Something (Manga) (NSFW)".to_string()));
    let mut incomplete = media_named("Unnamed", MediaFormat::Manga, None);
    incomplete.title = None;
    assert_eq!(incomplete.option_label(), None);
}

#[test]
fn search_pages_reduce_to_display_labels() {
    let page = vec![
        Some(media_named("Naruto", MediaFormat::Manga, Some(false))),
        Some(media_named("One Piece", MediaFormat::Manga, None)),
    ];
    let labels = ebina::anilist::media_option_labels(&page).unwrap();
    assert_eq!(labels, vec!["Naruto (Manga)".to_string(), "One Piece (Manga)".to_string()]);
    let broken = vec![Some(media_named("ok", MediaFormat::Manga, None)), None];
    assert_eq!(ebina::anilist::media_option_labels(&broken), None);
}

#[test]
fn schedule_windows_span_one_whole_day() {
    let args = ScheduleArguments::for_day_of(3 * 86400 + 12345);
    assert_eq!(args.airing_at_greater, Some(259200));
    assert_eq!(args.airing_at_lesser, Some(345599));
    let at_midnight = ScheduleArguments::for_day_of(2 * 86400);
    assert_eq!(at_midnight.airing_at_greater, Some(172800));
    assert_eq!(at_midnight.airing_at_lesser, Some(259199));
}

#[test]
fn stored_records_keep_their_fields() {
    let feed = Feed {
        id: 1,
        server: -2,
        channel: 3,
        manga: "a-manga-id".to_string(),
    };
    assert_eq!(feed.server, -2);
    assert_eq!(feed.manga, "a-manga-id");
    let settings = NewServerSettings { server_id: 9, prefix: "!".to_string() };
    assert_eq!(settings.prefix, "!");
    assert_eq!(Categories::TV, Categories::TV);
    assert_ne!(Difficulties::Easy, Difficulties::Hard);
}
