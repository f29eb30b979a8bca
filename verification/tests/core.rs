use ferristream::media::{
    extract_subtitle_language, is_subtitle_file, is_video_file, metadata_poll_step, classify_files,
    select_subtitle, FileEntry, PollStep, SubtitleFile, VideoFile,
};
use ferristream::episodes::sort_episodes;
use ferristream::progress::calculate_progress;
use ferristream::validation::TorrentValidation;

fn video(name: &str, idx: usize, size: u64) -> VideoFile {
    VideoFile {
        name: name.to_string(),
        file_idx: idx,
        size,
        stream_url: String::new(),
    }
}

#[test]
fn test_extract_subtitle_language() {
    // English variations
    assert_eq!(
        extract_subtitle_language("Movie.2024.eng.srt"),
        Some("en".to_string())
    );
    assert_eq!(
        extract_subtitle_language("Movie.2024.English.srt"),
        Some("en".to_string())
    );
    assert_eq!(
        extract_subtitle_language("Movie.2024.en.srt"),
        Some("en".to_string())
    );

    // Other languages
    assert_eq!(
        extract_subtitle_language("Movie.2024.spanish.srt"),
        Some("es".to_string())
    );
    assert_eq!(
        extract_subtitle_language("Movie.2024.fre.srt"),
        Some("fr".to_string())
    );
    assert_eq!(
        extract_subtitle_language("Movie.2024.ger.srt"),
        Some("de".to_string())
    );
    assert_eq!(
        extract_subtitle_language("Movie.2024.jpn.srt"),
        Some("ja".to_string())
    );

    // No language found
    assert_eq!(extract_subtitle_language("Movie.2024.srt"), None);
    assert_eq!(extract_subtitle_language("Movie.2024.forced.srt"), None);
}

#[test]
fn test_is_video_file() {
    assert!(is_video_file("movie.mkv"));
    assert!(is_video_file("Movie.2024.1080p.BluRay.MP4"));
    assert!(is_video_file("video.avi"));
    assert!(is_video_file("file.webm"));

    assert!(!is_video_file("movie.srt"));
    assert!(!is_video_file("movie.txt"));
    assert!(!is_video_file("movie.nfo"));
}

#[test]
fn test_is_subtitle_file() {
    assert!(is_subtitle_file("movie.srt"));
    assert!(is_subtitle_file("Movie.English.SRT"));
    assert!(is_subtitle_file("movie.ass"));
    assert!(is_subtitle_file("movie.vtt"));

    assert!(!is_subtitle_file("movie.mkv"));
    assert!(!is_subtitle_file("movie.txt"));
    assert!(!is_subtitle_file("movie.nfo"));
}

#[test]
fn test_episode_sort_key() {
    let file1 = video("Show.S01E01.720p.mkv", 0, 1000);
    let file2 = video("Show.S01E02.720p.mkv", 1, 1000);
    let file10 = video("Show.S01E10.720p.mkv", 2, 1000);
    let file_s2 = video("Show.S02E01.720p.mkv", 3, 1000);

    assert_eq!(file1.episode_sort_key(), (1, 1));
    assert_eq!(file2.episode_sort_key(), (1, 2));
    assert_eq!(file10.episode_sort_key(), (1, 10));
    assert_eq!(file_s2.episode_sort_key(), (2, 1));

    // Verify sorting order
    assert!(file1.episode_sort_key() < file2.episode_sort_key());
    assert!(file2.episode_sort_key() < file10.episode_sort_key());
    assert!(file10.episode_sort_key() < file_s2.episode_sort_key());
}

#[test]
fn test_sort_episodes() {
    let mut files = vec![
        video("Show.S01E03.mkv", 0, 1000),
        video("Show.S01E01.mkv", 1, 1000),
        video("Show.S01E02.mkv", 2, 1000),
    ];

    sort_episodes(&mut files);

    assert!(files[0].name.contains("E01"));
    assert!(files[1].name.contains("E02"));
    assert!(files[2].name.contains("E03"));
}

#[test]
fn sort_episodes_unparseable_last() {
    let mut files = vec![
        video("Show.Special.Recap.mkv", 0, 1000),
        video("Show.S01E02.mkv", 1, 1000),
        video("Show.S01E01.mkv", 2, 1000),
    ];
    sort_episodes(&mut files);
    assert!(files[0].name.contains("E01"));
    assert!(files[1].name.contains("E02"));
    assert!(files[2].name.contains("Special"));
}

#[test]
fn episode_key_x_format() {
    assert_eq!(video("Show.Name.1x02.HDTV.mkv", 0, 1).episode_sort_key(), (1, 2));
    assert_eq!(video("Show.Name.10x23.mkv", 0, 1).episode_sort_key(), (10, 23));
    assert_eq!(
        video("Random.File.Name.mkv", 0, 1).episode_sort_key(),
        (u32::MAX, u32::MAX)
    );
}

#[test]
fn test_extract_keywords() {
    // Basic extraction - years are filtered out
    let kw = TorrentValidation::extract_keywords("Garfield 2024");
    assert!(kw.contains(&"garfield".to_string()));
    assert!(!kw.contains(&"2024".to_string())); // Years are filtered

    // Filters short words and stop words
    let kw = TorrentValidation::extract_keywords("The Lord of the Rings");
    assert!(kw.contains(&"lord".to_string()));
    assert!(kw.contains(&"rings".to_string()));
    assert!(!kw.contains(&"the".to_string()));
    assert!(!kw.contains(&"of".to_string()));

    // Handles special characters
    let kw = TorrentValidation::extract_keywords("Spider-Man: No Way Home (2021)");
    assert!(kw.contains(&"spider".to_string()));
    assert!(kw.contains(&"man".to_string()));
    assert!(kw.contains(&"way".to_string()));
    assert!(kw.contains(&"home".to_string()));
    assert!(!kw.contains(&"2021".to_string())); // Years are filtered
}

#[test]
fn extract_keywords_exact_sets() {
    assert_eq!(
        TorrentValidation::extract_keywords("The Lord of the Rings 2001"),
        vec!["lord".to_string(), "rings".to_string()]
    );
    assert_eq!(
        TorrentValidation::extract_keywords("Spider-Man: No Way Home (2021)"),
        vec![
            "spider".to_string(),
            "man".to_string(),
            "way".to_string(),
            "home".to_string()
        ]
    );
}

#[test]
fn test_torrent_validation() {
    // Title + year validation
    let v = TorrentValidation::new(vec!["garfield".to_string()], Some(2024));
    assert!(v.matches("Garfield.2024.1080p.BluRay.mkv"));
    assert!(!v.matches("Garfield.On.The.Town.1983.mkv")); // Wrong year
    assert!(!v.matches("Scooby-Doo.2024.mkv")); // Wrong title

    // Title only (no year)
    let v = TorrentValidation::new(vec!["garfield".to_string()], None);
    assert!(v.matches("Garfield.2024.1080p.BluRay.mkv"));
    assert!(v.matches("Garfield.On.The.Town.1983.mkv")); // Any year OK

    // Multiple keywords - any can match
    let v = TorrentValidation::new(vec!["spider".to_string(), "man".to_string()], Some(2021));
    assert!(v.matches("Spider-Man.No.Way.Home.2021.mkv"));
    assert!(v.matches("The.Amazing.Spider-Man.2021.mkv")); // "spider" matches
}

#[test]
fn empty_criteria_accept_everything() {
    let v = TorrentValidation::new(Vec::new(), None);
    assert!(v.matches("Anything.At.All.mkv"));
    assert!(v.matches(""));
    assert!(v.matches("Garfield.2024.mkv"));
}

#[test]
fn calculate_progress_values() {
    assert_eq!(calculate_progress(0, 0), 0);
    assert_eq!(calculate_progress(50, 100), 50);
    assert_eq!(calculate_progress(150, 100), 100);
}

#[test]
fn classify_files_selects_largest_video() {
    let files = vec![
        FileEntry { name: "sample.mkv".to_string(), length: 100 },
        FileEntry { name: "main.mkv".to_string(), length: 5000 },
        FileEntry { name: "subs.eng.srt".to_string(), length: 10 },
        FileEntry { name: "notes.txt".to_string(), length: 5 },
    ];
    let info = classify_files(7, "Release".to_string(), &files, "http://127.0.0.1:3030").unwrap();
    assert_eq!(info.id, 7);
    assert_eq!(info.video_files.len(), 2);
    assert_eq!(info.selected_file.name, "main.mkv");
    assert_eq!(info.selected_file.file_idx, 1);
    assert_eq!(
        info.selected_file.stream_url,
        "http://127.0.0.1:3030/torrents/7/stream/1"
    );
    assert_eq!(info.subtitle_files.len(), 1);
    assert_eq!(info.subtitle_files[0].language, Some("en".to_string()));
}

#[test]
fn classify_files_rejects_no_video() {
    let files = vec![FileEntry { name: "game.exe".to_string(), length: 100 }];
    assert!(classify_files(1, "Release".to_string(), &files, "http://x").is_err());
}

#[test]
fn subtitle_selection_prefers_language() {
    let subs = vec![
        SubtitleFile {
            name: "a.srt".to_string(),
            file_idx: 0,
            language: Some("fr".to_string()),
            stream_url: String::new(),
        },
        SubtitleFile {
            name: "b.srt".to_string(),
            file_idx: 1,
            language: Some("en".to_string()),
            stream_url: String::new(),
        },
    ];
    assert_eq!(select_subtitle(&subs, "en"), Some(1));
    assert_eq!(select_subtitle(&subs, "de"), Some(0));
    assert_eq!(select_subtitle(&Vec::new(), "en"), None);
}

#[test]
fn metadata_poll_policy() {
    assert!(matches!(metadata_poll_step(121, 0), PollStep::Timeout));
    assert!(matches!(metadata_poll_step(10, 0), PollStep::Wait));
    assert!(matches!(metadata_poll_step(10, 3), PollStep::Ready));
    assert!(matches!(metadata_poll_step(120, 1), PollStep::Ready));
}
