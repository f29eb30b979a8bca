use ferristream::extensions::parse_episode_info;

#[test]
fn test_parse_episode_sxex_format() {
    assert_eq!(
        parse_episode_info("Show.Name.S01E02.720p.HDTV.mkv"),
        (Some(1), Some(2))
    );
    assert_eq!(
        parse_episode_info("Show.Name.S10E23.720p.mkv"),
        (Some(10), Some(23))
    );
    assert_eq!(parse_episode_info("show.s1e5.web.mp4"), (Some(1), Some(5)));
}

#[test]
fn test_parse_episode_x_format() {
    assert_eq!(
        parse_episode_info("Show.Name.1x02.HDTV.mkv"),
        (Some(1), Some(2))
    );
    assert_eq!(
        parse_episode_info("Show.Name.10x23.mkv"),
        (Some(10), Some(23))
    );
}

#[test]
fn test_parse_episode_full_format() {
    assert_eq!(
        parse_episode_info("Show Name Season 1 Episode 2.mkv"),
        (Some(1), Some(2))
    );
    assert_eq!(
        parse_episode_info("Show.Name.Season.3.Episode.15.mkv"),
        (Some(3), Some(15))
    );
}

#[test]
fn test_parse_episode_no_match() {
    assert_eq!(
        parse_episode_info("Movie.2019.1080p.BluRay.mkv"),
        (None, None)
    );
    assert_eq!(parse_episode_info("Random.File.Name.mkv"), (None, None));
}

#[test]
fn test_parse_episode_case_insensitive() {
    assert_eq!(parse_episode_info("show.S01e02.mkv"), (Some(1), Some(2)));
    assert_eq!(parse_episode_info("show.s01E02.mkv"), (Some(1), Some(2)));
}

#[test]
fn parse_episode_compact_form() {
    assert_eq!(parse_episode_info("Show.Name.102.mkv"), (Some(1), Some(2)));
}
