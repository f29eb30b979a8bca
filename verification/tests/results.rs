use ferristream::app::{App, SortOrder, UiMessage};
use ferristream::config::Config;
use ferristream::doctor::{check_discord, check_trakt, CheckStatus};
use ferristream::torznab::{Indexer, TorrentResult};
use ferristream::ui::{format_bytes, mask_secret};

fn result(title: &str, seeders: Option<u32>, size: Option<u64>) -> TorrentResult {
    TorrentResult {
        title: title.to_string(),
        link: None,
        magnet_url: None,
        infohash: None,
        size,
        seeders,
        leechers: None,
        indexer: "test".to_string(),
    }
}

#[test]
fn test_size_human() {
    let r = result("Test", None, Some(1024 * 1024 * 1024)); // 1 GB
    assert_eq!(r.size_human(), "1.00 GB");

    let r = result("Test", None, Some(500 * 1024 * 1024)); // 500 MB
    assert_eq!(r.size_human(), "500.0 MB");

    let r = result("Test", None, Some(2 * 1024 * 1024 * 1024 + 512 * 1024 * 1024)); // 2.5 GB
    assert_eq!(r.size_human(), "2.50 GB");

    let r = result("Test", None, None);
    assert_eq!(r.size_human(), "?");

    // an exact half rounds to the even figure: 1.125 GiB shows as 1.12 GB
    let r = result("Test", None, Some(9 * (1 << 27)));
    assert_eq!(r.size_human(), "1.12 GB");
}

#[test]
fn test_get_torrent_url_magnet_priority() {
    // Magnet URL should be preferred
    let mut r = result("Test", None, None);
    r.link = Some("http://example.com/torrent".to_string());
    r.magnet_url = Some("magnet:?xt=urn:btih:abc123".to_string());
    r.infohash = Some("def456".to_string());
    assert_eq!(
        r.get_torrent_url(),
        Some("magnet:?xt=urn:btih:abc123".to_string())
    );
}

#[test]
fn test_get_torrent_url_link_is_magnet() {
    // Link that is a magnet URL
    let mut r = result("Test", None, None);
    r.link = Some("magnet:?xt=urn:btih:fromlink".to_string());
    assert_eq!(
        r.get_torrent_url(),
        Some("magnet:?xt=urn:btih:fromlink".to_string())
    );
}

#[test]
fn test_get_torrent_url_infohash_fallback() {
    // Construct magnet from infohash
    let mut r = result("Test Movie", None, None);
    r.infohash = Some("abc123hash".to_string());
    let url = r.get_torrent_url().unwrap();
    assert!(url.starts_with("magnet:?xt=urn:btih:abc123hash"));
    assert!(url.contains("dn=Test%20Movie"));
}

#[test]
fn test_get_torrent_url_link_fallback() {
    // Fall back to regular link
    let mut r = result("Test", None, None);
    r.link = Some("http://example.com/download.torrent".to_string());
    assert_eq!(
        r.get_torrent_url(),
        Some("http://example.com/download.torrent".to_string())
    );
}

#[test]
fn test_get_torrent_url_none() {
    let r = result("Test", None, None);
    assert_eq!(r.get_torrent_url(), None);
}

#[test]
fn test_is_streamable() {
    let mut streamable = result("Test", None, None);
    streamable.magnet_url = Some("magnet:?xt=...".to_string());
    assert!(streamable.is_streamable());

    let not_streamable = result("Test", None, None);
    assert!(!not_streamable.is_streamable());
}

#[test]
fn indexer_usability() {
    let ix = Indexer {
        id: 1,
        name: "a".to_string(),
        enable: true,
        protocol: "torrent".to_string(),
        privacy: "private".to_string(),
        supports_search: true,
    };
    assert!(ix.is_usable());
    let nz = Indexer {
        protocol: "usenet".to_string(),
        name: "b".to_string(),
        ..ix
    };
    assert!(!nz.is_usable());
}

#[test]
fn sorting_results_by_each_order() {
    let mut app = App::new();
    app.results = vec![
        result("beta", Some(5), Some(100)),
        result("Alpha", Some(50), Some(10)),
        result("gamma", None, None),
    ];
    app.sort_order = SortOrder::SeedersDesc;
    app.sort_results();
    assert_eq!(app.results[0].title, "Alpha");
    assert_eq!(app.results[2].title, "gamma");

    app.sort_order = SortOrder::SizeAsc;
    app.sort_results();
    assert_eq!(app.results[0].title, "gamma");
    assert_eq!(app.results[2].title, "beta");

    app.sort_order = SortOrder::NameAsc;
    app.sort_results();
    assert_eq!(app.results[0].title, "Alpha");
    assert_eq!(app.results[1].title, "beta");
    assert_eq!(app.results[2].title, "gamma");
}

#[test]
fn sorting_results_is_stable() {
    let mut app = App::new();
    app.results = vec![
        result("first", Some(7), None),
        result("second", Some(7), None),
        result("third", Some(9), None),
    ];
    app.sort_order = SortOrder::SeedersDesc;
    app.sort_results();
    // the tied results keep their input order behind the higher one
    assert_eq!(app.results[0].title, "third");
    assert_eq!(app.results[1].title, "first");
    assert_eq!(app.results[2].title, "second");
}

#[test]
fn stale_search_results_are_dropped() {
    let mut app = App::new();
    app.search_id = 4;
    app.is_searching = true;
    app.handle_search_complete(vec![result("late", Some(1), None)], 3);
    assert!(app.results.is_empty());
    assert!(app.is_searching);

    app.handle_search_complete(vec![result("fresh", Some(1), None)], 4);
    assert_eq!(app.results.len(), 1);
    assert!(!app.is_searching);
    assert!(app.search_error.is_none());
}

#[test]
fn empty_search_reports_no_results() {
    let mut app = App::new();
    app.handle_search_complete(Vec::new(), 0);
    assert_eq!(app.search_error, Some("No results found".to_string()));
}

#[test]
fn racing_status_message() {
    let mut app = App::new();
    app.accept_racing_status(4, "connecting...");
    assert_eq!(
        app.racing_message,
        Some("Racing 4 torrents: connecting...".to_string())
    );
}

#[test]
fn config_validation() {
    let mut c = Config::default();
    // the default configuration has no API key yet
    assert!(c.validate().is_err());
    c.prowlarr.apikey = "some-api-key".to_string();
    assert!(c.validate().is_ok());
    c.prowlarr.url = "http://localhost:9696/".to_string();
    assert!(c.validate().is_ok());
    c.prowlarr.url = "localhost:9696".to_string();
    assert!(c.validate().is_err());
    // a bare scheme trims to "http:" and is rejected
    c.prowlarr.url = "http://".to_string();
    assert!(c.validate().is_err());
    c.prowlarr.url = "https:///".to_string();
    assert!(c.validate().is_err());
    c.prowlarr.url = String::new();
    assert!(c.validate().is_err());
}

#[test]
fn doctor_pure_checks() {
    let mut c = Config::default();
    assert!(matches!(check_discord(&c).status, CheckStatus::Pass));
    assert!(matches!(check_trakt(&c).status, CheckStatus::Error));
    c.extensions.trakt.client_id = Some("id".to_string());
    assert!(matches!(check_trakt(&c).status, CheckStatus::Warning));
    c.extensions.trakt.access_token = Some("tok".to_string());
    assert!(matches!(check_trakt(&c).status, CheckStatus::Pass));
}

#[test]
fn masked_secrets() {
    assert_eq!(mask_secret("abc"), "***");
    assert_eq!(mask_secret("abcdef"), "******");
    assert_eq!(mask_secret("abcdefgh"), "ab...gh");
}

#[test]
fn byte_labels() {
    assert_eq!(format_bytes(512), "512 B");
    assert_eq!(format_bytes(2048), "2 KB");
    assert_eq!(format_bytes(500 * 1024 * 1024), "500.0 MB");
    assert_eq!(format_bytes(1024 * 1024 * 1024), "1.00 GB");
    // halves round to the even figure, as a formatter renders them
    assert_eq!(format_bytes(2560), "2 KB"); // 2.5 KB
    assert_eq!(format_bytes(3584), "4 KB"); // 3.5 KB
    assert_eq!(format_bytes(5 * 262144), "1.2 MB"); // 1.25 MB
}

#[test]
fn message_enum_covers_loop_events() {
    // the loop's channel type carries plain values only
    let m = UiMessage::PlaybackProgress(50);
    assert!(matches!(m, UiMessage::PlaybackProgress(50)));
}
