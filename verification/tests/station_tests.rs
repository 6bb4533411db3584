use somars::error::AppError;
use somars::station::PlaylistEntry;
use somars::station::PlaylistFormat;
use somars::station::PlaylistQuality;
use somars::station::select_playlist_url;
use somars::station::Station;

fn entry(format: PlaylistFormat, quality: PlaylistQuality, url: &str) -> PlaylistEntry {
    PlaylistEntry { format, quality, url: url.to_string() }
}

#[test]
fn playlist_prefers_highest_quality_mp3() {
    let entries = vec![
        entry(PlaylistFormat::Other, PlaylistQuality::Highest, "aac-high"),
        entry(PlaylistFormat::Mp3, PlaylistQuality::Other, "mp3-low"),
        entry(PlaylistFormat::Mp3, PlaylistQuality::Highest, "mp3-high"),
        entry(PlaylistFormat::Mp3, PlaylistQuality::Highest, "mp3-high-2"),
    ];
    assert_eq!(select_playlist_url(&entries), Some("mp3-high".to_string()));
}

#[test]
fn playlist_falls_back_to_any_mp3() {
    let entries = vec![
        entry(PlaylistFormat::Other, PlaylistQuality::Highest, "aac-high"),
        entry(PlaylistFormat::Mp3, PlaylistQuality::Other, "mp3-low"),
    ];
    assert_eq!(select_playlist_url(&entries), Some("mp3-low".to_string()));
}

#[test]
fn playlist_falls_back_to_the_first_entry() {
    let entries = vec![
        entry(PlaylistFormat::Other, PlaylistQuality::Other, "aac-one"),
        entry(PlaylistFormat::Other, PlaylistQuality::Highest, "aac-two"),
    ];
    assert_eq!(select_playlist_url(&entries), Some("aac-one".to_string()));
}

#[test]
fn playlist_with_no_entries_selects_nothing() {
    let entries: Vec<PlaylistEntry> = Vec::new();
    assert_eq!(select_playlist_url(&entries), None);
}

#[test]
fn pls_names_its_stream_url() {
    let content = b"[playlist]\nFile1=http://ice1.example.net/groove\nTitle1=Demo\n";
    let url = Station::parse_pls_content(content).unwrap();
    assert_eq!(url, b"http://ice1.example.net/groove".to_vec());
}

#[test]
fn pls_url_is_trimmed_and_cut_at_the_next_equals() {
    let content = b"File1= http://a.example/x \r\nFile2=http://b.example/y\n";
    let url = Station::parse_pls_content(content).unwrap();
    assert_eq!(url, b"http://a.example/x".to_vec());

    let content = b"File1=http://a.example/x=extra\n";
    let url = Station::parse_pls_content(content).unwrap();
    assert_eq!(url, b"http://a.example/x".to_vec());
}

#[test]
fn pls_without_a_file_line_is_a_station_error() {
    let err = Station::parse_pls_content(b"[playlist]\nTitle1=Demo\n").unwrap_err();
    assert!(matches!(err, AppError::Station(_)));
    let err = Station::parse_pls_content(b"").unwrap_err();
    assert!(matches!(err, AppError::Station(_)));
    let err = Station::parse_pls_content(b"File1=   \n").unwrap_err();
    assert!(matches!(err, AppError::Station(_)));
}

#[test]
fn error_variants_carry_their_message() {
    let cases = vec![
        AppError::Network("net".to_string()),
        AppError::Io("io".to_string()),
        AppError::Json("json".to_string()),
        AppError::Audio("audio".to_string()),
        AppError::Stream("stream".to_string()),
        AppError::Station("station".to_string()),
        AppError::Udp("udp".to_string()),
        AppError::Parse("parse".to_string()),
        AppError::Generic("generic".to_string()),
    ];
    let texts: Vec<&str> = cases.iter().map(|e| e.message().as_str()).collect();
    assert_eq!(
        texts,
        vec!["net", "io", "json", "audio", "stream", "station", "udp", "parse", "generic"]
    );
}

#[test]
fn prefetch_matches_the_buffering_formula() {
    // five seconds of a 128 kbps stream
    assert_eq!(somars::pipeline::prefetch_bytes(128, somars::pipeline::PREFETCH_SECONDS), 81920);
    assert_eq!(somars::pipeline::prefetch_bytes(320, 5), 204800);
    assert_eq!(somars::pipeline::prefetch_bytes(0, 5), 0);
}
