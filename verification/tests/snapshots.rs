use transmission::torrentinfo::{c_buffer_string, interpret_parse, RawInfo};
use transmission::torrentstats::RawStats;
use transmission::{Error, Priority, TorrentFile, TorrentInfo, TorrentState, TorrentStats};

fn file(name: &str, length: u64) -> TorrentFile {
    TorrentFile {
        length,
        name: String::from(name),
        priority: Priority::Normal,
        dnd: 0,
        is_renamed: false,
        first_piece: 0,
        last_piece: 0,
        offset: 0,
    }
}

fn raw_info(files: Vec<TorrentFile>) -> RawInfo {
    RawInfo {
        total_size: 30,
        original_name: String::from("orig"),
        name: String::from("name"),
        torrent: None,
        webseeds: vec![String::from("http://seed.example.org/a")],
        comment: String::from("a comment"),
        creator: String::from("a creator"),
        files,
        pieces: Vec::new(),
        trackers: Vec::new(),
        date_created: 1_500_000_000,
        piece_size: 16384,
        hash: [7u8; 20],
        hash_string: b"0123abcd\0\0\0\0".to_vec(),
        is_private: false,
        is_folder: false,
    }
}

fn raw_stats() -> RawStats {
    RawStats {
        id: 7,
        activity_code: 4,
        error_code: 0,
        error_buf: vec![0u8; 16],
        recheck_progress: 0,
        percent_complete: 42,
        metadata_percent_complete: 100,
        percent_done: 42,
        seed_ratio_percent_done: 0,
        raw_upload_speed_kbps: 12,
        raw_download_speed_kbps: 345,
        piece_upload_speed_kbps: 11,
        piece_download_speed_kbps: 340,
        eta: 60,
        eta_idle: -1,
        peers_connected: 5,
        peers_from: [1, 0, 2, 0, 0, 0, 2],
        peers_sending_to_us: 3,
        peers_getting_from_us: 1,
        webseeds_sending_to_us: 0,
        size_when_done: 1000,
        left_until_done: 580,
        desired_available: 580,
        corrupt_ever: 0,
        uploaded_ever: 100,
        downloaded_ever: 420,
        have_valid: 420,
        have_unchecked: 0,
        manual_announce_time: 0,
        ratio: 238,
        added_date: 1_600_000_000,
        done_date: 0,
        start_date: 1_600_000_100,
        activity_date: 1_600_000_200,
        idle_secs: 0,
        seconds_downloading: 120,
        seconds_seeding: 0,
        finished: false,
        queue_position: 0,
        is_stalled: false,
    }
}

#[test]
fn info_counts_follow_the_lists() {
    let info = TorrentInfo::from_raw(raw_info(vec![file("a", 10), file("b", 20)]));
    assert_eq!(info.file_count, 2);
    assert_eq!(info.files.len(), 2);
    assert_eq!(info.webseed_count, 1);
    assert_eq!(info.tracker_count, 0);
    assert_eq!(info.piece_count, 0);
    assert_eq!(info.total_size, 30);
    assert_eq!(info.name, "name");
}

#[test]
fn info_hash_string_cut_at_first_nul() {
    let info = TorrentInfo::from_raw(raw_info(Vec::new()));
    assert_eq!(info.hash_string, "0123abcd");
}

#[test]
fn info_absent_torrent_path_becomes_empty() {
    let info = TorrentInfo::from_raw(raw_info(Vec::new()));
    assert_eq!(info.torrent, "");
    let mut raw = raw_info(Vec::new());
    raw.torrent = Some(String::from("/tmp/a.torrent"));
    let info = TorrentInfo::from_raw(raw);
    assert_eq!(info.torrent, "/tmp/a.torrent");
}

#[test]
fn buffer_decoding_is_not_the_identity() {
    let s = c_buffer_string(&vec![0xFF, b'a', 0, b'z']);
    assert_eq!(s, "\u{FFFD}a");
    assert_eq!(c_buffer_string(&vec![0u8; 4]), "");
    assert_eq!(c_buffer_string(&b"plain".to_vec()), "plain");
}

#[test]
fn get_file_index_matches_name_and_length() {
    let info = TorrentInfo::from_raw(raw_info(vec![
        file("a", 10),
        file("b", 20),
        file("a", 10),
    ]));
    assert_eq!(info.get_file_index(&file("a", 10)), Some(0));
    assert_eq!(info.get_file_index(&file("b", 20)), Some(1));
    assert_eq!(info.get_file_index(&file("c", 30)), None);
    assert_eq!(info.get_file_index(&file("a", 20)), None);
    assert_eq!(info.get_file_index(&file("b", 10)), None);
}

#[test]
fn file_ids_resolve_in_order_and_drop_unmatched() {
    let info = TorrentInfo::from_raw(raw_info(vec![
        file("a", 10),
        file("b", 20),
        file("c", 30),
    ]));
    let ids = info.file_ids(&vec![file("c", 30), file("zz", 1), file("a", 10)]);
    assert_eq!(ids, vec![2, 0]);
    let none: Vec<u32> = info.file_ids(&vec![file("zz", 1)]);
    assert!(none.is_empty());
}

#[test]
fn stats_keep_id_and_translate_codes() {
    let s = TorrentStats::from_raw(raw_stats());
    assert_eq!(s.id, 7);
    assert_eq!(s.state, TorrentState::Downloading);
    assert_eq!(s.error, Error::NoError);
    assert_eq!(s.error_string, "");
    assert_eq!(s.percent_complete, 42);
    assert_eq!(s.metadata_percent_complete, 100);
    assert_eq!(s.ratio, 238);
    assert_eq!(s.peers_from, [1, 0, 2, 0, 0, 0, 2]);
    assert!(!s.finished);
}

#[test]
fn stats_percentages_are_clamped_to_scale() {
    let mut raw = raw_stats();
    raw.percent_complete = 150;
    raw.recheck_progress = 100;
    raw.percent_done = 101;
    let s = TorrentStats::from_raw(raw);
    assert_eq!(s.percent_complete, 100);
    assert_eq!(s.recheck_progress, 100);
    assert_eq!(s.percent_done, 100);
}

#[test]
fn stats_error_string_cut_and_translated() {
    let mut raw = raw_stats();
    raw.error_code = 2;
    raw.error_buf = b"tracker said no\0junk".to_vec();
    let s = TorrentStats::from_raw(raw);
    assert_eq!(s.error, Error::StatTracker);
    assert_eq!(s.error_string, "tracker said no");
}

#[test]
fn activity_codes_translate() {
    assert_eq!(TorrentState::from_activity_code(0), TorrentState::Stopped);
    assert_eq!(TorrentState::from_activity_code(1), TorrentState::CheckingWait);
    assert_eq!(TorrentState::from_activity_code(2), TorrentState::Checking);
    assert_eq!(TorrentState::from_activity_code(3), TorrentState::DownloadingWait);
    assert_eq!(TorrentState::from_activity_code(4), TorrentState::Downloading);
    assert_eq!(TorrentState::from_activity_code(5), TorrentState::SeedingWait);
    assert_eq!(TorrentState::from_activity_code(6), TorrentState::Seeding);
    assert_eq!(TorrentState::from_activity_code(99), TorrentState::Error);
}

#[test]
fn priority_bytes_translate() {
    assert_eq!(Priority::from(-5i8), Priority::Low);
    assert_eq!(Priority::from(-1i8), Priority::Low);
    assert_eq!(Priority::from(0i8), Priority::Normal);
    assert_eq!(Priority::from(1i8), Priority::High);
    assert_eq!(Priority::from(7i8), Priority::High);
    assert_eq!(Priority::Low.to_native(), -1);
    assert_eq!(Priority::Normal.to_native(), 0);
    assert_eq!(Priority::High.to_native(), 1);
}

#[test]
fn parse_outcomes() {
    assert_eq!(interpret_parse(0, 0), Ok(()));
    assert_eq!(interpret_parse(0, 1), Err(Error::ParseErr));
    assert_eq!(interpret_parse(0, 2), Err(Error::ParseErr));
    assert_eq!(interpret_parse(1, 0), Err(Error::ParseErr));
}
