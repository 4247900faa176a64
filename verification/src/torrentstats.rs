//! Owned snapshots of a torrent's dynamic state.
//!
//! A stats snapshot is a point-in-time copy, not live-linked to the
//! torrent: it must be re-fetched to see updates. The native engine
//! reports it as a struct of numeric fields, an activity code, an
//! error code and a fixed-size error-string buffer; the caller marshals
//! those into the plain values of [`RawStats`], and the translation
//! into the typed snapshot - activity and error mapping, error-string
//! extraction, and the percentage scale - is done here.
//!
//! Percentages are kept on one scale throughout: whole percent, 0 to
//! 100. Rates are whole kilobytes per second. The seed ratio is kept in
//! thousandths, with the native negative sentinels (not available,
//! infinite) scaled alike. Timestamps are Unix seconds.

use vstd::prelude::*;

use crate::error::{stat_error_of, Error};
use crate::torrentinfo::{c_buffer_string, decoded_utf8, nul_prefix};

verus! {

/// The various states that a torrent can be in.
#[derive(Clone, Copy, Debug, PartialEq, Eq, Structural)]
pub enum TorrentState {
    /// The torrent is downloading
    Downloading,
    /// The torrent is waiting to download
    DownloadingWait,
    /// The torrent is seeding
    Seeding,
    /// The torrent is waiting to seed
    SeedingWait,
    /// The torrent is stopped
    Stopped,
    /// The torrent is being checked
    Checking,
    /// The torrent is waiting to be checked
    CheckingWait,
    /// The torrent has errored
    Error,
}

/// The state meant by a native activity code: 0 stopped, 1 queued to
/// check, 2 checking, 3 queued to download, 4 downloading, 5 queued to
/// seed, 6 seeding. A code outside the native range is reported as the
/// error state.
pub open spec fn state_of_activity(code: int) -> TorrentState {
    if code == 0 {
        TorrentState::Stopped
    } else if code == 1 {
        TorrentState::CheckingWait
    } else if code == 2 {
        TorrentState::Checking
    } else if code == 3 {
        TorrentState::DownloadingWait
    } else if code == 4 {
        TorrentState::Downloading
    } else if code == 5 {
        TorrentState::SeedingWait
    } else if code == 6 {
        TorrentState::Seeding
    } else {
        TorrentState::Error
    }
}

impl TorrentState {
    /// Translate a native activity code.
    pub fn from_activity_code(code: i32) -> (s: Self)
        ensures
            s == state_of_activity(code as int),
    {
        if code == 0 {
            TorrentState::Stopped
        } else if code == 1 {
            TorrentState::CheckingWait
        } else if code == 2 {
            TorrentState::Checking
        } else if code == 3 {
            TorrentState::DownloadingWait
        } else if code == 4 {
            TorrentState::Downloading
        } else if code == 5 {
            TorrentState::SeedingWait
        } else if code == 6 {
            TorrentState::Seeding
        } else {
            TorrentState::Error
        }
    }
}

/// A percentage held to the snapshot's scale: values above 100 are
/// clamped down to 100.
pub open spec fn clamped_percent(x: u32) -> u8 {
    if x > 100 {
        100u8
    } else {
        x as u8
    }
}

/// The plain values marshalled out of one native stat struct, before
/// the snapshot's own rules are applied. Percentages arrive already
/// scaled to whole percent, rates to whole kilobytes per second, and
/// the ratio to thousandths.
pub struct RawStats {
    pub id: i32,
    pub activity_code: i32,
    pub error_code: i32,
    /// The fixed-size error-string buffer, NUL terminator included
    pub error_buf: Vec<u8>,
    pub recheck_progress: u32,
    pub percent_complete: u32,
    pub metadata_percent_complete: u32,
    pub percent_done: u32,
    pub seed_ratio_percent_done: u32,
    pub raw_upload_speed_kbps: u64,
    pub raw_download_speed_kbps: u64,
    pub piece_upload_speed_kbps: u64,
    pub piece_download_speed_kbps: u64,
    pub eta: i32,
    pub eta_idle: i32,
    pub peers_connected: i32,
    pub peers_from: [i32; 7],
    pub peers_sending_to_us: i32,
    pub peers_getting_from_us: i32,
    pub webseeds_sending_to_us: i32,
    pub size_when_done: u64,
    pub left_until_done: u64,
    pub desired_available: u64,
    pub corrupt_ever: u64,
    pub uploaded_ever: u64,
    pub downloaded_ever: u64,
    pub have_valid: u64,
    pub have_unchecked: u64,
    pub manual_announce_time: i64,
    pub ratio: i64,
    pub added_date: i64,
    pub done_date: i64,
    pub start_date: i64,
    pub activity_date: i64,
    pub idle_secs: i32,
    pub seconds_downloading: i32,
    pub seconds_seeding: i32,
    pub finished: bool,
    pub queue_position: i32,
    pub is_stalled: bool,
}

/// The stats of a torrent.
/// These only exist for a torrent that has been added to a session.
#[derive(Clone, Debug)]
pub struct TorrentStats {
    /// The ID of the torrent.
    pub id: i32,
    /// The state of the torrent. Internally the native engine calls
    /// this the "activity".
    pub state: TorrentState,
    /// The error state (if any).
    pub error: Error,
    /// A string describing the above error if any.
    pub error_string: String,
    /// Progress rechecking a torrent, in whole percent.
    pub recheck_progress: u8,
    /// Percent of the total download completed, 0 to 100.
    pub percent_complete: u8,
    /// Percent of the metadata download completed, 0 to 100.
    pub metadata_percent_complete: u8,
    /// Percent of the desired download completed, 0 to 100. This
    /// differs from `percent_complete` if only some of a torrent's
    /// files are wanted.
    pub percent_done: u8,
    /// Percent of the seed ratio reached, 0 to 100; 100 if completed.
    pub seed_ratio_percent_done: u8,
    /// The raw upload speed, whole KB per second.
    pub raw_upload_speed_kbps: u64,
    /// The raw download speed, whole KB per second.
    pub raw_download_speed_kbps: u64,
    /// The actual piece upload speed, whole KB per second.
    pub piece_upload_speed_kbps: u64,
    /// The actual piece download speed, whole KB per second.
    pub piece_download_speed_kbps: u64,
    /// Estimated time until completion, seconds
    pub eta: i32,
    pub eta_idle: i32,
    /// Number of peers connected for this torrent.
    pub peers_connected: i32,
    pub peers_from: [i32; 7],
    /// Peers we are downloading from.
    pub peers_sending_to_us: i32,
    /// Peers we are uploading to.
    pub peers_getting_from_us: i32,
    /// Webseeds we are downloading from.
    pub webseeds_sending_to_us: i32,
    /// Size in bytes when completed.
    pub size_when_done: u64,
    /// Bytes until download is finished.
    pub left_until_done: u64,
    pub desired_available: u64,
    pub corrupt_ever: u64,
    pub uploaded_ever: u64,
    pub downloaded_ever: u64,
    pub have_valid: u64,
    pub have_unchecked: u64,
    /// Next scheduled manual announce, as Unix seconds
    pub manual_announce_time: i64,
    /// Seed ratio, in thousandths; the native sentinels for "not
    /// available" and "infinite" stay negative.
    pub ratio: i64,
    /// Date and time added, as Unix seconds
    pub added_date: i64,
    /// Date and time finished, as Unix seconds
    pub done_date: i64,
    /// Date and time started, as Unix seconds
    pub start_date: i64,
    /// Date and time of last activity, as Unix seconds
    pub activity_date: i64,
    /// How long it has been idle, seconds
    pub idle_secs: i32,
    /// How long it has been downloading, seconds
    pub seconds_downloading: i32,
    /// How long it has been seeding, seconds
    pub seconds_seeding: i32,
    /// Is the torrent finished
    pub finished: bool,
    /// What position in the queue is the torrent
    pub queue_position: i32,
    /// Is the torrent stalled
    pub is_stalled: bool,
}

impl TorrentStats {
    /// A snapshot is well formed when every percentage field is on the
    /// snapshot's scale, 0 to 100.
    pub open spec fn wf(&self) -> bool {
        &&& self.recheck_progress <= 100
        &&& self.percent_complete <= 100
        &&& self.metadata_percent_complete <= 100
        &&& self.percent_done <= 100
        &&& self.seed_ratio_percent_done <= 100
    }

    /// Build a well-formed snapshot from the marshalled native values:
    /// the activity code becomes the state, the error code is
    /// translated through the taxonomy, the error-string buffer is cut
    /// at its first NUL and decoded, and every percentage is clamped to
    /// the snapshot's scale. The snapshot's `id` is the native
    /// torrent's own id, unchanged.
    pub fn from_raw(raw: RawStats) -> (s: TorrentStats)
        ensures
            s.wf(),
            s.id == raw.id,
            s.state == state_of_activity(raw.activity_code as int),
            s.error == stat_error_of(raw.error_code as int),
            s.error_string@ == decoded_utf8(nul_prefix(raw.error_buf@)),
            s.recheck_progress == clamped_percent(raw.recheck_progress),
            s.percent_complete == clamped_percent(raw.percent_complete),
            s.metadata_percent_complete == clamped_percent(raw.metadata_percent_complete),
            s.percent_done == clamped_percent(raw.percent_done),
            s.seed_ratio_percent_done == clamped_percent(raw.seed_ratio_percent_done),
            s.raw_upload_speed_kbps == raw.raw_upload_speed_kbps,
            s.raw_download_speed_kbps == raw.raw_download_speed_kbps,
            s.piece_upload_speed_kbps == raw.piece_upload_speed_kbps,
            s.piece_download_speed_kbps == raw.piece_download_speed_kbps,
            s.eta == raw.eta,
            s.eta_idle == raw.eta_idle,
            s.peers_connected == raw.peers_connected,
            s.peers_from == raw.peers_from,
            s.peers_sending_to_us == raw.peers_sending_to_us,
            s.peers_getting_from_us == raw.peers_getting_from_us,
            s.webseeds_sending_to_us == raw.webseeds_sending_to_us,
            s.size_when_done == raw.size_when_done,
            s.left_until_done == raw.left_until_done,
            s.desired_available == raw.desired_available,
            s.corrupt_ever == raw.corrupt_ever,
            s.uploaded_ever == raw.uploaded_ever,
            s.downloaded_ever == raw.downloaded_ever,
            s.have_valid == raw.have_valid,
            s.have_unchecked == raw.have_unchecked,
            s.manual_announce_time == raw.manual_announce_time,
            s.ratio == raw.ratio,
            s.added_date == raw.added_date,
            s.done_date == raw.done_date,
            s.start_date == raw.start_date,
            s.activity_date == raw.activity_date,
            s.idle_secs == raw.idle_secs,
            s.seconds_downloading == raw.seconds_downloading,
            s.seconds_seeding == raw.seconds_seeding,
            s.finished == raw.finished,
            s.queue_position == raw.queue_position,
            s.is_stalled == raw.is_stalled,
    {
        let error_string = c_buffer_string(&raw.error_buf);
        TorrentStats {
            id: raw.id,
            state: TorrentState::from_activity_code(raw.activity_code),
            error: Error::from_stat_code(raw.error_code),
            error_string,
            recheck_progress: clamp_percent(raw.recheck_progress),
            percent_complete: clamp_percent(raw.percent_complete),
            metadata_percent_complete: clamp_percent(raw.metadata_percent_complete),
            percent_done: clamp_percent(raw.percent_done),
            seed_ratio_percent_done: clamp_percent(raw.seed_ratio_percent_done),
            raw_upload_speed_kbps: raw.raw_upload_speed_kbps,
            raw_download_speed_kbps: raw.raw_download_speed_kbps,
            piece_upload_speed_kbps: raw.piece_upload_speed_kbps,
            piece_download_speed_kbps: raw.piece_download_speed_kbps,
            eta: raw.eta,
            eta_idle: raw.eta_idle,
            peers_connected: raw.peers_connected,
            peers_from: raw.peers_from,
            peers_sending_to_us: raw.peers_sending_to_us,
            peers_getting_from_us: raw.peers_getting_from_us,
            webseeds_sending_to_us: raw.webseeds_sending_to_us,
            size_when_done: raw.size_when_done,
            left_until_done: raw.left_until_done,
            desired_available: raw.desired_available,
            corrupt_ever: raw.corrupt_ever,
            uploaded_ever: raw.uploaded_ever,
            downloaded_ever: raw.downloaded_ever,
            have_valid: raw.have_valid,
            have_unchecked: raw.have_unchecked,
            manual_announce_time: raw.manual_announce_time,
            ratio: raw.ratio,
            added_date: raw.added_date,
            done_date: raw.done_date,
            start_date: raw.start_date,
            activity_date: raw.activity_date,
            idle_secs: raw.idle_secs,
            seconds_downloading: raw.seconds_downloading,
            seconds_seeding: raw.seconds_seeding,
            finished: raw.finished,
            queue_position: raw.queue_position,
            is_stalled: raw.is_stalled,
        }
    }
}

/// Clamp a percentage to the snapshot's scale, 0 to 100.
fn clamp_percent(x: u32) -> (p: u8)
    ensures
        p == clamped_percent(x),
{
    if x > 100 {
        100
    } else {
        x as u8
    }
}

} // verus!
