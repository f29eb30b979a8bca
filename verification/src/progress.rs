//! The progress-telemetry records: live transfer statistics are folded into
//! a fully-replaced progress record on every tick, and playback position is
//! reduced to a clamped percentage.
use vstd::prelude::*;

verus! {

use crate::media::TorrentStats;

/// A clamped integral percentage: `min(100, part * 100 / whole)` when the
/// whole is positive, zero otherwise.
pub open spec fn percent_of(part: int, whole: int) -> int {
    if whole > 0 {
        let p = part * 100 / whole;
        if p > 100 {
            100
        } else {
            p
        }
    } else {
        0
    }
}

/// One fully-replaced download-telemetry record.
pub struct DownloadProgress {
    pub downloaded_bytes: u64,
    pub total_bytes: u64,
    /// Bytes per second.
    pub download_speed: u64,
    /// Bytes per second.
    pub upload_speed: u64,
    pub peers_connected: u32,
    /// Whole percent downloaded, clamped to 100.
    pub progress_percent: u64,
}

impl DownloadProgress {
    /// The record shown before any telemetry arrives: all zero.
    pub fn new() -> (r: DownloadProgress)
        ensures
            r.downloaded_bytes == 0,
            r.total_bytes == 0,
            r.download_speed == 0,
            r.upload_speed == 0,
            r.peers_connected == 0,
            r.progress_percent == 0,
    {
        DownloadProgress {
            downloaded_bytes: 0,
            total_bytes: 0,
            download_speed: 0,
            upload_speed: 0,
            peers_connected: 0,
            progress_percent: 0,
        }
    }

    /// Fold one engine statistics sample into the record that replaces the
    /// previous one.
    pub fn from_stats(stats: &TorrentStats) -> (r: DownloadProgress)
        ensures
            r.downloaded_bytes == stats.downloaded_bytes,
            r.total_bytes == stats.total_bytes,
            r.download_speed == stats.download_speed,
            r.upload_speed == stats.upload_speed,
            r.peers_connected == stats.peers_connected,
            r.progress_percent == percent_of(stats.downloaded_bytes as int, stats.total_bytes as int),
    {
        DownloadProgress {
            downloaded_bytes: stats.downloaded_bytes,
            total_bytes: stats.total_bytes,
            download_speed: stats.download_speed,
            upload_speed: stats.upload_speed,
            peers_connected: stats.peers_connected,
            progress_percent: calculate_progress(stats.downloaded_bytes, stats.total_bytes),
        }
    }
}

/// Progress as a whole percentage, clamped to 100; zero when the whole is
/// zero. Used both for download progress (bytes) and playback position
/// (time units).
pub fn calculate_progress(position: u64, duration: u64) -> (r: u64)
    ensures
        r == percent_of(position as int, duration as int),
        r <= 100,
{
    if duration > 0 {
        let p = (position as u128) * 100 / (duration as u128);
        if p > 100 {
            100
        } else {
            p as u64
        }
    } else {
        0
    }
}

} // verus!
