//! Monitors and recorded changes, and how a monitor is laid out as a stored row.
use vstd::prelude::*;

use crate::ident::{fresh_id, is_random_uuid, is_utc_timestamp, now_rfc3339};

verus! {

/// A monitored URL.
#[derive(Debug, Clone)]
pub struct Monitor {
    pub id: String,
    pub url: String,
    pub name: Option<String>,
    pub interval_seconds: u64,
    pub enabled: bool,
    pub last_check: Option<String>,
    pub last_status: Option<String>,
    pub created_at: String,
}

/// A change recorded for a monitor.
#[derive(Debug, Clone)]
pub struct Change {
    pub id: String,
    pub monitor_id: String,
    pub change_type: String,
    pub old_value: Option<String>,
    pub new_value: Option<String>,
    pub details: Option<String>,
    pub detected_at: String,
}

/// A monitor as the `monitors` table stores it: the same columns, with the
/// enabled flag as an integer.
#[derive(Debug, Clone)]
pub struct MonitorRow {
    pub id: String,
    pub url: String,
    pub name: Option<String>,
    pub interval_seconds: u64,
    pub enabled: i32,
    pub last_check: Option<String>,
    pub last_status: Option<String>,
    pub created_at: String,
}

impl Monitor {
    /// A new, enabled monitor of `url`, checked every `interval_seconds`, with
    /// the identifier `id` and creation time `created_at`, never checked yet.
    pub fn create(id: String, url: String, interval_seconds: u64, created_at: String) -> (m: Monitor)
        ensures
            m.id == id,
            m.url == url,
            m.name is None,
            m.interval_seconds == interval_seconds,
            m.enabled,
            m.last_check is None,
            m.last_status is None,
            m.created_at == created_at,
    {
        Monitor {
            id,
            url,
            name: None,
            interval_seconds,
            enabled: true,
            last_check: None,
            last_status: None,
            created_at,
        }
    }

    /// A new, enabled monitor of `url`, checked every `interval_seconds`, with a
    /// fresh random identifier and the current time as its creation time.
    pub fn new(url: String, interval_seconds: u64) -> (m: Monitor)
        ensures
            is_random_uuid(m.id@),
            m.url == url,
            m.name is None,
            m.interval_seconds == interval_seconds,
            m.enabled,
            m.last_check is None,
            m.last_status is None,
            is_utc_timestamp(m.created_at@),
    {
        let now = now_rfc3339();
        Monitor::create(fresh_id(), url, interval_seconds, now)
    }

    /// A new monitor as `new` makes it, carrying the display name `name`:
    /// what the `add` command stores.
    pub fn new_named(url: String, interval_seconds: u64, name: Option<String>) -> (m: Monitor)
        ensures
            is_random_uuid(m.id@),
            m.url == url,
            m.name == name,
            m.interval_seconds == interval_seconds,
            m.enabled,
            m.last_check is None,
            m.last_status is None,
            is_utc_timestamp(m.created_at@),
    {
        let mut m = Monitor::new(url, interval_seconds);
        m.name = name;
        m
    }

    /// The row that stores this monitor: enabled is written as 1, disabled as 0.
    pub fn to_row(&self) -> (row: MonitorRow)
        ensures
            row == row_of(*self),
            row.id == self.id,
            row.url == self.url,
            row.name == self.name,
            row.interval_seconds == self.interval_seconds,
            row.enabled == (if self.enabled { 1i32 } else { 0i32 }),
            row.last_check == self.last_check,
            row.last_status == self.last_status,
            row.created_at == self.created_at,
    {
        MonitorRow {
            id: self.id.clone(),
            url: self.url.clone(),
            name: self.name.clone(),
            interval_seconds: self.interval_seconds,
            enabled: if self.enabled { 1 } else { 0 },
            last_check: self.last_check.clone(),
            last_status: self.last_status.clone(),
            created_at: self.created_at.clone(),
        }
    }

    /// The monitor a stored row holds: any non-zero flag reads as enabled.
    pub fn from_row(row: MonitorRow) -> (m: Monitor)
        ensures
            m == monitor_of(row),
            m.id == row.id,
            m.url == row.url,
            m.name == row.name,
            m.interval_seconds == row.interval_seconds,
            m.enabled == (row.enabled != 0),
            m.last_check == row.last_check,
            m.last_status == row.last_status,
            m.created_at == row.created_at,
    {
        Monitor {
            id: row.id,
            url: row.url,
            name: row.name,
            interval_seconds: row.interval_seconds,
            enabled: row.enabled != 0,
            last_check: row.last_check,
            last_status: row.last_status,
            created_at: row.created_at,
        }
    }
}

/// The row that stores `m`.
pub open spec fn row_of(m: Monitor) -> MonitorRow {
    MonitorRow {
        id: m.id,
        url: m.url,
        name: m.name,
        interval_seconds: m.interval_seconds,
        enabled: if m.enabled {
            1
        } else {
            0
        },
        last_check: m.last_check,
        last_status: m.last_status,
        created_at: m.created_at,
    }
}

/// The monitor that the row `r` holds.
pub open spec fn monitor_of(r: MonitorRow) -> Monitor {
    Monitor {
        id: r.id,
        url: r.url,
        name: r.name,
        interval_seconds: r.interval_seconds,
        enabled: r.enabled != 0,
        last_check: r.last_check,
        last_status: r.last_status,
        created_at: r.created_at,
    }
}

/// Each column of a stored row holds the monitor field of the same name:
/// `id` in `id`, `url` in `url`, and so on; the enabled flag is stored as 1 or
/// 0, and any non-zero flag reads back as enabled.
pub proof fn row_columns_hold_their_fields(m: Monitor, r: MonitorRow)
    ensures
        row_of(m).id == m.id,
        row_of(m).url == m.url,
        row_of(m).name == m.name,
        row_of(m).interval_seconds == m.interval_seconds,
        row_of(m).enabled == (if m.enabled { 1i32 } else { 0i32 }),
        row_of(m).last_check == m.last_check,
        row_of(m).last_status == m.last_status,
        row_of(m).created_at == m.created_at,
        monitor_of(r).id == r.id,
        monitor_of(r).url == r.url,
        monitor_of(r).name == r.name,
        monitor_of(r).interval_seconds == r.interval_seconds,
        monitor_of(r).enabled == (r.enabled != 0),
        monitor_of(r).last_check == r.last_check,
        monitor_of(r).last_status == r.last_status,
        monitor_of(r).created_at == r.created_at,
{
}

/// Storing a monitor and reading its row back gives the same monitor.
pub proof fn stored_monitor_reads_back(m: Monitor)
    ensures
        monitor_of(row_of(m)) == m,
{
}

} // verus!
