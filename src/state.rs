//! The progress snapshot that a download shares with the front end.
use vstd::prelude::*;

use crate::text::{get_human_readable_size, human_size};

verus! {

/// Milliseconds between two speed samples.
pub const REFRESH_INTERVAL_MS: u64 = 500;

/// The state of one download task, shared between the resolver that writes
/// it and the front end that renders it. Times are milliseconds on the front
/// end's monotonic clock.
#[derive(Debug, Clone)]
pub struct TaskState {
    pub filepath: String,
    pub url: Option<String>,
    pub accept_ranges: bool,
    pub content_length: Option<u64>,
    pub downloaded: u64,
    pub last_updated: u64,
    pub last_downloaded: u64,
    pub last_speed: Option<u64>,
}

/// Bytes per second, from bytes moved over elapsed milliseconds.
pub open spec fn speed_of(bytes: nat, elapsed_ms: nat) -> nat
    recommends
        elapsed_ms > 0,
{
    bytes * 1000 / elapsed_ms
}

pub open spec fn speed_text(speed: Option<u64>) -> Seq<char> {
    match speed {
        None => "-- B/s"@,
        Some(v) => human_size(v as nat) + "/s"@,
    }
}

pub open spec fn progress_text(downloaded: u64, content_length: Option<u64>) -> Seq<char> {
    match content_length {
        Some(total) => human_size(downloaded as nat) + "/"@ + human_size(total as nat),
        None => human_size(downloaded as nat) + " / --"@,
    }
}

pub fn clone_opt_string(o: &Option<String>) -> (r: Option<String>)
    ensures
        r == *o,
{
    match o {
        Some(s) => Some(s.clone()),
        None => None,
    }
}

impl TaskState {
    /// A task with nothing known yet; speed sampling starts at `now_ms`.
    pub fn new(now_ms: u64) -> (r: TaskState)
        ensures
            r.filepath@.len() == 0,
            r.url is None,
            !r.accept_ranges,
            r.content_length is None,
            r.downloaded == 0,
            r.last_updated == now_ms,
            r.last_downloaded == 0,
            r.last_speed is None,
    {
        TaskState {
            filepath: String::new(),
            url: None,
            accept_ranges: false,
            content_length: None,
            downloaded: 0,
            last_updated: now_ms,
            last_downloaded: 0,
            last_speed: None,
        }
    }

    /// A copy of the state, as the front end takes it for rendering.
    pub fn snapshot(&self) -> (r: TaskState)
        ensures
            r == *self,
    {
        TaskState {
            filepath: self.filepath.clone(),
            url: clone_opt_string(&self.url),
            accept_ranges: self.accept_ranges,
            content_length: self.content_length,
            downloaded: self.downloaded,
            last_updated: self.last_updated,
            last_downloaded: self.last_downloaded,
            last_speed: self.last_speed,
        }
    }

    pub fn filepath(&self) -> (r: &str)
        ensures
            r@ == self.filepath@,
    {
        self.filepath.as_str()
    }

    pub fn url(&self) -> (r: Option<&str>)
        ensures
            r is None <==> self.url is None,
            r is Some ==> r->0@ == self.url->0@,
    {
        match &self.url {
            Some(u) => Some(u.as_str()),
            None => None,
        }
    }

    pub fn accept_ranges(&self) -> (r: bool)
        ensures
            r == self.accept_ranges,
    {
        self.accept_ranges
    }

    pub fn content_length(&self) -> (r: Option<u64>)
        ensures
            r == self.content_length,
    {
        self.content_length
    }

    pub fn downloaded(&self) -> (r: u64)
        ensures
            r == self.downloaded,
    {
        self.downloaded
    }

    /// The last measured speed, for display.
    pub fn get_speed_string(&self) -> (r: String)
        ensures
            r@ == speed_text(self.last_speed),
    {
        match self.last_speed {
            None => String::from_str("-- B/s"),
            Some(speed) => {
                let mut s = get_human_readable_size(speed);
                s.append("/s");
                s
            },
        }
    }

    /// Downloaded and total size, for display.
    pub fn get_downloaded_string(&self) -> (r: String)
        ensures
            r@ == progress_text(self.downloaded, self.content_length),
    {
        let mut s = get_human_readable_size(self.downloaded);
        match self.content_length {
            Some(total) => {
                s.append("/");
                let t = get_human_readable_size(total);
                s.append(t.as_str());
            },
            None => {
                s.append(" / --");
            },
        }
        s
    }

    /// Takes a speed sample when at least `REFRESH_INTERVAL_MS` have passed
    /// since the last one; otherwise leaves the state as it is.
    pub fn ui_update(&mut self, now_ms: u64)
        ensures
            ({
                let o = *old(self);
                let n = *final(self);
                if now_ms >= o.last_updated && now_ms - o.last_updated >= REFRESH_INTERVAL_MS {
                    let moved = if o.downloaded >= o.last_downloaded {
                        o.downloaded - o.last_downloaded
                    } else {
                        0
                    };
                    n == TaskState {
                        last_speed: Some(speed_of(moved as nat, (now_ms - o.last_updated) as nat) as u64),
                        last_updated: now_ms,
                        last_downloaded: o.downloaded,
                        ..o
                    }
                } else {
                    n == o
                }
            }),
    {
        if now_ms >= self.last_updated && now_ms - self.last_updated >= REFRESH_INTERVAL_MS {
            let elapsed = now_ms - self.last_updated;
            let moved: u64 = if self.downloaded >= self.last_downloaded {
                self.downloaded - self.last_downloaded
            } else {
                0
            };
            let scaled: u128 = moved as u128 * 1000;
            let speed: u128 = scaled / elapsed as u128;
            assert(speed <= moved * 2) by (nonlinear_arith)
                requires
                    speed as int == scaled as int / (elapsed as int),
                    scaled == moved * 1000,
                    elapsed >= 500,
            ;
            self.last_speed = Some(speed as u64);
            self.last_updated = now_ms;
            self.last_downloaded = self.downloaded;
        }
    }
}

} // verus!
