//! Dev-mode hot reload decisions: which bundle is installed (so duplicate
//! file-system events and unchanged broken saves do not re-evaluate), and the
//! debounce that waits for the dist directory to go quiet.

use vstd::prelude::*;

use std::hash::Hasher;

use crate::text_util::str_eq;

verus! {

/// Quiet period before a reload, in milliseconds.
pub const DEBOUNCE_MS: u64 = 150;

/// Hash of a bundle's bytes (`rustc_hash::FxHasher`: `write(bytes)` then
/// `finish()`). Nothing is claimed of the value: it depends on the platform
/// word size, and is only compared with hashes taken in the same process.
#[verifier::external_body]
fn hash_bytes(bytes: &[u8]) -> u64 {
    let mut h = rustc_hash::FxHasher::default();
    h.write(bytes);
    h.finish()
}

/// `(entry path, bundle hash)` of the last bundle handed to the JS engine.
#[derive(Debug)]
pub struct ReloadTracker {
    pub last_loaded: Option<(String, u64)>,
}

impl ReloadTracker {
    pub fn new() -> (r: ReloadTracker)
        ensures
            r.last_loaded is None,
    {
        ReloadTracker { last_loaded: None }
    }

    /// Record the currently installed bundle (its entry path and a hash of its bytes).
    pub fn record_loaded(&mut self, entry: &str, bundle: &[u8])
        ensures
            match final(self).last_loaded {
                Some((e, _)) => e@ == entry@,
                None => false,
            },
    {
        let hash = hash_bytes(bundle);
        self.last_loaded = Some((String::from_str(entry), hash));
    }

    /// Whether `(entry, hash)` is the installed bundle.
    pub fn is_last_loaded(&self, entry: &str, hash: u64) -> (r: bool)
        ensures
            r == (match self.last_loaded {
                Some((e, h)) => e@ == entry@ && h == hash,
                None => false,
            }),
    {
        match &self.last_loaded {
            Some((e, h)) => str_eq(e.as_str(), entry) && *h == hash,
            None => false,
        }
    }
}

/// How long to wait before reloading: `None` once the dist directory has been
/// quiet for [`DEBOUNCE_MS`] since the last file-system event, else the
/// remaining quiet time plus a 10 ms margin.
pub open spec fn spec_debounce_wait(now_ms: u64, last_event_ms: u64) -> Option<u64> {
    let since: int = if now_ms >= last_event_ms {
        now_ms - last_event_ms
    } else {
        0
    };
    if since < DEBOUNCE_MS {
        Some((DEBOUNCE_MS - since + 10) as u64)
    } else {
        None
    }
}

/// Debounce decision of the reload poll.
pub fn debounce_wait(now_ms: u64, last_event_ms: u64) -> (r: Option<u64>)
    ensures
        r == spec_debounce_wait(now_ms, last_event_ms),
{
    let since = now_ms.saturating_sub(last_event_ms);
    if since < DEBOUNCE_MS {
        Some(DEBOUNCE_MS - since + 10)
    } else {
        None
    }
}

/// Retry delay after the dist directory could not be read (mid-write).
pub const LOAD_RETRY_MS: u64 = 200;

/// Retry delay while commands of the running bundle are still queued.
pub const QUEUE_RETRY_MS: u64 = 50;

/// What the reload poll does before touching the disk.
#[derive(Debug, Clone, Copy, PartialEq, Eq, Structural)]
pub enum ReloadStart {
    /// No file-system event is pending.
    Idle,
    /// Dev mode is off after all (no dist directory): forget the pending event.
    Disable,
    /// Wait this many milliseconds for the directory to go quiet, keeping the event pending.
    Wait(u64),
    /// Claim the pending event and read the bundle.
    Load,
}

/// The first decision of a reload poll: nothing pending, no dist directory,
/// not yet quiet (wait the rest of [`DEBOUNCE_MS`] plus 10 ms), or load.
pub open spec fn spec_reload_start(pending: bool, dir_available: bool, now_ms: u64, last_event_ms: u64) -> ReloadStart {
    if !pending {
        ReloadStart::Idle
    } else if !dir_available {
        ReloadStart::Disable
    } else {
        match spec_debounce_wait(now_ms, last_event_ms) {
            Some(ms) => ReloadStart::Wait(ms),
            None => ReloadStart::Load,
        }
    }
}

pub fn reload_start(pending: bool, dir_available: bool, now_ms: u64, last_event_ms: u64) -> (r: ReloadStart)
    ensures
        r == spec_reload_start(pending, dir_available, now_ms, last_event_ms),
{
    if !pending {
        return ReloadStart::Idle;
    }
    if !dir_available {
        return ReloadStart::Disable;
    }
    match debounce_wait(now_ms, last_event_ms) {
        Some(ms) => ReloadStart::Wait(ms),
        None => ReloadStart::Load,
    }
}

/// What the reload poll does once it has read (or failed to read) the bundle.
#[derive(Debug, Clone, Copy, PartialEq, Eq, Structural)]
pub enum ReloadNext {
    /// Re-arm the pending event and retry after this many milliseconds.
    Retry(u64),
    /// This exact bundle is already running: nothing to do.
    Unchanged,
    /// Evaluate the new bundle in a fresh context.
    Evaluate,
}

/// After reading: a read failure retries after [`LOAD_RETRY_MS`]; the bundle
/// already installed is skipped; with commands of the old bundle still
/// queued the reload is deferred by [`QUEUE_RETRY_MS`]; otherwise evaluate.
pub open spec fn spec_reload_next(loaded: bool, already_running: bool, queued_commands: usize) -> ReloadNext {
    if !loaded {
        ReloadNext::Retry(LOAD_RETRY_MS)
    } else if already_running {
        ReloadNext::Unchanged
    } else if queued_commands > 0 {
        ReloadNext::Retry(QUEUE_RETRY_MS)
    } else {
        ReloadNext::Evaluate
    }
}

/// Whether `(entry, hash)` names the installed bundle.
pub open spec fn spec_is_last_loaded(last: Option<(String, u64)>, entry: Seq<char>, hash: u64) -> bool {
    match last {
        Some((e, h)) => e@ == entry && h == hash,
        None => false,
    }
}

impl ReloadTracker {
    /// The decision after reading: `read` is the entry path and bundle hash
    /// read, or `None` when the read failed.
    pub fn decide_after_read(&self, read: Option<(&str, u64)>, queued_commands: usize) -> (r: ReloadNext)
        ensures
            r == (match read {
                None => spec_reload_next(false, false, queued_commands),
                Some((entry, hash)) => spec_reload_next(
                    true,
                    spec_is_last_loaded(self.last_loaded, entry@, hash),
                    queued_commands,
                ),
            }),
    {
        match read {
            None => ReloadNext::Retry(LOAD_RETRY_MS),
            Some((entry, hash)) => {
                if self.is_last_loaded(entry, hash) {
                    ReloadNext::Unchanged
                } else if queued_commands > 0 {
                    ReloadNext::Retry(QUEUE_RETRY_MS)
                } else {
                    ReloadNext::Evaluate
                }
            },
        }
    }

    /// The decision after reading `bundle` under `entry` (`None`: the read
    /// failed). The bundle is recognised as installed by its content hash,
    /// so `Unchanged` only ever comes for the installed entry path.
    pub fn reload_next(&self, read: Option<(&str, &[u8])>, queued_commands: usize) -> (r: ReloadNext)
        ensures
            read is None ==> r == ReloadNext::Retry(LOAD_RETRY_MS),
            read matches Some((entry, _)) ==> r == spec_reload_next(
                true,
                r == ReloadNext::Unchanged,
                queued_commands,
            ) && (r == ReloadNext::Unchanged ==> (self.last_loaded matches Some((e, _)) && e@ == entry@)),
    {
        match read {
            None => ReloadNext::Retry(LOAD_RETRY_MS),
            Some((entry, bundle)) => {
                let hash = hash_bytes(bundle);
                self.decide_after_read(Some((entry, hash)), queued_commands)
            },
        }
    }
}

} // verus!
