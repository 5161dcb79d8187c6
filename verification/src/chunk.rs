//! Models one chunk of the daemon's build progress stream and decides how a
//! progress update is logged.
//!
//! The daemon reports either an error (with its detail) or a progress update.
//! A progress update is logged with its absent fields replaced by defaults; a
//! chunk that reports an error ends the build, which `build_step` decides.

use vstd::prelude::*;

verus! {

/// The detail the daemon attaches to a reported build error.
#[derive(Debug)]
pub struct ErrorDetail {
    pub code: Option<i64>,
    pub message: Option<String>,
}

/// The counters the daemon attaches to a progress update.
#[derive(Debug)]
pub struct ProgressDetail {
    pub current: Option<i64>,
    pub total: Option<i64>,
}

/// One decoded chunk of the build progress stream.
pub struct BuildChunk {
    pub id: Option<String>,
    pub error: Option<String>,
    pub error_detail: Option<ErrorDetail>,
    pub status: Option<String>,
    pub progress: Option<String>,
    pub progress_detail: Option<ProgressDetail>,
}

/// The progress line a chunk is logged as, the missing parts replaced by
/// their defaults.
pub struct ProgressLog {
    pub status: String,
    pub id: String,
    pub progress: String,
    pub detail: ProgressDetail,
}

/// The text of an optional string, the empty text when it is absent.
pub open spec fn opt_text(o: Option<String>) -> Seq<char> {
    match o {
        Some(s) => s@,
        None => Seq::<char>::empty(),
    }
}

/// An optional progress detail, empty counters when it is absent.
pub open spec fn opt_progress_detail(o: Option<ProgressDetail>) -> ProgressDetail {
    match o {
        Some(d) => d,
        None => ProgressDetail { current: None, total: None },
    }
}

/// The progress line a chunk calls for: its status, id and progress text and
/// its counters, each replaced by its default where the chunk leaves it out.
pub open spec fn is_progress_log(chunk: BuildChunk, log: ProgressLog) -> bool {
    log.status@ == opt_text(chunk.status) && log.id@ == opt_text(chunk.id) && log.progress@
        == opt_text(chunk.progress) && log.detail == opt_progress_detail(chunk.progress_detail)
}

/// Renders one progress chunk for logging, filling in the defaults.
pub fn progress_log(chunk: &BuildChunk) -> (log: ProgressLog)
    ensures
        is_progress_log(*chunk, log),
{
    ProgressLog {
        status: match &chunk.status {
            Some(s) => s.clone(),
            None => String::new(),
        },
        id: match &chunk.id {
            Some(s) => s.clone(),
            None => String::new(),
        },
        progress: match &chunk.progress {
            Some(s) => s.clone(),
            None => String::new(),
        },
        detail: match &chunk.progress_detail {
            Some(d) => ProgressDetail { current: d.current, total: d.total },
            None => ProgressDetail { current: None, total: None },
        },
    }
}

} // verus!
