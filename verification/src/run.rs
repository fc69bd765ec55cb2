//! The download orchestrator, as a state machine. The caller performs one
//! network call or file write per step — whatever `next_action` asks for —
//! and hands the outcome back; the machine decides everything else: the
//! order entry by entry and segment by segment, the filename of each saved
//! segment, that any failure only skips its own unit of work, and that the
//! progress counter advances exactly once per entry, failed or not.

use vstd::prelude::*;

use crate::api::CollectionEntry;
use crate::api::Segment;
use crate::errors::MyError;
use crate::sanitize::sanitize_spec;

verus! {

/// What the caller must do next.
#[derive(Clone, Debug)]
pub enum Action {
    /// List the segments of the entry with this identifier.
    ListSegments { bvid: String },
    /// Resolve the stream of this segment of this entry.
    Resolve { bvid: String, cid: i64 },
    /// Download this URL and write the bytes under this path.
    Fetch { url: String, path: String },
    /// The run is complete.
    Finished,
}

/// Which outcome the machine is waiting for.
#[derive(Clone, Copy, Debug)]
pub enum Phase {
    AwaitSegments,
    AwaitStream,
    AwaitFetch,
    Done,
}

/// The orchestrator's state: the frozen entry list, the output directory,
/// the position within the batch, and the two counters the run reports.
#[derive(Clone, Debug)]
pub struct Run {
    pub entries: Vec<CollectionEntry>,
    pub out_dir: String,
    /// Entries fully processed so far.
    pub done_entries: usize,
    /// The current entry's segments, in listing order.
    pub segs: Vec<Segment>,
    /// The segment of the current entry being worked on.
    pub seg_idx: usize,
    /// The resolved URL a fetch was asked for.
    pub pending_url: String,
    /// The path the fetched bytes are to be written under.
    pub pending_path: String,
    pub phase: Phase,
    /// Entries processed, success or failure: what the external poller reads.
    pub progress: usize,
    /// Segments actually saved to disk.
    pub files_written: usize,
}

impl Run {
    /// The machine's well-formedness: the counter equals the number of
    /// processed entries, the position never passes the end, the run is done
    /// exactly when every entry is processed, and a segment position is
    /// valid while a segment is being worked on.
    pub open spec fn inv(&self) -> bool {
        &&& self.progress == self.done_entries
        &&& self.done_entries <= self.entries@.len()
        &&& (self.phase is Done <==> self.done_entries == self.entries@.len())
        &&& ((self.phase is AwaitStream || self.phase is AwaitFetch) ==> self.seg_idx
            < self.segs@.len())
    }

    /// The well-formedness check, for callers outside verified code.
    pub fn wf(&self) -> (r: bool)
        ensures
            r == self.inv(),
    {
        let mut ok = self.progress == self.done_entries && self.done_entries <= self.entries.len();
        ok = ok && (matches!(self.phase, Phase::Done) == (self.done_entries
            == self.entries.len()));
        ok = ok && (!(matches!(self.phase, Phase::AwaitStream) || matches!(
            self.phase,
            Phase::AwaitFetch,
        )) || self.seg_idx < self.segs.len());
        ok
    }

    /// A fresh run over a frozen entry list: nothing processed, nothing
    /// written, done at once when the list is empty.
    pub fn new(entries: Vec<CollectionEntry>, out_dir: String) -> (r: Run)
        ensures
            r.inv(),
            r.entries == entries,
            r.out_dir == out_dir,
            r.done_entries == 0,
            r.progress == 0,
            r.files_written == 0,
            r.phase is Done <==> entries@.len() == 0,
            entries@.len() > 0 ==> r.phase is AwaitSegments,
    {
        let empty = entries.len() == 0;
        Run {
            entries,
            out_dir,
            done_entries: 0,
            segs: Vec::new(),
            seg_idx: 0,
            pending_url: String::new(),
            pending_path: String::new(),
            phase: if empty {
                Phase::Done
            } else {
                Phase::AwaitSegments
            },
            progress: 0,
            files_written: 0,
        }
    }

    /// What the caller must do next, given where the run stands.
    pub fn next_action(&self) -> (a: Action)
        requires
            self.inv(),
        ensures
            self.phase is Done ==> a is Finished,
            self.phase is AwaitSegments ==> (a matches Action::ListSegments { bvid } && bvid
                == self.entries@[self.done_entries as int].bvid),
            self.phase is AwaitStream ==> (a matches Action::Resolve { bvid, cid } && bvid
                == self.entries@[self.done_entries as int].bvid && cid
                == self.segs@[self.seg_idx as int].cid),
            self.phase is AwaitFetch ==> (a matches Action::Fetch { url, path } && url
                == self.pending_url && path == self.pending_path),
    {
        match self.phase {
            Phase::Done => Action::Finished,
            Phase::AwaitSegments => Action::ListSegments {
                bvid: self.entries[self.done_entries].bvid.clone(),
            },
            Phase::AwaitStream => Action::Resolve {
                bvid: self.entries[self.done_entries].bvid.clone(),
                cid: self.segs[self.seg_idx].cid,
            },
            Phase::AwaitFetch => Action::Fetch {
                url: self.pending_url.clone(),
                path: self.pending_path.clone(),
            },
        }
    }

    /// Finishes the current entry: the progress counter advances by exactly
    /// one, whatever happened to the entry's segments.
    fn complete_entry(&mut self)
        requires
            old(self).inv(),
            !(old(self).phase is Done),
        ensures
            final(self).inv(),
            final(self).entries == old(self).entries,
            final(self).out_dir == old(self).out_dir,
            final(self).done_entries == old(self).done_entries + 1,
            final(self).progress == old(self).progress + 1,
            final(self).files_written == old(self).files_written,
            final(self).phase is Done <==> old(self).done_entries + 1 == old(self).entries@.len(),
            old(self).done_entries + 1 != old(self).entries@.len() ==> final(self).phase is AwaitSegments,
    {
        let n = self.entries.len();
        self.done_entries = self.done_entries + 1;
        self.progress = self.progress + 1;
        self.phase = if self.done_entries == n {
            Phase::Done
        } else {
            Phase::AwaitSegments
        };
    }

    /// Leaves the current segment behind and moves to the next one,
    /// finishing the entry when it was the last. Returns whether the entry
    /// was finished.
    fn advance_segment(&mut self) -> (completed: bool)
        requires
            old(self).inv(),
            old(self).phase is AwaitStream || old(self).phase is AwaitFetch,
        ensures
            final(self).inv(),
            final(self).entries == old(self).entries,
            final(self).out_dir == old(self).out_dir,
            final(self).files_written == old(self).files_written,
            completed <==> old(self).seg_idx + 1 == old(self).segs@.len(),
            completed ==> final(self).done_entries == old(self).done_entries + 1 && final(self).progress == old(self).progress + 1,
            completed ==> (final(self).phase is Done <==> old(self).done_entries + 1 == old(self).entries@.len()),
            completed && old(self).done_entries + 1 != old(self).entries@.len() ==> final(self).phase is AwaitSegments,
            !completed ==> final(self).done_entries == old(self).done_entries && final(self).progress == old(self).progress && final(self).phase is AwaitStream && final(self).segs == old(self).segs && final(self).seg_idx == old(self).seg_idx + 1,
    {
        let len = self.segs.len();
        if self.seg_idx + 1 == len {
            self.complete_entry();
            true
        } else {
            self.seg_idx = self.seg_idx + 1;
            self.phase = Phase::AwaitStream;
            false
        }
    }

    /// Accepts the outcome of a segment listing. A failed listing or an
    /// entry with no segments finishes the entry at once — the progress
    /// counter still advances; otherwise the first segment's stream is asked
    /// for next. Returns whether the entry was finished.
    pub fn on_segments(&mut self, outcome: Result<Vec<Segment>, MyError>) -> (completed: bool)
        requires
            old(self).inv(),
            old(self).phase is AwaitSegments,
        ensures
            final(self).inv(),
            final(self).entries == old(self).entries,
            final(self).out_dir == old(self).out_dir,
            final(self).files_written == old(self).files_written,
            final(self).progress >= old(self).progress,
            completed <==> (outcome is Err || (outcome matches Ok(segs) && segs@.len() == 0)),
            completed ==> final(self).done_entries == old(self).done_entries + 1 && final(self).progress == old(self).progress + 1,
            completed ==> (final(self).phase is Done <==> old(self).done_entries + 1 == old(self).entries@.len()),
            completed && old(self).done_entries + 1 != old(self).entries@.len() ==> final(self).phase is AwaitSegments,
            !completed ==> (outcome matches Ok(segs) && final(self).segs == segs) && final(self).seg_idx == 0 && final(self).phase is AwaitStream && final(self).done_entries == old(self).done_entries && final(self).progress == old(self).progress,
    {
        match outcome {
            Ok(segs) => {
                if segs.len() == 0 {
                    self.complete_entry();
                    true
                } else {
                    self.segs = segs;
                    self.seg_idx = 0;
                    self.phase = Phase::AwaitStream;
                    false
                }
            },
            Err(_) => {
                self.complete_entry();
                true
            },
        }
    }

    /// Accepts the outcome of a stream resolution. A resolved URL is fetched
    /// next, into a file named after the entry's title, the segment's name
    /// and the uploader, sanitized; a failure or an answer with nothing to
    /// download skips just this segment. Returns whether the entry was
    /// finished.
    pub fn on_stream(&mut self, outcome: Result<Option<String>, MyError>) -> (completed: bool)
        requires
            old(self).inv(),
            old(self).phase is AwaitStream,
        ensures
            final(self).inv(),
            final(self).entries == old(self).entries,
            final(self).out_dir == old(self).out_dir,
            final(self).files_written == old(self).files_written,
            final(self).progress >= old(self).progress,
            outcome matches Ok(Some(url)) ==> !completed && final(self).phase is AwaitFetch
                && final(self).pending_url == url && final(self).pending_path@ == old(self).out_dir@ + "/"@ + sanitize_spec(
                old(self).entries@[old(self).done_entries as int].title@ + " - "@ + old(self).segs@[old(self).seg_idx as int].part@ + " - "@ + old(self).entries@[old(self).done_entries as int].author@,
            ) + ".aac"@ && final(self).done_entries == old(self).done_entries && final(self).progress == old(self).progress && final(self).seg_idx == old(self).seg_idx && final(self).segs == old(self).segs,
            (outcome is Err || outcome matches Ok(None)) ==> (completed <==> old(self).seg_idx + 1
                == old(self).segs@.len()),
            (outcome is Err || outcome matches Ok(None)) && !completed ==> final(self).seg_idx
                == old(self).seg_idx + 1 && final(self).segs == old(self).segs && final(
                self).phase is AwaitStream && final(self).done_entries == old(self).done_entries
                && final(self).progress == old(self).progress,
            completed ==> final(self).done_entries == old(self).done_entries + 1 && final(self).progress == old(self).progress + 1,
            completed ==> (final(self).phase is Done <==> old(self).done_entries + 1 == old(self).entries@.len()),
            completed && old(self).done_entries + 1 != old(self).entries@.len() ==> final(self).phase is AwaitSegments,
    {
        match outcome {
            Ok(Some(url)) => {
                let name = crate::sanitize::build_filename(
                    self.entries[self.done_entries].title.as_str(),
                    self.segs[self.seg_idx].part.as_str(),
                    self.entries[self.done_entries].author.as_str(),
                );
                let path = crate::sanitize::output_path(self.out_dir.as_str(), name.as_str());
                self.pending_url = url;
                self.pending_path = path;
                self.phase = Phase::AwaitFetch;
                false
            },
            Ok(None) => self.advance_segment(),
            Err(_) => self.advance_segment(),
        }
    }

    /// Accepts the outcome of a download. A saved file is counted; a failed
    /// one is skipped; either way the run moves to the next segment.
    /// Returns whether the entry was finished.
    pub fn on_fetch(&mut self, outcome: Result<(), MyError>) -> (completed: bool)
        requires
            old(self).inv(),
            old(self).phase is AwaitFetch,
        ensures
            final(self).inv(),
            final(self).entries == old(self).entries,
            final(self).out_dir == old(self).out_dir,
            final(self).progress >= old(self).progress,
            outcome is Ok && old(self).files_written < usize::MAX ==> final(self).files_written
                == old(self).files_written + 1,
            outcome is Err ==> final(self).files_written == old(self).files_written,
            completed <==> old(self).seg_idx + 1 == old(self).segs@.len(),
            completed ==> final(self).done_entries == old(self).done_entries + 1 && final(self).progress == old(self).progress + 1,
            completed ==> (final(self).phase is Done <==> old(self).done_entries + 1 == old(self).entries@.len()),
            completed && old(self).done_entries + 1 != old(self).entries@.len() ==> final(self).phase is AwaitSegments,
            !completed ==> final(self).done_entries == old(self).done_entries && final(self).progress == old(self).progress && final(self).phase is AwaitStream && final(self).seg_idx == old(self).seg_idx + 1 && final(self).segs == old(self).segs,
    {
        match outcome {
            Ok(()) => {
                if self.files_written < usize::MAX {
                    self.files_written = self.files_written + 1;
                }
            },
            Err(_) => (),
        }
        self.advance_segment()
    }
}

/// Failures never skip the progress increment: however the individual calls
/// came out, a finished run has advanced the counter exactly once per entry
/// of the batch.
pub proof fn lemma_progress_counts_entries(r: &Run)
    requires
        r.inv(),
        r.phase is Done,
    ensures
        r.progress == r.entries@.len(),
{
}

} // verus!
