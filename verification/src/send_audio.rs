//! The transfer orchestrator: the decision core of a delivery job, as a
//! state machine from events (file size, split result, send and delete
//! outcomes) to the next external action. The surrounding runtime performs
//! each action (stat, split, multipart upload, file removal) and feeds the
//! outcome back as the next event.

use vstd::prelude::*;
use crate::chunk_audio::{needs_split, ChunkError, ChunkInfo};
use crate::text::decimal_digits;

verus! {

/// How a single multipart upload ended, as classified from the HTTP
/// outcome: the request completed with a 2xx status, completed with any
/// other status, or could not be completed at all.
pub enum SendOutcome {
    Success,
    EndpointRejection,
    TransportFailure,
}

/// True for exactly the HTTP status codes that count as a successful send.
pub fn is_success_status(code: u16) -> (r: bool)
    ensures
        r == (200 <= code < 300),
{
    200 <= code && code < 300
}

/// The title given to one part of a split upload: the original title with
/// the part's position appended.
pub open spec fn part_title_spec(title: Seq<char>, index: nat, total: nat) -> Seq<char> {
    title + " (Part "@ + decimal_digits(index) + "/"@ + decimal_digits(total) + ")"@
}

/// Builds the annotated title that `part_title_spec` describes.
pub fn part_title(title: &str, index: u64, total: u64) -> (r: String)
    ensures
        r@ == part_title_spec(title@, index as nat, total as nat),
{
    let mut s = String::from_str(title);
    s.append(" (Part ");
    let d1 = crate::text::u64_to_decimal(index);
    s.append(d1.as_str());
    s.append("/");
    let d2 = crate::text::u64_to_decimal(total);
    s.append(d2.as_str());
    s.append(")");
    proof {
        assert(s@ =~= part_title_spec(title@, index as nat, total as nat));
    }
    s
}

/// Where a delivery job stands: which external action is in flight, and,
/// for the per-chunk loops, how far they have come.
#[derive(Clone, Copy)]
pub enum DeliveryPhase {
    /// Waiting for the source file's size.
    AwaitSize,
    /// Waiting for the outcome of sending the whole source file as one
    /// part (either because it fits, or as the fallback after a failed
    /// split).
    AwaitSingleSend,
    /// Waiting for the outcome of splitting the source file.
    AwaitSplit,
    /// Waiting for the outcome of sending chunk `next`.
    AwaitChunkSend { next: usize },
    /// Waiting for the outcome of removing chunk `next`.
    AwaitChunkDelete { next: usize },
    /// Waiting for the outcome of removing the source file.
    AwaitSourceDelete,
    /// The job is over; no further action will be issued.
    Finished,
}

/// What the runtime reports back to the orchestrator.
pub enum DeliveryEvent {
    /// The source file's size in bytes.
    SourceSize(u64),
    /// The source file's metadata could not be obtained.
    SourceStatFailed,
    /// The split succeeded and produced these chunk descriptors.
    SplitOk(Vec<ChunkInfo>),
    /// The split failed.
    SplitFailed(ChunkError),
    /// A send finished, with this outcome.
    SendFinished(SendOutcome),
    /// A file removal finished; true on success. The orchestrator proceeds
    /// the same way either way: cleanup is best-effort.
    RemoveFinished(bool),
}

/// What the runtime must do next.
pub enum DeliveryAction {
    /// Upload the file at `path` as one multipart send under `title`;
    /// when `delete_after` is set and the send succeeds, remove the file
    /// afterwards.
    SendFile { path: String, title: String, delete_after: bool },
    /// Split the source file into chunks.
    SplitSource,
    /// Remove the file at `path`, reporting success or failure.
    RemoveFile { path: String },
    /// Nothing is left to do; report the job as finished.
    Report,
}

/// One delivery job: the source file, its descriptive title, the chunk
/// descriptors once a split has succeeded, and the current phase.
pub struct Delivery {
    pub path: String,
    pub title: String,
    pub chunks: Vec<ChunkInfo>,
    pub phase: DeliveryPhase,
}

impl Delivery {
    /// The per-chunk loops never point past the chunk list.
    pub open spec fn wf(self) -> bool {
        match self.phase {
            DeliveryPhase::AwaitChunkSend { next } => next < self.chunks@.len(),
            DeliveryPhase::AwaitChunkDelete { next } => next < self.chunks@.len(),
            _ => true,
        }
    }

    /// Which events answer the action that the current phase waits on.
    pub open spec fn expects(self, ev: DeliveryEvent) -> bool {
        match self.phase {
            DeliveryPhase::AwaitSize => ev is SourceSize || ev is SourceStatFailed,
            DeliveryPhase::AwaitSingleSend => ev is SendFinished,
            DeliveryPhase::AwaitSplit => ev is SplitOk || ev is SplitFailed,
            DeliveryPhase::AwaitChunkSend { .. } => ev is SendFinished,
            DeliveryPhase::AwaitChunkDelete { .. } => ev is RemoveFinished,
            DeliveryPhase::AwaitSourceDelete => ev is RemoveFinished,
            DeliveryPhase::Finished => false,
        }
    }

    /// Runtime check of `expects`, for callers outside the verified
    /// library: does this event answer the action the job is waiting on?
    pub fn expects_event(&self, ev: &DeliveryEvent) -> (r: bool)
        ensures
            r == self.expects(*ev),
    {
        match self.phase {
            DeliveryPhase::AwaitSize => matches!(ev, DeliveryEvent::SourceSize(_))
                || matches!(ev, DeliveryEvent::SourceStatFailed),
            DeliveryPhase::AwaitSingleSend => matches!(ev, DeliveryEvent::SendFinished(_)),
            DeliveryPhase::AwaitSplit => matches!(ev, DeliveryEvent::SplitOk(_)) || matches!(
                ev,
                DeliveryEvent::SplitFailed(_),
            ),
            DeliveryPhase::AwaitChunkSend { .. } => matches!(ev, DeliveryEvent::SendFinished(_)),
            DeliveryPhase::AwaitChunkDelete { .. } => matches!(
                ev,
                DeliveryEvent::RemoveFinished(_),
            ),
            DeliveryPhase::AwaitSourceDelete => matches!(ev, DeliveryEvent::RemoveFinished(_)),
            DeliveryPhase::Finished => false,
        }
    }

    /// A fresh job for the given source file and title. The runtime's
    /// first duty is to obtain the file's size.
    pub fn new(path: String, title: String) -> (d: Delivery)
        ensures
            d.wf(),
            d.phase is AwaitSize,
            d.path == path,
            d.title == title,
            d.chunks@.len() == 0,
    {
        Delivery { path, title, chunks: Vec::new(), phase: DeliveryPhase::AwaitSize }
    }

    /// Advances the job by one event and says what to do next.
    ///
    /// The contract pins every transition. A file that fits is sent whole
    /// and deleted only on a confirmed success. A file over the limit is
    /// split; each chunk is then sent in sequence-number order under an
    /// annotated title, and a failed send never stops the later chunks.
    /// After the last chunk has been attempted, every chunk file is
    /// removed in order — a failed removal never stops the later ones —
    /// and the source file is removed last. A failed split falls back to
    /// sending the whole source file.
    pub fn step(&mut self, ev: DeliveryEvent) -> (a: DeliveryAction)
        requires
            old(self).wf(),
            old(self).expects(ev),
        ensures
            final(self).wf(),
            final(self).path == old(self).path,
            final(self).title == old(self).title,
            !(ev is SplitOk) ==> final(self).chunks == old(self).chunks,
            old(self).phase is AwaitSize ==> {
                &&& (ev matches DeliveryEvent::SourceSize(size) ==> {
                    &&& !needs_split(size) ==> {
                        &&& final(self).phase is AwaitSingleSend
                        &&& a matches DeliveryAction::SendFile { path, title, delete_after }
                            && path == old(self).path && title == old(self).title && delete_after
                    }
                    &&& needs_split(size) ==> {
                        &&& final(self).phase is AwaitSplit
                        &&& a is SplitSource
                    }
                })
                &&& (ev is SourceStatFailed ==> final(self).phase is Finished && a is Report)
            },
            old(self).phase is AwaitSingleSend ==> final(self).phase is Finished && a is Report,
            old(self).phase is AwaitSplit ==> {
                &&& (ev is SplitFailed ==> {
                    &&& final(self).phase is AwaitSingleSend
                    &&& a matches DeliveryAction::SendFile { path, title, delete_after }
                        && path == old(self).path && title == old(self).title && delete_after
                })
                &&& (ev matches DeliveryEvent::SplitOk(cs) ==> {
                    &&& final(self).chunks == cs
                    &&& cs@.len() == 0 ==> final(self).phase is AwaitSourceDelete
                        && (a matches DeliveryAction::RemoveFile { path } && path == old(
                        self,
                    ).path)
                    &&& cs@.len() > 0 ==> {
                        &&& final(self).phase matches DeliveryPhase::AwaitChunkSend { next }
                            && next == 0
                        &&& a matches DeliveryAction::SendFile { path, title, delete_after }
                            && path == cs@[0].path && title@ == part_title_spec(
                            old(self).title@,
                            cs@[0].index as nat,
                            cs@.len(),
                        ) && !delete_after
                    }
                })
            },
            old(self).phase matches DeliveryPhase::AwaitChunkSend { next } ==> {
                &&& next + 1 < old(self).chunks@.len() ==> {
                    &&& final(self).phase matches DeliveryPhase::AwaitChunkSend { next: n2 }
                        && n2 == next + 1
                    &&& a matches DeliveryAction::SendFile { path, title, delete_after }
                        && path == old(self).chunks@[next + 1].path && title@ == part_title_spec(
                        old(self).title@,
                        old(self).chunks@[next + 1].index as nat,
                        old(self).chunks@.len(),
                    ) && !delete_after
                }
                &&& next + 1 == old(self).chunks@.len() ==> {
                    &&& final(self).phase matches DeliveryPhase::AwaitChunkDelete { next: n2 }
                        && n2 == 0
                    &&& a matches DeliveryAction::RemoveFile { path } && path == old(
                        self,
                    ).chunks@[0].path
                }
            },
            old(self).phase matches DeliveryPhase::AwaitChunkDelete { next } ==> {
                &&& next + 1 < old(self).chunks@.len() ==> {
                    &&& final(self).phase matches DeliveryPhase::AwaitChunkDelete { next: n2 }
                        && n2 == next + 1
                    &&& a matches DeliveryAction::RemoveFile { path } && path == old(
                        self,
                    ).chunks@[next + 1].path
                }
                &&& next + 1 == old(self).chunks@.len() ==> {
                    &&& final(self).phase is AwaitSourceDelete
                    &&& a matches DeliveryAction::RemoveFile { path } && path == old(self).path
                }
            },
            old(self).phase is AwaitSourceDelete ==> final(self).phase is Finished && a is Report,
    {
        let phase = self.phase;
        match phase {
            DeliveryPhase::AwaitSize => {
                match ev {
                    DeliveryEvent::SourceSize(size) => {
                        if crate::chunk_audio::needs_chunking(size) {
                            self.phase = DeliveryPhase::AwaitSplit;
                            DeliveryAction::SplitSource
                        } else {
                            self.phase = DeliveryPhase::AwaitSingleSend;
                            DeliveryAction::SendFile {
                                path: self.path.clone(),
                                title: self.title.clone(),
                                delete_after: true,
                            }
                        }
                    },
                    _ => {
                        self.phase = DeliveryPhase::Finished;
                        DeliveryAction::Report
                    },
                }
            },
            DeliveryPhase::AwaitSingleSend => {
                self.phase = DeliveryPhase::Finished;
                DeliveryAction::Report
            },
            DeliveryPhase::AwaitSplit => {
                match ev {
                    DeliveryEvent::SplitOk(cs) => {
                        self.chunks = cs;
                        if self.chunks.len() == 0 {
                            self.phase = DeliveryPhase::AwaitSourceDelete;
                            DeliveryAction::RemoveFile { path: self.path.clone() }
                        } else {
                            self.phase = DeliveryPhase::AwaitChunkSend { next: 0 };
                            self.chunk_send_action(0)
                        }
                    },
                    _ => {
                        self.phase = DeliveryPhase::AwaitSingleSend;
                        DeliveryAction::SendFile {
                            path: self.path.clone(),
                            title: self.title.clone(),
                            delete_after: true,
                        }
                    },
                }
            },
            DeliveryPhase::AwaitChunkSend { next } => {
                let len = self.chunks.len();
                if next + 1 < len {
                    self.phase = DeliveryPhase::AwaitChunkSend { next: next + 1 };
                    self.chunk_send_action(next + 1)
                } else {
                    self.phase = DeliveryPhase::AwaitChunkDelete { next: 0 };
                    DeliveryAction::RemoveFile { path: self.chunks[0].path.clone() }
                }
            },
            DeliveryPhase::AwaitChunkDelete { next } => {
                let len = self.chunks.len();
                if next + 1 < len {
                    self.phase = DeliveryPhase::AwaitChunkDelete { next: next + 1 };
                    DeliveryAction::RemoveFile { path: self.chunks[next + 1].path.clone() }
                } else {
                    self.phase = DeliveryPhase::AwaitSourceDelete;
                    DeliveryAction::RemoveFile { path: self.path.clone() }
                }
            },
            DeliveryPhase::AwaitSourceDelete => {
                self.phase = DeliveryPhase::Finished;
                DeliveryAction::Report
            },
            DeliveryPhase::Finished => {
                proof {
                    assert(false);
                }
                DeliveryAction::Report
            },
        }
    }

    /// The send action for chunk `i`: its file, under the title annotated
    /// with its sequence number and the total chunk count, with deletion
    /// left to the later cleanup pass.
    fn chunk_send_action(&self, i: usize) -> (a: DeliveryAction)
        requires
            i < self.chunks@.len(),
        ensures
            a matches DeliveryAction::SendFile { path, title, delete_after } && path
                == self.chunks@[i as int].path && title@ == part_title_spec(
                self.title@,
                self.chunks@[i as int].index as nat,
                self.chunks@.len(),
            ) && !delete_after,
    {
        let total = self.chunks.len();
        let title = part_title(self.title.as_str(), self.chunks[i].index as u64, total as u64);
        DeliveryAction::SendFile {
            path: self.chunks[i].path.clone(),
            title,
            delete_after: false,
        }
    }
}

} // verus!
