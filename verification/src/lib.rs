//! Size-bounded chunking and sequential-delivery engine for an audio relay
//! service: decides whether a downloaded file must be split before upload,
//! plans the split into ordered, size-capped chunks with reversible names,
//! and drives the per-part delivery and cleanup protocol.

pub mod chunk_audio;
pub mod send_audio;
pub mod text;
pub mod types;
