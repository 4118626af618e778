use vstd::prelude::*;

use crate::error::PlayerError;
use crate::track::{MediaType, Track};

verus! {

/// How a track's bytes are to be acquired, decided from its
/// descriptor before any I/O happens.
///
/// Music and locally cached podcasts read a file through a fixed-size
/// buffered reader. A remote podcast streams over HTTP behind the
/// adaptive (disk-spill) buffer so the decoder can seek backwards.
/// Live radio streams over HTTP with the `icy-metadata: 1` request
/// header, behind the bounded in-memory buffer; when the response
/// advertises a metadata interval, the stream also runs through the
/// ICY filter.
#[derive(Debug, Clone, PartialEq)]
pub enum SourcePlan {
    LocalFile { path: String },
    RemoteAdaptive { url: String, capacity: usize },
    RadioBounded { url: String, capacity: usize },
}

/// The buffer capacity used for network sources: twice the prefetch
/// threshold, so new data keeps arriving while the initial prefetch
/// window drains. It must be a positive count that fits the
/// platform's address space.
pub open spec fn buffer_capacity(prefetch_bytes: u64) -> int {
    2 * prefetch_bytes as int
}

/// Decides how to acquire a track's bytes. Exactly the descriptors
/// with a path or URL resolve: music and cached podcasts to their
/// local file, remote podcasts to an adaptively buffered HTTP stream,
/// live radio to a bounded-memory HTTP stream. A network plan is
/// refused only when the doubled prefetch threshold is zero or does
/// not fit `usize`.
pub fn resolve_plan(track: &Track, prefetch_bytes: u64) -> (r: Result<SourcePlan, PlayerError>)
    ensures
        track.file is None ==> r matches Err(PlayerError::NoFilePath),
        track@.file matches Some(f) ==> match track.media_type {
            MediaType::Music => r matches Ok(SourcePlan::LocalFile { path }) && path@ == f,
            MediaType::Podcast => match track@.podcast_localfile {
                Some(l) => r matches Ok(SourcePlan::LocalFile { path }) && path@ == l,
                None => if 0 < buffer_capacity(prefetch_bytes) <= usize::MAX as int {
                    r matches Ok(SourcePlan::RemoteAdaptive { url, capacity }) && url@ == f
                        && capacity as int == buffer_capacity(prefetch_bytes)
                } else {
                    r matches Err(PlayerError::BadCapacity)
                },
            },
            MediaType::LiveRadio => {
                if 0 < buffer_capacity(prefetch_bytes) <= usize::MAX as int {
                    r matches Ok(SourcePlan::RadioBounded { url, capacity }) && url@ == f
                        && capacity as int == buffer_capacity(prefetch_bytes)
                } else {
                    r matches Err(PlayerError::BadCapacity)
                }
            },
        },
{
    let file_path: String = match track.file() {
        Some(f) => f.clone(),
        None => {
            return Err(PlayerError::NoFilePath);
        },
    };
    match track.media_type {
        MediaType::Music => Ok(SourcePlan::LocalFile { path: file_path }),
        MediaType::Podcast => {
            match &track.podcast_localfile {
                Some(local) => Ok(SourcePlan::LocalFile { path: local.clone() }),
                None => {
                    match checked_capacity(prefetch_bytes) {
                        Ok(capacity) => Ok(SourcePlan::RemoteAdaptive { url: file_path, capacity }),
                        Err(e) => Err(e),
                    }
                },
            }
        },
        MediaType::LiveRadio => {
            match checked_capacity(prefetch_bytes) {
                Ok(capacity) => Ok(SourcePlan::RadioBounded { url: file_path, capacity }),
                Err(e) => Err(e),
            }
        },
    }
}

/// Doubles the prefetch threshold into a buffer capacity, refusing a
/// zero or overflowing result.
fn checked_capacity(prefetch_bytes: u64) -> (r: Result<usize, PlayerError>)
    ensures
        0 < buffer_capacity(prefetch_bytes) <= usize::MAX as int ==> (r matches Ok(c) && c as int
            == buffer_capacity(prefetch_bytes)),
        !(0 < buffer_capacity(prefetch_bytes) <= usize::MAX as int) ==> r matches Err(
            PlayerError::BadCapacity,
        ),
{
    if prefetch_bytes == 0 {
        return Err(PlayerError::BadCapacity);
    }
    if prefetch_bytes > u64::MAX / 2 {
        return Err(PlayerError::BadCapacity);
    }
    let doubled: u64 = prefetch_bytes * 2;
    if doubled > usize::MAX as u64 {
        return Err(PlayerError::BadCapacity);
    }
    Ok(doubled as usize)
}

} // verus!
