//! The actor that owns what is known of one nar file: where its state
//! starts from, and what a location it is told of does to it.
use vstd::prelude::*;

use crate::domain::common::expire_at::{secs_after, ExpireAt};
use crate::domain::common::time::{Span, WallTime, MAX_UNIX_SECS};
use crate::domain::nar_file::nar_file::{NarFile, NarFileView};
use crate::domain::nar_file::nar_file_key::NarFileKey;
use crate::domain::nar_file::nar_file_location::NarFileLocation;

verus! {

/// The state the actor starts from: what was stored of the file, or
/// nothing known where nothing could be loaded.
pub fn initial_state(key: NarFileKey, stored: Option<NarFile>) -> (r: NarFile)
    ensures
        match stored {
            Some(f) => r@ == f@,
            None => r@ == (NarFileView { key: key@, location: None }),
        },
{
    match stored {
        Some(f) => f,
        None => NarFile::new(key),
    }
}

/// The file was found at `location` at `now`: it is kept there until `ttl`
/// later.
pub fn on_set_location(state: NarFile, location: NarFileLocation, now: WallTime, ttl: Span) -> (r: NarFile)
    requires
        now.wf(),
        ttl.wf(),
        secs_after(now, ttl) <= MAX_UNIX_SECS,
    ensures
        r@ == (NarFileView {
            key: state@.key,
            location: Some((location@, ExpireAt::at_secs(secs_after(now, ttl) as u64))),
        }),
{
    let expire_at = ExpireAt::since(now, ttl);
    state.on_located(location, expire_at)
}

} // verus!
