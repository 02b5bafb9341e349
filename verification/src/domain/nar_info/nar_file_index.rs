//! What the index of nar file locations is told about narinfos coming and
//! going.
use vstd::prelude::*;

use crate::domain::nar_file::nar_file_location::{NarFileLocation, NarFileLocationView};
use crate::domain::nar_info::nar_file_name::NarFileName;

verus! {

/// A change to the known locations of nar files.
#[derive(Debug, PartialEq, Eq, Hash)]
pub enum NarFileEvent {
    /// A resolved narinfo names `nar_file`, found at `location`.
    Registered { nar_file: NarFileName, location: NarFileLocation },
    /// The narinfo naming `nar_file` is no longer held.
    Evicted { nar_file: NarFileName },
}

pub enum NarFileEventView {
    Registered { nar_file: Seq<char>, location: NarFileLocationView },
    Evicted { nar_file: Seq<char> },
}

impl View for NarFileEvent {
    type V = NarFileEventView;

    open spec fn view(&self) -> NarFileEventView {
        match self {
            NarFileEvent::Registered { nar_file, location } => NarFileEventView::Registered {
                nar_file: nar_file@,
                location: location@,
            },
            NarFileEvent::Evicted { nar_file } => NarFileEventView::Evicted { nar_file: nar_file@ },
        }
    }
}

impl Clone for NarFileEvent {
    fn clone(&self) -> (r: Self)
        ensures
            r@ == self@,
    {
        match self {
            NarFileEvent::Registered { nar_file, location } => NarFileEvent::Registered {
                nar_file: nar_file.clone(),
                location: location.clone(),
            },
            NarFileEvent::Evicted { nar_file } => NarFileEvent::Evicted { nar_file: nar_file.clone() },
        }
    }
}

} // verus!
