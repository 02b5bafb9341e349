//! Where a nar file can be fetched.
use std::time::Duration;

use vstd::prelude::*;

use crate::domain::substituter::url::{Url, UrlView};

verus! {

pub struct NarFileLocationView {
    pub source_url: UrlView,
    pub timeout: Option<Duration>,
}

/// The URL of a nar file and how long to wait for it.
#[derive(Debug, PartialEq, Eq, Hash)]
pub struct NarFileLocation {
    source_url: Url,
    timeout: Option<Duration>,
}

impl View for NarFileLocation {
    type V = NarFileLocationView;

    closed spec fn view(&self) -> NarFileLocationView {
        NarFileLocationView { source_url: self.source_url@, timeout: self.timeout }
    }
}

impl Clone for NarFileLocation {
    fn clone(&self) -> (r: Self)
        ensures
            r@ == self@,
    {
        NarFileLocation { source_url: self.source_url.clone(), timeout: self.timeout }
    }
}

impl NarFileLocation {
    pub fn new(source_url: Url, timeout: Option<Duration>) -> (r: NarFileLocation)
        ensures
            r@ == (NarFileLocationView { source_url: source_url@, timeout }),
    {
        NarFileLocation { source_url, timeout }
    }

    pub fn source_url(&self) -> (r: &Url)
        ensures
            r@ == self@.source_url,
    {
        &self.source_url
    }

    pub fn timeout(&self) -> (r: Option<Duration>)
        ensures
            r == self@.timeout,
    {
        self.timeout
    }
}

} // verus!
