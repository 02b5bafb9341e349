//! The configured facts about a substituter.
use std::time::Duration;

use vstd::prelude::*;

use crate::domain::substituter::priority::Priority;
use crate::domain::substituter::url::{as_dir_spec, join_spec, Url, UrlView};

verus! {

/// The relative reference of the nar directory under a substituter's URL.
pub open spec fn nar_dir() -> Seq<char> {
    seq!['n', 'a', 'r']
}

/// The storage URL that `SubstituterMeta::new` derives from a URL: its `nar`
/// directory.
pub open spec fn default_storage_url(url: UrlView) -> Option<UrlView> {
    join_spec(as_dir_spec(url), nar_dir())
}

pub struct SubstituterMetaView {
    pub url: UrlView,
    pub storage_url: UrlView,
    pub priority: u32,
    pub nar_info_timeout: Option<Duration>,
    pub nar_timeout: Option<Duration>,
}

/// A substituter: where its narinfo files and its nar files are served, its
/// priority, and how long to wait for each kind of file.
#[derive(Debug, PartialEq, Eq, Hash)]
pub struct SubstituterMeta {
    url: Url,
    storage_url: Url,
    priority: Priority,
    nar_info_timeout: Option<Duration>,
    nar_timeout: Option<Duration>,
}

impl View for SubstituterMeta {
    type V = SubstituterMetaView;

    closed spec fn view(&self) -> SubstituterMetaView {
        SubstituterMetaView {
            url: self.url@,
            storage_url: self.storage_url@,
            priority: self.priority.value_spec(),
            nar_info_timeout: self.nar_info_timeout,
            nar_timeout: self.nar_timeout,
        }
    }
}

impl Clone for SubstituterMeta {
    fn clone(&self) -> (r: Self)
        ensures
            r@ == self@,
    {
        SubstituterMeta {
            url: self.url.clone(),
            storage_url: self.storage_url.clone(),
            priority: self.priority,
            nar_info_timeout: self.nar_info_timeout,
            nar_timeout: self.nar_timeout,
        }
    }
}

impl SubstituterMeta {
    /// A substituter whose nar files are served under the `nar` directory
    /// of `url`, with no timeouts of its own; `None` where that directory
    /// cannot be formed.
    pub fn try_new(url: Url, priority: Priority) -> (r: Option<SubstituterMeta>)
        ensures
            match default_storage_url(url@) {
                Some(s) => r matches Some(m) && m@ == (SubstituterMetaView {
                    url: url@,
                    storage_url: s,
                    priority: priority.value_spec(),
                    nar_info_timeout: None,
                    nar_timeout: None,
                }),
                None => r is None,
            },
    {
        proof {
            reveal_strlit("nar");
        }
        assert("nar"@ =~= nar_dir());
        match url.as_dir().join("nar") {
            Ok(_) => Some(SubstituterMeta::new(url, priority)),
            Err(_) => None,
        }
    }

    /// A substituter whose nar files are served under the `nar` directory
    /// of `url`, with no timeouts of its own.
    pub fn new(url: Url, priority: Priority) -> (r: SubstituterMeta)
        requires
            default_storage_url(url@) is Some,
        ensures
            r@ == (SubstituterMetaView {
                url: url@,
                storage_url: default_storage_url(url@)->0,
                priority: priority.value_spec(),
                nar_info_timeout: None,
                nar_timeout: None,
            }),
    {
        proof {
            reveal_strlit("nar");
        }
        assert("nar"@ =~= nar_dir());
        match url.as_dir().join("nar") {
            Ok(storage_url) => SubstituterMeta {
                url,
                storage_url,
                priority,
                nar_info_timeout: None,
                nar_timeout: None,
            },
            Err(_) => {
                assert(false);
                SubstituterMeta {
                    url: url.clone(),
                    storage_url: url,
                    priority,
                    nar_info_timeout: None,
                    nar_timeout: None,
                }
            },
        }
    }

    pub fn url(&self) -> (r: &Url)
        ensures
            r@ == self@.url,
    {
        &self.url
    }

    pub fn storage_url(&self) -> (r: &Url)
        ensures
            r@ == self@.storage_url,
    {
        &self.storage_url
    }

    pub fn priority(&self) -> (r: Priority)
        ensures
            r.value_spec() == self@.priority,
    {
        self.priority
    }

    pub fn nar_info_timeout(&self) -> (r: Option<Duration>)
        ensures
            r == self@.nar_info_timeout,
    {
        self.nar_info_timeout
    }

    pub fn nar_timeout(&self) -> (r: Option<Duration>)
        ensures
            r == self@.nar_timeout,
    {
        self.nar_timeout
    }

    /// The same substituter with its nar files served under `storage_url`.
    pub fn with_storage_url(&self, storage_url: Url) -> (r: SubstituterMeta)
        ensures
            r@ == (SubstituterMetaView { storage_url: storage_url@, ..self@ }),
    {
        SubstituterMeta { storage_url, ..self.clone() }
    }

    /// The same substituter with another timeout for narinfo queries.
    pub fn with_nar_info_timeout(&self, timeout: Option<Duration>) -> (r: SubstituterMeta)
        ensures
            r@ == (SubstituterMetaView { nar_info_timeout: timeout, ..self@ }),
    {
        SubstituterMeta { nar_info_timeout: timeout, ..self.clone() }
    }

    /// The same substituter with another timeout for nar file transfers.
    pub fn with_nar_timeout(&self, timeout: Option<Duration>) -> (r: SubstituterMeta)
        ensures
            r@ == (SubstituterMetaView { nar_timeout: timeout, ..self@ }),
    {
        SubstituterMeta { nar_timeout: timeout, ..self.clone() }
    }
}

} // verus!
