//! The file name of a nar file, as a narinfo names it.
use vstd::prelude::*;

use crate::domain::substituter::url::{as_dir_spec, join_spec, Url, UrlView};
use crate::text::{
    chars_of, contains_seq, contains_seq_exec, has_char, index_of_from, index_of_from_exec,
    lemma_index_of_from, occurs_at, occurs_at_exec,
};

verus! {

/// The marker that every nar file name holds.
pub open spec fn nar_marker() -> Seq<char> {
    seq!['.', 'n', 'a', 'r']
}

/// The marker followed by the dot that opens a compression: `.nar.`.
pub open spec fn nar_extension() -> Seq<char> {
    seq!['.', 'n', 'a', 'r', '.']
}

/// `s` ends with `.nar`.
pub open spec fn ends_with_nar(s: Seq<char>) -> bool {
    occurs_at(s, nar_marker(), s.len() - 4)
}

/// `s` carries the nar extension: it holds `.nar.` or ends with `.nar`.
pub open spec fn has_nar_extension(s: Seq<char>) -> bool {
    contains_seq(s, nar_extension()) || ends_with_nar(s)
}

/// A text that names a nar file: not empty, without a slash, and holding
/// `.nar.` or ending with `.nar`.
pub open spec fn valid_nar_file_name(s: Seq<char>) -> bool {
    s.len() > 0 && !has_char(s, '/') && has_nar_extension(s)
}

/// A text with the nar extension holds the marker `.nar`.
pub proof fn lemma_extension_holds_marker(s: Seq<char>)
    requires
        has_nar_extension(s),
    ensures
        contains_seq(s, nar_marker()),
{
    if contains_seq(s, nar_extension()) {
        let at = choose|at: int| occurs_at(s, nar_extension(), at);
        assert(s.subrange(at, at + 4) =~= s.subrange(at, at + 5).subrange(0, 4));
        assert(s.subrange(at, at + 4) =~= nar_marker());
        assert(occurs_at(s, nar_marker(), at));
    } else {
        assert(occurs_at(s, nar_marker(), s.len() - 4));
    }
}

/// Why a text does not name a nar file.
#[derive(Debug, Clone, Copy, PartialEq, Eq)]
pub enum TryNewNarFileNameError {
    Empty,
    ContainsSlash,
    MissingNarExtension,
}

impl TryNewNarFileNameError {
    /// The message of the error.
    pub fn message(&self) -> (r: String)
        ensures
            r@ == match self {
                TryNewNarFileNameError::Empty => "nar file name should not be empty"@,
                TryNewNarFileNameError::ContainsSlash => "nar file name should not contain `/`"@,
                TryNewNarFileNameError::MissingNarExtension => "nar file name should end with `.nar.{compression}`"@,
            },
    {
        match self {
            TryNewNarFileNameError::Empty => String::from_str("nar file name should not be empty"),
            TryNewNarFileNameError::ContainsSlash => String::from_str("nar file name should not contain `/`"),
            TryNewNarFileNameError::MissingNarExtension => String::from_str("nar file name should end with `.nar.{compression}`"),
        }
    }
}

/// What `NarFileName::new` gives for a text: the first rule it breaks.
pub open spec fn nar_file_name_check(s: Seq<char>) -> Result<(), TryNewNarFileNameError> {
    if s.len() == 0 {
        Err(TryNewNarFileNameError::Empty)
    } else if has_char(s, '/') {
        Err(TryNewNarFileNameError::ContainsSlash)
    } else if !has_nar_extension(s) {
        Err(TryNewNarFileNameError::MissingNarExtension)
    } else {
        Ok(())
    }
}

/// A name is accepted exactly when it is a valid nar file name.
pub proof fn lemma_check_ok_is_valid(s: Seq<char>)
    ensures
        nar_file_name_check(s) is Ok <==> valid_nar_file_name(s),
{
}

/// Whether `c` occurs in `s`.
pub fn has_char_exec(s: &Vec<char>, c: char) -> (r: bool)
    ensures
        r == has_char(s@, c),
{
    let i = index_of_from_exec(s, c, 0);
    proof {
        lemma_index_of_from(s@, c, 0);
    }
    i < s.len()
}

/// The nar extension `.nar.` as characters.
pub fn nar_extension_exec() -> (r: Vec<char>)
    ensures
        r@ == nar_extension(),
{
    let r = vec!['.', 'n', 'a', 'r', '.'];
    assert(r@ =~= nar_extension());
    r
}

/// Whether `s` holds `.nar.` or ends with `.nar`.
pub fn has_nar_extension_exec(s: &Vec<char>) -> (r: bool)
    ensures
        r == has_nar_extension(s@),
{
    if contains_seq_exec(s, &nar_extension_exec()) {
        return true;
    }
    if s.len() < 4 {
        return false;
    }
    occurs_at_exec(s, &nar_marker_exec(), s.len() - 4)
}

/// The nar file name marker as characters.
pub fn nar_marker_exec() -> (r: Vec<char>)
    ensures
        r@ == nar_marker(),
{
    let r = vec!['.', 'n', 'a', 'r'];
    assert(r@ =~= nar_marker());
    r
}

/// The file name of a nar file.
#[derive(Debug, PartialEq, Eq, Hash)]
pub struct NarFileName(String);

impl View for NarFileName {
    type V = Seq<char>;

    closed spec fn view(&self) -> Seq<char> {
        self.0@
    }
}

impl NarFileName {
    #[verifier::type_invariant]
    closed spec fn inv(self) -> bool {
        valid_nar_file_name(self.0@)
    }

    /// Accepts a nar file name: not empty, without a slash, and holding
    /// `.nar.` or ending with `.nar`.
    pub fn new(value: String) -> (r: Result<NarFileName, TryNewNarFileNameError>)
        ensures
            match (r, nar_file_name_check(value@)) {
                (Ok(n), Ok(())) => n@ == value@,
                (Err(e), Err(k)) => e == k,
                _ => false,
            },
    {
        let v = chars_of(value.as_str());
        if v.len() == 0 {
            return Err(TryNewNarFileNameError::Empty);
        }
        if has_char_exec(&v, '/') {
            return Err(TryNewNarFileNameError::ContainsSlash);
        }
        if !has_nar_extension_exec(&v) {
            return Err(TryNewNarFileNameError::MissingNarExtension);
        }
        Ok(NarFileName(value))
    }

    /// The name.
    pub fn value(&self) -> (r: &str)
        ensures
            r@ == self@,
            valid_nar_file_name(self@),
    {
        proof {
            use_type_invariant(self);
        }
        self.0.as_str()
    }

    /// A copy of this name.
    pub fn duplicate(&self) -> (r: NarFileName)
        ensures
            r@ == self@,
    {
        proof {
            use_type_invariant(self);
        }
        NarFileName(self.0.clone())
    }

    /// The URL of this file under the directory `prefix`; `None` where the
    /// `url` crate refuses the joined reference.
    pub fn try_with_storage_prefix(&self, prefix: &Url) -> (r: Option<Url>)
        ensures
            match join_spec(as_dir_spec(prefix@), self@) {
                Some(v) => r matches Some(u) && u@ == v,
                None => r is None,
            },
    {
        match prefix.as_dir().join(self.value()) {
            Ok(_) => Some(self.with_storage_prefix(prefix)),
            Err(_) => None,
        }
    }

    /// The URL of this file under the directory `prefix`.
    pub fn with_storage_prefix(&self, prefix: &Url) -> (r: Url)
        requires
            join_spec(as_dir_spec(prefix@), self@) is Some,
        ensures
            r@ == join_spec(as_dir_spec(prefix@), self@)->0,
    {
        match prefix.as_dir().join(self.value()) {
            Ok(u) => u,
            Err(_) => {
                assert(false);
                prefix.clone()
            },
        }
    }
}

impl Clone for NarFileName {
    fn clone(&self) -> (r: Self)
        ensures
            r@ == self@,
    {
        self.duplicate()
    }
}

} // verus!
