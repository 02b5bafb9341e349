//! The key under which the location of a nar file is cached: the file's
//! hash and its compression.
use vstd::prelude::*;

use crate::domain::nar_info::nar_file_name::{
    lemma_extension_holds_marker, nar_extension, nar_file_name_check, nar_marker,
    nar_marker_exec, valid_nar_file_name, NarFileName,
};
use crate::text::{
    append_vec, chars_of, contains_seq, copy_opt_string, copy_string, find_seq, find_seq_from,
    has_char, lemma_find_seq_from, occurs_at, opt_view, slice_vec, string_of, strip_repeated,
    strip_repeated_exec, strip_repeated_from, lemma_strip_repeated_from,
};

verus! {

pub struct NarFileKeyView {
    pub file_hash: Seq<char>,
    pub compression: Option<Seq<char>>,
}

/// The compression kept by `with_compression`: an empty one is none.
pub open spec fn keep_compression(c: Option<Seq<char>>) -> Option<Seq<char>> {
    match c {
        Some(s) => if s.len() > 0 {
            Some(s)
        } else {
            None
        },
        None => None,
    }
}

pub open spec fn dot() -> Seq<char> {
    seq!['.']
}

/// What `from_file_name` makes of a nar file name: the text before the first
/// `.nar` is the hash, the rest without its leading dots the compression.
pub open spec fn key_of_name(name: Seq<char>) -> NarFileKeyView {
    let at = find_seq_from(name, nar_marker(), 0)->0;
    let suffix = name.subrange(at + 4, name.len() as int);
    NarFileKeyView {
        file_hash: name.subrange(0, at),
        compression: keep_compression(Some(strip_repeated(suffix, dot()))),
    }
}

/// What `to_file_name` makes of a key: `<hash>.nar.<compression>`, or
/// `<hash>.nar` without a compression.
pub open spec fn name_of_key(k: NarFileKeyView) -> Seq<char> {
    match k.compression {
        Some(c) => k.file_hash + nar_marker() + dot() + c,
        None => k.file_hash + nar_marker(),
    }
}

/// A key whose name is a valid nar file name: neither part holds a slash.
pub open spec fn key_wf(k: NarFileKeyView) -> bool {
    !has_char(k.file_hash, '/') && match k.compression {
        Some(c) => !has_char(c, '/'),
        None => true,
    }
}

#[derive(Debug, PartialEq, Eq, Hash)]
pub struct NarFileKey {
    file_hash: String,
    compression: Option<String>,
}

impl View for NarFileKey {
    type V = NarFileKeyView;

    closed spec fn view(&self) -> NarFileKeyView {
        NarFileKeyView { file_hash: self.file_hash@, compression: opt_view(self.compression) }
    }
}

impl Clone for NarFileKey {
    fn clone(&self) -> (r: Self)
        ensures
            r@ == self@,
    {
        NarFileKey { file_hash: copy_string(&self.file_hash), compression: copy_opt_string(&self.compression) }
    }
}

proof fn lemma_no_char_concat(a: Seq<char>, b: Seq<char>, c: char)
    requires
        !has_char(a, c),
        !has_char(b, c),
    ensures
        !has_char(a + b, c),
{
    if has_char(a + b, c) {
        let i = choose|i: int| 0 <= i < (a + b).len() && (a + b)[i] == c;
        if i < a.len() {
            assert(a[i] == c);
        } else {
            assert(b[i - a.len()] == c);
        }
    }
}

proof fn lemma_marker_no_slash()
    ensures
        !has_char(nar_marker(), '/'),
        !has_char(dot(), '/'),
{
    if has_char(nar_marker(), '/') {
        let i = choose|i: int| 0 <= i < 4 && nar_marker()[i] == '/';
    }
}

proof fn lemma_name_of_key_valid(k: NarFileKeyView)
    requires
        key_wf(k),
    ensures
        valid_nar_file_name(name_of_key(k)),
{
    lemma_marker_no_slash();
    let n = name_of_key(k);
    lemma_no_char_concat(k.file_hash, nar_marker(), '/');
    match k.compression {
        Some(c) => {
            lemma_no_char_concat(k.file_hash + nar_marker(), dot(), '/');
            lemma_no_char_concat(k.file_hash + nar_marker() + dot(), c, '/');
            assert(n.subrange(k.file_hash.len() as int, k.file_hash.len() + 5int) =~= nar_extension());
            assert(occurs_at(n, nar_extension(), k.file_hash.len() as int));
        },
        None => {
            assert(n.subrange(n.len() - 4, n.len() as int) =~= nar_marker());
            assert(occurs_at(n, nar_marker(), n.len() - 4));
        },
    }
}

impl NarFileKey {
    /// The key of the file with hash `file_hash`, without a compression.
    pub fn new(file_hash: String) -> (r: NarFileKey)
        ensures
            r@ == (NarFileKeyView { file_hash: file_hash@, compression: None }),
    {
        NarFileKey { file_hash, compression: None }
    }

    /// The same key with `compression`; an empty one counts as none.
    pub fn with_compression(self, compression: Option<String>) -> (r: NarFileKey)
        ensures
            r@ == (NarFileKeyView { file_hash: self@.file_hash, compression: keep_compression(opt_view(compression)) }),
    {
        let compression = match compression {
            Some(c) => if c.as_str().is_empty() {
                None
            } else {
                Some(c)
            },
            None => None,
        };
        NarFileKey { file_hash: self.file_hash, compression }
    }

    /// The key of a nar file name.
    pub fn from_file_name(nar_file: &NarFileName) -> (r: NarFileKey)
        ensures
            r@ == key_of_name(nar_file@),
            key_wf(r@),
    {
        let name = chars_of(nar_file.value());
        let marker = nar_marker_exec();
        proof {
            lemma_extension_holds_marker(name@);
            crate::text::lemma_contains_iff_find(name@, marker@);
            lemma_find_seq_from(name@, marker@, 0);
        }
        let at = match find_seq(&name, &marker) {
            Some(at) => at,
            None => {
                assert(false);
                0
            },
        };
        let hash = slice_vec(&name, 0, at);
        let suffix = slice_vec(&name, at + 4, name.len());
        let dot_v = vec!['.'];
        assert(dot_v@ =~= dot());
        let compression = strip_repeated_exec(&suffix, &dot_v);
        proof {
            crate::domain::nar_info::narinfo_text::lemma_subrange_keeps_absence(name@, 0, at as int, '/');
            crate::domain::nar_info::narinfo_text::lemma_subrange_keeps_absence(name@, at + 4, name@.len() as int, '/');
            lemma_strip_repeated_from(suffix@, dot(), 0);
            crate::domain::nar_info::narinfo_text::lemma_subrange_keeps_absence(
                suffix@,
                strip_repeated_from(suffix@, dot(), 0),
                suffix@.len() as int,
                '/',
            );
        }
        NarFileKey::new(string_of(&hash)).with_compression(Some(string_of(&compression)))
    }

    /// The nar file name of this key.
    pub fn to_file_name(&self) -> (r: NarFileName)
        requires
            key_wf(self@),
        ensures
            r@ == name_of_key(self@),
    {
        let mut name = chars_of(self.file_hash.as_str());
        append_vec(&mut name, &nar_marker_exec());
        match &self.compression {
            Some(c) => {
                name.push('.');
                append_vec(&mut name, &chars_of(c.as_str()));
            },
            None => {},
        }
        assert(name@ =~= name_of_key(self@));
        proof {
            lemma_name_of_key_valid(self@);
        }
        match NarFileName::new(string_of(&name)) {
            Ok(n) => n,
            Err(_) => {
                assert(false);
                NarFileName::new(string_of(&name)).unwrap()
            },
        }
    }

    pub fn file_hash(&self) -> (r: &String)
        ensures
            r@ == self@.file_hash,
    {
        &self.file_hash
    }

    pub fn compression(&self) -> (r: Option<&str>)
        ensures
            crate::domain::substituter::url::opt_str_view(r) == self@.compression,
    {
        match &self.compression {
            Some(c) => Some(c.as_str()),
            None => None,
        }
    }
}

/// The compression part of a key can be read back from its name: it is
/// absent, or not empty and not starting with a dot.
pub open spec fn compression_readable(c: Option<Seq<char>>) -> bool {
    match c {
        Some(s) => s.len() > 0 && s[0] != '.',
        None => true,
    }
}

/// The part of a nar file name after its first `.nar` is empty or a dot and
/// a compression that does not start with a dot.
pub open spec fn suffix_readable(name: Seq<char>) -> bool {
    let at = find_seq_from(name, nar_marker(), 0)->0;
    let suffix = name.subrange(at + 4, name.len() as int);
    suffix.len() == 0 || (suffix.len() >= 2 && suffix[0] == '.' && suffix[1] != '.')
}

proof fn lemma_strip_dots(c: Seq<char>)
    requires
        c.len() == 0 || c[0] != '.',
    ensures
        strip_repeated(c, dot()) == c,
        c.len() > 0 ==> strip_repeated(seq!['.'] + c, dot()) == c,
{
    assert(!occurs_at(c, dot(), 0)) by {
        if occurs_at(c, dot(), 0) {
            assert(c.subrange(0, 1)[0] == dot()[0]);
        }
    }
    assert(c.subrange(0, c.len() as int) =~= c);
    if c.len() > 0 {
        let d = seq!['.'] + c;
        assert(d.subrange(0, 1) =~= dot());
        assert(!occurs_at(d, dot(), 1)) by {
            if occurs_at(d, dot(), 1) {
                assert(d.subrange(1, 2)[0] == dot()[0]);
            }
        }
        assert(strip_repeated_from(d, dot(), 1) == 1);
        assert(strip_repeated_from(d, dot(), 0) == 1);
        assert(d.subrange(1, d.len() as int) =~= c);
    }
}

proof fn lemma_no_marker_before(h: Seq<char>, tail: Seq<char>, j: int)
    requires
        !contains_seq(h, nar_marker()),
        0 <= j < h.len(),
    ensures
        !occurs_at(h + nar_marker() + tail, nar_marker(), j),
{
    let n = h + nar_marker() + tail;
    let m = nar_marker();
    let at = h.len() as int;
    if occurs_at(n, m, j) {
        if j + 4 <= at {
            assert(h.subrange(j, j + 4) =~= n.subrange(j, j + 4));
            assert(occurs_at(h, m, j));
        } else {
            let k = at - j;
            assert(n[at] == '.');
            assert(n.subrange(j, j + 4)[k] == n[at]);
            assert(m[1] == 'n' && m[2] == 'a' && m[3] == 'r');
            assert(1 <= k <= 3);
        }
    }
}

proof fn lemma_marker_first(h: Seq<char>, tail: Seq<char>)
    requires
        !contains_seq(h, nar_marker()),
    ensures
        find_seq_from(h + nar_marker() + tail, nar_marker(), 0) == Some(h.len() as int),
{
    let n = h + nar_marker() + tail;
    let m = nar_marker();
    let at = h.len() as int;
    assert(n.subrange(at, at + 4) =~= m);
    lemma_find_seq_from(n, m, 0);
    assert(occurs_at(n, m, at));
    assert forall|j: int| 0 <= j < at implies !occurs_at(n, m, j) by {
        lemma_no_marker_before(h, tail, j);
    }
    match find_seq_from(n, m, 0) {
        Some(i) => {
            if i < at {
                assert(!occurs_at(n, m, i));
            }
            if i > at {
                assert(!occurs_at(n, m, at));
            }
        },
        None => {
            assert(!occurs_at(n, m, at));
        },
    }
}

/// The name of a key, read back, gives the key again, where the hash holds
/// no `.nar` and the compression is readable.
pub proof fn law_key_name_round_trip(k: NarFileKeyView)
    requires
        key_wf(k),
        !contains_seq(k.file_hash, nar_marker()),
        compression_readable(k.compression),
    ensures
        key_of_name(name_of_key(k)) == k,
{
    let h = k.file_hash;
    let m = nar_marker();
    let at = h.len() as int;
    match k.compression {
        Some(c) => {
            let tail = dot() + c;
            lemma_marker_first(h, tail);
            let n = h + m + tail;
            assert(name_of_key(k) =~= n);
            assert(n.subrange(0, at) =~= h);
            assert(n.subrange(at + 4, n.len() as int) =~= seq!['.'] + c);
            lemma_strip_dots(c);
        },
        None => {
            let tail = Seq::<char>::empty();
            lemma_marker_first(h, tail);
            let n = h + m + tail;
            assert(name_of_key(k) =~= n);
            assert(n.subrange(0, at) =~= h);
            assert(n.subrange(at + 4, n.len() as int) =~= tail);
            lemma_strip_dots(tail);
        },
    }
}

/// The key of a valid nar file name, named again, gives the name back, where
/// the part after its first `.nar` is readable.
pub proof fn law_name_key_round_trip(name: Seq<char>)
    requires
        valid_nar_file_name(name),
        suffix_readable(name),
    ensures
        name_of_key(key_of_name(name)) == name,
{
    let m = nar_marker();
    lemma_extension_holds_marker(name);
    crate::text::lemma_contains_iff_find(name, m);
    lemma_find_seq_from(name, m, 0);
    let at = find_seq_from(name, m, 0)->0;
    let suffix = name.subrange(at + 4, name.len() as int);
    let h = name.subrange(0, at);
    assert(name.subrange(at, at + 4) == m);
    if suffix.len() == 0 {
        lemma_strip_dots(suffix);
        assert(name =~= h + m);
    } else {
        let c = suffix.subrange(1, suffix.len() as int);
        assert(suffix =~= seq!['.'] + c);
        lemma_strip_dots(c);
        assert(name =~= h + m + dot() + c);
    }
}

} // verus!
