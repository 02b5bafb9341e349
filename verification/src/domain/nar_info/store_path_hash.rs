//! The hash part of a Nix store path, which names a narinfo.
use vstd::prelude::*;

use crate::domain::substituter::substituter_meta::SubstituterMeta;
use crate::domain::substituter::url::{as_dir_spec, join_spec, Url};
use crate::text::{chars_of, string_of};

verus! {

/// A lower-case ASCII letter or an ASCII digit.
pub open spec fn is_hash_char(c: char) -> bool {
    ('a' <= c && c <= 'z') || ('0' <= c && c <= '9')
}

/// The number of bytes that UTF-8 takes for `c` (`char::len_utf8`).
pub open spec fn utf8_width(c: char) -> nat {
    if (c as u32) < 0x80 {
        1
    } else if (c as u32) < 0x800 {
        2
    } else if (c as u32) < 0x10000 {
        3
    } else {
        4
    }
}

/// The number of bytes of the UTF-8 encoding of `s` (`str::len`).
pub open spec fn utf8_len(s: Seq<char>) -> nat
    decreases s.len(),
{
    if s.len() == 0 {
        0
    } else {
        utf8_len(s.drop_last()) + utf8_width(s.last())
    }
}

proof fn lemma_utf8_len_grows(s: Seq<char>, i: int)
    requires
        0 <= i <= s.len(),
    ensures
        utf8_len(s.take(i)) <= utf8_len(s),
    decreases s.len() - i,
{
    if i < s.len() {
        lemma_utf8_len_grows(s, i + 1);
        assert(s.take(i + 1).drop_last() =~= s.take(i));
    } else {
        assert(s.take(i) =~= s);
    }
}

fn utf8_width_exec(c: char) -> (r: usize)
    ensures
        r == utf8_width(c),
{
    let n = c as u32;
    if n < 0x80 {
        1
    } else if n < 0x800 {
        2
    } else if n < 0x10000 {
        3
    } else {
        4
    }
}

/// Whether the UTF-8 encoding of `v` is `n` bytes long.
fn utf8_len_is(v: &Vec<char>, n: usize) -> (r: bool)
    ensures
        r == (utf8_len(v@) == n),
{
    let mut total: usize = 0;
    let mut i: usize = 0;
    while i < v.len()
        invariant
            i <= v.len(),
            total == utf8_len(v@.take(i as int)),
            total <= n,
        decreases v.len() - i,
    {
        assert(v@.take(i + 1).drop_last() =~= v@.take(i as int));
        let w = utf8_width_exec(v[i]);
        if w > n - total {
            proof {
                lemma_utf8_len_grows(v@, i + 1);
            }
            return false;
        }
        total = total + w;
        i = i + 1;
    }
    assert(v@.take(i as int) =~= v@);
    total == n
}

/// Why a text is not a store path hash.
#[derive(Debug, Clone, Copy, PartialEq, Eq)]
pub enum TryNewStorePathHashError {
    InvalidLength,
    InvalidCharacter,
}

impl TryNewStorePathHashError {
    /// The message of the error.
    pub fn message(&self) -> (r: String)
        ensures
            r@ == match self {
                TryNewStorePathHashError::InvalidLength => "store path hash must be exactly 32 characters"@,
                TryNewStorePathHashError::InvalidCharacter => "store path hash must contain only lowercase letters and digits"@,
            },
    {
        match self {
            TryNewStorePathHashError::InvalidLength => String::from_str("store path hash must be exactly 32 characters"),
            TryNewStorePathHashError::InvalidCharacter => String::from_str("store path hash must contain only lowercase letters and digits"),
        }
    }
}

/// What `StorePathHash::new` gives for a text: its UTF-8 encoding must be 32
/// bytes long, and every character a lower-case letter or a digit.
pub open spec fn store_path_hash_check(s: Seq<char>) -> Result<(), TryNewStorePathHashError> {
    if utf8_len(s) != 32 {
        Err(TryNewStorePathHashError::InvalidLength)
    } else if !(forall|i: int| 0 <= i < s.len() ==> is_hash_char(#[trigger] s[i])) {
        Err(TryNewStorePathHashError::InvalidCharacter)
    } else {
        Ok(())
    }
}

/// A character of a hash is exactly an ASCII digit (codes 48 to 57) or an
/// ASCII lower-case letter (codes 97 to 122).
pub proof fn law_hash_chars_are_digits_and_lower_letters(c: char)
    ensures
        is_hash_char(c) <==> ((48 <= c as u32 && c as u32 <= 57) || (97 <= c as u32 && c as u32 <= 122)),
{
}

/// A text of ASCII characters takes as many bytes as it has characters.
proof fn lemma_ascii_utf8_len(s: Seq<char>)
    requires
        forall|i: int| 0 <= i < s.len() ==> (#[trigger] s[i] as u32) < 0x80,
    ensures
        utf8_len(s) == s.len(),
    decreases s.len(),
{
    if s.len() > 0 {
        assert(s.last() as u32 == s[s.len() - 1] as u32);
        let t = s.drop_last();
        assert forall|i: int| 0 <= i < t.len() implies (#[trigger] t[i] as u32) < 0x80 by {
            assert(t[i] == s[i]);
        }
        lemma_ascii_utf8_len(t);
    }
}

/// A text of 32 characters is accepted as a hash exactly when each of them
/// is an ASCII digit or lower-case letter; any other character in it is
/// refused as an invalid character.
pub proof fn law_hash_accepts_digits_and_lower_letters(s: Seq<char>)
    requires
        s.len() == 32,
    ensures
        (forall|i: int|
            0 <= i < s.len() ==> (48 <= #[trigger] (s[i] as u32) && s[i] as u32 <= 57) || (97 <= s[i] as u32
                && s[i] as u32 <= 122)) ==> store_path_hash_check(s) == Ok::<(), TryNewStorePathHashError>(()),
        (exists|i: int|
            0 <= i < s.len() && !((48 <= #[trigger] (s[i] as u32) && s[i] as u32 <= 57) || (97 <= s[i] as u32
                && s[i] as u32 <= 122))) ==> store_path_hash_check(s) != Ok::<(), TryNewStorePathHashError>(()),
{
    if forall|i: int|
        0 <= i < s.len() ==> (48 <= #[trigger] (s[i] as u32) && s[i] as u32 <= 57) || (97 <= s[i] as u32 && s[i]
            as u32 <= 122) {
        assert forall|i: int| 0 <= i < s.len() implies (#[trigger] s[i] as u32) < 0x80 by {
            assert((48 <= (s[i] as u32) && s[i] as u32 <= 57) || (97 <= s[i] as u32 && s[i] as u32 <= 122));
        }
        lemma_ascii_utf8_len(s);
        assert forall|i: int| 0 <= i < s.len() implies is_hash_char(#[trigger] s[i]) by {
            law_hash_chars_are_digits_and_lower_letters(s[i]);
        }
    } else {
        let i = choose|i: int|
            0 <= i < s.len() && !((48 <= #[trigger] (s[i] as u32) && s[i] as u32 <= 57) || (97 <= s[i] as u32
                && s[i] as u32 <= 122));
        law_hash_chars_are_digits_and_lower_letters(s[i]);
    }
}

/// The suffix of a narinfo file name.
pub open spec fn narinfo_suffix() -> Seq<char> {
    seq!['.', 'n', 'a', 'r', 'i', 'n', 'f', 'o']
}

/// The narinfo URL of `hash` on a substituter at `url`.
pub open spec fn narinfo_url(url: crate::domain::substituter::url::UrlView, hash: Seq<char>) -> Option<crate::domain::substituter::url::UrlView> {
    join_spec(as_dir_spec(url), hash + narinfo_suffix())
}

/// The hash part of a store path: 32 lower-case letters and digits.
#[derive(Debug, PartialEq, Eq, Hash)]
pub struct StorePathHash(String);

impl View for StorePathHash {
    type V = Seq<char>;

    closed spec fn view(&self) -> Seq<char> {
        self.0@
    }
}

impl Clone for StorePathHash {
    fn clone(&self) -> (r: Self)
        ensures
            r@ == self@,
    {
        StorePathHash(self.0.clone())
    }
}

impl StorePathHash {
    /// Accepts a store path hash.
    pub fn new(value: String) -> (r: Result<StorePathHash, TryNewStorePathHashError>)
        ensures
            match (r, store_path_hash_check(value@)) {
                (Ok(h), Ok(())) => h@ == value@,
                (Err(e), Err(k)) => e == k,
                _ => false,
            },
    {
        let v = chars_of(value.as_str());
        if !utf8_len_is(&v, 32) {
            return Err(TryNewStorePathHashError::InvalidLength);
        }
        let mut i: usize = 0;
        while i < v.len()
            invariant
                i <= v.len(),
                v@ == value@,
                utf8_len(v@) == 32,
                forall|j: int| 0 <= j < i ==> is_hash_char(#[trigger] v@[j]),
            decreases v.len() - i,
        {
            let c = v[i];
            if !(('a' <= c && c <= 'z') || ('0' <= c && c <= '9')) {
                assert(!is_hash_char(value@[i as int]));
                return Err(TryNewStorePathHashError::InvalidCharacter);
            }
            i = i + 1;
        }
        Ok(StorePathHash(value))
    }

    pub fn value(&self) -> (r: &str)
        ensures
            r@ == self@,
    {
        self.0.as_str()
    }

    /// The narinfo file name of this hash: the hash and `.narinfo`.
    fn narinfo_name(&self) -> (r: String)
        ensures
            r@ == self@ + narinfo_suffix(),
    {
        let mut name = chars_of(self.0.as_str());
        name.push('.');
        name.push('n');
        name.push('a');
        name.push('r');
        name.push('i');
        name.push('n');
        name.push('f');
        name.push('o');
        assert(name@ =~= self@ + narinfo_suffix());
        string_of(&name)
    }

    /// The URL of the narinfo of this hash on `substituter`; `None` where the
    /// `url` crate refuses the joined reference.
    pub fn try_on_substituter(&self, substituter: &SubstituterMeta) -> (r: Option<Url>)
        ensures
            match narinfo_url(substituter@.url, self@) {
                Some(v) => r matches Some(u) && u@ == v,
                None => r is None,
            },
    {
        let name = self.narinfo_name();
        match substituter.url().as_dir().join(name.as_str()) {
            Ok(_) => Some(self.on_substituter(substituter)),
            Err(_) => None,
        }
    }

    /// The URL of the narinfo of this hash on `substituter`.
    pub fn on_substituter(&self, substituter: &SubstituterMeta) -> (r: Url)
        requires
            narinfo_url(substituter@.url, self@) is Some,
        ensures
            r@ == narinfo_url(substituter@.url, self@)->0,
    {
        let name = self.narinfo_name();
        match substituter.url().as_dir().join(name.as_str()) {
            Ok(u) => u,
            Err(_) => {
                assert(false);
                substituter.url().clone()
            },
        }
    }
}

} // verus!
