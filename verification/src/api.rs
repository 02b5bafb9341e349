//! What the HTTP interface computes: the body of the cache info, and the
//! plain shapes of its queries and answers.
use vstd::prelude::*;

use crate::application::error::{AppError, AppErrorKind};
use crate::domain::nar_file::service::NarStreamHeaders;
use crate::domain::nar_info::nar_file_name::{nar_file_name_check, NarFileName};
use crate::domain::nar_info::store_path_hash::{narinfo_suffix, store_path_hash_check, StorePathHash};
use crate::domain::substituter::priority::Priority;
use crate::domain::substituter::substituter_meta::SubstituterMeta;
use crate::text::{chars_of, eq_exec, slice_vec, string_of};

verus! {

/// The query of a cache info request: a priority to announce in place of
/// the configured one.
#[derive(Debug, Clone, Copy, PartialEq, Eq, Hash)]
pub struct NixCacheInfoQuery {
    pub priority: Option<u32>,
}

/// What the proxy announces of itself as a binary cache.
#[derive(Debug, Clone, PartialEq, Eq, Hash)]
pub struct CacheInfo {
    pub store_dir: String,
    pub want_mass_query: bool,
    pub priority: Priority,
}

/// The answer listing the substituters currently available.
#[derive(Debug)]
pub struct AvailableSubstitutersResponse {
    pub substituters: Vec<SubstituterMeta>,
}

/// The decimal digit `d`.
pub open spec fn digit(d: nat) -> char {
    if d == 0 {
        '0'
    } else if d == 1 {
        '1'
    } else if d == 2 {
        '2'
    } else if d == 3 {
        '3'
    } else if d == 4 {
        '4'
    } else if d == 5 {
        '5'
    } else if d == 6 {
        '6'
    } else if d == 7 {
        '7'
    } else if d == 8 {
        '8'
    } else {
        '9'
    }
}

/// `n` written in decimal, without leading zeros.
pub open spec fn decimal(n: nat) -> Seq<char>
    decreases n,
{
    if n < 10 {
        seq![digit(n)]
    } else {
        decimal(n / 10).push(digit(n % 10))
    }
}

/// The number that a text of decimal digits writes, each character read
/// by its code less that of `0`.
pub open spec fn decimal_value(s: Seq<char>) -> int
    decreases s.len(),
{
    if s.len() == 0 {
        0
    } else {
        decimal_value(s.drop_last()) * 10 + (s.last() as u32 - 48)
    }
}

/// The digit `d` is the character whose code is that of `0` plus `d`.
pub proof fn law_digit_code(d: nat)
    requires
        d < 10,
    ensures
        digit(d) as u32 == 48 + d,
{
}

/// `n` in decimal is made of the ASCII digits (codes 48 to 57), has no
/// leading zero, and reads back as `n`.
pub proof fn law_decimal_reads_back(n: nat)
    ensures
        decimal(n).len() > 0,
        forall|i: int| 0 <= i < decimal(n).len() ==> 48 <= #[trigger] (decimal(n)[i] as u32) <= 57,
        n > 0 ==> decimal(n)[0] as u32 != 48,
        decimal_value(decimal(n)) == n,
    decreases n,
{
    if n < 10 {
        law_digit_code(n);
        let s = decimal(n);
        assert(s.drop_last() =~= Seq::<char>::empty());
        assert(decimal_value(Seq::<char>::empty()) == 0);
        assert(s.last() == digit(n));
        assert(decimal_value(s) == decimal_value(s.drop_last()) * 10 + (s.last() as u32 - 48));
    } else {
        let q = n / 10;
        let r = n % 10;
        law_decimal_reads_back(q);
        law_digit_code(r);
        let s = decimal(n);
        assert(s == decimal(q).push(digit(r)));
        assert(s.drop_last() =~= decimal(q));
        assert(s[0] == decimal(q)[0]);
        assert forall|i: int| 0 <= i < s.len() implies 48 <= #[trigger] (s[i] as u32) <= 57 by {
            if i < decimal(q).len() {
                assert(s[i] == decimal(q)[i]);
            }
        }
        assert(s.last() == digit(r));
        assert(decimal_value(s) == decimal_value(s.drop_last()) * 10 + (s.last() as u32 - 48));
        assert(n == q * 10 + r);
    }
}

fn digit_char(d: u64) -> (r: char)
    requires
        d < 10,
    ensures
        r == digit(d as nat),
{
    if d == 0 {
        '0'
    } else if d == 1 {
        '1'
    } else if d == 2 {
        '2'
    } else if d == 3 {
        '3'
    } else if d == 4 {
        '4'
    } else if d == 5 {
        '5'
    } else if d == 6 {
        '6'
    } else if d == 7 {
        '7'
    } else if d == 8 {
        '8'
    } else {
        '9'
    }
}

/// Appends `n` in decimal to `out`.
fn push_decimal(n: u64, out: &mut Vec<char>)
    ensures
        final(out)@ == old(out)@ + decimal(n as nat),
    decreases n,
{
    if n >= 10 {
        push_decimal(n / 10, out);
    }
    out.push(digit_char(n % 10));
    proof {
        assert(final(out)@ =~= old(out)@ + decimal(n as nat)) by {
            if n >= 10 {
                assert(decimal(n as nat) == decimal((n / 10) as nat).push(digit((n % 10) as nat)));
            }
        }
    }
}

/// The body of the cache info: the store directory, whether mass queries
/// are wanted, and the priority.
pub open spec fn cache_info_body_spec(store_dir: Seq<char>, want_mass_query: bool, priority: u32) -> Seq<char> {
    "StoreDir: "@ + store_dir + "\nWantMassQuery: "@ + (if want_mass_query {
        "1"@
    } else {
        "0"@
    }) + "\nPriority: "@ + decimal(priority as nat) + "\n"@
}

/// The priority a cache info request announces: the one it asks for, else
/// the configured one.
pub fn announced_priority(query: &NixCacheInfoQuery, configured: Priority) -> (r: Priority)
    ensures
        r.value_spec() == match query.priority {
            Some(p) => p,
            None => configured.value_spec(),
        },
{
    match query.priority {
        Some(p) => Priority::new(p),
        None => configured,
    }
}

/// The body of the cache info for `cache_info` and a request's `query`.
pub fn nix_cache_info_body(cache_info: &CacheInfo, query: &NixCacheInfoQuery) -> (r: String)
    ensures
        r@ == cache_info_body_spec(
            cache_info.store_dir@,
            cache_info.want_mass_query,
            match query.priority {
                Some(p) => p,
                None => cache_info.priority.value_spec(),
            },
        ),
{
    let priority = announced_priority(query, cache_info.priority).value();
    let mut body = String::from_str("StoreDir: ");
    body.append(cache_info.store_dir.as_str());
    body.append("\nWantMassQuery: ");
    if cache_info.want_mass_query {
        body.append("1");
    } else {
        body.append("0");
    }
    body.append("\nPriority: ");
    let mut digits: Vec<char> = Vec::new();
    push_decimal(priority as u64, &mut digits);
    let digits = string_of(&digits);
    body.append(digits.as_str());
    body.append("\n");
    proof {
        assert(digits@ =~= decimal(priority as nat));
    }
    body
}

/// `n` in decimal, as a string.
fn decimal_string(n: u64) -> (r: String)
    ensures
        r@ == decimal(n as nat),
{
    let mut digits: Vec<char> = Vec::new();
    push_decimal(n, &mut digits);
    assert(digits@ =~= decimal(n as nat));
    string_of(&digits)
}

/// `s` ends with `.narinfo`.
pub open spec fn names_narinfo(s: Seq<char>) -> bool {
    s.len() >= narinfo_suffix().len() && s.subrange(
        s.len() - narinfo_suffix().len(),
        s.len() as int,
    ) == narinfo_suffix()
}

/// The store path hash that a narinfo request's file name asks for: the
/// name without its `.narinfo` suffix. A name without that suffix, or whose
/// rest is not a store path hash, is an input error.
pub fn parse_nar_info_path(filename: &str) -> (r: Result<StorePathHash, AppError>)
    ensures
        ({
            let s = filename@;
            let h = s.subrange(0, s.len() - narinfo_suffix().len());
            if names_narinfo(s) && store_path_hash_check(h) is Ok {
                r matches Ok(x) && x@ == h
            } else {
                r matches Err(e) && e.kind_spec() == AppErrorKind::Input
            }
        }),
{
    let v = chars_of(filename);
    let suffix = vec!['.', 'n', 'a', 'r', 'i', 'n', 'f', 'o'];
    assert(suffix@ =~= narinfo_suffix());
    if v.len() < suffix.len() {
        return Err(AppError::message(AppErrorKind::Input, String::from_str("missing nar info file")));
    }
    let cut = v.len() - suffix.len();
    let tail = slice_vec(&v, cut, v.len());
    let same = eq_exec(&tail, &suffix);
    if !same {
        return Err(AppError::message(AppErrorKind::Input, String::from_str("missing nar info file")));
    }
    let hash = string_of(&slice_vec(&v, 0, cut));
    match StorePathHash::new(hash) {
        Ok(h) => Ok(h),
        Err(e) => Err(AppError::message(AppErrorKind::Input, e.message())),
    }
}

/// The nar file that a nar request's path names; a path that does not name
/// one is an input error.
pub fn parse_nar_path(path: String) -> (r: Result<NarFileName, AppError>)
    ensures
        match nar_file_name_check(path@) {
            Ok(()) => r matches Ok(n) && n@ == path@,
            Err(_) => r matches Err(e) && e.kind_spec() == AppErrorKind::Input,
        },
{
    match NarFileName::new(path) {
        Ok(n) => Ok(n),
        Err(e) => Err(AppError::message(AppErrorKind::Input, e.message())),
    }
}

pub open spec fn opt_header(name: Seq<char>, value: Option<Seq<char>>) -> Seq<(Seq<char>, Seq<char>)> {
    match value {
        Some(v) => seq![(name, v)],
        None => seq![],
    }
}

pub open spec fn opt_string_view(o: Option<String>) -> Option<Seq<char>> {
    match o {
        Some(s) => Some(s@),
        None => None,
    }
}

/// The headers of the response that streams a nar file: its length and
/// encoding where known, and its type, `application/x-nix-nar` where not
/// known.
pub open spec fn nar_response_headers_spec(h: NarStreamHeaders) -> Seq<(Seq<char>, Seq<char>)> {
    opt_header(
        "content-length"@,
        match h.content_length {
            Some(n) => Some(decimal(n as nat)),
            None => None,
        },
    ) + seq![(
        "content-type"@,
        match h.content_type {
            Some(t) => t@,
            None => "application/x-nix-nar"@,
        },
    )] + opt_header("content-encoding"@, opt_string_view(h.content_encoding))
}

pub open spec fn headers_view(v: Seq<(String, String)>) -> Seq<(Seq<char>, Seq<char>)> {
    v.map_values(|p: (String, String)| (p.0@, p.1@))
}

/// The headers of the response that streams a nar file with `headers`.
pub fn nar_response_headers(headers: &NarStreamHeaders) -> (r: Vec<(String, String)>)
    ensures
        headers_view(r@) == nar_response_headers_spec(*headers),
{
    let mut r: Vec<(String, String)> = Vec::new();
    match headers.content_length {
        Some(n) => r.push((String::from_str("content-length"), decimal_string(n))),
        None => {},
    }
    let ghost first = headers_view(r@);
    let content_type = match &headers.content_type {
        Some(t) => t.clone(),
        None => String::from_str("application/x-nix-nar"),
    };
    r.push((String::from_str("content-type"), content_type));
    let ghost second = headers_view(r@);
    match &headers.content_encoding {
        Some(e) => r.push((String::from_str("content-encoding"), e.clone())),
        None => {},
    }
    proof {
        let h = *headers;
        assert(first =~= opt_header(
            "content-length"@,
            match h.content_length {
                Some(n) => Some(decimal(n as nat)),
                None => None,
            },
        ));
        assert(headers_view(r@) =~= nar_response_headers_spec(h));
    }
    r
}

} // verus!
