//! A narinfo together with the nar file it names, as the proxy keeps and
//! serves it, with its URL field rewritten where needed.
use vstd::prelude::*;

use crate::domain::nar_info::nar_file_name::{
    nar_file_name_check, valid_nar_file_name, NarFileName, TryNewNarFileNameError,
};
use crate::domain::nar_info::narinfo_text::{absolute_source, looks_absolute_exec};
use crate::domain::nar_info::upstream_nar_info_data::{copy_opt_url, opt_url_view};
use crate::domain::substituter::url::{as_dir_spec, join_spec, Url, UrlView};
use crate::text::{
    after_last, after_last_exec, before_first, before_first_exec, chars_of, copy_string,
    has_char, law_raw_url_of_replace, law_replace_url_twice, lines, raw_url, raw_url_exec,
    replace_url, replace_url_exec, string_of, strip_cr, trim, url_field,
};

verus! {

/// Why a text is not accepted as a narinfo.
#[derive(Debug, Clone, Copy, PartialEq, Eq)]
pub enum TryNewNarInfoData {
    NoUrlField,
    InvalidNarFileName { source: TryNewNarFileNameError },
}

pub struct NarInfoDataView {
    pub content: Seq<char>,
    pub nar_file: Seq<char>,
    pub source_url: Option<UrlView>,
}

/// The nar file name in a URL value: its last path segment, without the
/// query.
pub open spec fn file_name_of(raw: Seq<char>) -> Seq<char> {
    before_first(after_last(raw, '/'), '?')
}

/// What `NarInfoData::original` makes of a narinfo text.
pub open spec fn original_spec(content: Seq<char>) -> Result<NarInfoDataView, TryNewNarInfoData> {
    match raw_url(content) {
        None => Err(TryNewNarInfoData::NoUrlField),
        Some(raw) => match nar_file_name_check(file_name_of(raw)) {
            Err(k) => Err(TryNewNarInfoData::InvalidNarFileName { source: k }),
            Ok(()) => Ok(
                NarInfoDataView {
                    content,
                    nar_file: file_name_of(raw),
                    source_url: absolute_source(raw),
                },
            ),
        },
    }
}

/// The URL value that points a narinfo at the proxy itself: `nar/` and the
/// file name.
pub open spec fn self_url(nar_file: Seq<char>) -> Seq<char> {
    seq!['n', 'a', 'r', '/'] + nar_file
}

/// `d` with its URL field rewritten to `new_url`.
pub open spec fn rewrite_spec(d: NarInfoDataView, new_url: Seq<char>) -> NarInfoDataView {
    NarInfoDataView { content: replace_url(d.content, new_url), ..d }
}

/// What `NarInfoData::rewritten` makes of a narinfo text.
pub open spec fn rewritten_spec(content: Seq<char>) -> Result<NarInfoDataView, TryNewNarInfoData> {
    match original_spec(content) {
        Ok(d) => Ok(rewrite_spec(d, self_url(d.nar_file))),
        Err(e) => Err(e),
    }
}

/// A narinfo and the nar file it names.
#[derive(Debug, PartialEq, Eq, Hash)]
pub struct NarInfoData {
    content: String,
    nar_file: NarFileName,
    source_url: Option<Url>,
}

impl View for NarInfoData {
    type V = NarInfoDataView;

    closed spec fn view(&self) -> NarInfoDataView {
        NarInfoDataView {
            content: self.content@,
            nar_file: self.nar_file@,
            source_url: opt_url_view(self.source_url),
        }
    }
}

impl Clone for NarInfoData {
    fn clone(&self) -> (r: Self)
        ensures
            r@ == self@,
    {
        NarInfoData {
            content: copy_string(&self.content),
            nar_file: self.nar_file.clone(),
            source_url: copy_opt_url(&self.source_url),
        }
    }
}

impl NarInfoData {
    /// A narinfo as served, with its URL field pointed at the proxy.
    pub fn rewritten(original_content: String) -> (r: Result<NarInfoData, TryNewNarInfoData>)
        ensures
            match (r, rewritten_spec(original_content@)) {
                (Ok(d), Ok(v)) => d@ == v,
                (Err(e), Err(k)) => e == k,
                _ => false,
            },
    {
        match NarInfoData::original(original_content) {
            Ok(d) => Ok(d.rewrite_url_to_self()),
            Err(e) => Err(e),
        }
    }

    /// A narinfo as served, unchanged.
    pub fn original(original_content: String) -> (r: Result<NarInfoData, TryNewNarInfoData>)
        ensures
            match (r, original_spec(original_content@)) {
                (Ok(d), Ok(v)) => d@ == v,
                (Err(e), Err(k)) => e == k,
                _ => false,
            },
    {
        let (file_name, source_url) = match NarInfoData::extract_nar_file(&original_content) {
            Ok(found) => found,
            Err(e) => return Err(e),
        };
        let nar_file = match NarFileName::new(file_name) {
            Ok(n) => n,
            Err(source) => return Err(TryNewNarInfoData::InvalidNarFileName { source }),
        };
        Ok(NarInfoData { content: original_content, nar_file, source_url })
    }

    fn extract_nar_file(original_content: &String) -> (r: Result<(String, Option<Url>), TryNewNarInfoData>)
        ensures
            match (r, raw_url(original_content@)) {
                (Ok((name, source)), Some(raw)) => name@ == file_name_of(raw) && opt_url_view(source)
                    == absolute_source(raw),
                (Err(e), None) => e == TryNewNarInfoData::NoUrlField,
                _ => false,
            },
    {
        let text = chars_of(original_content.as_str());
        let raw = match raw_url_exec(&text) {
            Some(raw) => raw,
            None => return Err(TryNewNarInfoData::NoUrlField),
        };
        let source_url = if looks_absolute_exec(&raw) {
            match Url::new(string_of(&raw).as_str()) {
                Ok(u) => Some(u),
                Err(_) => None,
            }
        } else {
            None
        };
        let file_name = before_first_exec(&after_last_exec(&raw, '/'), '?');
        Ok((string_of(&file_name), source_url))
    }

    /// This narinfo with its URL field pointed at the proxy (`nar/<file>`).
    pub fn rewrite_url_to_self(self) -> (r: NarInfoData)
        ensures
            r@ == rewrite_spec(self@, self_url(self@.nar_file)),
    {
        let mut new_url = vec!['n', 'a', 'r', '/'];
        crate::text::append_vec(&mut new_url, &chars_of(self.nar_file.value()));
        assert(new_url@ =~= self_url(self@.nar_file));
        self.rewrite_url_impl(&new_url)
    }

    /// This narinfo with its URL field pointed at the nar file under
    /// `storage_url`, which becomes its source URL.
    pub fn set_source_and_rewrite_url(self, storage_url: &Url) -> (r: NarInfoData)
        requires
            join_spec(as_dir_spec(storage_url@), self@.nar_file) is Some,
        ensures
            ({
                let u = join_spec(as_dir_spec(storage_url@), self@.nar_file)->0;
                r@ == NarInfoDataView { source_url: Some(u), ..rewrite_spec(self@, u.value) }
            }),
    {
        let new_url = self.nar_file.with_storage_prefix(storage_url);
        let text = chars_of(new_url.value());
        let mut d = self.rewrite_url_impl(&text);
        d.source_url = Some(new_url);
        d
    }

    /// The same with a check that the storage URL can be formed; `None`
    /// where it cannot.
    pub fn try_set_source_and_rewrite_url(self, storage_url: &Url) -> (r: Option<NarInfoData>)
        ensures
            match join_spec(as_dir_spec(storage_url@), self@.nar_file) {
                Some(u) => r matches Some(d) && d@ == NarInfoDataView {
                    source_url: Some(u),
                    ..rewrite_spec(self@, u.value)
                },
                None => r is None,
            },
    {
        match self.nar_file.try_with_storage_prefix(storage_url) {
            Some(_) => Some(self.set_source_and_rewrite_url(storage_url)),
            None => None,
        }
    }

    fn rewrite_url_impl(self, new_url: &Vec<char>) -> (r: NarInfoData)
        ensures
            r@ == rewrite_spec(self@, new_url@),
    {
        let text = chars_of(self.content.as_str());
        let content = string_of(&replace_url_exec(&text, new_url));
        NarInfoData { content, ..self }
    }

    pub fn content(&self) -> (r: &String)
        ensures
            r@ == self@.content,
    {
        &self.content
    }

    pub fn nar_file(&self) -> (r: &NarFileName)
        ensures
            r@ == self@.nar_file,
    {
        &self.nar_file
    }

    pub fn source_url(&self) -> (r: Option<&Url>)
        ensures
            match (r, self@.source_url) {
                (Some(u), Some(v)) => u@ == v,
                (None, None) => true,
                _ => false,
            },
    {
        match &self.source_url {
            Some(u) => Some(u),
            None => None,
        }
    }
}

proof fn lemma_raw_url_no_newline(content: Seq<char>)
    requires
        raw_url(content) is Some,
    ensures
        !has_char(raw_url(content)->0, '\n'),
{
    crate::text::lemma_lines_have_no_newline(content, 0);
    crate::text::lemma_url_line_index(lines(content), 0);
    let ls = lines(content);
    let k = crate::text::url_line_index(ls, 0);
    let l = ls[k];
    assert(!has_char(l, '\n'));
    crate::text::lemma_strip_repeated_from(l, crate::text::url_tag(), 0);
    let st = crate::text::strip_repeated(l, crate::text::url_tag());
    crate::domain::nar_info::narinfo_text::lemma_subrange_keeps_absence(
        l,
        crate::text::strip_repeated_from(l, crate::text::url_tag(), 0),
        l.len() as int,
        '\n',
    );
    crate::text::lemma_trim_start_index(st, 0);
    let a = crate::text::trim_start_index(st, 0);
    crate::text::lemma_trim_end_index(st, a, st.len() as int);
    crate::domain::nar_info::narinfo_text::lemma_subrange_keeps_absence(
        st,
        a,
        crate::text::trim_end_index(st, a, st.len() as int),
        '\n',
    );
}

proof fn lemma_file_name_no_newline(raw: Seq<char>)
    requires
        !has_char(raw, '\n'),
    ensures
        !has_char(file_name_of(raw), '\n'),
{
    crate::text::lemma_after_last_index(raw, '/', raw.len() as int);
    let al = after_last(raw, '/');
    crate::domain::nar_info::narinfo_text::lemma_subrange_keeps_absence(
        raw,
        crate::text::after_last_index(raw, '/', raw.len() as int),
        raw.len() as int,
        '\n',
    );
    crate::text::lemma_index_of_from(al, '?', 0);
    crate::domain::nar_info::narinfo_text::lemma_subrange_keeps_absence(
        al,
        0,
        crate::text::index_of_from(al, '?', 0),
        '\n',
    );
}

/// A narinfo read from `content` and pointed at the proxy has a URL field
/// that reads `nar/<file>`, where the file name ends in no white space.
pub proof fn law_rewritten_points_to_self(content: Seq<char>)
    requires
        original_spec(content) is Ok,
        trim(self_url(original_spec(content)->Ok_0.nar_file)) == self_url(
            original_spec(content)->Ok_0.nar_file,
        ),
    ensures
        rewritten_spec(content) is Ok,
        raw_url(rewritten_spec(content)->Ok_0.content) == Some(
            self_url(original_spec(content)->Ok_0.nar_file),
        ),
{
    let d = original_spec(content)->Ok_0;
    let raw = raw_url(content)->0;
    lemma_raw_url_no_newline(content);
    lemma_file_name_no_newline(raw);
    let x = self_url(d.nar_file);
    assert(!has_char(x, '\n')) by {
        if has_char(x, '\n') {
            let i = choose|i: int| 0 <= i < x.len() && x[i] == '\n';
            assert(x[i] == d.nar_file[i - 4]);
        }
    }
    law_raw_url_of_replace(content, x);
}

/// Pointing a narinfo at the proxy a second time changes nothing, where no
/// line of the text ends in a carriage return and the file name does not
/// end in one either.
pub proof fn law_rewrite_to_self_idempotent(content: Seq<char>)
    requires
        rewritten_spec(content) is Ok,
        forall|i: int|
            0 <= i < lines(content).len() ==> strip_cr(#[trigger] lines(content)[i])
                == lines(content)[i],
        strip_cr(url_field(self_url(rewritten_spec(content)->Ok_0.nar_file))) == url_field(
            self_url(rewritten_spec(content)->Ok_0.nar_file),
        ),
    ensures
        ({
            let d = rewritten_spec(content)->Ok_0;
            rewrite_spec(d, self_url(d.nar_file)) == d
        }),
{
    let d = original_spec(content)->Ok_0;
    let raw = raw_url(content)->0;
    lemma_raw_url_no_newline(content);
    lemma_file_name_no_newline(raw);
    let x = self_url(d.nar_file);
    assert(!has_char(x, '\n')) by {
        if has_char(x, '\n') {
            let i = choose|i: int| 0 <= i < x.len() && x[i] == '\n';
            assert(x[i] == d.nar_file[i - 4]);
        }
    }
    law_replace_url_twice(content, x);
}

} // verus!
