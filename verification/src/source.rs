//! Tagged origins of configuration content, and the classification of
//! `extends` values into such origins.
//!
//! An extends value is classified in priority order: URL-like syntax
//! becomes a [`Source::Url`] (secure scheme required), file-like syntax
//! becomes a [`Source::File`] (a relative path resolves against the
//! parent file's directory and is rejected under a non-file parent),
//! and anything else is literal inline code.

use vstd::prelude::*;
use vstd::string::StrSliceExecFns;
use vstd::string::StringExecFns;
use crate::error::ConfigError;
use crate::strutil::ends_with_spec;
use crate::strutil::starts_with_spec;
use crate::strutil::str_contains_char;
use crate::strutil::str_ends_with;
use crate::strutil::str_starts_with;
use crate::strutil::str_tail;

verus! {

/// A tagged origin of configuration content.  Constructed once per
/// layer at resolution start and read-only afterward.
#[derive(Clone, Debug, PartialEq, Eq)]
pub enum Source {
    /// Inline literal content.
    Code { code: String },
    /// Built-in default values.
    Defaults,
    /// The environment-variable overlay.
    Env,
    /// A file path.
    File { path: String },
    /// A secure URL.
    Url { url: String },
}

/// The mathematical shape of a [`Source`]: each textual field viewed
/// as its character sequence.
pub enum SourceView {
    Code { code: Seq<char> },
    Defaults,
    Env,
    File { path: Seq<char> },
    Url { url: Seq<char> },
}

impl View for Source {
    type V = SourceView;

    open spec fn view(&self) -> SourceView {
        match self {
            Source::Code { code } => SourceView::Code { code: code@ },
            Source::Defaults => SourceView::Defaults,
            Source::Env => SourceView::Env,
            Source::File { path } => SourceView::File { path: path@ },
            Source::Url { url } => SourceView::Url { url: url@ },
        }
    }
}

/// Whether a value looks like a URL: a secure or insecure scheme, or a
/// bare `www` prefix.
pub open spec fn is_url_like_spec(value: Seq<char>) -> bool {
    starts_with_spec(value, "https://"@) || starts_with_spec(value, "http://"@)
        || starts_with_spec(value, "www"@)
}

/// Whether a value looks like a file path: an explicit `file://`
/// scheme, a path marker at the front, a path separator anywhere, or a
/// recognized configuration-file extension.
pub open spec fn is_file_like_spec(value: Seq<char>) -> bool {
    starts_with_spec(value, "file://"@) || starts_with_spec(value, "/"@) || starts_with_spec(
        value,
        "\\"@,
    ) || starts_with_spec(value, "."@) || value.contains('/') || value.contains('\\')
        || ends_with_spec(value, ".json"@) || ends_with_spec(value, ".toml"@) || ends_with_spec(
        value,
        ".yaml"@,
    ) || ends_with_spec(value, ".yml"@)
}

/// Whether a path is absolute (rooted), so that it does not resolve
/// against a parent directory.
pub open spec fn has_root_spec(path: Seq<char>) -> bool {
    starts_with_spec(path, "/"@)
}

/// The directory prefix of a path: every character up to and including
/// the last separator, or the empty sequence when the path has no
/// separator.
pub open spec fn dir_of_spec(path: Seq<char>) -> Seq<char>
    decreases path.len(),
{
    if path.len() == 0 {
        path
    } else if path[path.len() - 1] == '/' {
        path
    } else {
        dir_of_spec(path.drop_last())
    }
}

/// What constructing a URL source returns: the URL itself under the
/// secure scheme, and a rejection otherwise.
pub open spec fn url_spec(value: Seq<char>) -> Result<SourceView, ConfigError> {
    if starts_with_spec(value, "https://"@) {
        Ok(SourceView::Url { url: value })
    } else {
        Err(ConfigError::HttpsOnly)
    }
}

/// What classifying an extends value under a parent source returns,
/// in priority order: URL first, then file (with the relative-path
/// rule), then literal code.
pub open spec fn classify_spec(value: Seq<char>, parent: Option<SourceView>) -> Result<
    SourceView,
    ConfigError,
> {
    if is_url_like_spec(value) {
        url_spec(value)
    } else if is_file_like_spec(value) {
        let path = if starts_with_spec(value, "file://"@) {
            value.subrange("file://"@.len() as int, value.len() as int)
        } else {
            value
        };
        match parent {
            Option::None => Ok(SourceView::File { path }),
            Option::Some(SourceView::File { path: parent_path }) => {
                if has_root_spec(path) {
                    Ok(SourceView::File { path })
                } else {
                    Ok(SourceView::File { path: dir_of_spec(parent_path) + path })
                }
            },
            Option::Some(_) => Err(ConfigError::ExtendsFromParentFileOnly),
        }
    } else {
        Ok(SourceView::Code { code: value })
    }
}

/// The view of a source-construction result, for stating contracts.
pub open spec fn res_view(r: Result<Source, ConfigError>) -> Result<SourceView, ConfigError> {
    match r {
        Ok(s) => Ok(s@),
        Err(e) => Err(e),
    }
}

/// The view of an optional borrowed parent source.
pub open spec fn parent_view(p: Option<&Source>) -> Option<SourceView> {
    match p {
        Option::None => Option::None,
        Option::Some(s) => Option::Some(s@),
    }
}

/// Whether a value looks like a URL (secure or insecure scheme, or a
/// bare `www` prefix).
pub fn is_url_like(value: &str) -> (r: bool)
    ensures
        r == is_url_like_spec(value@),
{
    str_starts_with(value, "https://") || str_starts_with(value, "http://") || str_starts_with(
        value,
        "www",
    )
}

/// Whether a value looks like a file path.
pub fn is_file_like(value: &str) -> (r: bool)
    ensures
        r == is_file_like_spec(value@),
{
    str_starts_with(value, "file://") || str_starts_with(value, "/") || str_starts_with(
        value,
        "\\",
    ) || str_starts_with(value, ".") || str_contains_char(value, '/') || str_contains_char(
        value,
        '\\',
    ) || str_ends_with(value, ".json") || str_ends_with(value, ".toml") || str_ends_with(
        value,
        ".yaml",
    ) || str_ends_with(value, ".yml")
}

/// The directory prefix of a path, up to and including its last
/// separator.
pub fn dir_prefix(path: &str) -> (r: String)
    ensures
        r@ == dir_of_spec(path@),
{
    let n = path.unicode_len();
    let mut i: usize = n;
    proof {
        assert(path@.subrange(0, n as int) =~= path@);
    }
    while i > 0
        invariant
            0 <= i <= n,
            n == path@.len(),
            dir_of_spec(path@) == dir_of_spec(path@.subrange(0, i as int)),
        decreases i,
    {
        if path.get_char(i - 1) == '/' {
            proof {
                let cut = path@.subrange(0, i as int);
                assert(cut[cut.len() - 1] == '/');
            }
            let piece = path.substring_char(0, i);
            return piece.to_owned();
        }
        proof {
            let cut = path@.subrange(0, i as int);
            assert(cut.drop_last() =~= path@.subrange(0, i - 1));
        }
        i = i - 1;
    }
    proof {
        assert(path@.subrange(0, 0) =~= Seq::<char>::empty());
    }
    String::new()
}

impl Source {
    /// Classifies an extends value into a source, under the rules of
    /// [`classify_spec`]: URLs first (secure scheme enforced), then
    /// files (a relative path resolves against the parent file's
    /// directory, and is rejected under a non-file parent), then
    /// literal code.
    pub fn new(value: &str, parent_source: Option<&Source>) -> (r: Result<Source, ConfigError>)
        ensures
            res_view(r) == classify_spec(value@, parent_view(parent_source)),
    {
        // Extending from a URL is allowed from any parent source
        if is_url_like(value) {
            return Source::url(value);
        }
        // Extending from a file is only allowed from file parent sources
        if is_file_like(value) {
            let stripped: String = if str_starts_with(value, "file://") {
                proof {
                    reveal_strlit("file://");
                }
                str_tail(value, 7)
            } else {
                value.to_owned()
            };
            match parent_source {
                Option::None => Source::file(stripped.as_str()),
                Option::Some(Source::File { path: parent_path }) => {
                    // Not absolute, so prefix with the parent's directory
                    if str_starts_with(stripped.as_str(), "/") {
                        Source::file(stripped.as_str())
                    } else {
                        let dir = dir_prefix(parent_path.as_str());
                        let joined = dir.concat(stripped.as_str());
                        Source::file(joined.as_str())
                    }
                },
                Option::Some(_) => Err(ConfigError::ExtendsFromParentFileOnly),
            }
        } else {
            Source::code(value)
        }
    }

    /// Wraps literal inline content as a source.
    pub fn code(code: &str) -> (r: Result<Source, ConfigError>)
        ensures
            r matches Ok(s) && s@ == (SourceView::Code { code: code@ }),
    {
        Ok(Source::Code { code: code.to_owned() })
    }

    /// Wraps a file path as a source.
    pub fn file(path: &str) -> (r: Result<Source, ConfigError>)
        ensures
            r matches Ok(s) && s@ == (SourceView::File { path: path@ }),
    {
        Ok(Source::File { path: path.to_owned() })
    }

    /// Wraps a URL as a source, rejecting any scheme other than the
    /// secure one.
    pub fn url(url: &str) -> (r: Result<Source, ConfigError>)
        ensures
            res_view(r) == url_spec(url@),
    {
        if !str_starts_with(url, "https://") {
            return Err(ConfigError::HttpsOnly);
        }
        Ok(Source::Url { url: url.to_owned() })
    }

    /// The label under which this source's content is reported in
    /// diagnostics.
    pub fn label(&self) -> (r: String)
        ensures
            r@ == label_spec(self@),
    {
        match self {
            Source::Code { .. } => "code".to_owned(),
            Source::Defaults => "defaults".to_owned(),
            Source::Env => "env".to_owned(),
            Source::File { path } => path.clone(),
            Source::Url { url } => url.clone(),
        }
    }
}

/// The diagnostic label of a source: its path or URL, or the name of
/// its kind.
pub open spec fn label_spec(s: SourceView) -> Seq<char> {
    match s {
        SourceView::Code { .. } => "code"@,
        SourceView::Defaults => "defaults"@,
        SourceView::Env => "env"@,
        SourceView::File { path } => path,
        SourceView::Url { url } => url,
    }
}

/// A URL extends value under the insecure scheme fails construction,
/// whatever the parent source is.
pub proof fn lemma_insecure_url_rejected(value: Seq<char>, parent: Option<SourceView>)
    requires
        starts_with_spec(value, "http://"@),
    ensures
        classify_spec(value, parent) == Err::<SourceView, ConfigError>(ConfigError::HttpsOnly),
{
    reveal_strlit("http://");
    reveal_strlit("https://");
    let p = "http://"@;
    assert(p.len() == 7 && p[4] == ':');
    assert(p == value.subrange(0, 7));
    assert(value[4] == value.subrange(0, 7)[4]);
    let q = "https://"@;
    assert(q.len() == 8 && q[4] == 's');
    if starts_with_spec(value, q) {
        assert(q == value.subrange(0, 8));
        assert(value[4] == value.subrange(0, 8)[4]);
        assert(false);
    }
}

/// A relative file extends path resolves to the parent file's
/// directory prefix followed by the relative path; the same path under
/// a non-file parent fails with the parent-file-only error.
pub proof fn lemma_relative_extends(value: Seq<char>, parent: SourceView)
    requires
        is_file_like_spec(value),
        !is_url_like_spec(value),
        !starts_with_spec(value, "file://"@),
        !has_root_spec(value),
    ensures
        parent matches SourceView::File { path } ==> classify_spec(value, Some(parent)) == Ok::<
            SourceView,
            ConfigError,
        >(SourceView::File { path: dir_of_spec(path) + value }),
        !(parent matches SourceView::File { .. }) ==> classify_spec(value, Some(parent)) == Err::<
            SourceView,
            ConfigError,
        >(ConfigError::ExtendsFromParentFileOnly),
{
}

} // verus!
