use vstd::prelude::*;
use vstd::string::*;

use crate::errors::FsError;
use crate::tracker::FileUtil;

verus! {

/// The `file://` URI that the url crate serializes for an absolute local
/// path: `file://`, then each path component percent-encoded behind a `/`.
pub uninterp spec fn file_uri_of(p: Seq<char>) -> Seq<char>;

/// An absolute path: one that starts with the separator.
pub open spec fn is_abs_path(p: Seq<char>) -> bool {
    p.len() > 0 && p[0] == '/'
}

/// Whether `c` is an ASCII letter.
pub open spec fn is_ascii_alpha(c: char) -> bool {
    let x = c as u32;
    (65 <= x && x <= 90) || (97 <= x && x <= 122)
}

/// Position `j` of `p` starts a `.` segment: a lone dot running to the next
/// `/` or to the end.
pub open spec fn dot_segment_at(p: Seq<char>, j: int) -> bool {
    &&& j < p.len()
    &&& p[j] == '.'
    &&& (j + 1 == p.len() || p[j + 1] == '/')
}

/// Position `j` of `p` starts a `..` segment.
pub open spec fn dotdot_segment_at(p: Seq<char>, j: int) -> bool {
    &&& j + 1 < p.len()
    &&& p[j] == '.'
    &&& p[j + 1] == '.'
    &&& (j + 2 == p.len() || p[j + 2] == '/')
}

/// The first segment of `p` is exactly an ASCII letter followed by `|`,
/// as in `/c|/x`: a URI parser may read such a segment as a windows drive
/// letter written with `|` and rewrite the `|` to `:`, so these paths are
/// left outside the round-trip guarantee.
pub open spec fn piped_drive_first_segment(p: Seq<char>) -> bool {
    &&& p.len() > 2
    &&& is_ascii_alpha(p[1])
    &&& p[2] == '|'
    &&& (p.len() == 3 || p[3] == '/')
}

/// The paths whose `file://` URI parses back to the very same path:
/// absolute and already normalized, that is with no empty, `.` or `..`
/// segment (a URI parser collapses those); not ending in a letter followed
/// by `:` or `|`, which the URI-to-path conversion treats as a windows
/// drive letter and extends with a slash; and not starting with a drive
/// letter written with `|`, which a URI parser may rewrite to `:`.
pub open spec fn uri_round_trippable(p: Seq<char>) -> bool {
    &&& p.len() > 0
    &&& p[0] == '/'
    &&& (p.len() == 1 || p.last() != '/')
    &&& forall|i: int| #![trigger p[i]]
        0 <= i < p.len() - 1 ==> !(p[i] == '/' && p[i + 1] == '/')
    &&& forall|i: int| #![trigger p[i]]
        0 <= i < p.len() ==> !(p[i] == '/' && (dot_segment_at(p, i + 1) || dotdot_segment_at(
            p,
            i + 1,
        )))
    &&& !(p.len() > 2 && is_ascii_alpha(p[p.len() - 2]) && (p.last() == ':' || p.last() == '|'))
    &&& !piped_drive_first_segment(p)
}

/// Relies on url's `Url::from_file_path` and `Url`'s `Display`: an absolute
/// path (on this platform, one that starts with `/`) is serialized as its
/// `file://` URI with every path component percent-encoded, and a path that
/// is not absolute is refused.
#[verifier::external_body]
fn file_path_to_uri(path: &str) -> (r: Result<String, ()>)
    ensures
        r is Ok <==> is_abs_path(path@),
        r is Ok ==> r->Ok_0@ == file_uri_of(path@),
        r is Ok ==> r->Ok_0@.len() >= 7 && r->Ok_0@.subrange(0, 7) == "file://"@,
{
    match url::Url::from_file_path(path) {
        Ok(u) => Ok(u.to_string()),
        Err(()) => Err(()),
    }
}

/// What url's `Url::parse` followed by `Url::to_file_path` reads out of a
/// URI string: the URI's scheme, and the local absolute path its segments
/// decode to; `None` where parsing fails or no local path can be read. The
/// result is a function of the string alone.
pub uninterp spec fn uri_parse_of(uri: Seq<char>) -> Option<(Seq<char>, Seq<char>)>;

/// Relies on url's `Url::parse` and `Url::to_file_path`: parsing keeps a
/// `file` URI's percent-encoded segments (normalizing only empty, `.`,
/// `..` and piped-drive-letter segments), and `to_file_path` decodes them
/// back into a local absolute path. The wrapper hands back the parsed
/// scheme beside that path; it does not itself check the scheme. The URI
/// serialized from a round-trippable path comes back as the scheme `file`
/// and exactly that path.
#[verifier::external_body]
fn file_uri_to_path(uri: &str) -> (r: Result<(String, String), ()>)
    ensures
        r is Ok <==> uri_parse_of(uri@) is Some,
        r is Ok ==> Some(((r->Ok_0).0@, (r->Ok_0).1@)) == uri_parse_of(uri@),
        forall|p: Seq<char>|
            #[trigger] uri_round_trippable(p) && uri@ == file_uri_of(p) ==> r is Ok && (
            r->Ok_0).0@ == "file"@ && (r->Ok_0).1@ == p,
{
    match url::Url::parse(uri) {
        Ok(u) => {
            let scheme = u.scheme().to_owned();
            match u.to_file_path() {
                Ok(pb) => Ok((scheme, pb.to_string_lossy().into_owned())),
                Err(()) => Err(()),
            }
        },
        Err(_) => Err(()),
    }
}

impl FileUtil {
    /// Converts an absolute local path into a percent-encoded `file://` URI.
    /// A path that is not absolute is refused with `InvalidInput` instead of
    /// aborting.
    pub fn to_uri_path(path: &str) -> (r: Result<String, FsError>)
        ensures
            r is Ok <==> is_abs_path(path@),
            r is Ok ==> r->Ok_0@ == file_uri_of(path@),
            r is Ok ==> r->Ok_0@.len() >= 7 && r->Ok_0@.subrange(0, 7) == "file://"@,
            r is Err ==> r->Err_0 == FsError::InvalidInput,
    {
        match file_path_to_uri(path) {
            Ok(s) => Ok(s),
            Err(()) => Err(FsError::InvalidInput),
        }
    }

    /// Parses a URI string, verifies that it uses the `file` scheme, and
    /// returns the local path it denotes; `InvalidInput` for a string that
    /// is not a well-formed URI, carries another scheme, or does not map to
    /// a local path. Law: the URI produced by `to_uri_path` from a
    /// round-trippable path always comes back as exactly that path.
    pub fn from_uri_path(uri: &str) -> (r: Result<String, FsError>)
        ensures
            r is Ok <==> (uri_parse_of(uri@) matches Some(sp) && sp.0 == "file"@),
            r is Ok ==> Some(("file"@, r->Ok_0@)) == uri_parse_of(uri@),
            forall|p: Seq<char>|
                #[trigger] uri_round_trippable(p) && uri@ == file_uri_of(p) ==> r is Ok
                    && r->Ok_0@ == p,
            r is Err ==> r->Err_0 == FsError::InvalidInput,
    {
        match file_uri_to_path(uri) {
            Ok((scheme, path)) => {
                let file_scheme = String::from_str("file");
                if scheme == file_scheme {
                    Ok(path)
                } else {
                    Err(FsError::InvalidInput)
                }
            },
            Err(()) => Err(FsError::InvalidInput),
        }
    }
}

} // verus!
