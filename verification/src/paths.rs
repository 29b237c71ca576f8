use vstd::prelude::*;
use vstd::string::*;

use crate::chars::eq_ignore_ascii_case;
use crate::chars::str_eq_ignore_ascii_case;
use crate::tracker::FileUtil;

verus! {

/// `p` with every trailing `/` removed.
pub open spec fn strip_trailing_slashes(p: Seq<char>) -> Seq<char>
    decreases p.len(),
{
    if p.len() > 0 && p.last() == '/' {
        strip_trailing_slashes(p.drop_last())
    } else {
        p
    }
}

/// Whether `p` ends in a `.` segment that follows a separator, as `a/.`
/// does and `.` and `a.` do not.
pub open spec fn ends_with_dot_segment(p: Seq<char>) -> bool {
    p.len() >= 2 && p.last() == '.' && p[p.len() - 2] == '/'
}

/// `p` with every trailing `/` and every trailing `.` segment removed:
/// `a/.` and `a/` name what `a` names. A lone leading `.` is kept.
pub open spec fn strip_trailing_dot_segments(p: Seq<char>) -> Seq<char>
    decreases p.len(),
{
    if p.len() > 0 && p.last() == '/' {
        strip_trailing_dot_segments(p.drop_last())
    } else if ends_with_dot_segment(p) {
        strip_trailing_dot_segments(p.drop_last())
    } else {
        p
    }
}

/// The suffix of `p` after the last occurrence of `sep`, or all of `p` if
/// `sep` does not occur.
pub open spec fn suffix_after_last(p: Seq<char>, sep: char) -> Seq<char>
    decreases p.len(),
{
    if p.len() == 0 {
        p
    } else if p.last() == sep {
        Seq::empty()
    } else {
        suffix_after_last(p.drop_last(), sep).push(p.last())
    }
}

/// The final segment of a path: what remains after the last `/` once
/// trailing slashes and trailing `.` segments are dropped. A root, an
/// empty path, and the relative segments `.` and `..` have no file name.
pub open spec fn spec_file_name(p: Seq<char>) -> Option<Seq<char>> {
    let q = strip_trailing_dot_segments(p);
    let nm = suffix_after_last(q, '/');
    if nm.len() == 0 || nm == seq!['.'] || nm == seq!['.', '.'] {
        None
    } else {
        Some(nm)
    }
}

/// The path with its final segment (and the slashes and trailing `.`
/// segments around it) removed: the parent of `/a/b/c.txt` is `/a/b`, the
/// parent of `/a` is `/`, the parent of a bare segment is the empty path,
/// and a root or empty path has no parent.
pub open spec fn spec_directory(p: Seq<char>) -> Option<Seq<char>> {
    let q = strip_trailing_dot_segments(p);
    if q.len() == 0 {
        None
    } else {
        let nm = suffix_after_last(q, '/');
        let prefix = q.take(q.len() - nm.len());
        let d = strip_trailing_slashes(prefix);
        if d.len() == 0 && prefix.len() > 0 {
            Some(seq!['/'])
        } else {
            Some(d)
        }
    }
}

/// The extension of a path: the suffix of its file name after the last `.`,
/// or `None` if the file name has no `.`, or only a leading one.
pub open spec fn spec_extension(p: Seq<char>) -> Option<Seq<char>> {
    match spec_file_name(p) {
        None => None,
        Some(nm) => {
            let ext = suffix_after_last(nm, '.');
            if ext.len() == nm.len() {
                None
            } else if nm.len() - ext.len() == 1 {
                None
            } else {
                Some(ext)
            }
        },
    }
}

/// Joining a relative path onto a base: an absolute `rel` replaces `base`,
/// otherwise the two are concatenated with a single `/` between them.
pub open spec fn spec_join(base: Seq<char>, rel: Seq<char>) -> Seq<char> {
    if rel.len() > 0 && rel[0] == '/' {
        rel
    } else if base.len() == 0 {
        rel
    } else if base.last() == '/' {
        base + rel
    } else {
        base + seq!['/'] + rel
    }
}

/// If everything at or after `start` differs from `sep`, and `start` sits
/// just after a `sep` (or at the front), then the suffix after the last
/// `sep` is exactly `q[start..]`.
proof fn lemma_suffix_after_last(q: Seq<char>, sep: char, start: int)
    requires
        0 <= start <= q.len(),
        forall|i: int| start <= i < q.len() ==> q[i] != sep,
        start == 0 || q[start - 1] == sep,
    ensures
        suffix_after_last(q, sep) == q.subrange(start, q.len() as int),
    decreases q.len(),
{
    if start == q.len() {
        if start == 0 {
            assert(suffix_after_last(q, sep) =~= q.subrange(0, 0));
        } else {
            assert(q.last() == sep);
            assert(suffix_after_last(q, sep) =~= q.subrange(start, q.len() as int));
        }
    } else {
        assert(q.last() != sep);
        let q2 = q.drop_last();
        lemma_suffix_after_last(q2, sep, start);
        assert(q2.subrange(start, q2.len() as int).push(q.last()) =~= q.subrange(
            start,
            q.len() as int,
        ));
    }
}

impl FileUtil {
    /// Wraps a file name as a path value; the name is taken as it is.
    pub fn encode_name(file_name: &str) -> (r: String)
        ensures
            r@ == file_name@,
    {
        file_name.to_owned()
    }

    /// The last segment of `path`, or `None` if the path has no final
    /// component (it is empty, a root, `.`, or `..`).
    pub fn file_name(path: &str) -> (r: Option<String>)
        ensures
            r matches Some(s) ==> spec_file_name(path@) == Some(s@),
            r is None ==> spec_file_name(path@) is None,
    {
        let n = path.unicode_len();
        proof {
            assert(path@.take(n as int) =~= path@);
        }
        let end = strip_dots_end(path, n);
        if end == 0 {
            return None;
        }
        let start = segment_start(path, end);
        proof {
            lemma_suffix_after_last(path@.take(end as int), '/', start as int);
            assert(path@.take(end as int).subrange(start as int, end as int) =~= path@.subrange(
                start as int,
                end as int,
            ));
        }
        let name = path.substring_char(start, end);
        let nlen = end - start;
        if nlen == 1 && name.get_char(0) == '.' {
            proof {
                assert(name@ =~= seq!['.']);
            }
            return None;
        }
        if nlen == 2 && name.get_char(0) == '.' && name.get_char(1) == '.' {
            proof {
                assert(name@ =~= seq!['.', '.']);
            }
            return None;
        }
        proof {
            if name@ == seq!['.'] {
                assert(name@[0] == '.');
                assert(false);
            }
            if name@ == seq!['.', '.'] {
                assert(name@[0] == '.' && name@[1] == '.');
                assert(false);
            }
        }
        Some(name.to_owned())
    }

    /// The path with its final segment removed, or `None` if the path has no
    /// parent (it is empty or a root).
    pub fn directory(path: &str) -> (r: Option<String>)
        ensures
            r matches Some(s) ==> spec_directory(path@) == Some(s@),
            r is None ==> spec_directory(path@) is None,
    {
        let n = path.unicode_len();
        proof {
            assert(path@.take(n as int) =~= path@);
        }
        let end = strip_dots_end(path, n);
        if end == 0 {
            return None;
        }
        let start = segment_start(path, end);
        proof {
            lemma_suffix_after_last(path@.take(end as int), '/', start as int);
            let q = path@.take(end as int);
            assert(q.take(q.len() - suffix_after_last(q, '/').len()) =~= path@.take(start as int));
        }
        let dend = strip_end(path, start);
        if dend == 0 {
            if start > 0 {
                let root = String::from_str("/");
                proof {
                    reveal_strlit("/");
                    assert(root@ =~= seq!['/']);
                }
                return Some(root);
            }
            let empty = String::new();
            proof {
                assert(empty@ =~= strip_trailing_slashes(path@.take(0)));
            }
            return Some(empty);
        }
        let d = path.substring_char(0, dend);
        proof {
            assert(path@.take(dend as int) =~= path@.subrange(0, dend as int));
        }
        Some(d.to_owned())
    }

    /// Whether the extension of `path` matches one of `extensions`, up to
    /// ASCII case. A path without an extension matches nothing.
    pub fn file_extension(path: &str, extensions: &[&str]) -> (r: bool)
        ensures
            r == match spec_extension(path@) {
                Some(e) => exists|i: int|
                    0 <= i < extensions@.len() && eq_ignore_ascii_case(
                        #[trigger] extensions@[i]@,
                        e,
                    ),
                None => false,
            },
    {
        let name = match Self::file_name(path) {
            None => { return false; },
            Some(name) => name,
        };
        let nm = name.as_str();
        let nlen = nm.unicode_len();
        let k = segment_start_with(nm, nlen, '.');
        proof {
            lemma_suffix_after_last(nm@.take(nlen as int), '.', k as int);
            assert(nm@.take(nlen as int) =~= nm@);
            assert(nm@.subrange(k as int, nlen as int) =~= nm@.skip(k as int));
        }
        if k == 0 {
            // no dot at all: the suffix after the last dot is the whole name
            return false;
        }
        if k == 1 {
            // the only dot is the leading character
            return false;
        }
        let ext = nm.substring_char(k, nlen);
        let mut j: usize = 0;
        while j < extensions.len()
            invariant
                j <= extensions@.len(),
                spec_extension(path@) == Some(ext@),
                forall|i: int|
                    0 <= i < j ==> !eq_ignore_ascii_case(#[trigger] extensions@[i]@, ext@),
            decreases extensions@.len() - j,
        {
            if str_eq_ignore_ascii_case(extensions[j], ext) {
                return true;
            }
            j += 1;
        }
        false
    }

    /// Joins `relative_path` onto `dir`: an absolute `relative_path`
    /// replaces `dir`, otherwise the two are joined with a single `/`.
    /// Nothing is checked against the disk.
    pub fn path(dir: &str, relative_path: &str) -> (r: String)
        ensures
            r@ == spec_join(dir@, relative_path@),
    {
        let rn = relative_path.unicode_len();
        if rn > 0 && relative_path.get_char(0) == '/' {
            return relative_path.to_owned();
        }
        let dn = dir.unicode_len();
        if dn == 0 {
            return relative_path.to_owned();
        }
        let mut s = dir.to_owned();
        if dir.get_char(dn - 1) != '/' {
            s.append("/");
            proof {
                reveal_strlit("/");
                assert(s@ =~= dir@ + seq!['/']);
            }
        }
        s.append(relative_path);
        s
    }
}

/// The `end` with `path[..end]` equal to `path[..upto]` stripped of its
/// trailing slashes and trailing `.` segments.
fn strip_dots_end(path: &str, upto: usize) -> (end: usize)
    requires
        upto <= path@.len(),
    ensures
        end <= upto,
        strip_trailing_dot_segments(path@.take(upto as int)) == path@.take(end as int),
        end == 0 || path@[end - 1] != '/',
{
    let mut end = upto;
    while end > 0 && (path.get_char(end - 1) == '/' || (path.get_char(end - 1) == '.' && end >= 2
        && path.get_char(end - 2) == '/'))
        invariant
            end <= upto,
            upto <= path@.len(),
            strip_trailing_dot_segments(path@.take(upto as int)) == strip_trailing_dot_segments(
                path@.take(end as int),
            ),
        decreases end,
    {
        proof {
            assert(path@.take(end as int).drop_last() =~= path@.take(end as int - 1));
        }
        end = end - 1;
    }
    end
}

/// The largest `end <= upto` such that `path[end - 1]` is not a `/`; walking
/// back over trailing slashes.
fn strip_end(path: &str, upto: usize) -> (end: usize)
    requires
        upto <= path@.len(),
    ensures
        end <= upto,
        strip_trailing_slashes(path@.take(upto as int)) == path@.take(end as int),
        end == 0 || path@[end - 1] != '/',
{
    let mut end = upto;
    while end > 0 && path.get_char(end - 1) == '/'
        invariant
            end <= upto,
            upto <= path@.len(),
            strip_trailing_slashes(path@.take(upto as int)) == strip_trailing_slashes(
                path@.take(end as int),
            ),
        decreases end,
    {
        proof {
            assert(path@.take(end as int).last() == '/');
            assert(path@.take(end as int).drop_last() =~= path@.take(end as int - 1));
        }
        end = end - 1;
    }
    proof {
        if end > 0 {
            assert(path@.take(end as int).last() != '/');
        }
    }
    end
}

/// The start of the final `/`-separated segment of `path[..end]`.
fn segment_start(path: &str, end: usize) -> (start: usize)
    requires
        end <= path@.len(),
    ensures
        start <= end,
        forall|i: int| start <= i < end ==> path@[i] != '/',
        start == 0 || path@[start - 1] == '/',
{
    segment_start_with(path, end, '/')
}

/// The start of the final `sep`-separated segment of `path[..end]`.
fn segment_start_with(path: &str, end: usize, sep: char) -> (start: usize)
    requires
        end <= path@.len(),
    ensures
        start <= end,
        forall|i: int| start <= i < end ==> path@[i] != sep,
        start == 0 || path@[start - 1] == sep,
{
    let mut start = end;
    while start > 0 && path.get_char(start - 1) != sep
        invariant
            start <= end,
            end <= path@.len(),
            forall|i: int| start <= i < end ==> path@[i] != sep,
        decreases start,
    {
        start = start - 1;
    }
    start
}

} // verus!
