use vstd::prelude::*;
use vstd::string::*;

use crate::errors::FsError;

verus! {

/// A stateful helper around path manipulation and temporary-file tracking.
///
/// The instance owns a FIFO list of temporary paths it has handed out and not
/// yet released for cleanup. The list only ever grows by one freshly
/// generated path at a time and shrinks from the front, so a caller that
/// drains it processes every generated path exactly once, in call order.
pub struct FileUtil {
    temp_dir: String,
    temp_files: Vec<String>,
}

/// The temporary path built under `dir` from a generated name `token`.
pub open spec fn temp_path_of(dir: Seq<char>, token: Seq<char>) -> Seq<char> {
    dir + "/tempfile_"@ + token
}

/// Relies on uuid's `Uuid::new_v4` and its `Display` impl: a fresh random
/// version-4 UUID rendered in the hyphenated form, which is always exactly
/// 36 characters. The value is random, so nothing is assumed beyond its
/// length.
#[verifier::external_body]
fn fresh_uuid_string() -> (r: String)
    ensures
        r@.len() == 36,
{
    uuid::Uuid::new_v4().to_string()
}

impl FileUtil {
    /// The paths generated by this instance and still owed cleanup, oldest
    /// first.
    pub closed spec fn pending(self) -> Seq<Seq<char>> {
        self.temp_files.deep_view()
    }

    /// The directory under which this instance generates temporary paths.
    pub closed spec fn temp_root(self) -> Seq<char> {
        self.temp_dir@
    }

    /// A fresh tracker over the given temporary directory, with nothing
    /// pending.
    pub fn new(temp_dir: String) -> (r: FileUtil)
        ensures
            r.temp_root() == temp_dir@,
            r.pending() == Seq::<Seq<char>>::empty(),
    {
        let r = FileUtil { temp_dir, temp_files: Vec::new() };
        proof {
            assert(r.pending() =~= Seq::<Seq<char>>::empty());
        }
        r
    }

    /// Reserves a unique name under the temporary directory and records it as
    /// pending cleanup. The file is not created on disk; the caller decides
    /// what, if anything, to put at the returned path.
    pub fn temp_file_name(&mut self) -> (r: Result<String, FsError>)
        ensures
            r is Ok,
            final(self).temp_root() == old(self).temp_root(),
            final(self).pending() == old(self).pending().push(r->Ok_0@),
            exists|t: Seq<char>|
                t.len() == 36 && r->Ok_0@ == temp_path_of(old(self).temp_root(), t),
    {
        let token = fresh_uuid_string();
        let mut path = self.temp_dir.clone();
        path.append("/tempfile_");
        path.append(token.as_str());
        let out = path.clone();
        self.temp_files.push(path);
        proof {
            assert(out@ == temp_path_of(old(self).temp_root(), token@));
            assert(self.pending() =~~= old(self).pending().push(out@));
        }
        Ok(out)
    }

    /// Removes and returns the oldest pending path, or `None` if nothing is
    /// pending. A caller that performs the actual removal calls this first,
    /// so each pending path is processed exactly once even if a removal
    /// fails.
    pub fn take_front_temp_file(&mut self) -> (r: Option<String>)
        ensures
            final(self).temp_root() == old(self).temp_root(),
            r is None <==> old(self).pending().len() == 0,
            r is None ==> final(self).pending() == old(self).pending(),
            r matches Some(s) ==> s@ == old(self).pending()[0] && final(self).pending()
                == old(self).pending().drop_first(),
    {
        if self.temp_files.len() == 0 {
            None
        } else {
            let s = self.temp_files.remove(0);
            proof {
                assert(self.pending() =~~= old(self).pending().drop_first());
            }
            Some(s)
        }
    }

    /// How many generated paths are still pending cleanup.
    pub fn pending_count(&self) -> (r: usize)
        ensures
            r == self.pending().len(),
    {
        self.temp_files.len()
    }
}

/// Law: under one directory, two temporary paths built from distinct
/// generated names of equal length are themselves distinct. So a run of
/// generated paths is pairwise distinct whenever the underlying generated
/// names are.
pub proof fn lemma_temp_path_distinct(dir: Seq<char>, t1: Seq<char>, t2: Seq<char>)
    requires
        t1.len() == t2.len(),
        t1 != t2,
    ensures
        temp_path_of(dir, t1) != temp_path_of(dir, t2),
{
    let pre = dir + "/tempfile_"@;
    if temp_path_of(dir, t1) == temp_path_of(dir, t2) {
        assert(temp_path_of(dir, t1).subrange(
            pre.len() as int,
            temp_path_of(dir, t1).len() as int,
        ) =~= t1);
        assert(temp_path_of(dir, t2).subrange(
            pre.len() as int,
            temp_path_of(dir, t2).len() as int,
        ) =~= t2);
        assert(t1 =~= t2);
    }
}

} // verus!
