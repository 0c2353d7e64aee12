//! Archive planning: turning a traversal of the conversion's output
//! directory into the exact list of entries the downloadable archive must
//! hold — every file and directory under the root, by its relative path,
//! in traversal order, and never the root itself.

use vstd::prelude::*;
use vstd::string::StrSliceExecFns;
use crate::error::ServiceError;

verus! {

/// Relative path of `full` under the directory `base`, where `/`
/// separates path segments: the remainder after `base/`, or the empty
/// path when `full` is `base` itself.  Nothing when `full` does not lie
/// under `base`.
pub open spec fn spec_strip_path_prefix(base: Seq<char>, full: Seq<char>) -> Option<Seq<char>> {
    if full == base {
        Some(Seq::empty())
    } else if full.len() > base.len() + 1 && full.take(base.len() as int) == base && full[
        base.len() as int
    ] == '/' {
        Some(full.skip(base.len() + 1 as int))
    } else {
        None
    }
}

pub fn strip_path_prefix(base: &str, full: &str) -> (r: Option<String>)
    ensures
        (match r {
            Some(rest) => spec_strip_path_prefix(base@, full@) == Some(rest@),
            None => spec_strip_path_prefix(base@, full@) is None,
        }),
{
    let n = base.unicode_len();
    let m = full.unicode_len();
    if m < n {
        return None;
    }
    let mut i: usize = 0;
    while i < n
        invariant
            i <= n <= m,
            n == base@.len(),
            m == full@.len(),
            forall|j: int| 0 <= j < i ==> full@[j] == base@[j],
        decreases n - i,
    {
        if full.get_char(i) != base.get_char(i) {
            proof {
                assert(full@ != base@);
                assert(full@.take(n as int)[i as int] != base@[i as int]);
            }
            return None;
        }
        i = i + 1;
    }
    if m == n {
        proof {
            assert(full@ =~= base@);
        }
        let empty = String::new();
        return Some(empty);
    }
    if full.get_char(n) != '/' || m == n + 1 {
        proof {
            assert(full@ != base@);
        }
        return None;
    }
    let rest = full.substring_char(n + 1, m).to_owned();
    proof {
        assert(full@ != base@);
        assert(full@.take(n as int) =~= base@);
        assert(rest@ =~= full@.skip(n + 1));
    }
    Some(rest)
}

/// One entry of a traversal of the output directory, as handed in from
/// the walk: its full path and whether it is a directory.
#[derive(Debug)]
pub struct BundleEntry {
    pub path: String,
    pub is_dir: bool,
}

/// One entry of the archive to build: the relative path it is stored
/// under, and whether it is added as a directory entry.
#[derive(Debug)]
pub struct ArchiveEntry {
    pub rel_path: String,
    pub is_dir: bool,
}

/// Plans the archive for a traversal of the output directory rooted at
/// `root`: one archive entry per traversal entry, in order, stored under
/// its path relative to the root, directories preserved as directory
/// entries.  The root itself (the empty relative path) is never an
/// entry, and a traversal entry that does not lie below the root is a
/// storage fault, not a silently skipped file.
pub fn archive_plan(root: &str, entries: &Vec<BundleEntry>) -> (r: Result<
    Vec<ArchiveEntry>,
    ServiceError,
>)
    ensures
        r matches Ok(plan) ==> {
            &&& plan@.len() == entries@.len()
            &&& forall|i: int|
                0 <= i < entries@.len() ==> spec_strip_path_prefix(root@, entries@[i].path@)
                    == Some(#[trigger] plan@[i].rel_path@)
            &&& forall|i: int| 0 <= i < entries@.len() ==> plan@[i].rel_path@.len() > 0
            &&& forall|i: int|
                0 <= i < entries@.len() ==> #[trigger] plan@[i].is_dir == entries@[i].is_dir
        },
        r is Ok <==> (forall|i: int|
            0 <= i < entries@.len() ==> ((#[trigger] spec_strip_path_prefix(
                root@,
                entries@[i].path@,
            )) matches Some(rel) && rel.len() > 0)),
        r matches Err(e) ==> e is Storage,
{
    let mut plan: Vec<ArchiveEntry> = Vec::new();
    let mut i: usize = 0;
    while i < entries.len()
        invariant
            i <= entries@.len(),
            plan@.len() == i,
            forall|j: int|
                0 <= j < i ==> spec_strip_path_prefix(root@, entries@[j].path@) == Some(
                    #[trigger] plan@[j].rel_path@,
                ),
            forall|j: int| 0 <= j < i ==> plan@[j].rel_path@.len() > 0,
            forall|j: int| 0 <= j < i ==> #[trigger] plan@[j].is_dir == entries@[j].is_dir,
        decreases entries@.len() - i,
    {
        let e = &entries[i];
        let rel = match strip_path_prefix(root, e.path.as_str()) {
            Some(rest) => rest,
            None => {
                return Err(
                    ServiceError::Storage {
                        message: "an output entry lies outside the output directory".to_owned(),
                    },
                );
            },
        };
        if rel.as_str().is_empty() {
            return Err(
                ServiceError::Storage {
                    message: "the output directory itself appeared as an output entry".to_owned(),
                },
            );
        }
        plan.push(ArchiveEntry { rel_path: rel, is_dir: e.is_dir });
        i = i + 1;
    }
    proof {
        assert forall|k: int|
            0 <= k < entries@.len() implies ((#[trigger] spec_strip_path_prefix(
            root@,
            entries@[k].path@,
        )) matches Some(rel) && rel.len() > 0) by {
            assert(spec_strip_path_prefix(root@, entries@[k].path@) == Some(plan@[k].rel_path@));
            assert(plan@[k].rel_path@.len() > 0);
        }
    }
    Ok(plan)
}

} // verus!
