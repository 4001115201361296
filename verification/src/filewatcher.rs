//! The discovery filter: which announced paths count as completed log
//! files.  The directory watching itself is the host's; it hands every
//! announced path through this filter before submitting it.

use vstd::prelude::*;
use crate::text::{ends_with_ascii_ci, str_ends_with_ascii_ci};

verus! {

/// A path names a completed log file when it carries the log extension,
/// compared case-insensitively.
pub open spec fn is_log_path_spec(p: Seq<char>) -> bool {
    ends_with_ascii_ci(p, ".zevtc"@)
}

/// Whether `path` names a completed log file.
pub fn is_log_path(path: &str) -> (b: bool)
    ensures
        b == is_log_path_spec(path@),
{
    str_ends_with_ascii_ci(path, ".zevtc")
}

/// The announced paths that name completed log files, in announcement
/// order.
pub open spec fn filter_log_paths_spec(ps: Seq<Seq<char>>) -> Seq<Seq<char>>
    decreases ps.len(),
{
    if ps.len() == 0 {
        Seq::empty()
    } else {
        let rest = filter_log_paths_spec(ps.skip(1));
        if is_log_path_spec(ps[0]) {
            seq![ps[0]] + rest
        } else {
            rest
        }
    }
}

fn filter_log_paths_from(paths: &Vec<String>, from: usize) -> (r: Vec<String>)
    requires
        from <= paths@.len(),
    ensures
        r.deep_view() == filter_log_paths_spec(paths.deep_view().skip(from as int)),
    decreases paths@.len() - from,
{
    if from == paths.len() {
        let r: Vec<String> = Vec::new();
        proof {
            assert(paths.deep_view().skip(from as int) =~= Seq::<Seq<char>>::empty());
            assert(r.deep_view() =~= Seq::<Seq<char>>::empty());
        }
        r
    } else {
        let mut rest = filter_log_paths_from(paths, from + 1);
        proof {
            assert(paths.deep_view().skip(from as int).skip(1) =~= paths.deep_view().skip(
                from + 1,
            ));
            assert(paths.deep_view().skip(from as int)[0] == paths.deep_view()[from as int]);
        }
        if is_log_path(paths[from].as_str()) {
            rest.insert(0, paths[from].clone());
            proof {
                assert(rest.deep_view() =~= seq![paths.deep_view()[from as int]]
                    + filter_log_paths_spec(paths.deep_view().skip(from + 1)));
            }
            rest
        } else {
            rest
        }
    }
}

/// Keep, in order, the announced paths that name completed log files.
pub fn filter_log_paths(paths: &Vec<String>) -> (r: Vec<String>)
    ensures
        r.deep_view() == filter_log_paths_spec(paths.deep_view()),
{
    let r = filter_log_paths_from(paths, 0);
    proof {
        assert(paths.deep_view().skip(0) =~= paths.deep_view());
    }
    r
}

} // verus!
