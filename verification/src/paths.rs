//! Filesystem paths as text: where submissions live and how a relative
//! name is joined onto a directory.

use vstd::prelude::*;

use crate::text::{ends_with_char, starts_with_char};

verus! {

/// Base directory for all submissions.
pub open spec fn base_dir() -> Seq<char> {
    "/tmp/benchmarking_platform/submissions"@
}

/// The base directory for all submissions.
pub fn submissions_base_dir() -> (dir: &'static str)
    ensures
        dir@ == base_dir(),
{
    "/tmp/benchmarking_platform/submissions"
}

/// `rel` appended to `base` the way a path is extended on Unix: a name that
/// starts with `/` replaces `base`; otherwise a separator is put between the
/// two unless `base` is empty or already ends with one.
pub open spec fn joined(base: Seq<char>, rel: Seq<char>) -> Seq<char> {
    if rel.len() > 0 && rel[0] == '/' {
        rel
    } else if base.len() > 0 && base.last() != '/' {
        base + seq!['/'] + rel
    } else {
        base + rel
    }
}

/// Joins `rel` onto `base` as a Unix path.
pub fn join_path(base: &str, rel: &str) -> (path: String)
    ensures
        path@ == joined(base@, rel@),
{
    if starts_with_char(rel, '/') {
        String::from_str(rel)
    } else if base.unicode_len() > 0 && !ends_with_char(base, '/') {
        let mut p = String::from_str(base);
        p.append("/");
        proof {
            reveal_strlit("/");
        }
        p.append(rel);
        p
    } else {
        let mut p = String::from_str(base);
        p.append(rel);
        p
    }
}

/// The directory that holds the files of one submission.
pub open spec fn submission_dir_of(submission_id: Seq<char>) -> Seq<char> {
    joined(base_dir(), submission_id)
}

/// The directory that holds the files of the submission `submission_id`.
pub fn submission_dir(submission_id: &str) -> (dir: String)
    ensures
        dir@ == submission_dir_of(submission_id@),
{
    join_path(submissions_base_dir(), submission_id)
}

/// A submission directory lies directly under the base directory whenever
/// the identifier is not itself an absolute path.
pub proof fn lemma_submission_dir_under_base(submission_id: Seq<char>)
    requires
        !(submission_id.len() > 0 && submission_id[0] == '/'),
    ensures
        submission_dir_of(submission_id) == base_dir() + seq!['/'] + submission_id,
{
    reveal_strlit("/tmp/benchmarking_platform/submissions");
}

} // verus!

verus! {

/// Joining keeps both parts: a name that starts with `/` is the result as
/// it stands; any other name ends the result, after `base` and at most one
/// added separator.
pub proof fn lemma_joined_parts(base: Seq<char>, rel: Seq<char>)
    ensures
        rel.len() > 0 && rel[0] == '/' ==> joined(base, rel) == rel,
        !(rel.len() > 0 && rel[0] == '/') ==> {
            &&& joined(base, rel).subrange(0, base.len() as int) == base
            &&& joined(base, rel).skip(joined(base, rel).len() - rel.len()) == rel
            &&& joined(base, rel).len() <= base.len() + 1 + rel.len()
        },
{
    let j = joined(base, rel);
    if !(rel.len() > 0 && rel[0] == '/') {
        assert(j.subrange(0, base.len() as int) =~= base);
        assert(j.skip(j.len() - rel.len()) =~= rel);
    }
}

} // verus!
