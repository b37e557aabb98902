//! Directory listing: filtering a directory's entries to its subdirectories
//! and reporting them in ascending lexical order, with the three failure
//! conditions — missing path, non-directory path, unreadable directory —
//! kept distinct.

use vstd::prelude::*;
use vstd::string::*;
use crate::order::{names_of, sort_names, sorted_lex};

verus! {

/// One immediate entry of a directory, as its metadata reports it: its name
/// and whether it is itself a directory. Entries whose name or metadata
/// could not be read are skipped before this point and never appear here.
pub struct DirEntry {
    pub name: String,
    pub is_dir: bool,
}

/// The names of the entries of `es` that are directories, in entry order.
pub open spec fn dir_names_spec(es: Seq<DirEntry>) -> Seq<Seq<char>>
    decreases es.len(),
{
    if es.len() == 0 {
        Seq::empty()
    } else {
        let rest = dir_names_spec(es.drop_last());
        if es.last().is_dir {
            rest.push(es.last().name@)
        } else {
            rest
        }
    }
}

/// How the listed path looked to the host: absent, present but not a
/// directory, or a directory.
pub enum PathStatus {
    Missing,
    NotDirectory,
    Directory,
}

/// Collects the names of the directory entries, keeping entry order.
fn collect_dir_names(entries: &Vec<DirEntry>) -> (r: Vec<String>)
    ensures
        names_of(r@) == dir_names_spec(entries@),
{
    let mut out: Vec<String> = Vec::new();
    let mut i: usize = 0;
    proof {
        assert(entries@.take(0) =~= Seq::<DirEntry>::empty());
        assert(names_of(out@) =~= dir_names_spec(entries@.take(0)));
    }
    while i < entries.len()
        invariant
            0 <= i <= entries@.len(),
            names_of(out@) == dir_names_spec(entries@.take(i as int)),
        decreases entries@.len() - i,
    {
        proof {
            assert(entries@.take(i as int + 1).drop_last() =~= entries@.take(i as int));
        }
        if entries[i].is_dir {
            out.push(entries[i].name.clone());
            proof {
                assert(names_of(out@) =~= dir_names_spec(entries@.take(i as int)).push(
                    entries@[i as int].name@,
                ));
            }
        }
        i += 1;
    }
    proof {
        assert(entries@.take(entries@.len() as int) =~= entries@);
    }
    out
}

/// The names of the subdirectories among `entries`, in ascending lexical
/// order; files and other non-directory entries contribute nothing.
pub fn directories_from_entries(entries: &Vec<DirEntry>) -> (r: Vec<String>)
    ensures
        sorted_lex(names_of(r@)),
        names_of(r@).to_multiset() == dir_names_spec(entries@).to_multiset(),
{
    let collected = collect_dir_names(entries);
    sort_names(collected)
}

/// The outcome of the whole listing operation. The three failure conditions
/// stay distinct: a missing path, a path that is not a directory, and a
/// directory whose entries could not be read (`read` then carries the
/// reported cause in its error text).
pub fn list_outcome(status: PathStatus, read: Result<Vec<DirEntry>, String>) -> (r: Result<
    Vec<String>,
    String,
>)
    ensures
        status is Missing ==> (r matches Err(e) && e@ == "Path does not exist"@),
        status is NotDirectory ==> (r matches Err(e) && e@ == "Path is not a directory"@),
        status is Directory ==> (read matches Ok(entries) ==> (r matches Ok(names) && sorted_lex(
            names_of(names@),
        ) && names_of(names@).to_multiset() == dir_names_spec(entries@).to_multiset())),
        status is Directory ==> (read matches Err(cause) ==> (r matches Err(e) && e@
            == "Failed to read directory: "@ + cause@)),
{
    match status {
        PathStatus::Missing => Err(String::from_str("Path does not exist")),
        PathStatus::NotDirectory => Err(String::from_str("Path is not a directory")),
        PathStatus::Directory => match read {
            Ok(entries) => Ok(directories_from_entries(&entries)),
            Err(cause) => Err(
                String::from_str("Failed to read directory: ").concat(cause.as_str()),
            ),
        },
    }
}

} // verus!
