use vstd::prelude::*;
use crate::text::{has_infix, lower_of, lowercase, contains_text, decimal, decimal_text, join_text};

verus! {

/// Smallest size, in bytes, of a file worth offering.
pub const MIN_FILE_BYTES: u64 = 1_000_000;

/// A file of a remote job, as the remote service lists it.
#[derive(Debug, Clone, PartialEq, Eq)]
pub struct RemoteFile {
    pub id: u32,
    pub path: String,
    pub bytes: u64,
}

/// How the files to fetch are chosen.
#[derive(Debug, Clone, PartialEq, Eq)]
pub enum SelectionPlan {
    /// Exactly one file is worth fetching: take it.
    Single(u32),
    /// Nothing passed the filter: take every file there is.
    All(Vec<u32>),
    /// Several candidates: let the user pick among these.
    Ask(Vec<RemoteFile>),
    /// The remote job lists no file at all.
    NoFiles,
}

/// The filter, on a lower-cased path: no sample, and more than a megabyte.
pub open spec fn keeps(lower_path: Seq<char>, bytes: u64) -> bool {
    !has_infix(lower_path, "sample"@) && bytes > MIN_FILE_BYTES
}

pub open spec fn is_valid_file(f: RemoteFile) -> bool {
    keeps(lower_of(f.path@), f.bytes)
}

/// The files that pass the filter, in their order.
pub open spec fn valid_subset(fs: Seq<RemoteFile>) -> Seq<RemoteFile>
    decreases fs.len(),
{
    if fs.len() == 0 {
        Seq::empty()
    } else {
        let rest = valid_subset(fs.drop_last());
        if is_valid_file(fs.last()) { rest.push(fs.last()) } else { rest }
    }
}

pub open spec fn ids_of(fs: Seq<RemoteFile>) -> Seq<u32> {
    fs.map_values(|f: RemoteFile| f.id)
}

/// The plan that fits the raw list `files` and its filtered part `valid`.
pub open spec fn plan_fits(files: Seq<RemoteFile>, valid: Seq<RemoteFile>, p: SelectionPlan) -> bool {
    if valid.len() == 1 {
        p == SelectionPlan::Single(valid[0].id)
    } else if valid.len() == 0 {
        if files.len() == 0 {
            p is NoFiles
        } else {
            p is All && p->All_0@ == ids_of(files)
        }
    } else {
        p is Ask && p->Ask_0@ == valid
    }
}

/// The ids of the candidates at the positions `picks`, in the order picked;
/// a position past the end picks nothing.
pub open spec fn picked_ids(valid: Seq<RemoteFile>, picks: Seq<usize>) -> Seq<u32>
    decreases picks.len(),
{
    if picks.len() == 0 {
        Seq::empty()
    } else {
        let rest = picked_ids(valid, picks.drop_last());
        let i = picks.last() as int;
        if i < valid.len() { rest.push(valid[i].id) } else { rest }
    }
}

/// File ids as the remote service takes them: decimal numbers joined by commas.
pub open spec fn id_list_text(ids: Seq<u32>) -> Seq<char>
    decreases ids.len(),
{
    if ids.len() == 0 {
        Seq::empty()
    } else if ids.len() == 1 {
        decimal(ids[0] as nat)
    } else {
        id_list_text(ids.drop_last()) + seq![','] + decimal(ids.last() as nat)
    }
}

pub fn id_list(ids: &Vec<u32>) -> (r: String)
    ensures
        r@ == id_list_text(ids@),
{
    let mut r = String::new();
    let mut i: usize = 0;
    while i < ids.len()
        invariant
            i <= ids@.len(),
            r@ == id_list_text(ids@.subrange(0, i as int)),
        decreases ids@.len() - i,
    {
        let number = decimal_text(ids[i] as u64);
        proof {
            assert(ids@.subrange(0, i + 1).drop_last() == ids@.subrange(0, i as int));
            reveal_strlit(",");
        }
        if i == 0 {
            r = number;
        } else {
            let with_comma = join_text(r.as_str(), ",");
            r = join_text(with_comma.as_str(), number.as_str());
        }
        i = i + 1;
    }
    assert(ids@.subrange(0, ids@.len() as int) == ids@);
    r
}

impl RemoteFile {
    pub fn duplicate(&self) -> (r: RemoteFile)
        ensures
            r == *self,
    {
        RemoteFile { id: self.id, path: self.path.clone(), bytes: self.bytes }
    }
}

pub fn copy_files(fs: &Vec<RemoteFile>) -> (r: Vec<RemoteFile>)
    ensures
        r@ == fs@,
{
    let mut r: Vec<RemoteFile> = Vec::new();
    let mut i: usize = 0;
    while i < fs.len()
        invariant
            i <= fs@.len(),
            r@ == fs@.subrange(0, i as int),
        decreases fs@.len() - i,
    {
        r.push(fs[i].duplicate());
        i = i + 1;
    }
    assert(r@ == fs@);
    r
}

/// Whether a file with the lower-cased path `lower_path` and size `bytes` passes the filter.
pub fn keeps_file(lower_path: &str, bytes: u64) -> (r: bool)
    ensures
        r == keeps(lower_path@, bytes),
{
    let has_sample = contains_text(lower_path, "sample");
    !has_sample && bytes > MIN_FILE_BYTES
}

pub fn is_valid(f: &RemoteFile) -> (r: bool)
    ensures
        r == is_valid_file(*f),
{
    let lower = lowercase(f.path.as_str());
    keeps_file(lower.as_str(), f.bytes)
}

/// The files worth offering, in their order.
pub fn valid_files(files: &Vec<RemoteFile>) -> (r: Vec<RemoteFile>)
    ensures
        r@ == valid_subset(files@),
{
    let mut r: Vec<RemoteFile> = Vec::new();
    let mut i: usize = 0;
    while i < files.len()
        invariant
            i <= files@.len(),
            r@ == valid_subset(files@.subrange(0, i as int)),
        decreases files@.len() - i,
    {
        proof {
            assert(files@.subrange(0, i + 1).drop_last() == files@.subrange(0, i as int));
        }
        if is_valid(&files[i]) {
            r.push(files[i].duplicate());
        }
        i = i + 1;
    }
    assert(files@.subrange(0, files@.len() as int) == files@);
    r
}

pub fn all_ids(files: &Vec<RemoteFile>) -> (r: Vec<u32>)
    ensures
        r@ == ids_of(files@),
{
    let mut r: Vec<u32> = Vec::new();
    let mut i: usize = 0;
    while i < files.len()
        invariant
            i <= files@.len(),
            r@ == ids_of(files@.subrange(0, i as int)),
        decreases files@.len() - i,
    {
        r.push(files[i].id);
        proof {
            assert(ids_of(files@.subrange(0, i + 1)) == ids_of(files@.subrange(0, i as int)).push(files@[i as int].id));
        }
        i = i + 1;
    }
    assert(files@.subrange(0, files@.len() as int) == files@);
    r
}

/// The plan for the raw list `files`, whose filtered part is `valid`.
pub fn plan_from(files: &Vec<RemoteFile>, valid: Vec<RemoteFile>) -> (r: SelectionPlan)
    ensures
        plan_fits(files@, valid@, r),
{
    if valid.len() == 1 {
        SelectionPlan::Single(valid[0].id)
    } else if valid.len() == 0 {
        if files.len() == 0 {
            SelectionPlan::NoFiles
        } else {
            SelectionPlan::All(all_ids(files))
        }
    } else {
        SelectionPlan::Ask(valid)
    }
}

/// The plan for the files that the remote job lists.
pub fn plan_selection(files: &Vec<RemoteFile>) -> (r: SelectionPlan)
    ensures
        plan_fits(files@, valid_subset(files@), r),
{
    let valid = valid_files(files);
    plan_from(files, valid)
}

/// The ids that the user's picks (positions among `valid`) stand for.
pub fn chosen_ids(valid: &Vec<RemoteFile>, picks: &Vec<usize>) -> (r: Vec<u32>)
    ensures
        r@ == picked_ids(valid@, picks@),
{
    let mut r: Vec<u32> = Vec::new();
    let mut i: usize = 0;
    while i < picks.len()
        invariant
            i <= picks@.len(),
            r@ == picked_ids(valid@, picks@.subrange(0, i as int)),
        decreases picks@.len() - i,
    {
        proof {
            assert(picks@.subrange(0, i + 1).drop_last() == picks@.subrange(0, i as int));
        }
        let k = picks[i];
        if k < valid.len() {
            r.push(valid[k].id);
        }
        i = i + 1;
    }
    assert(picks@.subrange(0, picks@.len() as int) == picks@);
    r
}

} // verus!
