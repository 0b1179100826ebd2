use vstd::prelude::*;
use vstd::multiset::Multiset;
use crate::job::Download;
use crate::text::{join_text, trim_text, trimmed_of};

verus! {

broadcast use vstd::seq_lib::group_to_multiset_ensures, vstd::multiset::group_multiset_axioms;

/// `dir` and `name` joined by one path separator; an empty `dir` leaves `name` alone.
pub open spec fn joined_path(dir: Seq<char>, name: Seq<char>) -> Seq<char> {
    if dir.len() == 0 {
        name
    } else if dir.last() == '/' {
        dir + name
    } else {
        dir + seq!['/'] + name
    }
}

pub open spec fn opt_text(o: Option<String>) -> Option<Seq<char>> {
    match o {
        Some(s) => Some(s@),
        None => None,
    }
}

pub open spec fn config_dir_of(found: Option<Seq<char>>) -> Seq<char> {
    match found {
        Some(d) => joined_path(d, "lj"@),
        None => joined_path("."@, "lj"@),
    }
}

pub open spec fn downloads_dir_of(config_dir: Seq<char>) -> Seq<char> {
    joined_path(config_dir, "downloads"@)
}

pub open spec fn download_file_of(config_dir: Seq<char>, id: Seq<char>) -> Seq<char> {
    joined_path(downloads_dir_of(config_dir), id + ".json"@)
}

/// Records are addressed by id alone: two ids share a record file only
/// where they are the same id.
pub proof fn lemma_record_file_per_id(config_dir: Seq<char>, a: Seq<char>, b: Seq<char>)
    ensures
        download_file_of(config_dir, a) == download_file_of(config_dir, b) ==> a == b,
{
    reveal_strlit("downloads");
    reveal_strlit(".json");
    let d = downloads_dir_of(config_dir);
    assert(d.len() > 0 && d.last() == 's') by {
        if config_dir.len() > 0 && config_dir.last() != '/' {
            assert(d == config_dir + seq!['/'] + "downloads"@);
        }
    }
    let pre = d + seq!['/'];
    let ja = a + ".json"@;
    let jb = b + ".json"@;
    assert(download_file_of(config_dir, a) == pre + ja);
    assert(download_file_of(config_dir, b) == pre + jb);
    if pre + ja == pre + jb {
        assert(ja == (pre + ja).subrange(pre.len() as int, (pre + ja).len() as int));
        assert(jb == (pre + jb).subrange(pre.len() as int, (pre + jb).len() as int));
        assert(a == ja.subrange(0, a.len() as int));
        assert(b == jb.subrange(0, b.len() as int));
    }
}

/// A stored record's file name: a non-empty stem and the `json` extension.
pub open spec fn is_record_name(name: Seq<char>) -> bool {
    name.len() > 5 && name.subrange(name.len() - 5, name.len() as int) == ".json"@
}

pub open spec fn sorted_by_start(v: Seq<Download>) -> bool {
    forall|i: int, j: int| 0 <= i < j < v.len() ==> v[i].started_at <= v[j].started_at
}

/// The credential to use: a non-empty environment value first, else the
/// trimmed content of the key file where it is not empty.
pub open spec fn chosen_key(env_value: Option<Seq<char>>, file_text: Option<Seq<char>>) -> Option<Seq<char>> {
    if env_value is Some && env_value->0.len() > 0 {
        env_value
    } else if file_text is Some && trimmed_of(file_text->0).len() > 0 {
        Some(trimmed_of(file_text->0))
    } else {
        None
    }
}

/// The user's configuration directory, as `dirs::config_dir` finds it.
#[verifier::external_body]
fn system_config_dir() -> (r: Option<String>) {
    dirs::config_dir().map(|p| p.to_string_lossy().into_owned())
}

pub fn join_path(dir: &str, name: &str) -> (r: String)
    ensures
        r@ == joined_path(dir@, name@),
{
    let n = dir.unicode_len();
    if n == 0 {
        String::from_str(name)
    } else if dir.get_char(n - 1) == '/' {
        join_text(dir, name)
    } else {
        let with_sep = join_text(dir, "/");
        proof {
            reveal_strlit("/");
        }
        join_text(with_sep.as_str(), name)
    }
}

/// The directory under which this program keeps its state, given the
/// system's configuration directory where there is one.
pub fn config_dir_from(found: Option<String>) -> (r: String)
    ensures
        r@ == config_dir_of(opt_text(found)),
{
    match found {
        Some(d) => join_path(d.as_str(), "lj"),
        None => join_path(".", "lj"),
    }
}

pub fn get_config_dir() -> (r: String)
    ensures
        exists|found: Option<Seq<char>>| r@ == config_dir_of(found),
{
    let found = system_config_dir();
    let ghost f = opt_text(found);
    let r = config_dir_from(found);
    assert(r@ == config_dir_of(f));
    r
}

/// Where the job records live.
pub fn get_downloads_dir(config_dir: &str) -> (r: String)
    ensures
        r@ == downloads_dir_of(config_dir@),
{
    join_path(config_dir, "downloads")
}

/// The file that holds the record of job `id`.
pub fn get_download_file(config_dir: &str, id: &str) -> (r: String)
    ensures
        r@ == download_file_of(config_dir@, id@),
{
    let dir = get_downloads_dir(config_dir);
    let name = join_text(id, ".json");
    join_path(dir.as_str(), name.as_str())
}

/// The file that holds the credential.
pub fn get_api_key_file(config_dir: &str) -> (r: String)
    ensures
        r@ == joined_path(config_dir@, "api_key"@),
{
    join_path(config_dir, "api_key")
}

/// Whether a directory entry named `name` holds a job record.
pub fn is_record_file(name: &str) -> (r: bool)
    ensures
        r == is_record_name(name@),
{
    let n = name.unicode_len();
    if n <= 5 {
        return false;
    }
    let tail = name.substring_char(n - 5, n);
    crate::text::same_text(tail, ".json")
}

/// The credential to use, from the environment's value and the key file's text.
pub fn select_api_key(env_value: Option<String>, file_text: Option<String>) -> (r: Option<String>)
    ensures
        opt_text(r) == chosen_key(
            opt_text(env_value),
            opt_text(file_text),
        ),
{
    match env_value {
        Some(k) => {
            if k.unicode_len() > 0 {
                return Some(k);
            }
        },
        None => {},
    }
    match file_text {
        Some(text) => {
            let t = trim_text(text.as_str());
            if t.unicode_len() > 0 {
                Some(String::from_str(t))
            } else {
                None
            }
        },
        None => None,
    }
}

/// The records of `v` created at time `k`, in their order.
pub open spec fn started_at_time(v: Seq<Download>, k: u64) -> Seq<Download> {
    v.filter(|d: Download| d.started_at == k)
}

proof fn lemma_push_run(s: Seq<Download>, d: Download, k: u64)
    ensures
        started_at_time(s.push(d), k) == if d.started_at == k {
            started_at_time(s, k).push(d)
        } else {
            started_at_time(s, k)
        },
{
    reveal_with_fuel(Seq::filter, 1);
    assert(s.push(d).drop_last() == s);
    assert(s.push(d).last() == d);
}

proof fn lemma_insert_after_equals(before: Seq<Download>, pos: int, d: Download, k: u64)
    requires
        0 <= pos <= before.len(),
        forall|j: int| pos <= j < before.len() ==> before[j].started_at > d.started_at,
    ensures
        started_at_time(before.insert(pos, d), k) == started_at_time(before.push(d), k),
{
    let pred = |x: Download| x.started_at == k;
    let s0 = before.subrange(0, pos);
    let s1 = before.subrange(pos, before.len() as int);
    assert(before == s0 + s1);
    assert(before.insert(pos, d) == s0 + seq![d] + s1);
    Seq::filter_distributes_over_add(s0 + seq![d], s1, pred);
    Seq::filter_distributes_over_add(s0, seq![d], pred);
    Seq::filter_distributes_over_add(s0, s1, pred);
    Seq::filter_distributes_over_add(before, seq![d], pred);
    assert(before.push(d) == before + seq![d]);
    assert(seq![d].drop_last() == Seq::<Download>::empty());
    reveal_with_fuel(Seq::filter, 2);
    if d.started_at == k {
        assert(s1.all(|x: Download| !pred(x)));
        s1.lemma_all_neg_filter_empty(pred);
        assert(s1.filter(pred) == Seq::<Download>::empty());
        assert(s0.filter(pred) + s1.filter(pred) == s0.filter(pred));
    } else {
        assert(seq![d].filter(pred) == Seq::<Download>::empty());
        assert(s0.filter(pred) + seq![d].filter(pred) == s0.filter(pred));
        assert(before.filter(pred) + seq![d].filter(pred) == before.filter(pred));
    }
}

/// The records ordered by creation time; records created at the same time
/// keep their order.
pub fn sort_by_started(v: Vec<Download>) -> (r: Vec<Download>)
    ensures
        sorted_by_start(r@),
        r@.to_multiset() == v@.to_multiset(),
        forall|k: u64| started_at_time(r@, k) == started_at_time(v@, k),
{
    let mut out: Vec<Download> = Vec::new();
    let mut i: usize = 0;
    proof {
        assert(out@.to_multiset() =~= Multiset::empty());
        assert(v@.subrange(0, 0).to_multiset() =~= Multiset::empty());
        assert forall|k: u64| started_at_time(out@, k) == started_at_time(v@.subrange(0, 0), k) by {
            assert(out@ == v@.subrange(0, 0));
        }
    }
    while i < v.len()
        invariant
            i <= v@.len(),
            sorted_by_start(out@),
            out@.to_multiset() == v@.subrange(0, i as int).to_multiset(),
            forall|k: u64| started_at_time(out@, k) == started_at_time(v@.subrange(0, i as int), k),
        decreases v@.len() - i,
    {
        let d = v[i].duplicate();
        let mut pos: usize = out.len();
        while pos > 0 && out[pos - 1].started_at > d.started_at
            invariant
                pos <= out@.len(),
                sorted_by_start(out@),
                forall|j: int| pos <= j < out@.len() ==> out@[j].started_at > d.started_at,
            decreases pos,
        {
            pos = pos - 1;
        }
        let ghost before = out@;
        out.insert(pos, d);
        proof {
            let prefix = v@.subrange(0, i as int);
            assert(v@.subrange(0, i + 1) == prefix.push(d));
            assert(out@ == before.insert(pos as int, d));
            vstd::seq_lib::to_multiset_insert(before, pos as int, d);
            assert(prefix.push(d).to_multiset() =~= prefix.to_multiset().insert(d));
            assert forall|a: int, b: int| 0 <= a < b < out@.len() implies out@[a].started_at <= out@[b].started_at by {
                if pos > 0 {
                    assert(before[pos - 1].started_at <= d.started_at);
                }
            }
            assert forall|k: u64| started_at_time(out@, k) == started_at_time(v@.subrange(0, i + 1), k) by {
                lemma_insert_after_equals(before, pos as int, d, k);
                assert(started_at_time(before, k) == started_at_time(prefix, k));
                lemma_push_run(before, d, k);
                lemma_push_run(prefix, d, k);
            }
        }
        i = i + 1;
    }
    assert(v@.subrange(0, v@.len() as int) == v@);
    out
}

} // verus!
