//! What is worked out about the files in which universes are kept: their
//! names, what a listing says of each, and the order of the listing. Reading
//! and writing the files is for the caller.

use vstd::prelude::*;
use vstd::string::StringExecFns;
use vstd::string::StringSliceAdditionalSpecFns;
use crate::outside::{starts_with, strip_prefix};

verus! {

/// What a listing says of one universe. `created_at` is in milliseconds
/// since the Unix epoch.
#[derive(Clone, Debug)]
pub struct UniverseInfo {
    pub id: String,
    pub title: String,
    pub created_at: i64,
    pub node_count: usize,
}

/// Where a universe is to be loaded from.
#[derive(Clone, Copy, Debug, PartialEq, Eq, Structural)]
pub enum LoadPlan {
    GraphFile,
    UniverseFile,
    NotFound,
}

/// The name of the file of a universe.
pub open spec fn universe_file_text(id: Seq<char>) -> Seq<char> {
    id + ".json"@
}

/// The name of the file of the graph of a universe.
pub open spec fn graph_file_text(id: Seq<char>) -> Seq<char> {
    "graph_"@ + id + ".json"@
}

/// The identifier of the universe that a file is of, by the name of the
/// file without its ending: the name without `graph_` at its start, or the
/// whole name where it does not start so.
pub open spec fn id_text(file_stem: Seq<char>) -> Seq<char> {
    if starts_with(file_stem, "graph_"@) {
        file_stem.subrange("graph_"@.len() as int, file_stem.len() as int)
    } else {
        file_stem
    }
}

/// How often `pattern` occurs in `text` from `from` on, where the text is
/// read from left to right and an occurrence starts only behind the one
/// before it. An empty pattern occurs nowhere.
pub open spec fn occurrences(text: Seq<u8>, pattern: Seq<u8>, from: int) -> nat
    decreases text.len() - from,
{
    if pattern.len() == 0 || from < 0 || from + pattern.len() > text.len() {
        0
    } else if text.subrange(from, from + pattern.len()) == pattern {
        1 + occurrences(text, pattern, from + pattern.len())
    } else {
        occurrences(text, pattern, from + 1)
    }
}

/// The list with `info` put in before the first entry that is older than
/// it, or at the end where none is.
pub open spec fn put_in(list: Seq<UniverseInfo>, info: UniverseInfo) -> Seq<UniverseInfo> {
    list.insert(place_for(list, info.created_at, list.len() as int), info)
}

/// Where an entry of the time `created_at` goes among the first `upto`
/// entries: before the first that is older, or behind them all.
pub open spec fn place_for(list: Seq<UniverseInfo>, created_at: i64, upto: int) -> int
    decreases upto,
{
    if upto <= 0 {
        0
    } else {
        let before = place_for(list, created_at, upto - 1);
        if before < upto - 1 || list[upto - 1].created_at < created_at {
            before
        } else {
            upto
        }
    }
}

/// The first `upto` entries of a list, the newest first; entries of the
/// same time keep their order.
pub open spec fn newest(list: Seq<UniverseInfo>, upto: int) -> Seq<UniverseInfo>
    decreases upto,
{
    if upto <= 0 {
        Seq::empty()
    } else {
        put_in(newest(list, upto - 1), list[upto - 1])
    }
}

/// No entry is older than the one behind it.
pub open spec fn is_newest_first(list: Seq<UniverseInfo>) -> bool {
    forall|i: int, j: int| 0 <= i < j < list.len() ==> list[i].created_at >= list[j].created_at
}

/// The place for an entry lies within the list; the entries before it are
/// not older than the entry, and the one at it, if there is one, is older.
pub proof fn place_is_sound(list: Seq<UniverseInfo>, created_at: i64, upto: int)
    requires
        0 <= upto <= list.len(),
    ensures
        0 <= place_for(list, created_at, upto) <= upto,
        forall|i: int| 0 <= i < place_for(list, created_at, upto) ==> list[i].created_at >= created_at,
        place_for(list, created_at, upto) < upto ==> list[place_for(list, created_at, upto)].created_at
            < created_at,
    decreases upto,
{
    if upto > 0 {
        place_is_sound(list, created_at, upto - 1);
    }
}

/// Putting an entry into a list that has the newest first leaves such a
/// list, with the same entries and the new one.
pub proof fn putting_in_keeps_order(list: Seq<UniverseInfo>, info: UniverseInfo)
    requires
        is_newest_first(list),
    ensures
        is_newest_first(put_in(list, info)),
        put_in(list, info).len() == list.len() + 1,
        put_in(list, info).to_multiset() == list.to_multiset().insert(info),
{
    let at = place_for(list, info.created_at, list.len() as int);
    place_is_sound(list, info.created_at, list.len() as int);
    let after = put_in(list, info);
    assert forall|i: int, j: int| 0 <= i < j < after.len() implies after[i].created_at >= after[j].created_at by {}
    assert(after.remove(at) =~= list);
    vstd::seq_lib::to_multiset_remove(after, at);
    assert(after.to_multiset().count(info) > 0) by {
        broadcast use vstd::seq_lib::group_to_multiset_ensures;
    }
}

/// The listing has the newest first and holds the entries of the list.
pub proof fn newest_is_ordered(list: Seq<UniverseInfo>, upto: int)
    requires
        0 <= upto <= list.len(),
    ensures
        is_newest_first(newest(list, upto)),
        newest(list, upto).len() == upto,
        newest(list, upto).to_multiset() == list.take(upto).to_multiset(),
    decreases upto,
{
    if upto > 0 {
        newest_is_ordered(list, upto - 1);
        putting_in_keeps_order(newest(list, upto - 1), list[upto - 1]);
        assert(list.take(upto) =~= list.take(upto - 1).push(list[upto - 1]));
        vstd::seq_lib::to_multiset_build(list.take(upto - 1), list[upto - 1]);
    } else {
        assert(list.take(0) =~= Seq::<UniverseInfo>::empty());
    }
}

/// The name of the file in which the universe `id` is kept.
pub fn universe_file_name(id: &str) -> (name: String)
    ensures
        name@ == universe_file_text(id@),
{
    String::from_str(id).concat(".json")
}

/// The name of the file in which the graph of the universe `id` is kept.
pub fn graph_file_name(id: &str) -> (name: String)
    ensures
        name@ == graph_file_text(id@),
{
    String::from_str("graph_").concat(id).concat(".json")
}

/// The identifier of the universe that a file is of.
pub fn universe_id_of(file_stem: &str) -> (id: String)
    ensures
        id@ == id_text(file_stem@),
{
    match strip_prefix(file_stem, "graph_") {
        Some(tail) => {
            proof {
                let mark = "graph_"@;
                assert(file_stem@.subrange(0, mark.len() as int) =~= mark);
            }
            tail.to_owned()
        },
        None => file_stem.to_owned(),
    }
}

/// How often `pattern` occurs in `text`.
pub fn count_occurrences(text: &[u8], pattern: &[u8]) -> (count: usize)
    ensures
        count == occurrences(text@, pattern@, 0),
{
    let n: usize = text.len();
    let m: usize = pattern.len();
    if m == 0 || m > n {
        return 0;
    }
    let mut count: usize = 0;
    let mut i: usize = 0;
    while i <= n - m
        invariant
            n == text@.len(),
            m == pattern@.len(),
            0 < m <= n,
            i <= n,
            count <= i,
            count + occurrences(text@, pattern@, i as int) == occurrences(text@, pattern@, 0),
        decreases n - i,
    {
        let mut k: usize = 0;
        while k < m && text[i + k] == pattern[k]
            invariant
                n == text@.len(),
                m == pattern@.len(),
                i + m <= n,
                k <= m,
                forall|j: int| 0 <= j < k ==> text@[i + j] == pattern@[j],
            decreases m - k,
        {
            k += 1;
        }
        if k == m {
            assert(text@.subrange(i as int, i + m) =~= pattern@);
            count += 1;
            i += m;
        } else {
            i += 1;
        }
    }
    count
}

/// A guess at the number of nodes of the universe that is kept in a file:
/// how often the file names an identifier.
pub fn count_nodes(content: &str) -> (count: usize)
    ensures
        count == occurrences(content.spec_bytes(), "\"id\":".spec_bytes(), 0),
{
    count_occurrences(content.as_bytes(), "\"id\":".as_bytes())
}

/// What a listing says of the universe that is kept in a file.
pub fn describe(file_stem: &str, node_count: usize, created_at: i64) -> (info: UniverseInfo)
    ensures
        info.id@ == id_text(file_stem@),
        info.title@ == "Universe "@ + id_text(file_stem@),
        info.created_at == created_at,
        info.node_count == node_count,
{
    let id: String = universe_id_of(file_stem);
    let title: String = String::from_str("Universe ").concat(id.as_str());
    UniverseInfo { id, title, created_at, node_count }
}

/// The listing with the newest universe first. Universes of the same time
/// keep their order.
pub fn newest_first(list: Vec<UniverseInfo>) -> (sorted: Vec<UniverseInfo>)
    ensures
        sorted@ == newest(list@, list@.len() as int),
        is_newest_first(sorted@),
        sorted@.to_multiset() == list@.to_multiset(),
{
    let ghost all = list@;
    let mut rest: Vec<UniverseInfo> = list;
    let mut sorted: Vec<UniverseInfo> = Vec::new();
    let ghost mut done: int = 0;
    while rest.len() > 0
        invariant
            0 <= done <= all.len(),
            rest@ == all.skip(done),
            sorted@ == newest(all, done),
        decreases rest@.len(),
    {
        let info: UniverseInfo = rest.remove(0);
        proof {
            newest_is_ordered(all, done);
        }
        let mut at: usize = 0;
        while at < sorted.len() && sorted[at].created_at >= info.created_at
            invariant
                at <= sorted@.len(),
                at == place_for(sorted@, info.created_at, at as int),
                forall|j: int| 0 <= j < at ==> sorted@[j].created_at >= info.created_at,
            decreases sorted@.len() - at,
        {
            at += 1;
        }
        proof {
            place_stays(sorted@, info.created_at, at as int, sorted@.len() as int);
        }
        sorted.insert(at, info);
        proof {
            done = done + 1;
        }
    }
    proof {
        newest_is_ordered(all, all.len() as int);
        assert(all.take(all.len() as int) =~= all);
    }
    sorted
}

/// Once an older entry stands at the place, it stays the place.
proof fn place_stays(list: Seq<UniverseInfo>, created_at: i64, at: int, upto: int)
    requires
        0 <= at <= upto <= list.len(),
        place_for(list, created_at, at) == at,
        at < list.len() ==> list[at].created_at < created_at,
    ensures
        place_for(list, created_at, upto) == at,
    decreases upto - at,
{
    if at < upto {
        place_stays(list, created_at, at, upto - 1);
    }
}

/// Where to load a universe from: from the file of its graph where there is
/// one, else from the file of the universe, if there is one.
pub fn plan_load(graph_file_exists: bool, universe_file_exists: bool) -> (plan: LoadPlan)
    ensures
        plan == if graph_file_exists {
            LoadPlan::GraphFile
        } else if universe_file_exists {
            LoadPlan::UniverseFile
        } else {
            LoadPlan::NotFound
        },
{
    if graph_file_exists {
        LoadPlan::GraphFile
    } else if universe_file_exists {
        LoadPlan::UniverseFile
    } else {
        LoadPlan::NotFound
    }
}

} // verus!
