//! Resolution of a resource name to the first candidate path that exists.
//!
//! A resource may lie in the host framework's packaged-resource directory or
//! near the running executable. The candidates are probed in a fixed order and
//! the first one that exists is the result. The crate never touches the disk:
//! a [`Search`] names the path to probe next, and the host reports what it
//! found there.

use crate::paths::{is_absolute, join, joined};
use vstd::prelude::*;

verus! {

/// Directory beside the executable in which some packaging layouts nest
/// resources that were declared one level up.
pub const NESTED_DIR: &'static str = "_up_";

/// Resource directory that is a sibling of the executable's directory.
pub const SIBLING_DIR: &'static str = "../resources";

/// The three places near the executable where `name` may lie, in probing
/// order: directly in `dir`, in its nested directory, in the sibling
/// resource directory.
pub open spec fn executable_candidates(dir: Seq<char>, name: Seq<char>) -> Seq<Seq<char>> {
    seq![
        joined(dir, name),
        joined(joined(dir, NESTED_DIR@), name),
        joined(joined(dir, SIBLING_DIR@), name),
    ]
}

/// Every candidate path for `name`, in probing order. `packaged` is the path
/// the host framework gives for `name` in its packaged-resource directory, if
/// it can give one; `exe_dir` is the directory of the running executable, if
/// it is known.
pub open spec fn candidate_paths(
    packaged: Option<Seq<char>>,
    exe_dir: Option<Seq<char>>,
    name: Seq<char>,
) -> Seq<Seq<char>> {
    let first = match packaged {
        Some(path) => seq![path],
        None => Seq::empty(),
    };
    let near = match exe_dir {
        Some(dir) => executable_candidates(dir, name),
        None => Seq::empty(),
    };
    first + near
}

/// Whether `i` is the position of the first candidate that is on `disk`.
pub open spec fn first_on_disk(candidates: Seq<Seq<char>>, disk: Set<Seq<char>>, i: int) -> bool {
    &&& 0 <= i < candidates.len()
    &&& disk.contains(candidates[i])
    &&& forall|j: int| 0 <= j < i ==> !disk.contains(#[trigger] candidates[j])
}

/// What resolution yields when `disk` is the set of paths that exist: the
/// first candidate on it, or nothing when no candidate is on it.
pub open spec fn resolved(candidates: Seq<Seq<char>>, disk: Set<Seq<char>>) -> Option<Seq<char>> {
    if exists|i: int| first_on_disk(candidates, disk, i) {
        Some(candidates[choose|i: int| first_on_disk(candidates, disk, i)])
    } else {
        None
    }
}

/// The state of a search, as a mathematical value.
#[verifier::ext_equal]
pub struct SearchState {
    /// The candidate paths, in probing order.
    pub candidates: Seq<Seq<char>>,
    /// How many candidates were reported missing.
    pub cursor: nat,
    /// Whether the candidate at `cursor` was reported to exist.
    pub found: bool,
}

impl SearchState {
    /// The cursor stays within the candidates, and points at one when a
    /// candidate was found.
    pub open spec fn wf(self) -> bool {
        &&& self.cursor <= self.candidates.len()
        &&& self.found ==> self.cursor < self.candidates.len()
    }

    /// The state before any probe.
    pub open spec fn start(candidates: Seq<Seq<char>>) -> SearchState {
        SearchState { candidates, cursor: 0, found: false }
    }

    /// Whether the search has its result: a candidate was found, or none is
    /// left to probe.
    pub open spec fn finished(self) -> bool {
        self.found || self.cursor >= self.candidates.len()
    }

    /// The path whose existence has to be reported next, if any.
    pub open spec fn pending(self) -> Option<Seq<char>> {
        if self.finished() {
            None
        } else {
            Some(self.candidates[self.cursor as int])
        }
    }

    /// The path that was found, if any.
    pub open spec fn outcome(self) -> Option<Seq<char>> {
        if self.found && self.cursor < self.candidates.len() {
            Some(self.candidates[self.cursor as int])
        } else {
            None
        }
    }

    /// How many probes were reported.
    pub open spec fn probes(self) -> nat {
        if self.found {
            self.cursor + 1
        } else {
            self.cursor
        }
    }

    /// The state after the host reported whether the pending path exists.
    /// A report to a finished search changes nothing.
    pub open spec fn answer(self, exists: bool) -> SearchState {
        if self.finished() {
            self
        } else if exists {
            SearchState { found: true, ..self }
        } else {
            SearchState { cursor: self.cursor + 1, ..self }
        }
    }

    /// The state after every pending probe was answered from `disk`.
    pub open spec fn settle(self, disk: Set<Seq<char>>) -> SearchState
        decreases self.candidates.len() - self.cursor,
    {
        if self.finished() {
            self
        } else if disk.contains(self.candidates[self.cursor as int]) {
            self.answer(true)
        } else {
            self.answer(false).settle(disk)
        }
    }
}

/// A search for the first existing path among ordered candidates.
pub struct Search {
    candidates: Vec<String>,
    cursor: usize,
    found: bool,
}

impl View for Search {
    type V = SearchState;

    closed spec fn view(&self) -> SearchState {
        SearchState {
            candidates: self.candidates.deep_view(),
            cursor: self.cursor as nat,
            found: self.found,
        }
    }
}

impl Search {
    /// The state of every search is well formed.
    #[verifier::type_invariant]
    pub open spec fn inv(self) -> bool {
        self@.wf()
    }

    /// A search over `candidates`, in their order, with no probe made yet.
    pub fn new(candidates: Vec<String>) -> (search: Search)
        ensures
            search@ == SearchState::start(candidates.deep_view()),
            search@.wf(),
    {
        Search { candidates, cursor: 0, found: false }
    }

    /// Whether the search has its result.
    pub fn is_finished(&self) -> (done: bool)
        ensures
            done == self@.finished(),
    {
        proof {
            use_type_invariant(self);
        }
        self.found || self.cursor >= self.candidates.len()
    }

    /// The path that the host has to probe next. Nothing is pending once a
    /// candidate was found or every candidate was reported missing.
    pub fn pending(&self) -> (path: Option<&String>)
        ensures
            path.deep_view() == self@.pending(),
    {
        proof {
            use_type_invariant(self);
        }
        if self.found || self.cursor >= self.candidates.len() {
            None
        } else {
            Some(&self.candidates[self.cursor])
        }
    }

    /// Takes the host's report on the pending path.
    pub fn answer(&mut self, exists: bool)
        ensures
            final(self)@ == old(self)@.answer(exists),
            final(self)@.wf(),
    {
        proof {
            use_type_invariant(&*self);
        }
        if !self.found && self.cursor < self.candidates.len() {
            if exists {
                self.found = true;
            } else {
                self.cursor = self.cursor + 1;
            }
        }
    }

    /// The path that was found, if any.
    pub fn outcome(&self) -> (path: Option<&String>)
        ensures
            path.deep_view() == self@.outcome(),
    {
        proof {
            use_type_invariant(self);
        }
        if self.found {
            Some(&self.candidates[self.cursor])
        } else {
            None
        }
    }

    /// How many probes the host has reported.
    pub fn probes(&self) -> (count: usize)
        ensures
            count == self@.probes(),
    {
        proof {
            use_type_invariant(self);
        }
        let len: usize = self.candidates.len();
        if self.found {
            assert(self.cursor < len);
            self.cursor + 1
        } else {
            self.cursor
        }
    }
}

/// Lists every candidate path for `name`, in probing order.
pub fn candidates(packaged: Option<String>, exe_dir: Option<&str>, name: &str) -> (list: Vec<
    String,
>)
    ensures
        list.deep_view() == candidate_paths(packaged.deep_view(), exe_dir.deep_view(), name@),
{
    let mut list: Vec<String> = Vec::new();
    if let Some(path) = packaged {
        list.push(path);
    }
    if let Some(dir) = exe_dir {
        list.push(join(dir, name));
        let nested = join(dir, NESTED_DIR);
        list.push(join(nested.as_str(), name));
        let sibling = join(dir, SIBLING_DIR);
        list.push(join(sibling.as_str(), name));
    }
    assert(list.deep_view() =~= candidate_paths(
        packaged.deep_view(),
        exe_dir.deep_view(),
        name@,
    ));
    list
}

/// Begins the resolution of the resource `rel`. The search that is returned
/// names the packaged path first, then the three paths near the executable;
/// its outcome, once the host has answered its probes, is the first of them
/// that exists.
pub fn resolve_resource(packaged: Option<String>, exe_dir: Option<&str>, rel: &str) -> (search:
    Search)
    ensures
        search@ == SearchState::start(
            candidate_paths(packaged.deep_view(), exe_dir.deep_view(), rel@),
        ),
{
    Search::new(candidates(packaged, exe_dir, rel))
}

/// The first candidate on disk is unique, and it is what resolution yields.
pub proof fn lemma_resolved_is_first(candidates: Seq<Seq<char>>, disk: Set<Seq<char>>, i: int)
    requires
        first_on_disk(candidates, disk, i),
    ensures
        resolved(candidates, disk) == Some(candidates[i]),
{
    let k = choose|k: int| first_on_disk(candidates, disk, k);
    if k < i {
        assert(!disk.contains(candidates[k]));
    }
    if i < k {
        assert(!disk.contains(candidates[i]));
    }
}

/// Resolution yields nothing exactly when no candidate is on disk.
pub proof fn lemma_resolved_none(candidates: Seq<Seq<char>>, disk: Set<Seq<char>>)
    ensures
        resolved(candidates, disk) is None <==> forall|i: int|
            0 <= i < candidates.len() ==> !disk.contains(#[trigger] candidates[i]),
{
    if resolved(candidates, disk) is None {
        assert forall|i: int| 0 <= i < candidates.len() implies !disk.contains(
            #[trigger] candidates[i],
        ) by {
            if disk.contains(candidates[i]) {
                lemma_first_exists(candidates, disk, i);
            }
        }
    } else {
        let k = choose|k: int| first_on_disk(candidates, disk, k);
        assert(disk.contains(candidates[k]));
    }
}

/// Below any candidate on disk lies a first one.
proof fn lemma_first_exists(candidates: Seq<Seq<char>>, disk: Set<Seq<char>>, i: int)
    requires
        0 <= i < candidates.len(),
        disk.contains(candidates[i]),
    ensures
        exists|k: int| 0 <= k <= i && first_on_disk(candidates, disk, k),
    decreases i,
{
    if exists|j: int| 0 <= j < i && disk.contains(#[trigger] candidates[j]) {
        let j = choose|j: int| 0 <= j < i && disk.contains(#[trigger] candidates[j]);
        lemma_first_exists(candidates, disk, j);
    } else {
        assert(first_on_disk(candidates, disk, i));
    }
}

/// From a state in which every candidate before the cursor is off disk, the
/// search settles on what resolution yields.
proof fn lemma_settle(state: SearchState, disk: Set<Seq<char>>)
    requires
        state.wf(),
        !state.found,
        forall|j: int| 0 <= j < state.cursor ==> !disk.contains(#[trigger] state.candidates[j]),
    ensures
        state.settle(disk).wf(),
        state.settle(disk).finished(),
        state.settle(disk).candidates == state.candidates,
        state.settle(disk).outcome() == resolved(state.candidates, disk),
        state.settle(disk).found ==> first_on_disk(
            state.candidates,
            disk,
            state.settle(disk).cursor as int,
        ),
        !state.settle(disk).found ==> state.settle(disk).cursor == state.candidates.len(),
    decreases state.candidates.len() - state.cursor,
{
    if state.finished() {
        lemma_resolved_none(state.candidates, disk);
    } else if disk.contains(state.candidates[state.cursor as int]) {
        lemma_resolved_is_first(state.candidates, disk, state.cursor as int);
    } else {
        lemma_settle(state.answer(false), disk);
    }
}

/// A search answered from the disk ends with exactly what resolution yields.
/// It stops at the first candidate that exists: when one is found at position
/// `i`, `i + 1` probes were made and no later candidate was touched; when none
/// exists, every candidate was probed once.
pub proof fn law_search_resolves(candidates: Seq<Seq<char>>, disk: Set<Seq<char>>)
    ensures
        SearchState::start(candidates).settle(disk).finished(),
        SearchState::start(candidates).settle(disk).outcome() == resolved(candidates, disk),
        forall|i: int| #[trigger]
            first_on_disk(candidates, disk, i) ==> SearchState::start(candidates).settle(
                disk,
            ).probes() == i + 1,
        resolved(candidates, disk) is None ==> SearchState::start(candidates).settle(
            disk,
        ).probes() == candidates.len(),
{
    let start = SearchState::start(candidates);
    let end = start.settle(disk);
    lemma_settle(start, disk);
    assert forall|i: int| #[trigger] first_on_disk(candidates, disk, i) implies end.probes() == i
        + 1 by {
        lemma_resolved_is_first(candidates, disk, i);
        let k = end.cursor as int;
        if k < i {
            assert(!disk.contains(candidates[k]));
        }
        if i < k {
            assert(!disk.contains(candidates[i]));
        }
    }
}

/// Once a search is finished, no report changes it: after the first
/// candidate that exists, nothing more is probed.
pub proof fn law_finished_is_final(state: SearchState, exists: bool)
    requires
        state.finished(),
    ensures
        state.answer(exists) == state,
        state.answer(exists).pending() is None,
{
}

/// Whether the directories that the candidates start from are absolute.
pub open spec fn absolute_origins(packaged: Option<Seq<char>>, exe_dir: Option<Seq<char>>) -> bool {
    &&& packaged matches Some(path) ==> is_absolute(path)
    &&& exe_dir matches Some(dir) ==> is_absolute(dir)
}

/// A resolved path is one of the candidates and exists. Where the packaged
/// path and the executable's directory are absolute, it is absolute too.
pub proof fn law_resolved_exists(
    packaged: Option<Seq<char>>,
    exe_dir: Option<Seq<char>>,
    name: Seq<char>,
    disk: Set<Seq<char>>,
)
    requires
        resolved(candidate_paths(packaged, exe_dir, name), disk) is Some,
    ensures
        disk.contains(resolved(candidate_paths(packaged, exe_dir, name), disk).unwrap()),
        candidate_paths(packaged, exe_dir, name).contains(
            resolved(candidate_paths(packaged, exe_dir, name), disk).unwrap(),
        ),
        absolute_origins(packaged, exe_dir) ==> is_absolute(
            resolved(candidate_paths(packaged, exe_dir, name), disk).unwrap(),
        ),
{
    let all = candidate_paths(packaged, exe_dir, name);
    let i = choose|i: int| first_on_disk(all, disk, i);
    assert(all[i] == resolved(all, disk).unwrap());
}

/// Where the packaged path exists, it is the result, whatever else exists.
pub proof fn law_packaged_first(
    packaged: Seq<char>,
    exe_dir: Option<Seq<char>>,
    name: Seq<char>,
    disk: Set<Seq<char>>,
)
    requires
        disk.contains(packaged),
    ensures
        resolved(candidate_paths(Some(packaged), exe_dir, name), disk) == Some(packaged),
{
    let all = candidate_paths(Some(packaged), exe_dir, name);
    assert(all[0] == packaged);
    assert(first_on_disk(all, disk, 0));
    lemma_resolved_is_first(all, disk, 0);
}

/// Where the packaged path is absent, the result is the first of the three
/// paths near the executable that exists, in the order same directory, nested
/// directory, sibling resource directory, whether or not a later one exists
/// too.
pub proof fn law_executable_order(
    packaged: Option<Seq<char>>,
    exe_dir: Seq<char>,
    name: Seq<char>,
    disk: Set<Seq<char>>,
    i: int,
)
    requires
        packaged matches Some(path) ==> !disk.contains(path),
        first_on_disk(executable_candidates(exe_dir, name), disk, i),
    ensures
        resolved(candidate_paths(packaged, Some(exe_dir), name), disk) == Some(
            executable_candidates(exe_dir, name)[i],
        ),
{
    let near = executable_candidates(exe_dir, name);
    let all = candidate_paths(packaged, Some(exe_dir), name);
    let shift: int = if packaged is Some {
        1
    } else {
        0
    };
    assert(all.len() == near.len() + shift);
    assert forall|j: int| 0 <= j < near.len() implies all[j + shift] == near[j] by {}
    assert forall|j: int| 0 <= j < i + shift implies !disk.contains(#[trigger] all[j]) by {
        if j >= shift {
            assert(all[j] == near[j - shift]);
        }
    }
    assert(first_on_disk(all, disk, i + shift));
    lemma_resolved_is_first(all, disk, i + shift);
}

/// Where no candidate exists, resolution yields nothing.
pub proof fn law_none_found(
    packaged: Option<Seq<char>>,
    exe_dir: Option<Seq<char>>,
    name: Seq<char>,
    disk: Set<Seq<char>>,
)
    requires
        forall|i: int|
            0 <= i < candidate_paths(packaged, exe_dir, name).len() ==> !disk.contains(
                #[trigger] candidate_paths(packaged, exe_dir, name)[i],
            ),
    ensures
        resolved(candidate_paths(packaged, exe_dir, name), disk) is None,
{
    lemma_resolved_none(candidate_paths(packaged, exe_dir, name), disk);
}

} // verus!
