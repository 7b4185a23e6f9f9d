//! Finding the entry that speaks for a target path: in the top-level
//! targets, or in the targets of a role that they delegate the path to.

use crate::paths::covers;
use crate::schema::{Signed, Target, TargetEntry, Targets};
use crate::seqs::{first_index, lemma_first_index_is, lemma_first_index_is_none};
use crate::text::str_eq;
use crate::threshold::{count_valid_signers, threshold_met};
use vstd::prelude::*;

verus! {

/// The targets document of a delegated role, as a repository holds it
/// under the name of the role. A role whose document could not be had, or
/// may not be trusted, is held without one.
#[derive(Clone, Debug)]
pub struct DelegatedDoc {
    pub name: String,
    pub doc: Option<Signed<Targets>>,
}

/// What the search for a target path ends in.
pub enum Found {
    /// The entry that speaks for the path.
    Entry(Target),
    /// No entry speaks for the path.
    Nothing,
    /// The document of a delegated role is needed, and has not been loaded
    /// yet: that of the delegation at `at` of the targets `parent`.
    Need { parent: Targets, at: int },
    /// The delegations go deeper than the limit allows.
    TooDeep,
}

/// What the search for a target path ends in.
#[derive(Debug)]
pub enum Lookup<'a> {
    /// The entry that speaks for the path.
    Found(&'a Target),
    /// No entry speaks for the path.
    NotFound,
    /// The document of a delegated role is needed, and has not been loaded
    /// yet: that of the delegation at `at` of the targets `parent`, whose
    /// keys sign it.
    Need { parent: &'a Targets, at: usize },
    /// The delegations go deeper than the limit allows.
    TooDeep,
}

impl<'a> View for Lookup<'a> {
    type V = Found;

    open spec fn view(&self) -> Found {
        match self {
            Lookup::Found(target) => Found::Entry(**target),
            Lookup::NotFound => Found::Nothing,
            Lookup::Need { parent, at } => Found::Need { parent: **parent, at: *at as int },
            Lookup::TooDeep => Found::TooDeep,
        }
    }
}

/// The index of the first entry for the path `path`.
pub open spec fn target_index(entries: Seq<TargetEntry>, path: Seq<char>) -> Option<int> {
    first_index(entries, |entry: TargetEntry| entry.path@ == path)
}

/// The index of the first document held under the name `name`.
pub open spec fn delegated_index(docs: Seq<DelegatedDoc>, name: Seq<char>) -> Option<int> {
    first_index(docs, |doc: DelegatedDoc| doc.name@ == name)
}

/// What the branch of the delegation at `at` of the targets `parent`, which
/// covers the path, ends in. A role that the search has come through
/// already has nothing more to say: the delegations have gone in a circle.
/// Otherwise the document of the delegated role is searched if it is held
/// and the keys of the delegation have signed it as the delegation asks; a
/// role that is held without a document, or whose document they have not
/// signed so, has nothing to say. `visited` holds the names of the roles
/// that the search has come through.
pub open spec fn search_branch(
    docs: Seq<DelegatedDoc>,
    parent: Targets,
    at: int,
    path: Seq<char>,
    path_hash: Seq<char>,
    depth_left: nat,
    visited: Seq<Seq<char>>,
) -> Found
    decreases depth_left, 0int, 0int,
{
    let delegation = parent.delegations@[at];
    if visited.contains(delegation.name@) {
        Found::Nothing
    } else if depth_left == 0 {
        Found::TooDeep
    } else {
        match delegated_index(docs, delegation.name@) {
            None => Found::Need { parent, at },
            Some(held) => match docs[held].doc {
                None => Found::Nothing,
                Some(doc) => if threshold_met(delegation.role, doc.checks@) {
                    search_doc(
                        docs,
                        doc.signed,
                        path,
                        path_hash,
                        (depth_left - 1) as nat,
                        visited.push(delegation.name@),
                    )
                } else {
                    Found::Nothing
                },
            },
        }
    }
}

/// What the search of the delegations from the one at `from` on ends in.
/// A delegation that does not cover the path is passed over. The first
/// one that covers it decides, unless its branch has nothing to say and
/// it is not terminating: then the search goes on with the next one.
pub open spec fn search_from(
    docs: Seq<DelegatedDoc>,
    doc: Targets,
    from: int,
    path: Seq<char>,
    path_hash: Seq<char>,
    depth_left: nat,
    visited: Seq<Seq<char>>,
) -> Found
    decreases depth_left, 1int, doc.delegations@.len() - from,
{
    if from < 0 || from >= doc.delegations@.len() {
        Found::Nothing
    } else {
        let delegation = doc.delegations@[from];
        if !covers(delegation.paths, path, path_hash) {
            search_from(docs, doc, from + 1, path, path_hash, depth_left, visited)
        } else {
            let branch = search_branch(docs, doc, from, path, path_hash, depth_left, visited);
            if branch is Nothing && !delegation.terminating {
                search_from(docs, doc, from + 1, path, path_hash, depth_left, visited)
            } else {
                branch
            }
        }
    }
}

/// What the search of a targets document ends in: the entry that the
/// document lists for the path itself, if it lists one, and what the
/// search of its delegations ends in otherwise.
pub open spec fn search_doc(
    docs: Seq<DelegatedDoc>,
    doc: Targets,
    path: Seq<char>,
    path_hash: Seq<char>,
    depth_left: nat,
    visited: Seq<Seq<char>>,
) -> Found
    decreases depth_left, 2int, 0int,
{
    match target_index(doc.targets@, path) {
        Some(at) => Found::Entry(doc.targets@[at].target),
        None => search_from(docs, doc, 0, path, path_hash, depth_left, visited),
    }
}

/// What the search that starts at the top-level targets `doc` ends in.
/// `depth` is the number of delegations that may be followed downwards.
pub open spec fn search_top(
    docs: Seq<DelegatedDoc>,
    doc: Targets,
    path: Seq<char>,
    path_hash: Seq<char>,
    depth: nat,
) -> Found {
    search_doc(docs, doc, path, path_hash, depth, Seq::<Seq<char>>::empty())
}

/// The names in a list of names.
pub open spec fn names(visited: Seq<&str>) -> Seq<Seq<char>> {
    visited.map_values(|name: &str| name@)
}

/// Whether one of the delegations of `doc` covers the path.
pub open spec fn is_delegated(doc: Targets, path: Seq<char>, path_hash: Seq<char>) -> bool {
    exists|i: int|
        0 <= i < doc.delegations@.len() && covers(
            (#[trigger] doc.delegations@[i]).paths,
            path,
            path_hash,
        )
}

impl Targets {
    /// Whether the document delegates the path `target`, whose SHA-256
    /// digest reads `path_hash` in hexadecimal, to some role.
    pub fn target_is_delegated(&self, target: &str, path_hash: &str) -> (r: bool)
        ensures
            r == is_delegated(*self, target@, path_hash@),
    {
        let mut i: usize = 0;
        while i < self.delegations.len()
            invariant
                i <= self.delegations@.len(),
                forall|j: int|
                    0 <= j < i ==> !covers(
                        (#[trigger] self.delegations@[j]).paths,
                        target@,
                        path_hash@,
                    ),
            decreases self.delegations@.len() - i,
        {
            if self.delegations[i].paths.matches(target, path_hash) {
                return true;
            }
            i += 1;
        }
        false
    }
}

/// The entry that a targets document lists for the path itself.
pub fn find_target<'a>(doc: &'a Targets, path: &str) -> (r: Option<&'a Target>)
    ensures
        match (r, target_index(doc.targets@, path@)) {
            (Some(target), Some(at)) => *target == doc.targets@[at].target,
            (None, None) => true,
            _ => false,
        },
{
    let mut i: usize = 0;
    while i < doc.targets.len()
        invariant
            i <= doc.targets@.len(),
            forall|j: int| 0 <= j < i ==> (#[trigger] doc.targets@[j]).path@ != path@,
        decreases doc.targets@.len() - i,
    {
        if str_eq(doc.targets[i].path.as_str(), path) {
            proof {
                lemma_first_index_is(
                    doc.targets@,
                    |entry: TargetEntry| entry.path@ == path@,
                    i as int,
                );
            }
            return Some(&doc.targets[i].target);
        }
        i += 1;
    }
    proof {
        lemma_first_index_is_none(doc.targets@, |entry: TargetEntry| entry.path@ == path@);
    }
    None
}

/// The first document held under the name `name`.
pub fn find_delegated<'a>(docs: &'a Vec<DelegatedDoc>, name: &str) -> (r: Option<&'a DelegatedDoc>)
    ensures
        match (r, delegated_index(docs@, name@)) {
            (Some(doc), Some(at)) => *doc == docs@[at],
            (None, None) => true,
            _ => false,
        },
{
    let mut i: usize = 0;
    while i < docs.len()
        invariant
            i <= docs@.len(),
            forall|j: int| 0 <= j < i ==> (#[trigger] docs@[j]).name@ != name@,
        decreases docs@.len() - i,
    {
        if str_eq(docs[i].name.as_str(), name) {
            proof {
                lemma_first_index_is(docs@, |doc: DelegatedDoc| doc.name@ == name@, i as int);
            }
            return Some(&docs[i]);
        }
        i += 1;
    }
    proof {
        lemma_first_index_is_none(docs@, |doc: DelegatedDoc| doc.name@ == name@);
    }
    None
}

/// Whether `name` is one of the names `visited`.
fn is_visited(visited: &Vec<&str>, name: &str) -> (r: bool)
    ensures
        r == names(visited@).contains(name@),
{
    let mut i: usize = 0;
    while i < visited.len()
        invariant
            i <= visited@.len(),
            forall|j: int| 0 <= j < i ==> names(visited@)[j] != name@,
        decreases visited@.len() - i,
    {
        assert(names(visited@)[i as int] == visited@[i as int]@);
        if str_eq(visited[i], name) {
            return true;
        }
        i += 1;
    }
    false
}

/// The names `visited` and after them `name`.
fn with_name<'a>(visited: &Vec<&'a str>, name: &'a str) -> (r: Vec<&'a str>)
    ensures
        names(r@) == names(visited@).push(name@),
{
    let mut longer: Vec<&'a str> = Vec::new();
    let mut i: usize = 0;
    while i < visited.len()
        invariant
            i <= visited@.len(),
            longer@ == visited@.take(i as int),
        decreases visited@.len() - i,
    {
        longer.push(visited[i]);
        assert(visited@.take(i as int).push(visited@[i as int]) =~= visited@.take(i + 1));
        i += 1;
    }
    assert(visited@.take(i as int) =~= visited@);
    longer.push(name);
    assert(names(longer@) =~= names(visited@).push(name@));
    longer
}

/// Searches a targets document, and the documents that it delegates to,
/// for the entry that speaks for `path`. `depth_left` is the number of
/// delegations that may still be followed downwards, and `visited` holds
/// the names of the roles that the search has come through.
fn search_below<'a>(
    docs: &'a Vec<DelegatedDoc>,
    doc: &'a Targets,
    path: &str,
    path_hash: &str,
    depth_left: u64,
    visited: &Vec<&'a str>,
) -> (r: Lookup<'a>)
    ensures
        r@ == search_doc(docs@, *doc, path@, path_hash@, depth_left as nat, names(visited@)),
    decreases depth_left,
{
    match find_target(doc, path) {
        Some(target) => {
            return Lookup::Found(target);
        },
        None => {},
    }
    let mut i: usize = 0;
    while i < doc.delegations.len()
        invariant
            i <= doc.delegations@.len(),
            search_doc(docs@, *doc, path@, path_hash@, depth_left as nat, names(visited@))
                == search_from(
                docs@,
                *doc,
                i as int,
                path@,
                path_hash@,
                depth_left as nat,
                names(visited@),
            ),
        decreases doc.delegations@.len() - i,
    {
        let delegation = &doc.delegations[i];
        let ghost branch_found = search_branch(
            docs@,
            *doc,
            i as int,
            path@,
            path_hash@,
            depth_left as nat,
            names(visited@),
        );
        if delegation.paths.matches(path, path_hash) {
            let branch = if is_visited(visited, delegation.name.as_str()) {
                Lookup::NotFound
            } else if depth_left == 0 {
                assert(branch_found == Found::TooDeep);
                return Lookup::TooDeep;
            } else {
                match find_delegated(docs, delegation.name.as_str()) {
                    None => {
                        assert(branch_found == Found::Need { parent: *doc, at: i as int });
                        return Lookup::Need { parent: doc, at: i };
                    },
                    Some(held) => match &held.doc {
                        None => Lookup::NotFound,
                        Some(sub) => {
                            let valid = count_valid_signers(&delegation.role, &sub.checks);
                            if delegation.role.threshold >= 1 && valid as u64
                                >= delegation.role.threshold {
                                let below = with_name(visited, delegation.name.as_str());
                                search_below(
                                    docs,
                                    &sub.signed,
                                    path,
                                    path_hash,
                                    depth_left - 1,
                                    &below,
                                )
                            } else {
                                Lookup::NotFound
                            }
                        },
                    },
                }
            };
            assert(branch@ == branch_found);
            match branch {
                Lookup::NotFound => {
                    if delegation.terminating {
                        return Lookup::NotFound;
                    }
                },
                decided => {
                    return decided;
                },
            }
        }
        i += 1;
    }
    Lookup::NotFound
}

/// Searches the top-level targets `doc`, and the documents that they
/// delegate to, for the entry that speaks for `path`, whose SHA-256 digest
/// reads `path_hash` in hexadecimal. `depth` is the number of delegations
/// that may be followed downwards.
pub fn search<'a>(
    docs: &'a Vec<DelegatedDoc>,
    doc: &'a Targets,
    path: &str,
    path_hash: &str,
    depth: u64,
) -> (r: Lookup<'a>)
    ensures
        r@ == search_top(docs@, *doc, path@, path_hash@, depth as nat),
{
    let visited: Vec<&'a str> = Vec::new();
    assert(names(visited@) =~= Seq::<Seq<char>>::empty());
    search_below(docs, doc, path, path_hash, depth, &visited)
}

/// Whether a delegation lets the search pass on to the one after it: it
/// does not cover the path, or its branch has nothing to say and it is not
/// terminating.
pub open spec fn passes_on(
    docs: Seq<DelegatedDoc>,
    doc: Targets,
    at: int,
    path: Seq<char>,
    path_hash: Seq<char>,
    depth_left: nat,
    visited: Seq<Seq<char>>,
) -> bool {
    !covers(doc.delegations@[at].paths, path, path_hash) || (search_branch(
        docs,
        doc,
        at,
        path,
        path_hash,
        depth_left,
        visited,
    ) is Nothing && !doc.delegations@[at].terminating)
}

/// The search of the delegations comes to the first one that does not let
/// it pass on.
pub proof fn lemma_search_comes_to(
    docs: Seq<DelegatedDoc>,
    doc: Targets,
    from: int,
    at: int,
    path: Seq<char>,
    path_hash: Seq<char>,
    depth_left: nat,
    visited: Seq<Seq<char>>,
)
    requires
        0 <= from <= at <= doc.delegations@.len(),
        forall|j: int|
            from <= j < at ==> #[trigger] passes_on(
                docs,
                doc,
                j,
                path,
                path_hash,
                depth_left,
                visited,
            ),
    ensures
        search_from(docs, doc, from, path, path_hash, depth_left, visited) == search_from(
            docs,
            doc,
            at,
            path,
            path_hash,
            depth_left,
            visited,
        ),
    decreases at - from,
{
    if from < at {
        assert(passes_on(docs, doc, from, path, path_hash, depth_left, visited));
        lemma_search_comes_to(
            docs,
            doc,
            from + 1,
            at,
            path,
            path_hash,
            depth_left,
            visited,
        );
    }
}

/// A path that a terminating delegation covers, and that the delegated
/// role has nothing to say of, is not found, whatever the delegations
/// after it would have said: provided the document does not list the path
/// itself and the search comes to that delegation.
pub proof fn lemma_terminating_delegation_ends_the_search(
    docs: Seq<DelegatedDoc>,
    doc: Targets,
    at: int,
    path: Seq<char>,
    path_hash: Seq<char>,
    depth_left: nat,
    visited: Seq<Seq<char>>,
)
    requires
        target_index(doc.targets@, path) is None,
        0 <= at < doc.delegations@.len(),
        forall|j: int|
            0 <= j < at ==> #[trigger] passes_on(
                docs,
                doc,
                j,
                path,
                path_hash,
                depth_left,
                visited,
            ),
        covers(doc.delegations@[at].paths, path, path_hash),
        doc.delegations@[at].terminating,
        search_branch(docs, doc, at, path, path_hash, depth_left, visited) is Nothing,
    ensures
        search_doc(docs, doc, path, path_hash, depth_left, visited) is Nothing,
{
    lemma_search_comes_to(docs, doc, 0, at, path, path_hash, depth_left, visited);
}

/// The document of a delegated role is searched only where the keys of the
/// delegation have signed it as the delegation asks: a role whose document
/// they have not signed so has nothing to say.
pub proof fn lemma_unsigned_delegate_says_nothing(
    docs: Seq<DelegatedDoc>,
    parent: Targets,
    at: int,
    path: Seq<char>,
    path_hash: Seq<char>,
    depth_left: nat,
    visited: Seq<Seq<char>>,
)
    requires
        depth_left > 0,
        delegated_index(docs, parent.delegations@[at].name@) matches Some(held) && (
        docs[held].doc matches Some(doc) ==> !threshold_met(
            parent.delegations@[at].role,
            doc.checks@,
        )),
    ensures
        search_branch(docs, parent, at, path, path_hash, depth_left, visited) is Nothing,
{
}

/// Whether the document `doc` speaks for the path with the entry `target`:
/// it lists the entry for the path itself; or it lists none for the path,
/// one of its delegations covers the path, the document of the delegated
/// role is held, the keys of the delegation have signed it as the
/// delegation asks, and that document speaks for the path with the entry,
/// no more than `depth_left` delegations further down.
pub open spec fn speaks_for(
    docs: Seq<DelegatedDoc>,
    doc: Targets,
    path: Seq<char>,
    path_hash: Seq<char>,
    target: Target,
    depth_left: nat,
) -> bool
    decreases depth_left, 1int,
{
    match target_index(doc.targets@, path) {
        Some(at) => doc.targets@[at].target == target,
        None => exists|i: int|
            #[trigger] has_delegation(doc, i) && hands_down(
                docs,
                doc,
                i,
                path,
                path_hash,
                target,
                depth_left,
            ),
    }
}

/// Whether `doc` has a delegation at `i`.
pub open spec fn has_delegation(doc: Targets, i: int) -> bool {
    0 <= i < doc.delegations@.len()
}

/// Whether the delegation at `i` of `doc` hands the path down to a
/// document that is held, signed as the delegation asks, and speaks for
/// the path with the entry `target`.
pub open spec fn hands_down(
    docs: Seq<DelegatedDoc>,
    doc: Targets,
    i: int,
    path: Seq<char>,
    path_hash: Seq<char>,
    target: Target,
    depth_left: nat,
) -> bool
    decreases depth_left, 0int,
{
    let delegation = doc.delegations@[i];
    &&& depth_left > 0
    &&& covers(delegation.paths, path, path_hash)
    &&& delegated_index(docs, delegation.name@) matches Some(held)
    &&& docs[held].doc matches Some(sub)
    &&& threshold_met(delegation.role, sub.checks@)
    &&& speaks_for(docs, sub.signed, path, path_hash, target, (depth_left - 1) as nat)
}

/// An entry that a search finds is one that the document searched speaks
/// for: it stands in that document, or in the document of a delegated role
/// that is reached through delegations which cover the path, each signed
/// by the keys of the delegation that leads to it.
pub proof fn lemma_found_entry_is_spoken_for(
    docs: Seq<DelegatedDoc>,
    doc: Targets,
    path: Seq<char>,
    path_hash: Seq<char>,
    depth_left: nat,
    visited: Seq<Seq<char>>,
    target: Target,
)
    requires
        search_doc(docs, doc, path, path_hash, depth_left, visited) == Found::Entry(target),
    ensures
        speaks_for(docs, doc, path, path_hash, target, depth_left),
    decreases depth_left, 2int, 0int,
{
    match target_index(doc.targets@, path) {
        Some(at) => {
            assert(doc.targets@[at].target == target);
        },
        None => {
            lemma_found_below_is_spoken_for(
                docs,
                doc,
                0,
                path,
                path_hash,
                depth_left,
                visited,
                target,
            );
        },
    }
}

/// An entry that the search of the delegations from `from` on finds is one
/// that the document speaks for.
proof fn lemma_found_below_is_spoken_for(
    docs: Seq<DelegatedDoc>,
    doc: Targets,
    from: int,
    path: Seq<char>,
    path_hash: Seq<char>,
    depth_left: nat,
    visited: Seq<Seq<char>>,
    target: Target,
)
    requires
        0 <= from,
        search_from(docs, doc, from, path, path_hash, depth_left, visited) == Found::Entry(target),
    ensures
        exists|i: int|
            #[trigger] has_delegation(doc, i) && hands_down(
                docs,
                doc,
                i,
                path,
                path_hash,
                target,
                depth_left,
            ),
    decreases depth_left, 1int, doc.delegations@.len() - from,
{
    let delegation = doc.delegations@[from];
    let branch = search_branch(docs, doc, from, path, path_hash, depth_left, visited);
    if covers(delegation.paths, path, path_hash) && !(branch is Nothing
        && !delegation.terminating) {
        // This delegation decides, and it has found the entry.
        assert(branch == Found::Entry(target));
        let held = delegated_index(docs, delegation.name@)->0;
        let sub = docs[held].doc->0;
        lemma_found_entry_is_spoken_for(
            docs,
            sub.signed,
            path,
            path_hash,
            (depth_left - 1) as nat,
            visited.push(delegation.name@),
            target,
        );
        assert(has_delegation(doc, from));
        assert(hands_down(docs, doc, from, path, path_hash, target, depth_left));
    } else {
        lemma_found_below_is_spoken_for(
            docs,
            doc,
            from + 1,
            path,
            path_hash,
            depth_left,
            visited,
            target,
        );
    }
}

} // verus!
