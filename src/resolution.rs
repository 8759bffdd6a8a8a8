//! The shape of the resolver's final answer: which packages it holds, and
//! which links of its dependency graph lead where, of which kinds. The record
//! is built only from an answer whose nodes are distinct, whose link kinds are
//! all known, and whose links lead to known nodes and packages.

use vstd::prelude::*;
use crate::features::{contains_token, has_token};
use crate::query::BuildError;

verus! {

/// The kind of a dependency link.
pub enum DepKind {
    Normal,
    Development,
    Build,
    /// A kind that the resolver's answer names but this library does not know.
    Unknown,
}

/// A link from a node to a package it depends on, with the kinds of that dependency.
pub struct DepLink {
    pub id: String,
    pub kinds: Vec<DepKind>,
}

/// A node of the dependency graph: a package id and the links it has.
pub struct NodeLinks {
    pub id: String,
    pub deps: Vec<DepLink>,
}

/// The dependency resolution of an answer.
pub struct Resolution {
    /// The id of the package the answer was computed for.
    pub root: Option<String>,
    pub nodes: Vec<NodeLinks>,
}

/// The ids of an answer's packages and its resolution, if it has one.
pub struct ResolutionSummary {
    pub package_ids: Vec<String>,
    pub resolution: Option<Resolution>,
}

/// Whether some node has the id `id`.
pub open spec fn has_node(nodes: Seq<NodeLinks>, id: Seq<char>) -> bool {
    exists|i: int| 0 <= i < nodes.len() && nodes[i].id@ == id
}

/// Whether no two nodes share an id.
pub open spec fn distinct_nodes(nodes: Seq<NodeLinks>) -> bool {
    forall|i: int, j: int| 0 <= i < j < nodes.len() ==> nodes[i].id@ != nodes[j].id@
}

/// Whether every kind of a link is known.
pub open spec fn kinds_known(d: DepLink) -> bool {
    forall|k: int| 0 <= k < d.kinds@.len() ==> !(#[trigger] d.kinds@[k] is Unknown)
}

/// Whether a link is a development dependency and nothing else.
pub open spec fn dev_only(d: DepLink) -> bool {
    d.kinds@.len() > 0 && forall|k: int| 0 <= k < d.kinds@.len() ==> #[trigger] d.kinds@[k] is Development
}

/// Whether a link leads to a node and, unless it is a development
/// dependency only, to one of the packages.
pub open spec fn link_complete(package_ids: Seq<String>, nodes: Seq<NodeLinks>, d: DepLink) -> bool {
    has_node(nodes, d.id@) && (dev_only(d) || has_token(package_ids, d.id@))
}

/// Whether the nodes are distinct and the kinds of all their links known.
pub open spec fn well_formed(nodes: Seq<NodeLinks>) -> bool {
    &&& distinct_nodes(nodes)
    &&& forall|i: int, j: int|
        0 <= i < nodes.len() && 0 <= j < nodes[i].deps@.len() ==> kinds_known(
            #[trigger] nodes[i].deps@[j],
        )
}

/// Whether every link of every node is complete.
pub open spec fn links_complete(package_ids: Seq<String>, nodes: Seq<NodeLinks>) -> bool {
    forall|i: int, j: int|
        0 <= i < nodes.len() && 0 <= j < nodes[i].deps@.len() ==> link_complete(
            package_ids,
            nodes,
            #[trigger] nodes[i].deps@[j],
        )
}

/// Whether the record can be built from an answer of this shape: it has a
/// resolution with a root, its nodes are well formed, the root has a node,
/// and every link is complete.
pub open spec fn record_ready(s: ResolutionSummary) -> bool {
    &&& s.resolution is Some
    &&& s.resolution->Some_0.root is Some
    &&& well_formed(s.resolution->Some_0.nodes@)
    &&& has_node(s.resolution->Some_0.nodes@, s.resolution->Some_0.root->Some_0@)
    &&& links_complete(s.package_ids@, s.resolution->Some_0.nodes@)
}

/// Whether some node has the id `id`.
pub fn find_node(nodes: &Vec<NodeLinks>, id: &String) -> (r: bool)
    ensures
        r == has_node(nodes@, id@),
{
    let mut i: usize = 0;
    while i < nodes.len()
        invariant
            i <= nodes@.len(),
            forall|k: int| 0 <= k < i ==> nodes@[k].id@ != id@,
        decreases nodes.len() - i,
    {
        if nodes[i].id == *id {
            return true;
        }
        i = i + 1;
    }
    false
}

/// Whether no two nodes share an id.
pub fn nodes_distinct(nodes: &Vec<NodeLinks>) -> (r: bool)
    ensures
        r == distinct_nodes(nodes@),
{
    let mut i: usize = 0;
    while i < nodes.len()
        invariant
            i <= nodes@.len(),
            forall|a: int, b: int| 0 <= a < b < nodes@.len() && a < i ==> nodes@[a].id@ != nodes@[b].id@,
        decreases nodes.len() - i,
    {
        let mut j: usize = i + 1;
        while j < nodes.len()
            invariant
                i < j <= nodes@.len(),
                forall|a: int, b: int|
                    0 <= a < b < nodes@.len() && a < i ==> nodes@[a].id@ != nodes@[b].id@,
                forall|b: int| i < b < j ==> nodes@[i as int].id@ != nodes@[b].id@,
            decreases nodes.len() - j,
        {
            if nodes[i].id == nodes[j].id {
                return false;
            }
            j = j + 1;
        }
        i = i + 1;
    }
    true
}

/// Whether every kind of the link is known, and whether it is a development dependency only.
fn link_kinds(d: &DepLink) -> (r: (bool, bool))
    ensures
        r.0 == kinds_known(*d),
        r.1 == dev_only(*d),
{
    let mut known = true;
    let mut all_dev = true;
    let mut k: usize = 0;
    while k < d.kinds.len()
        invariant
            k <= d.kinds@.len(),
            known == forall|x: int| 0 <= x < k ==> !(#[trigger] d.kinds@[x] is Unknown),
            all_dev == forall|x: int| 0 <= x < k ==> #[trigger] d.kinds@[x] is Development,
        decreases d.kinds.len() - k,
    {
        match &d.kinds[k] {
            DepKind::Unknown => {
                known = false;
                all_dev = false;
            },
            DepKind::Development => {},
            _ => {
                all_dev = false;
            },
        }
        k = k + 1;
    }
    (known, all_dev && d.kinds.len() > 0)
}

/// Whether the nodes are distinct and the kinds of all their links known.
pub fn check_well_formed(nodes: &Vec<NodeLinks>) -> (r: bool)
    ensures
        r == well_formed(nodes@),
{
    if !nodes_distinct(nodes) {
        return false;
    }
    let mut i: usize = 0;
    while i < nodes.len()
        invariant
            i <= nodes@.len(),
            distinct_nodes(nodes@),
            forall|a: int, b: int|
                0 <= a < i && 0 <= b < nodes@[a].deps@.len() ==> kinds_known(
                    #[trigger] nodes@[a].deps@[b],
                ),
        decreases nodes.len() - i,
    {
        let deps = &nodes[i].deps;
        let mut j: usize = 0;
        while j < deps.len()
            invariant
                i < nodes@.len(),
                deps == nodes@[i as int].deps,
                j <= deps@.len(),
                forall|a: int, b: int|
                    0 <= a < i && 0 <= b < nodes@[a].deps@.len() ==> kinds_known(
                        #[trigger] nodes@[a].deps@[b],
                    ),
                forall|b: int| 0 <= b < j ==> kinds_known(#[trigger] deps@[b]),
            decreases deps.len() - j,
        {
            let (known, _) = link_kinds(&deps[j]);
            if !known {
                assert(!well_formed(nodes@)) by {
                    assert(deps@[j as int] == nodes@[i as int].deps@[j as int]);
                }
                return false;
            }
            j = j + 1;
        }
        i = i + 1;
    }
    true
}

/// Whether every link of every node is complete.
pub fn check_links(package_ids: &Vec<String>, nodes: &Vec<NodeLinks>) -> (r: bool)
    ensures
        r == links_complete(package_ids@, nodes@),
{
    let mut i: usize = 0;
    while i < nodes.len()
        invariant
            i <= nodes@.len(),
            forall|a: int, b: int|
                0 <= a < i && 0 <= b < nodes@[a].deps@.len() ==> link_complete(
                    package_ids@,
                    nodes@,
                    #[trigger] nodes@[a].deps@[b],
                ),
        decreases nodes.len() - i,
    {
        let deps = &nodes[i].deps;
        let mut j: usize = 0;
        while j < deps.len()
            invariant
                i < nodes@.len(),
                deps == nodes@[i as int].deps,
                j <= deps@.len(),
                forall|a: int, b: int|
                    0 <= a < i && 0 <= b < nodes@[a].deps@.len() ==> link_complete(
                        package_ids@,
                        nodes@,
                        #[trigger] nodes@[a].deps@[b],
                    ),
                forall|b: int| 0 <= b < j ==> link_complete(package_ids@, nodes@, #[trigger] deps@[b]),
            decreases deps.len() - j,
        {
            let d = &deps[j];
            let (_, all_dev) = link_kinds(d);
            let ok = find_node(nodes, &d.id) && (all_dev || contains_token(package_ids, &d.id));
            if !ok {
                assert(!links_complete(package_ids@, nodes@)) by {
                    assert(deps@[j as int] == nodes@[i as int].deps@[j as int]);
                }
                return false;
            }
            j = j + 1;
        }
        i = i + 1;
    }
    true
}

/// Checks that the record can be built from an answer of this shape, and
/// otherwise says what is wrong with it.
pub fn check_resolution(s: &ResolutionSummary) -> (r: Result<(), BuildError>)
    ensures
        r is Ok <==> record_ready(*s),
        s.resolution is None ==> r is Err && r->Err_0 is MissingResolution,
        s.resolution is Some && s.resolution->Some_0.root is None ==> r is Err
            && r->Err_0 is VirtualWorkspace,
        s.resolution is Some && s.resolution->Some_0.root is Some && !well_formed(
            s.resolution->Some_0.nodes@,
        ) ==> r is Err && r->Err_0 is MalformedResolution,
        s.resolution is Some && s.resolution->Some_0.root is Some && well_formed(
            s.resolution->Some_0.nodes@,
        ) && !record_ready(*s) ==> r is Err && r->Err_0 is IncompleteResolution,
{
    let res = match &s.resolution {
        None => return Err(BuildError::MissingResolution),
        Some(res) => res,
    };
    let root = match &res.root {
        None => return Err(BuildError::VirtualWorkspace),
        Some(root) => root,
    };
    if !check_well_formed(&res.nodes) {
        return Err(BuildError::MalformedResolution);
    }
    if !find_node(&res.nodes, root) || !check_links(&s.package_ids, &res.nodes) {
        return Err(BuildError::IncompleteResolution);
    }
    Ok(())
}

} // verus!
