//! Turning the resolver's final answer into the compressed record that the
//! binary embeds, and telling the compile step where that record lies.

use vstd::prelude::*;
use vstd::string::*;
use crate::text::same_text;
use vstd::utf8::encode_utf8;
use crate::query::BuildError;
use crate::resolution::{
    check_resolution, record_ready, well_formed, DepKind, DepLink, NodeLinks, Resolution, ResolutionSummary,
};
use crate::features::{has_token, views};
use cargo_metadata::DependencyKind as Kind;

verus! {

#[verifier::external_type_specification]
#[verifier::external_body]
pub struct ExMetadata(cargo_metadata::Metadata);

#[verifier::external_type_specification]
#[verifier::external_body]
pub struct ExVersionInfo(auditable_serde::VersionInfo);

#[verifier::external_type_specification]
#[verifier::external_body]
pub struct ExJsonError(serde_json::Error);

/// The zlib stream that miniz_oxide makes of `data` at compression level `level`.
pub uninterp spec fn zlib_of(data: Seq<u8>, level: u8) -> Seq<u8>;

/// Relies on `miniz_oxide::deflate::compress_to_vec_zlib`: a zlib stream of
/// `data`, fixed by the data and the level alone (levels above 10 count as 10).
#[verifier::external_body]
fn compress_zlib(data: &[u8], level: u8) -> (r: Vec<u8>)
    ensures
        r@ == zlib_of(data@, level),
{
    miniz_oxide::deflate::compress_to_vec_zlib(data, level)
}

/// The ids of the packages of a resolver answer, in order.
pub uninterp spec fn package_ids_of(metadata: cargo_metadata::Metadata) -> Seq<Seq<char>>;

/// Relies on the public field `packages` of `cargo_metadata::Metadata`: each package's id, in order.
#[verifier::external_body]
fn answer_package_ids(m: &cargo_metadata::Metadata) -> (r: Vec<String>)
    ensures
        views(r@) == package_ids_of(*m),
{
    m.packages.iter().map(|p| p.id.repr.clone()).collect()
}

/// The root of a resolver answer: none without a resolution, else the resolution's root.
pub uninterp spec fn root_of(metadata: cargo_metadata::Metadata) -> Option<Option<Seq<char>>>;

/// Relies on the public fields `resolve` of `Metadata` and `root` of `Resolve`, copied as they stand.
#[verifier::external_body]
fn answer_root(m: &cargo_metadata::Metadata) -> (r: Option<Option<String>>)
    ensures
        root_of(*m) == match r {
            None => None,
            Some(None) => Some(None),
            Some(Some(id)) => Some(Some(id@)),
        },
{
    m.resolve.as_ref().map(|r| r.root.as_ref().map(|id| id.repr.clone()))
}

/// The nodes of a resolver answer's resolution, with the ids and kinds of their links.
pub uninterp spec fn nodes_of(metadata: cargo_metadata::Metadata) -> Seq<NodeLinks>;

/// Relies on the public fields of `Resolve`, `Node`, `NodeDep` and `DepKindInfo`:
/// each node's id and each link's id and kinds, copied as they stand, with every
/// kind but normal, dev and build as unknown. An answer without a resolution has no nodes.
#[verifier::external_body]
fn answer_nodes(m: &cargo_metadata::Metadata) -> (r: Vec<NodeLinks>)
    ensures
        r@ == nodes_of(*m),
{
    m.resolve.as_ref().map_or(Vec::new(), |r| r.nodes.iter().map(|n| NodeLinks {
        id: n.id.repr.clone(),
        deps: n.deps.iter().map(|d| DepLink {
            id: d.pkg.repr.clone(),
            kinds: d.dep_kinds.iter().map(|k| match k.kind {
                Kind::Normal => DepKind::Normal,
                Kind::Development => DepKind::Development,
                Kind::Build => DepKind::Build,
                _ => DepKind::Unknown,
            }).collect(),
        }).collect(),
    }).collect())
}

/// The packages and links of a resolver answer, as the three readers above give them.
pub open spec fn summary_matches(s: ResolutionSummary, metadata: cargo_metadata::Metadata) -> bool {
    &&& views(s.package_ids@) == package_ids_of(metadata)
    &&& match root_of(metadata) {
        None => s.resolution is None,
        Some(root) => s.resolution is Some && s.resolution->Some_0.nodes@ == nodes_of(metadata)
            && match root {
            None => s.resolution->Some_0.root is None,
            Some(id) => s.resolution->Some_0.root is Some && s.resolution->Some_0.root->Some_0@
                == id,
        },
    }
}

/// Reads the packages and links of a resolver answer.
fn resolution_summary(m: &cargo_metadata::Metadata) -> (r: ResolutionSummary)
    ensures
        summary_matches(r, *m),
{
    let package_ids = answer_package_ids(m);
    let resolution = match answer_root(m) {
        None => None,
        Some(root) => Some(Resolution { root, nodes: answer_nodes(m) }),
    };
    ResolutionSummary { package_ids, resolution }
}

/// Whether the record can be built from a resolver answer.
pub open spec fn answer_ready(metadata: cargo_metadata::Metadata) -> bool {
    exists|s: ResolutionSummary| summary_matches(s, metadata) && record_ready(s)
}

/// Two summaries of one answer agree on whether the record can be built.
proof fn lemma_ready_of_summary(s: ResolutionSummary, metadata: cargo_metadata::Metadata)
    requires
        summary_matches(s, metadata),
    ensures
        record_ready(s) <==> answer_ready(metadata),
{
    if answer_ready(metadata) {
        let t = choose|t: ResolutionSummary| summary_matches(t, metadata) && record_ready(t);
        assert(views(t.package_ids@).len() == views(s.package_ids@).len());
        assert forall|x: Seq<char>| has_token(s.package_ids@, x) == has_token(t.package_ids@, x) by {
            if has_token(s.package_ids@, x) {
                let i = choose|i: int| 0 <= i < s.package_ids@.len() && s.package_ids@[i]@ == x;
                assert(views(t.package_ids@)[i] == views(s.package_ids@)[i]);
                assert(t.package_ids@[i]@ == x);
            }
            if has_token(t.package_ids@, x) {
                let i = choose|i: int| 0 <= i < t.package_ids@.len() && t.package_ids@[i]@ == x;
                assert(views(t.package_ids@)[i] == views(s.package_ids@)[i]);
                assert(s.package_ids@[i]@ == x);
            }
        }
        assert(views(t.package_ids@).len() == views(s.package_ids@).len());
    }
}

/// The record that auditable_serde's `VersionInfo::try_from` makes of a resolver answer.
pub uninterp spec fn record_value(metadata: cargo_metadata::Metadata) -> auditable_serde::VersionInfo;

/// Relies on `VersionInfo::try_from(&Metadata)` of auditable_serde. It fails
/// only without a resolution or without a root, and it looks up without a
/// check the root's node, the node of every dependency it reaches, and the
/// package of each such dependency: `answer_ready` rules all of these out, and with them two nodes
/// of one id and a link of a kind it does not know, on which it panics too.
#[verifier::external_body]
fn record_of(metadata: &cargo_metadata::Metadata) -> (r: Result<
    auditable_serde::VersionInfo,
    BuildError,
>)
    requires
        answer_ready(*metadata),
    ensures
        r is Ok && r->Ok_0 == record_value(*metadata),
{
    match auditable_serde::VersionInfo::try_from(metadata) {
        Ok(v) => Ok(v),
        Err(auditable_serde::InsufficientMetadata::NoDeps) => Err(BuildError::MissingResolution),
        Err(auditable_serde::InsufficientMetadata::VirtualWorkspace) => Err(
            BuildError::VirtualWorkspace,
        ),
    }
}

/// The JSON text that serde_json writes for a record.
pub uninterp spec fn json_of(record: auditable_serde::VersionInfo) -> Seq<char>;

/// Relies on `serde_json::to_string`: the record as JSON text. It fails only
/// for a map with keys that are not strings or a failing `Serialize` impl,
/// and the record holds neither.
#[verifier::external_body]
fn record_json(record: &auditable_serde::VersionInfo) -> (r: Result<String, serde_json::Error>)
    ensures
        r is Ok && r->Ok_0@ == json_of(*record),
{
    serde_json::to_string(record)
}

/// The compression level for a build profile: quick for `debug`, thorough
/// (though not the most thorough) for `release`, and none for any other.
pub open spec fn level_for(profile: Seq<char>) -> Option<u8> {
    if profile == "debug"@ {
        Some(1u8)
    } else if profile == "release"@ {
        Some(7u8)
    } else {
        None
    }
}

/// Picks the compression level for the build profile, and refuses a profile
/// that is neither `debug` nor `release`.
pub fn choose_compression_level(profile: &str) -> (r: Result<u8, BuildError>)
    ensures
        match level_for(profile@) {
            Some(l) => r == Ok::<u8, BuildError>(l),
            None => r is Err && r->Err_0 is UnknownProfile && r->Err_0->UnknownProfile_0@
                == profile@,
        },
{
    if same_text(profile, "debug") {
        Ok(1)
    } else if same_text(profile, "release") {
        Ok(7)
    } else {
        Err(BuildError::UnknownProfile(profile.to_owned()))
    }
}

/// The bytes stored for the record whose JSON text is `json`, under `profile`.
pub open spec fn artifact_for(json: Seq<u8>, profile: Seq<char>) -> Option<Seq<u8>> {
    match level_for(profile) {
        Some(l) => Some(zlib_of(json, l)),
        None => None,
    }
}

/// Compresses the JSON text of a record at the level that `profile` calls for.
pub fn pack_json(json: &str, profile: &str) -> (r: Result<Vec<u8>, BuildError>)
    ensures
        match artifact_for(json.spec_bytes(), profile@) {
            Some(a) => r is Ok && r->Ok_0@ == a,
            None => r is Err && r->Err_0 is UnknownProfile && r->Err_0->UnknownProfile_0@
                == profile@,
        },
{
    match choose_compression_level(profile) {
        Ok(level) => Ok(compress_zlib(json.as_bytes(), level)),
        Err(e) => Err(e),
    }
}

/// The bytes to embed for the resolver's final answer: its record, as JSON,
/// compressed at the level that `profile` calls for. An unknown profile is
/// refused first; then an answer from which no complete record can be built.
pub fn package_metadata(metadata: &cargo_metadata::Metadata, profile: &str) -> (r: Result<
    Vec<u8>,
    BuildError,
>)
    ensures
        match level_for(profile@) {
            None => r is Err && r->Err_0 is UnknownProfile && r->Err_0->UnknownProfile_0@
                == profile@,
            Some(l) => {
                &&& root_of(*metadata) is None ==> r is Err && r->Err_0 is MissingResolution
                &&& root_of(*metadata) == Some(None::<Seq<char>>) ==> r is Err && r->Err_0 is VirtualWorkspace
                &&& root_of(*metadata) is Some && root_of(*metadata)->Some_0 is Some && !well_formed(nodes_of(*metadata))
                    ==> r is Err && r->Err_0 is MalformedResolution
                &&& root_of(*metadata) is Some && root_of(*metadata)->Some_0 is Some && well_formed(nodes_of(*metadata))
                    && !answer_ready(*metadata) ==> r is Err && r->Err_0 is IncompleteResolution
                &&& answer_ready(*metadata) ==> r is Ok && r->Ok_0@ == zlib_of(
                    encode_utf8(json_of(record_value(*metadata))),
                    l,
                )
            },
        },
{
    if let Err(e) = choose_compression_level(profile) {
        return Err(e);
    }
    let summary = resolution_summary(metadata);
    proof {
        lemma_ready_of_summary(summary, *metadata);
    }
    if let Err(e) = check_resolution(&summary) {
        return Err(e);
    }
    let record = match record_of(metadata) {
        Ok(v) => v,
        Err(e) => return Err(e),
    };
    let json = match record_json(&record) {
        Ok(j) => j,
        Err(_) => return Err(BuildError::Serialization),
    };
    pack_json(json.as_str(), profile)
}

/// The name of the file that holds the compressed record, in the output directory.
pub fn artifact_file_name() -> (r: &'static str)
    ensures
        r@ == "dependency-list.json.zlib"@,
{
    "dependency-list.json.zlib"
}

/// The line that a build step prints to hand the record's location to the
/// compile step, which embeds the file at that path.
pub fn location_directive(path: &str) -> (r: String)
    ensures
        r@ == "cargo:rustc-env=RUST_AUDIT_DEPENDENCY_FILE_LOCATION="@ + path@,
{
    "cargo:rustc-env=RUST_AUDIT_DEPENDENCY_FILE_LOCATION=".to_owned().concat(path)
}

/// The same JSON text under the same profile always gives the same bytes.
pub proof fn lemma_artifact_deterministic(json1: Seq<u8>, json2: Seq<u8>, p1: Seq<char>, p2: Seq<char>)
    requires
        json1 == json2,
        p1 == p2,
    ensures
        artifact_for(json1, p1) == artifact_for(json2, p2),
{
}

/// `debug` compresses at the low level 1, `release` at the higher level 7,
/// and every other profile is refused.
pub proof fn lemma_profile_tiers(profile: Seq<char>)
    ensures
        level_for("debug"@) == Some(1u8),
        level_for("release"@) == Some(7u8),
        profile != "debug"@ && profile != "release"@ ==> level_for(profile) is None,
{
    reveal_strlit("debug");
    reveal_strlit("release");
    assert("debug"@ != "release"@) by {
        assert("debug"@.len() != "release"@.len());
    }
}

} // verus!
