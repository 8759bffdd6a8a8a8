//! The build's configuration, the two questions put to the dependency
//! resolver, and the lookup of the root package in its first answer.

use vstd::prelude::*;
use vstd::string::*;
use crate::features::{FeatureSelection, select_features, selected_in, disables_defaults};

verus! {

/// Everything the build environment tells the build step, read once.
pub struct BuildConfig {
    /// Directory for the build step's output files.
    pub out_dir: String,
    /// Name of the build profile.
    pub profile: String,
    /// Target triple being compiled for.
    pub target: String,
    /// Directory holding the manifest of the package being built.
    pub manifest_dir: String,
    /// Mangled names of the features enabled on the package being built.
    pub feature_tokens: Vec<String>,
}

/// Why a build step cannot produce the dependency record.
#[derive(Debug)]
pub enum BuildError {
    /// The build profile is neither `debug` nor `release`.
    UnknownProfile(String),
    /// No package of the resolver's answer is its root package.
    NoRootPackage,
    /// The resolver's answer holds no dependency resolution.
    MissingResolution,
    /// The resolver's answer describes a virtual workspace, which has no root package.
    VirtualWorkspace,
    /// The resolution has two nodes with one id, or a dependency of a kind
    /// that is not known.
    MalformedResolution,
    /// The resolution names a package that has no node, or a dependency
    /// that is not among the answer's packages.
    IncompleteResolution,
    /// The record could not be serialised.
    Serialization,
}

/// A package of the resolver's answer, as far as the feature lookup needs it.
pub struct DeclaredPackage {
    pub id: String,
    /// Path of the package's manifest.
    pub manifest_path: String,
    /// The names of the features that the package declares.
    pub features: Vec<String>,
}

/// What the root lookup needs of the resolver's first answer.
pub struct Discovery {
    pub packages: Vec<DeclaredPackage>,
    /// Whether the answer holds a dependency resolution.
    pub resolved: bool,
    /// The root package's id, as the resolution names it.
    pub root: Option<String>,
    /// Path of the manifest of the package being built.
    pub build_manifest: String,
}

/// One call to the dependency resolver.
pub struct ResolverQuery {
    /// Directory holding the manifest to resolve.
    pub manifest_dir: String,
    /// The option that restricts the answer to one target platform.
    pub platform_option: String,
    /// The features to enable; `None` leaves the resolver's defaults alone.
    pub selection: Option<FeatureSelection>,
}

/// The option that restricts the resolver to packages relevant on `target`.
pub open spec fn platform_option_for(target: Seq<char>) -> Seq<char> {
    "--filter-platform="@ + target
}

/// Builds the resolver option that restricts its answer to `target`.
pub fn platform_option(target: &str) -> (r: String)
    ensures
        r@ == platform_option_for(target@),
{
    "--filter-platform=".to_owned().concat(target)
}

/// The first call: the manifest on the target platform, with no feature
/// selection, to learn which features the root package declares.
pub fn discovery_query(config: &BuildConfig) -> (r: ResolverQuery)
    ensures
        r.manifest_dir@ == config.manifest_dir@,
        r.platform_option@ == platform_option_for(config.target@),
        r.selection is None,
{
    ResolverQuery {
        manifest_dir: config.manifest_dir.clone(),
        platform_option: platform_option(config.target.as_str()),
        selection: None,
    }
}

/// The second call: the same manifest and platform, with the features that
/// the tokens of `config` show to be enabled among those the root declares.
pub fn final_query(config: &BuildConfig, declared: &Vec<String>) -> (r: ResolverQuery)
    ensures
        r.manifest_dir@ == config.manifest_dir@,
        r.platform_option@ == platform_option_for(config.target@),
        r.selection is Some,
        r.selection->Some_0.features@ == selected_in(declared@, config.feature_tokens@),
        r.selection->Some_0.no_default_features == disables_defaults(config.feature_tokens@),
{
    let selection = select_features(declared, &config.feature_tokens);
    ResolverQuery {
        manifest_dir: config.manifest_dir.clone(),
        platform_option: platform_option(config.target.as_str()),
        selection: Some(selection),
    }
}

/// Whether `p` is the root package: the one the resolution names, or,
/// without a resolution, the one whose manifest is that of the package being built.
pub open spec fn is_root(d: Discovery, p: DeclaredPackage) -> bool {
    if d.resolved {
        d.root is Some && p.id@ == d.root->Some_0@
    } else {
        p.manifest_path@ == d.build_manifest@
    }
}

/// Whether some package is the root package.
pub open spec fn has_root(d: Discovery) -> bool {
    exists|i: int| 0 <= i < d.packages@.len() && is_root(d, d.packages@[i])
}

/// The features declared by the root package of the resolver's first answer:
/// those of the first package that `is_root` picks. An answer without a
/// resolution is looked up by manifest path, so it is no error.
pub fn root_declared_features(d: &Discovery) -> (r: Result<Vec<String>, BuildError>)
    ensures
        match r {
            Ok(f) => exists|i: int|
                0 <= i < d.packages@.len() && is_root(*d, d.packages@[i]) && f@
                    == d.packages@[i].features@ && forall|k: int|
                    0 <= k < i ==> !is_root(*d, d.packages@[k]),
            Err(e) => e is NoRootPackage && !has_root(*d),
        },
{
    let mut i: usize = 0;
    while i < d.packages.len()
        invariant
            i <= d.packages@.len(),
            forall|k: int| 0 <= k < i ==> !is_root(*d, d.packages@[k]),
        decreases d.packages.len() - i,
    {
        let p = &d.packages[i];
        let hit = if d.resolved {
            match &d.root {
                Some(id) => p.id == *id,
                None => false,
            }
        } else {
            p.manifest_path == d.build_manifest
        };
        if hit {
            let f = p.features.clone();
            assert(f@ =~= d.packages@[i as int].features@);
            return Ok(f);
        }
        i = i + 1;
    }
    Err(BuildError::NoRootPackage)
}

} // verus!
