use auditable_build::query::BuildError;
use auditable_build::resolution::{
    check_resolution, DepKind, DepLink, NodeLinks, Resolution, ResolutionSummary,
};

fn link(id: &str, kinds: Vec<DepKind>) -> DepLink {
    DepLink { id: id.to_string(), kinds }
}

fn node(id: &str, deps: Vec<DepLink>) -> NodeLinks {
    NodeLinks { id: id.to_string(), deps }
}

fn summary(root: Option<&str>, nodes: Vec<NodeLinks>) -> ResolutionSummary {
    ResolutionSummary {
        package_ids: vec!["app".to_string(), "dep".to_string()],
        resolution: Some(Resolution { root: root.map(|r| r.to_string()), nodes }),
    }
}

#[test]
fn complete_resolution_is_accepted() {
    let s = summary(
        Some("app"),
        vec![node("app", vec![link("dep", vec![DepKind::Normal, DepKind::Build])]), node("dep", vec![])],
    );
    assert!(check_resolution(&s).is_ok());
    let no_kinds = summary(Some("app"), vec![node("app", vec![link("dep", vec![])]), node("dep", vec![])]);
    assert!(check_resolution(&no_kinds).is_ok());
}

#[test]
fn dev_only_link_needs_no_package() {
    let s = summary(
        Some("app"),
        vec![node("app", vec![link("x", vec![DepKind::Development])]), node("x", vec![])],
    );
    assert!(check_resolution(&s).is_ok());
    let mixed = summary(
        Some("app"),
        vec![
            node("app", vec![link("x", vec![DepKind::Development, DepKind::Normal])]),
            node("x", vec![]),
        ],
    );
    assert!(matches!(check_resolution(&mixed), Err(BuildError::IncompleteResolution)));
}

#[test]
fn resolution_errors() {
    let none = ResolutionSummary { package_ids: Vec::new(), resolution: None };
    assert!(matches!(check_resolution(&none), Err(BuildError::MissingResolution)));
    let rootless = summary(None, vec![node("app", vec![])]);
    assert!(matches!(check_resolution(&rootless), Err(BuildError::VirtualWorkspace)));
    let no_root_node = summary(Some("app"), vec![node("dep", vec![])]);
    assert!(matches!(check_resolution(&no_root_node), Err(BuildError::IncompleteResolution)));
    let dep_without_node = summary(Some("app"), vec![node("app", vec![link("dep", vec![])])]);
    assert!(matches!(check_resolution(&dep_without_node), Err(BuildError::IncompleteResolution)));
    let dep_without_package = summary(
        Some("app"),
        vec![node("app", vec![link("x", vec![DepKind::Normal])]), node("dep", vec![]), node("x", vec![])],
    );
    assert!(matches!(
        check_resolution(&dep_without_package),
        Err(BuildError::IncompleteResolution)
    ));
}

#[test]
fn malformed_resolution_is_refused() {
    let twice = summary(Some("app"), vec![node("app", vec![]), node("dep", vec![]), node("app", vec![])]);
    assert!(matches!(check_resolution(&twice), Err(BuildError::MalformedResolution)));
    let unknown = summary(
        Some("app"),
        vec![node("app", vec![link("dep", vec![DepKind::Normal, DepKind::Unknown])]), node("dep", vec![])],
    );
    assert!(matches!(check_resolution(&unknown), Err(BuildError::MalformedResolution)));
}
