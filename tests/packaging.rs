use auditable_build::packaging::{
    artifact_file_name, choose_compression_level, location_directive, pack_json,
    package_metadata,
};
use auditable_build::query::BuildError;

const RECORD: &str = r#"{"packages":[{"name":"app","version":"0.1.0","source":"local"}]}"#;

fn metadata(resolve: &str) -> cargo_metadata::Metadata {
    let text = format!(
        r#"{{"packages":[{{"name":"app","version":"0.1.0","id":"app 0.1.0 (path+file:///src/app)","dependencies":[],"targets":[],"features":{{}},"manifest_path":"/src/app/Cargo.toml"}}],"workspace_members":["app 0.1.0 (path+file:///src/app)"],"resolve":{},"workspace_root":"/src/app","target_directory":"/src/app/target","version":1}}"#,
        resolve
    );
    serde_json::from_str(&text).unwrap()
}

const RESOLVED: &str = r#"{"nodes":[{"id":"app 0.1.0 (path+file:///src/app)","dependencies":[]}],"root":"app 0.1.0 (path+file:///src/app)"}"#;

#[test]
fn compression_levels_by_profile() {
    assert_eq!(choose_compression_level("debug").ok(), Some(1));
    assert_eq!(choose_compression_level("release").ok(), Some(7));
    match choose_compression_level("bench") {
        Err(BuildError::UnknownProfile(p)) => assert_eq!(p, "bench"),
        _ => panic!("unknown profile accepted"),
    }
    assert!(choose_compression_level("Release").is_err());
    assert!(choose_compression_level("").is_err());
}

#[test]
fn packed_json_decompresses_to_itself() {
    for profile in ["debug", "release"] {
        let packed = pack_json(RECORD, profile).ok().unwrap();
        assert_ne!(packed, RECORD.as_bytes());
        let back = miniz_oxide::inflate::decompress_to_vec_zlib(&packed).unwrap();
        assert_eq!(back, RECORD.as_bytes());
    }
}

#[test]
fn packing_is_deterministic() {
    assert_eq!(pack_json(RECORD, "release").ok(), pack_json(RECORD, "release").ok());
    assert_eq!(pack_json(RECORD, "debug").ok(), pack_json(RECORD, "debug").ok());
}

#[test]
fn packing_refuses_unknown_profile() {
    assert!(matches!(pack_json(RECORD, "test"), Err(BuildError::UnknownProfile(_))));
}

#[test]
fn metadata_is_packaged_as_compressed_json() {
    let m = metadata(RESOLVED);
    let packed = package_metadata(&m, "release").ok().unwrap();
    let json = miniz_oxide::inflate::decompress_to_vec_zlib(&packed).unwrap();
    let value: serde_json::Value = serde_json::from_slice(&json).unwrap();
    let packages = value["packages"].as_array().unwrap();
    assert_eq!(packages.len(), 1);
    assert_eq!(packages[0]["name"], "app");
    assert_eq!(packages[0]["version"], "0.1.0");
    assert_eq!(package_metadata(&m, "release").ok().unwrap(), packed);
}

#[test]
fn metadata_errors() {
    let m = metadata(RESOLVED);
    assert!(matches!(package_metadata(&m, "fast"), Err(BuildError::UnknownProfile(_))));
    let unresolved = metadata("null");
    assert!(matches!(package_metadata(&unresolved, "debug"), Err(BuildError::MissingResolution)));
    let virtual_ws = metadata(r#"{"nodes":[],"root":null}"#);
    assert!(matches!(package_metadata(&virtual_ws, "debug"), Err(BuildError::VirtualWorkspace)));
}

#[test]
fn incomplete_resolution_is_refused() {
    let no_root_node = metadata(r#"{"nodes":[],"root":"app 0.1.0 (path+file:///src/app)"}"#);
    assert!(matches!(
        package_metadata(&no_root_node, "debug"),
        Err(BuildError::IncompleteResolution)
    ));
    let dangling = metadata(
        r#"{"nodes":[{"id":"app 0.1.0 (path+file:///src/app)","dependencies":["gone 1.0.0"],"deps":[{"name":"gone","pkg":"gone 1.0.0","dep_kinds":[]}]}],"root":"app 0.1.0 (path+file:///src/app)"}"#,
    );
    assert!(matches!(
        package_metadata(&dangling, "release"),
        Err(BuildError::IncompleteResolution)
    ));
}

#[test]
fn malformed_metadata_is_refused() {
    let unknown_kind = metadata(
        r#"{"nodes":[{"id":"app 0.1.0 (path+file:///src/app)","dependencies":["app 0.1.0 (path+file:///src/app)"],"deps":[{"name":"app","pkg":"app 0.1.0 (path+file:///src/app)","dep_kinds":[{"kind":"weird","target":null}]}]}],"root":"app 0.1.0 (path+file:///src/app)"}"#,
    );
    assert!(matches!(
        package_metadata(&unknown_kind, "debug"),
        Err(BuildError::MalformedResolution)
    ));
    let twice = metadata(
        r#"{"nodes":[{"id":"app 0.1.0 (path+file:///src/app)","dependencies":[]},{"id":"app 0.1.0 (path+file:///src/app)","dependencies":[]}],"root":"app 0.1.0 (path+file:///src/app)"}"#,
    );
    assert!(matches!(package_metadata(&twice, "debug"), Err(BuildError::MalformedResolution)));
}

#[test]
fn file_name_and_directive() {
    assert_eq!(artifact_file_name(), "dependency-list.json.zlib");
    assert_eq!(
        location_directive("/out/dependency-list.json.zlib"),
        "cargo:rustc-env=RUST_AUDIT_DEPENDENCY_FILE_LOCATION=/out/dependency-list.json.zlib"
    );
}
