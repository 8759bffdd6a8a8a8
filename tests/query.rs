use auditable_build::query::{
    discovery_query, final_query, platform_option, root_declared_features, BuildConfig,
    BuildError, DeclaredPackage, Discovery,
};

fn strings(v: &[&str]) -> Vec<String> {
    v.iter().map(|s| s.to_string()).collect()
}

fn config(tokens: &[&str]) -> BuildConfig {
    BuildConfig {
        out_dir: "/tmp/out".to_string(),
        profile: "debug".to_string(),
        target: "x86_64-unknown-linux-gnu".to_string(),
        manifest_dir: "/src/app".to_string(),
        feature_tokens: strings(tokens),
    }
}

#[test]
fn platform_option_names_the_target() {
    assert_eq!(platform_option("wasm32-unknown-unknown"), "--filter-platform=wasm32-unknown-unknown");
}

#[test]
fn both_queries_are_restricted_to_the_target() {
    let c = config(&["NET_CLIENT"]);
    let first = discovery_query(&c);
    assert_eq!(first.manifest_dir, "/src/app");
    assert_eq!(first.platform_option, "--filter-platform=x86_64-unknown-linux-gnu");
    assert!(first.selection.is_none());
    let second = final_query(&c, &strings(&["net-client", "LOGGING"]));
    assert_eq!(second.manifest_dir, "/src/app");
    assert_eq!(second.platform_option, "--filter-platform=x86_64-unknown-linux-gnu");
    let selection = second.selection.unwrap();
    assert_eq!(selection.features, strings(&["net-client"]));
    assert!(selection.no_default_features);
}

#[test]
fn final_query_keeps_defaults_when_their_token_is_there() {
    let c = config(&["DEFAULT"]);
    let selection = final_query(&c, &strings(&["default", "net-client"])).selection.unwrap();
    assert!(selection.features.is_empty());
    assert!(!selection.no_default_features);
}

fn package(id: &str, manifest: &str, features: &[&str]) -> DeclaredPackage {
    DeclaredPackage {
        id: id.to_string(),
        manifest_path: manifest.to_string(),
        features: strings(features),
    }
}

fn packages() -> Vec<DeclaredPackage> {
    vec![
        package("dep 1.0.0", "/reg/dep/Cargo.toml", &["std"]),
        package("app 0.1.0", "/src/app/Cargo.toml", &["net-client", "LOGGING"]),
        package("app 0.1.0", "/src/other/Cargo.toml", &["other"]),
    ]
}

#[test]
fn root_features_are_those_of_the_root_package() {
    let d = Discovery {
        packages: packages(),
        resolved: true,
        root: Some("app 0.1.0".to_string()),
        build_manifest: "/src/elsewhere/Cargo.toml".to_string(),
    };
    assert_eq!(root_declared_features(&d).ok().unwrap(), strings(&["net-client", "LOGGING"]));
}

#[test]
fn root_found_by_manifest_without_resolution() {
    let d = Discovery {
        packages: packages(),
        resolved: false,
        root: None,
        build_manifest: "/src/other/Cargo.toml".to_string(),
    };
    assert_eq!(root_declared_features(&d).ok().unwrap(), strings(&["other"]));
}

#[test]
fn missing_root_is_an_error() {
    let mut d = Discovery {
        packages: packages(),
        resolved: true,
        root: None,
        build_manifest: "/src/app/Cargo.toml".to_string(),
    };
    assert!(matches!(root_declared_features(&d), Err(BuildError::NoRootPackage)));
    d.root = Some("none 0.0.0".to_string());
    assert!(matches!(root_declared_features(&d), Err(BuildError::NoRootPackage)));
    d.resolved = false;
    d.build_manifest = "/nowhere/Cargo.toml".to_string();
    assert!(matches!(root_declared_features(&d), Err(BuildError::NoRootPackage)));
}
