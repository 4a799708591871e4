use stub_gen::registry::PyClassInfo;
use stub_gen::registry::Registry;
use stub_gen::stub_info::PyProject;
use stub_gen::stub_info::StubInfo;

fn class_in(id: u64, ns: &str) -> PyClassInfo {
    PyClassInfo {
        struct_id: id,
        module: Some(ns.to_string()),
        rust_module_path: "crate".to_string(),
        name: "T".to_string(),
        doc: String::new(),
    }
}

#[test]
fn leaf_module_maps_to_stub_file() {
    let mut reg = Registry::new();
    reg.register_class(class_in(1, "pkg.core"));
    let info = StubInfo::from_project_root(&reg, "pkg".to_string(), "out".to_string());
    assert_eq!(info.module_count(), 1);
    assert_eq!(info.module_dest(0), "out/pkg/core.pyi");
}

#[test]
fn module_with_submodules_maps_to_package_index() {
    let mut reg = Registry::new();
    reg.register_class(class_in(1, "pkg.core"));
    reg.register_class(class_in(2, "pkg.core.sub"));
    let info = StubInfo::from_project_root(&reg, "pkg".to_string(), "out".to_string());
    let paths = info.emission_paths();
    assert_eq!(
        paths,
        vec![
            "out/pkg/core/__init__.pyi".to_string(),
            "out/pkg/core/sub.pyi".to_string()
        ]
    );
}

#[test]
fn same_module_same_destination_until_a_submodule_appears() {
    let mut leaf_reg = Registry::new();
    leaf_reg.register_class(class_in(1, "pkg.core"));
    let leaf = StubInfo::from_project_root(&leaf_reg, "pkg".to_string(), "out".to_string());
    assert_eq!(leaf.module_dest(0), leaf.module_dest(0));
    assert_eq!(leaf.module_dest(0), "out/pkg/core.pyi");

    let mut package_reg = Registry::new();
    package_reg.register_class(class_in(1, "pkg.core"));
    package_reg.register_class(class_in(2, "pkg.core.sub"));
    let package =
        StubInfo::from_project_root(&package_reg, "pkg".to_string(), "out".to_string());
    assert_eq!(package.module_dest(0), "out/pkg/core/__init__.pyi");
}

#[test]
fn pyproject_source_root_wins_over_manifest_dir() {
    let mut reg = Registry::new();
    reg.register_class(class_in(1, "mylib"));
    let with_source = StubInfo::from_pyproject_toml(
        &reg,
        PyProject {
            module_name: "mylib".to_string(),
            python_source: Some("python".to_string()),
        },
        "manifest".to_string(),
    );
    assert_eq!(with_source.python_root, "python");
    assert_eq!(with_source.module_dest(0), "python/mylib.pyi");

    let without_source = StubInfo::from_pyproject_toml(
        &reg,
        PyProject {
            module_name: "mylib".to_string(),
            python_source: None,
        },
        "manifest".to_string(),
    );
    assert_eq!(without_source.python_root, "manifest");
}

#[test]
fn stored_filters_survive_into_the_artifact() {
    let reg = Registry::new();
    let info = StubInfo::from_project_root_with_filter(
        &reg,
        "root".to_string(),
        "out".to_string(),
        "root.x".to_string(),
    );
    assert_eq!(info.module_filter, Some("root.x".to_string()));
    assert_eq!(info.rust_module_filters, None);
    let filters = vec!["a".to_string()];
    let info2 = StubInfo::from_project_root_with_rust_filters(
        &reg,
        "root".to_string(),
        "out".to_string(),
        &filters,
    );
    assert_eq!(info2.module_filter, None);
    assert_eq!(info2.rust_module_filters, Some(filters));
}
