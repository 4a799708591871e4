use stub_gen::defs::MemberDef;
use stub_gen::defs::MethodDef;
use stub_gen::registry::PyClassInfo;
use stub_gen::registry::PyComplexEnumInfo;
use stub_gen::registry::PyEnumInfo;
use stub_gen::registry::PyErrorInfo;
use stub_gen::registry::PyFunctionInfo;
use stub_gen::registry::PyMethodsInfo;
use stub_gen::registry::PyVariableInfo;
use stub_gen::registry::Registry;
use stub_gen::stub_info::StubInfo;

fn class(id: u64, ns: Option<&str>, origin: &str, name: &str) -> PyClassInfo {
    PyClassInfo {
        struct_id: id,
        module: ns.map(|s| s.to_string()),
        rust_module_path: origin.to_string(),
        name: name.to_string(),
        doc: String::new(),
    }
}

fn function(ns: Option<&str>, name: &str) -> PyFunctionInfo {
    PyFunctionInfo {
        module: ns.map(|s| s.to_string()),
        name: name.to_string(),
        signature: "()".to_string(),
        doc: String::new(),
    }
}

fn methods_block(id: u64) -> PyMethodsInfo {
    PyMethodsInfo {
        struct_id: id,
        attrs: Vec::new(),
        getters: Vec::new(),
        setters: Vec::new(),
        methods: Vec::new(),
    }
}

fn member(name: &str) -> MemberDef {
    MemberDef {
        name: name.to_string(),
        ty: "int".to_string(),
        doc: String::new(),
        default: None,
    }
}

fn method(name: &str) -> MethodDef {
    MethodDef {
        name: name.to_string(),
        signature: "(self)".to_string(),
        doc: String::new(),
    }
}

fn keys(info: &StubInfo) -> Vec<String> {
    info.modules.iter().map(|p| p.0.clone()).collect()
}

#[test]
fn empty_registry_builds_empty_table() {
    let reg = Registry::new();
    let info = StubInfo::from_project_root(&reg, "root".to_string(), "out".to_string());
    assert_eq!(info.modules.len(), 0);
    assert_eq!(info.module_count(), 0);
    assert_eq!(info.emission_paths(), Vec::<String>::new());
}

#[test]
fn deep_hierarchy_links_each_level() {
    let mut reg = Registry::new();
    reg.register_class(class(1, Some("a"), "crate", "A"));
    reg.register_class(class(2, Some("a.b"), "crate", "B"));
    reg.register_class(class(3, Some("a.b.c"), "crate", "C"));
    let info = StubInfo::from_project_root(&reg, "root".to_string(), "out".to_string());
    assert_eq!(info.modules[0].1.submodules, vec!["b".to_string()]);
    assert_eq!(info.modules[1].1.submodules, vec!["c".to_string()]);
    assert_eq!(info.modules[2].1.submodules, Vec::<String>::new());
}

#[test]
fn namespace_filter_prefix_law() {
    let mut reg = Registry::new();
    reg.register_class(class(1, Some("a.b"), "crate", "A"));
    reg.register_class(class(2, Some("a.b.c"), "crate", "B"));
    reg.register_class(class(3, Some("a.c"), "crate", "C"));
    reg.register_class(class(4, Some("ab"), "crate", "D"));
    let info = StubInfo::from_project_root_with_filter(
        &reg,
        "root".to_string(),
        "out".to_string(),
        "a.b".to_string(),
    );
    assert_eq!(keys(&info), vec!["a.b".to_string(), "a.b.c".to_string()]);
}

#[test]
fn namespace_filter_is_not_segment_aware() {
    let mut reg = Registry::new();
    reg.register_class(class(1, Some("a.bc"), "crate", "A"));
    let info = StubInfo::from_project_root_with_filter(
        &reg,
        "root".to_string(),
        "out".to_string(),
        "a.b".to_string(),
    );
    assert_eq!(keys(&info), vec!["a.bc".to_string()]);
}

#[test]
fn namespace_filter_uses_default_namespace() {
    let mut reg = Registry::new();
    reg.register_class(class(1, None, "crate", "A"));
    let included = StubInfo::from_project_root_with_filter(
        &reg,
        "root.sub".to_string(),
        "out".to_string(),
        "root".to_string(),
    );
    assert_eq!(keys(&included), vec!["root.sub".to_string()]);
    let excluded = StubInfo::from_project_root_with_filter(
        &reg,
        "other".to_string(),
        "out".to_string(),
        "root".to_string(),
    );
    assert_eq!(keys(&excluded), Vec::<String>::new());
}

#[test]
fn origin_filter_or_law() {
    let mut reg = Registry::new();
    reg.register_class(class(1, Some("m"), "x.mod1", "A"));
    reg.register_class(class(2, Some("m"), "z.mod1", "B"));
    let filters = vec!["x.".to_string(), "y.".to_string()];
    let info = StubInfo::from_project_root_with_rust_filters(
        &reg,
        "root".to_string(),
        "out".to_string(),
        &filters,
    );
    assert_eq!(keys(&info), vec!["m".to_string()]);
    let module = &info.modules[0].1;
    assert_eq!(module.class.len(), 1);
    assert_eq!(module.class[0].0, 1);
    assert_eq!(module.class[0].1.name, "A");
}

#[test]
fn single_origin_filter() {
    let mut reg = Registry::new();
    reg.register_class(class(1, Some("m"), "old::v1::types", "A"));
    reg.register_class(class(2, Some("m"), "new::types", "B"));
    let info = StubInfo::from_project_root_with_rust_filter(
        &reg,
        "root".to_string(),
        "out".to_string(),
        "new".to_string(),
    );
    let module = &info.modules[0].1;
    assert_eq!(module.class.len(), 1);
    assert_eq!(module.class[0].0, 2);
}

#[test]
fn identity_merge_appends_getter() {
    let mut reg = Registry::new();
    reg.register_class(class(7, Some("a"), "crate", "T"));
    let mut block = methods_block(7);
    block.getters.push(member("value"));
    reg.register_methods(block);
    let info = StubInfo::from_project_root(&reg, "root".to_string(), "out".to_string());
    assert_eq!(keys(&info), vec!["a".to_string()]);
    let cls = &info.modules[0].1.class[0].1;
    assert_eq!(cls.getters.len(), 1);
    assert_eq!(cls.getters[0].name, "value");
    assert_eq!(cls.attrs.len(), 0);
    assert_eq!(cls.methods.len(), 0);
}

#[test]
fn identity_merge_absent_identity_is_silent() {
    let mut reg = Registry::new();
    reg.register_class(class(7, Some("a"), "crate", "T"));
    let mut block = methods_block(99);
    block.getters.push(member("value"));
    reg.register_methods(block);
    let info = StubInfo::from_project_root(&reg, "root".to_string(), "out".to_string());
    let cls = &info.modules[0].1.class[0].1;
    assert_eq!(cls.getters.len(), 0);
}

#[test]
fn identity_merge_reaches_enums() {
    let mut reg = Registry::new();
    reg.register_enum(PyEnumInfo {
        enum_id: 3,
        module: Some("m".to_string()),
        rust_module_path: "crate".to_string(),
        name: "Color".to_string(),
        doc: String::new(),
        variants: vec!["Red".to_string(), "Green".to_string()],
    });
    let mut block = methods_block(3);
    block.methods.push(method("describe"));
    reg.register_methods(block);
    let info = StubInfo::from_project_root(&reg, "root".to_string(), "out".to_string());
    let e = &info.modules[0].1.enum_[0].1;
    assert_eq!(e.variants, vec!["Red".to_string(), "Green".to_string()]);
    assert_eq!(e.methods.len(), 1);
    assert_eq!(e.methods[0].name, "describe");
}

#[test]
fn merge_lands_in_first_module_in_table_order() {
    let mut reg = Registry::new();
    reg.register_class(class(5, Some("zzz"), "crate", "Z"));
    reg.register_class(class(5, Some("aaa"), "crate", "A"));
    let mut block = methods_block(5);
    block.methods.push(method("run"));
    reg.register_methods(block);
    let info = StubInfo::from_project_root(&reg, "root".to_string(), "out".to_string());
    assert_eq!(keys(&info), vec!["aaa".to_string(), "zzz".to_string()]);
    assert_eq!(info.modules[0].1.class[0].1.methods.len(), 1);
    assert_eq!(info.modules[1].1.class[0].1.methods.len(), 0);
}

#[test]
fn hierarchy_gap_law() {
    let mut reg = Registry::new();
    reg.register_class(class(1, Some("a.b"), "crate", "A"));
    reg.register_class(class(2, Some("a.b.c"), "crate", "B"));
    let info = StubInfo::from_project_root(&reg, "root".to_string(), "out".to_string());
    assert_eq!(keys(&info), vec!["a.b".to_string(), "a.b.c".to_string()]);
    assert_eq!(info.modules[0].1.submodules, vec!["c".to_string()]);
    assert_eq!(info.modules[1].1.submodules, Vec::<String>::new());
}

#[test]
fn hierarchy_links_materialized_parent() {
    let mut reg = Registry::new();
    reg.register_class(class(1, Some("a"), "crate", "A"));
    reg.register_class(class(2, Some("a.b"), "crate", "B"));
    reg.register_class(class(3, Some("a.c"), "crate", "C"));
    let info = StubInfo::from_project_root(&reg, "root".to_string(), "out".to_string());
    assert_eq!(
        keys(&info),
        vec!["a".to_string(), "a.b".to_string(), "a.c".to_string()]
    );
    assert_eq!(
        info.modules[0].1.submodules,
        vec!["b".to_string(), "c".to_string()]
    );
}

#[test]
fn later_primary_descriptor_overwrites_same_identity() {
    let mut reg = Registry::new();
    reg.register_class(class(4, Some("m"), "crate", "First"));
    reg.register_class(class(4, Some("m"), "crate", "Second"));
    let info = StubInfo::from_project_root(&reg, "root".to_string(), "out".to_string());
    let module = &info.modules[0].1;
    assert_eq!(module.class.len(), 1);
    assert_eq!(module.class[0].1.name, "Second");
}

#[test]
fn functions_errors_variables_are_keyed_by_name() {
    let mut reg = Registry::new();
    reg.register_function(function(Some("m"), "helper"));
    reg.register_function(function(Some("m"), "helper"));
    reg.register_error(PyErrorInfo {
        module: "m".to_string(),
        name: "MyError".to_string(),
        base: "Exception".to_string(),
    });
    reg.register_variable(PyVariableInfo {
        module: "m".to_string(),
        name: "LIMIT".to_string(),
        ty: "int".to_string(),
    });
    let info = StubInfo::from_project_root(&reg, "root".to_string(), "out".to_string());
    let module = &info.modules[0].1;
    assert_eq!(module.function.len(), 1);
    assert_eq!(module.function[0].0, "helper");
    assert_eq!(module.error.len(), 1);
    assert_eq!(module.error[0].1.base, "Exception");
    assert_eq!(module.variables.len(), 1);
    assert_eq!(module.variables[0].1.ty, "int");
}

#[test]
fn complex_enum_lands_in_class_map() {
    let mut reg = Registry::new();
    reg.register_complex_enum(PyComplexEnumInfo {
        enum_id: 9,
        module: Some("m".to_string()),
        rust_module_path: "crate".to_string(),
        name: "Shape".to_string(),
        doc: String::new(),
    });
    let mut block = methods_block(9);
    block.attrs.push(member("area"));
    reg.register_methods(block);
    let info = StubInfo::from_project_root(&reg, "root".to_string(), "out".to_string());
    let module = &info.modules[0].1;
    assert_eq!(module.class.len(), 1);
    assert_eq!(module.class[0].1.name, "Shape");
    assert_eq!(module.class[0].1.attrs.len(), 1);
    assert_eq!(module.enum_.len(), 0);
}

#[test]
fn table_order_is_lexicographic() {
    let mut reg = Registry::new();
    reg.register_class(class(1, Some("zeta"), "crate", "Z"));
    reg.register_class(class(2, Some("alpha"), "crate", "A"));
    reg.register_class(class(3, Some("alpha.x"), "crate", "X"));
    reg.register_class(class(4, Some("beta"), "crate", "B"));
    let info = StubInfo::from_project_root(&reg, "root".to_string(), "out".to_string());
    assert_eq!(
        keys(&info),
        vec![
            "alpha".to_string(),
            "alpha.x".to_string(),
            "beta".to_string(),
            "zeta".to_string()
        ]
    );
}

#[test]
fn determinism_two_runs_agree() {
    let mut reg = Registry::new();
    reg.register_class(class(1, Some("pkg.core"), "crate", "A"));
    reg.register_class(class(2, Some("pkg.io"), "crate", "B"));
    let mut block = methods_block(1);
    block.methods.push(method("run"));
    reg.register_methods(block);
    reg.register_function(function(Some("pkg.core"), "helper"));
    let one = StubInfo::from_project_root(&reg, "pkg".to_string(), "out".to_string());
    let two = StubInfo::from_project_root(&reg, "pkg".to_string(), "out".to_string());
    assert_eq!(keys(&one), keys(&two));
    for (a, b) in one.modules.iter().zip(two.modules.iter()) {
        assert_eq!(a.1.name, b.1.name);
        assert_eq!(a.1.class.len(), b.1.class.len());
        assert_eq!(a.1.enum_.len(), b.1.enum_.len());
        assert_eq!(a.1.function.len(), b.1.function.len());
        assert_eq!(a.1.submodules, b.1.submodules);
        for (c, d) in a.1.class.iter().zip(b.1.class.iter()) {
            assert_eq!(c.0, d.0);
            assert_eq!(c.1.name, d.1.name);
            assert_eq!(c.1.methods.len(), d.1.methods.len());
        }
    }
}

#[test]
fn scenario_two_namespaces() {
    let mut reg = Registry::new();
    reg.register_class(class(1, Some("pkg.core"), "crate", "Engine"));
    let mut block = methods_block(1);
    block.methods.push(method("run"));
    reg.register_methods(block);
    reg.register_function(function(Some("pkg.core"), "helper"));
    reg.register_class(class(2, Some("pkg.io"), "crate", "Reader"));
    let info = StubInfo::from_project_root(&reg, "pkg".to_string(), "out".to_string());
    assert_eq!(keys(&info), vec!["pkg.core".to_string(), "pkg.io".to_string()]);
    for entry in info.modules.iter() {
        assert_eq!(entry.1.submodules, Vec::<String>::new());
    }
    let core = &info.modules[0].1;
    assert_eq!(core.class.len(), 1);
    assert_eq!(core.class[0].0, 1);
    assert_eq!(core.class[0].1.methods.len(), 1);
    assert_eq!(core.class[0].1.methods[0].name, "run");
    assert_eq!(core.function.len(), 1);
    assert_eq!(core.function[0].0, "helper");
    let io = &info.modules[1].1;
    assert_eq!(io.class.len(), 1);
    assert_eq!(io.class[0].0, 2);
    assert_eq!(io.class[0].1.methods.len(), 0);
}

#[test]
fn descriptor_without_namespace_lands_in_root() {
    let mut reg = Registry::new();
    reg.register_class(class(1, None, "crate", "A"));
    reg.register_function(function(None, "f"));
    let info = StubInfo::from_project_root(&reg, "mylib".to_string(), "out".to_string());
    assert_eq!(keys(&info), vec!["mylib".to_string()]);
    let module = &info.modules[0].1;
    assert_eq!(module.name, "mylib");
    assert_eq!(module.default_module_name, "mylib");
    assert_eq!(module.class.len(), 1);
    assert_eq!(module.function.len(), 1);
}

#[test]
fn merge_order_keeps_descriptor_lists_in_encounter_order() {
    let mut reg = Registry::new();
    reg.register_class(class(1, Some("m"), "crate", "T"));
    let mut first = methods_block(1);
    first.methods.push(method("alpha"));
    first.methods.push(method("beta"));
    reg.register_methods(first);
    let mut second = methods_block(1);
    second.methods.push(method("gamma"));
    reg.register_methods(second);
    let info = StubInfo::from_project_root(&reg, "root".to_string(), "out".to_string());
    let cls = &info.modules[0].1.class[0].1;
    let names: Vec<String> = cls.methods.iter().map(|m| m.name.clone()).collect();
    assert_eq!(
        names,
        vec!["alpha".to_string(), "beta".to_string(), "gamma".to_string()]
    );
}
