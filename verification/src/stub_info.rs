//! The aggregation engine: filters descriptors, resolves identity, arranges
//! modules into a namespace tree, and computes each module's emission path.

use crate::defs::class_model_merged;
use crate::defs::empty_module_model;
use crate::defs::enum_model_merged;
use crate::defs::module_wf;
use crate::defs::opt_str_view;
use crate::defs::strs_view;
use crate::defs::ClassDef;
use crate::defs::ClassModel;
use crate::defs::EnumDef;
use crate::defs::EnumModel;
use crate::defs::ErrorDef;
use crate::defs::FunctionDef;
use crate::defs::Module;
use crate::defs::ModuleModel;
use crate::defs::VariableDef;
use crate::names::dest_path;
use crate::names::build_dest_path;
use crate::names::last_dot;
use crate::names::leaf_name;
use crate::names::parent_name;
use crate::names::split_parent;
use crate::order::lemma_lex_lt_irrefl;
use crate::order::lex_lt;
use crate::order::str_starts_with;
use crate::registry::class_model_of;
use crate::registry::class_model_of_complex;
use crate::registry::enum_model_of;
use crate::registry::error_model_of;
use crate::registry::function_model_of;
use crate::registry::variable_model_of;
use crate::registry::ClassInfoModel;
use crate::registry::ComplexEnumInfoModel;
use crate::registry::EnumInfoModel;
use crate::registry::ErrorInfoModel;
use crate::registry::FunctionInfoModel;
use crate::registry::MethodsInfoModel;
use crate::registry::PyClassInfo;
use crate::registry::PyComplexEnumInfo;
use crate::registry::PyEnumInfo;
use crate::registry::PyErrorInfo;
use crate::registry::PyFunctionInfo;
use crate::registry::PyMethodsInfo;
use crate::registry::PyVariableInfo;
use crate::registry::Registry;
use crate::registry::RegistryModel;
use crate::table::assoc_get;
use crate::table::assoc_keys;
use crate::table::assoc_put;
use crate::table::id_find;
use crate::table::id_has;
use crate::table::id_keys_sorted;
use crate::table::lemma_id_all_diff_get_none;
use crate::table::lemma_id_get_at;
use crate::table::id_put;
use crate::table::keys_sorted;
use crate::table::lemma_get_at;
use crate::table::lemma_put_found;
use crate::table::lemma_put_inserted;
use crate::table::lemma_put_put;
use crate::table::lemma_put_sorted;
use crate::table::lemma_sorted_get_none;
use crate::table::set_put;
use crate::table::set_sorted;
use crate::table::str_pos;
use vstd::prelude::*;

verus! {

// ---------------------------------------------------------------------------
// Models
// ---------------------------------------------------------------------------

pub ghost struct StubInfoModel {
    pub modules: Seq<(Seq<char>, ModuleModel)>,
    pub python_root: Seq<char>,
    pub module_filter: Option<Seq<char>>,
    pub rust_module_filters: Option<Seq<Seq<char>>>,
}

pub open spec fn opt_strs_view(o: Option<Vec<String>>) -> Option<Seq<Seq<char>>> {
    match o {
        Some(v) => Some(strs_view(v@)),
        None => None,
    }
}

pub open spec fn opt_ref_view(o: Option<&String>) -> Option<Seq<char>> {
    match o {
        Some(s) => Some(s@),
        None => None,
    }
}

/// The model of the module table held in an exec vector.
pub open spec fn table_view(v: Seq<(String, Module)>) -> Seq<(Seq<char>, ModuleModel)> {
    v.map_values(|p: (String, Module)| (p.0@, p.1@))
}

/// The table invariant: ascending keys, well-formed modules.
pub open spec fn table_wf(t: Seq<(Seq<char>, ModuleModel)>) -> bool {
    &&& keys_sorted(t)
    &&& forall|i: int| 0 <= i < t.len() ==> module_wf(#[trigger] t[i].1)
}

// ---------------------------------------------------------------------------
// Filters
// ---------------------------------------------------------------------------

/// The namespace a descriptor lands in: its own, or the root namespace.
pub open spec fn effective_name(module: Option<Seq<char>>, default: Seq<char>) -> Seq<char> {
    match module {
        Some(m) => m,
        None => default,
    }
}

/// Absent filter accepts everything; a present filter accepts exactly the
/// names it literally prefixes (not segment-aware).
pub open spec fn include_ns(filter: Option<Seq<char>>, name: Seq<char>) -> bool {
    match filter {
        None => true,
        Some(f) => f.is_prefix_of(name),
    }
}

/// Absent filter list accepts everything; a present list accepts a path
/// that any of its entries literally prefixes.
pub open spec fn include_origin(filters: Option<Seq<Seq<char>>>, path: Seq<char>) -> bool {
    match filters {
        None => true,
        Some(fs) => exists|i: int| 0 <= i < fs.len() && (#[trigger] fs[i]).is_prefix_of(path),
    }
}

// ---------------------------------------------------------------------------
// One aggregation step per descriptor, on the table model
// ---------------------------------------------------------------------------

/// The module that aggregation works on for key `k`: the one already in the
/// table with its names refreshed, or a new empty one.
pub open spec fn base_module(
    t: Seq<(Seq<char>, ModuleModel)>,
    k: Seq<char>,
    d: Seq<char>,
) -> ModuleModel {
    match assoc_get(t, k) {
        Some(m) => ModuleModel { name: k, default_module_name: d, ..m },
        None => empty_module_model(k, d),
    }
}

pub open spec fn get_or_create_t(
    t: Seq<(Seq<char>, ModuleModel)>,
    k: Seq<char>,
    d: Seq<char>,
) -> Seq<(Seq<char>, ModuleModel)> {
    assoc_put(t, k, base_module(t, k, d))
}

pub open spec fn add_class_t(
    t: Seq<(Seq<char>, ModuleModel)>,
    i: ClassInfoModel,
    d: Seq<char>,
) -> Seq<(Seq<char>, ModuleModel)> {
    let k = effective_name(i.module, d);
    let m = base_module(t, k, d);
    assoc_put(t, k, ModuleModel { class: id_put(m.class, i.struct_id, class_model_of(i)), ..m })
}

pub open spec fn add_complex_enum_t(
    t: Seq<(Seq<char>, ModuleModel)>,
    i: ComplexEnumInfoModel,
    d: Seq<char>,
) -> Seq<(Seq<char>, ModuleModel)> {
    let k = effective_name(i.module, d);
    let m = base_module(t, k, d);
    assoc_put(
        t,
        k,
        ModuleModel { class: id_put(m.class, i.enum_id, class_model_of_complex(i)), ..m },
    )
}

pub open spec fn add_enum_t(
    t: Seq<(Seq<char>, ModuleModel)>,
    i: EnumInfoModel,
    d: Seq<char>,
) -> Seq<(Seq<char>, ModuleModel)> {
    let k = effective_name(i.module, d);
    let m = base_module(t, k, d);
    assoc_put(t, k, ModuleModel { enum_: id_put(m.enum_, i.enum_id, enum_model_of(i)), ..m })
}

pub open spec fn add_function_t(
    t: Seq<(Seq<char>, ModuleModel)>,
    i: FunctionInfoModel,
    d: Seq<char>,
) -> Seq<(Seq<char>, ModuleModel)> {
    let k = effective_name(i.module, d);
    let m = base_module(t, k, d);
    assoc_put(t, k, ModuleModel { function: assoc_put(m.function, i.name, function_model_of(i)), ..m })
}

pub open spec fn add_error_t(
    t: Seq<(Seq<char>, ModuleModel)>,
    i: ErrorInfoModel,
    d: Seq<char>,
) -> Seq<(Seq<char>, ModuleModel)> {
    let m = base_module(t, i.module, d);
    assoc_put(t, i.module, ModuleModel { error: assoc_put(m.error, i.name, error_model_of(i)), ..m })
}

pub open spec fn add_variable_t(
    t: Seq<(Seq<char>, ModuleModel)>,
    i: crate::registry::VariableInfoModel,
    d: Seq<char>,
) -> Seq<(Seq<char>, ModuleModel)> {
    let m = base_module(t, i.module, d);
    assoc_put(
        t,
        i.module,
        ModuleModel { variables: assoc_put(m.variables, i.name, variable_model_of(i)), ..m },
    )
}

// ---------------------------------------------------------------------------
// The builder
// ---------------------------------------------------------------------------

/// Accumulates the module table during one aggregation run.
pub struct StubInfoBuilder {
    pub modules: Vec<(String, Module)>,
    pub default_module_name: String,
    pub python_root: String,
    pub module_filter: Option<String>,
    pub rust_module_filters: Option<Vec<String>>,
}

impl StubInfoBuilder {
    /// Decides namespace inclusion for a descriptor targeting `module`.
    pub fn should_include_module(&self, module: Option<&String>) -> (r: bool)
        ensures
            r == include_ns(
                opt_str_view(self.module_filter),
                effective_name(opt_ref_view(module), self.default_module_name@),
            ),
    {
        match &self.module_filter {
            None => true,
            Some(f) => {
                let name: &String = match module {
                    Some(m) => m,
                    None => &self.default_module_name,
                };
                str_starts_with(name.as_str(), f.as_str())
            },
        }
    }

    /// Decides origin inclusion for a descriptor contributed at
    /// `rust_module_path`.
    pub fn should_include_rust_module(&self, rust_module_path: &String) -> (r: bool)
        ensures
            r == include_origin(opt_strs_view(self.rust_module_filters), rust_module_path@),
    {
        match &self.rust_module_filters {
            None => true,
            Some(filters) => {
                let mut i: usize = 0;
                while i < filters.len()
                    invariant
                        self.rust_module_filters == Some(*filters),
                        i <= filters@.len(),
                        forall|j: int| 0 <= j < i ==> !(#[trigger] strs_view(filters@)[j]).is_prefix_of(
                            rust_module_path@,
                        ),
                    decreases filters@.len() - i,
                {
                    if str_starts_with(rust_module_path.as_str(), filters[i].as_str()) {
                        proof {
                            let fs = opt_strs_view(self.rust_module_filters)->0;
                            assert(fs == strs_view(filters@));
                            assert(fs[i as int].is_prefix_of(rust_module_path@));
                        }
                        return true;
                    }
                    i += 1;
                }
                false
            },
        }
    }

    /// Finds the module for `name` (or the root namespace), creating an empty
    /// one at its ordered position if absent, and returns its index.
    pub fn get_module(&mut self, name: Option<&String>) -> (idx: usize)
        requires
            table_wf(table_view(old(self).modules@)),
        ensures
            ({
                let t0 = table_view(old(self).modules@);
                let d = old(self).default_module_name@;
                let k = effective_name(opt_ref_view(name), d);
                let t1 = table_view(final(self).modules@);
                &&& t1 == get_or_create_t(t0, k, d)
                &&& table_wf(t1)
                &&& idx < t1.len()
                &&& t1[idx as int].0 == k
                &&& t1[idx as int].1 == base_module(t0, k, d)
                &&& forall|j: int| 0 <= j < idx ==> lex_lt(#[trigger] t1[j].0, k)
            }),
            final(self).default_module_name == old(self).default_module_name,
            final(self).python_root == old(self).python_root,
            final(self).module_filter == old(self).module_filter,
            final(self).rust_module_filters == old(self).rust_module_filters,
    {
        let ghost t0 = table_view(self.modules@);
        let ghost d = self.default_module_name@;
        let key: String = match name {
            Some(n) => n.clone(),
            None => self.default_module_name.clone(),
        };
        let ghost k = key@;
        let n = str_pos(&self.modules, &key);
        proof {
            lemma_lex_lt_irrefl(k);
        }
        if n < self.modules.len() && self.modules[n].0 == key {
            let mut entry = self.modules.remove(n);
            let ghost m0 = entry.1@;
            entry.1.name = key;
            entry.1.default_module_name = self.default_module_name.clone();
            let ghost m1 = entry.1@;
            self.modules.insert(n, entry);
            proof {
                assert(m1 == (ModuleModel { name: k, default_module_name: d, ..m0 }));
                assert(t0[n as int] == (k, m0));
                assert forall|j: int| 0 <= j < n implies t0[j].0 != k by {
                    if t0[j].0 == k {
                        assert(lex_lt(k, k));
                    }
                }
                lemma_get_at(t0, k, n as int);
                assert(base_module(t0, k, d) == m1);
                assert(table_view(self.modules@) =~= t0.update(n as int, (k, m1)));
                lemma_put_found(t0, k, m1, n as int);
                let t1 = table_view(self.modules@);
                assert(keys_sorted(t1)) by {
                    assert(forall|i: int| 0 <= i < t1.len() ==> t1[i].0 == t0[i].0);
                }
                assert(forall|i: int| 0 <= i < t1.len() ==> module_wf(#[trigger] t1[i].1)) by {
                    assert(module_wf(m0));
                    assert(module_wf(m1));
                }
            }
            n
        } else {
            let m = Module::new(key.clone(), self.default_module_name.clone());
            self.modules.insert(n, (key, m));
            proof {
                lemma_sorted_get_none(t0, k, n as int);
                assert(base_module(t0, k, d) == empty_module_model(k, d));
                assert(table_view(self.modules@) =~= t0.insert(
                    n as int,
                    (k, empty_module_model(k, d)),
                ));
                lemma_put_inserted(t0, k, empty_module_model(k, d), n as int);
                lemma_put_sorted(t0, k, empty_module_model(k, d));
                let t1 = table_view(self.modules@);
                assert(forall|i: int| 0 <= i < t1.len() ==> module_wf(#[trigger] t1[i].1)) by {
                    assert(forall|i: int| 0 <= i < n ==> t1[i] == t0[i]);
                    assert(forall|i: int| n < i < t1.len() ==> t1[i] == t0[i - 1]);
                    assert(module_wf(empty_module_model(k, d)));
                }
            }
            n
        }
    }
}

// ---------------------------------------------------------------------------
// Replacing the module just fetched: the common tail of every insertion
// ---------------------------------------------------------------------------

/// After `get_or_create_t` placed key `k` at `idx`, replacing that entry's
/// value is one `assoc_put` on the table it started from.
pub proof fn lemma_replace_after_get(
    t0: Seq<(Seq<char>, ModuleModel)>,
    t1: Seq<(Seq<char>, ModuleModel)>,
    t2: Seq<(Seq<char>, ModuleModel)>,
    k: Seq<char>,
    d: Seq<char>,
    m2: ModuleModel,
    idx: int,
)
    requires
        table_wf(t1),
        t1 == get_or_create_t(t0, k, d),
        0 <= idx < t1.len(),
        t1[idx].0 == k,
        forall|j: int| 0 <= j < idx ==> lex_lt(#[trigger] t1[j].0, k),
        t2 == t1.update(idx, (k, m2)),
        module_wf(m2),
    ensures
        t2 == assoc_put(t0, k, m2),
        table_wf(t2),
{
    lemma_put_found(t1, k, m2, idx);
    lemma_put_put(t0, k, base_module(t0, k, d), m2);
    assert(keys_sorted(t2)) by {
        assert(forall|i: int| 0 <= i < t2.len() ==> t2[i].0 == t1[i].0);
    }
    assert forall|i: int| 0 <= i < t2.len() implies module_wf(#[trigger] t2[i].1) by {
        if i != idx {
            assert(t2[i] == t1[i]);
        }
    }
}

impl StubInfoBuilder {
    /// Inserts the class of an accepted class descriptor under its identity.
    pub fn add_class(&mut self, info: &PyClassInfo)
        requires
            table_wf(table_view(old(self).modules@)),
        ensures
            table_view(final(self).modules@) == add_class_t(
                table_view(old(self).modules@),
                info@,
                old(self).default_module_name@,
            ),
            table_wf(table_view(final(self).modules@)),
            final(self).default_module_name == old(self).default_module_name,
            final(self).python_root == old(self).python_root,
            final(self).module_filter == old(self).module_filter,
            final(self).rust_module_filters == old(self).rust_module_filters,
    {
        let ghost t0 = table_view(self.modules@);
        let ghost d = self.default_module_name@;
        let ghost k = effective_name(info@.module, d);
        let m_ref = info.module.as_ref();
        proof {
            assert(opt_ref_view(m_ref) == info@.module);
        }
        let idx = self.get_module(m_ref);
        let ghost t1 = table_view(self.modules@);
        let cls = ClassDef::from_class_info(info);
        let mut entry = self.modules.remove(idx);
        entry.1.insert_class(info.struct_id, cls);
        let ghost m2 = entry.1@;
        self.modules.insert(idx, entry);
        proof {
            assert(table_view(self.modules@) =~= t1.update(idx as int, (k, m2)));
            lemma_replace_after_get(t0, t1, table_view(self.modules@), k, d, m2, idx as int);
        }
    }

    /// Inserts the class of an accepted complex-enum descriptor under its
    /// identity.
    pub fn add_complex_enum(&mut self, info: &PyComplexEnumInfo)
        requires
            table_wf(table_view(old(self).modules@)),
        ensures
            table_view(final(self).modules@) == add_complex_enum_t(
                table_view(old(self).modules@),
                info@,
                old(self).default_module_name@,
            ),
            table_wf(table_view(final(self).modules@)),
            final(self).default_module_name == old(self).default_module_name,
            final(self).python_root == old(self).python_root,
            final(self).module_filter == old(self).module_filter,
            final(self).rust_module_filters == old(self).rust_module_filters,
    {
        let ghost t0 = table_view(self.modules@);
        let ghost d = self.default_module_name@;
        let ghost k = effective_name(info@.module, d);
        let m_ref = info.module.as_ref();
        proof {
            assert(opt_ref_view(m_ref) == info@.module);
        }
        let idx = self.get_module(m_ref);
        let ghost t1 = table_view(self.modules@);
        let cls = ClassDef::from_complex_enum_info(info);
        let mut entry = self.modules.remove(idx);
        entry.1.insert_class(info.enum_id, cls);
        let ghost m2 = entry.1@;
        self.modules.insert(idx, entry);
        proof {
            assert(table_view(self.modules@) =~= t1.update(idx as int, (k, m2)));
            lemma_replace_after_get(t0, t1, table_view(self.modules@), k, d, m2, idx as int);
        }
    }

    /// Inserts the enum of an accepted plain-enum descriptor under its
    /// identity.
    pub fn add_enum(&mut self, info: &PyEnumInfo)
        requires
            table_wf(table_view(old(self).modules@)),
        ensures
            table_view(final(self).modules@) == add_enum_t(
                table_view(old(self).modules@),
                info@,
                old(self).default_module_name@,
            ),
            table_wf(table_view(final(self).modules@)),
            final(self).default_module_name == old(self).default_module_name,
            final(self).python_root == old(self).python_root,
            final(self).module_filter == old(self).module_filter,
            final(self).rust_module_filters == old(self).rust_module_filters,
    {
        let ghost t0 = table_view(self.modules@);
        let ghost d = self.default_module_name@;
        let ghost k = effective_name(info@.module, d);
        let m_ref = info.module.as_ref();
        proof {
            assert(opt_ref_view(m_ref) == info@.module);
        }
        let idx = self.get_module(m_ref);
        let ghost t1 = table_view(self.modules@);
        let e = EnumDef::from_enum_info(info);
        let mut entry = self.modules.remove(idx);
        entry.1.insert_enum(info.enum_id, e);
        let ghost m2 = entry.1@;
        self.modules.insert(idx, entry);
        proof {
            assert(table_view(self.modules@) =~= t1.update(idx as int, (k, m2)));
            lemma_replace_after_get(t0, t1, table_view(self.modules@), k, d, m2, idx as int);
        }
    }

    /// Inserts the function of an accepted function descriptor under its name.
    pub fn add_function(&mut self, info: &PyFunctionInfo)
        requires
            table_wf(table_view(old(self).modules@)),
        ensures
            table_view(final(self).modules@) == add_function_t(
                table_view(old(self).modules@),
                info@,
                old(self).default_module_name@,
            ),
            table_wf(table_view(final(self).modules@)),
            final(self).default_module_name == old(self).default_module_name,
            final(self).python_root == old(self).python_root,
            final(self).module_filter == old(self).module_filter,
            final(self).rust_module_filters == old(self).rust_module_filters,
    {
        let ghost t0 = table_view(self.modules@);
        let ghost d = self.default_module_name@;
        let ghost k = effective_name(info@.module, d);
        let m_ref = info.module.as_ref();
        proof {
            assert(opt_ref_view(m_ref) == info@.module);
        }
        let idx = self.get_module(m_ref);
        let ghost t1 = table_view(self.modules@);
        let f = FunctionDef::from_info(info);
        let mut entry = self.modules.remove(idx);
        entry.1.insert_function(&info.name, f);
        let ghost m2 = entry.1@;
        self.modules.insert(idx, entry);
        proof {
            assert(table_view(self.modules@) =~= t1.update(idx as int, (k, m2)));
            lemma_replace_after_get(t0, t1, table_view(self.modules@), k, d, m2, idx as int);
        }
    }

    /// Inserts the error of an accepted error descriptor under its name.
    pub fn add_error(&mut self, info: &PyErrorInfo)
        requires
            table_wf(table_view(old(self).modules@)),
        ensures
            table_view(final(self).modules@) == add_error_t(
                table_view(old(self).modules@),
                info@,
                old(self).default_module_name@,
            ),
            table_wf(table_view(final(self).modules@)),
            final(self).default_module_name == old(self).default_module_name,
            final(self).python_root == old(self).python_root,
            final(self).module_filter == old(self).module_filter,
            final(self).rust_module_filters == old(self).rust_module_filters,
    {
        let ghost t0 = table_view(self.modules@);
        let ghost d = self.default_module_name@;
        let ghost k = info@.module;
        let idx = self.get_module(Some(&info.module));
        let ghost t1 = table_view(self.modules@);
        let e = ErrorDef::from_info(info);
        let mut entry = self.modules.remove(idx);
        entry.1.insert_error(&info.name, e);
        let ghost m2 = entry.1@;
        self.modules.insert(idx, entry);
        proof {
            assert(table_view(self.modules@) =~= t1.update(idx as int, (k, m2)));
            lemma_replace_after_get(t0, t1, table_view(self.modules@), k, d, m2, idx as int);
        }
    }

    /// Inserts the variable of an accepted variable descriptor under its name.
    pub fn add_variable(&mut self, info: &PyVariableInfo)
        requires
            table_wf(table_view(old(self).modules@)),
        ensures
            table_view(final(self).modules@) == add_variable_t(
                table_view(old(self).modules@),
                info@,
                old(self).default_module_name@,
            ),
            table_wf(table_view(final(self).modules@)),
            final(self).default_module_name == old(self).default_module_name,
            final(self).python_root == old(self).python_root,
            final(self).module_filter == old(self).module_filter,
            final(self).rust_module_filters == old(self).rust_module_filters,
    {
        let ghost t0 = table_view(self.modules@);
        let ghost d = self.default_module_name@;
        let ghost k = info@.module;
        let idx = self.get_module(Some(&info.module));
        let ghost t1 = table_view(self.modules@);
        let v = VariableDef::from_info(info);
        let mut entry = self.modules.remove(idx);
        entry.1.insert_variable(&info.name, v);
        let ghost m2 = entry.1@;
        self.modules.insert(idx, entry);
        proof {
            assert(table_view(self.modules@) =~= t1.update(idx as int, (k, m2)));
            lemma_replace_after_get(t0, t1, table_view(self.modules@), k, d, m2, idx as int);
        }
    }
}

// ---------------------------------------------------------------------------
// Methods-block merging
// ---------------------------------------------------------------------------

/// Whether the module declares `id` as a class or an enum.
pub open spec fn module_has_id(m: ModuleModel, id: u64) -> bool {
    id_has(m.class, id) || id_has(m.enum_, id)
}

/// The class map after the block's lists were appended to the entry for `id`.
pub open spec fn class_map_merge(
    s: Seq<(u64, ClassModel)>,
    id: u64,
    mi: MethodsInfoModel,
) -> Seq<(u64, ClassModel)>
    decreases s.len(),
{
    if s.len() == 0 {
        s
    } else if s[0].0 == id {
        seq![(id, class_model_merged(s[0].1, mi.attrs, mi.getters, mi.setters, mi.methods))]
            + s.drop_first()
    } else {
        seq![s[0]] + class_map_merge(s.drop_first(), id, mi)
    }
}

/// The enum map after the block's lists were appended to the entry for `id`.
pub open spec fn enum_map_merge(
    s: Seq<(u64, EnumModel)>,
    id: u64,
    mi: MethodsInfoModel,
) -> Seq<(u64, EnumModel)>
    decreases s.len(),
{
    if s.len() == 0 {
        s
    } else if s[0].0 == id {
        seq![(id, enum_model_merged(s[0].1, mi.attrs, mi.getters, mi.setters, mi.methods))]
            + s.drop_first()
    } else {
        seq![s[0]] + enum_map_merge(s.drop_first(), id, mi)
    }
}

/// The module after a methods block landed in it: the class map takes the
/// block when it holds the identity, otherwise the enum map does.
pub open spec fn module_merged(m: ModuleModel, mi: MethodsInfoModel) -> ModuleModel {
    if id_has(m.class, mi.struct_id) {
        ModuleModel { class: class_map_merge(m.class, mi.struct_id, mi), ..m }
    } else {
        ModuleModel { enum_: enum_map_merge(m.enum_, mi.struct_id, mi), ..m }
    }
}

/// The table after a methods block was offered to each module in order and
/// merged into the first one that declares its identity, if any.
pub open spec fn add_methods_t(
    t: Seq<(Seq<char>, ModuleModel)>,
    mi: MethodsInfoModel,
) -> Seq<(Seq<char>, ModuleModel)>
    decreases t.len(),
{
    if t.len() == 0 {
        t
    } else if module_has_id(t[0].1, mi.struct_id) {
        seq![(t[0].0, module_merged(t[0].1, mi))] + t.drop_first()
    } else {
        seq![t[0]] + add_methods_t(t.drop_first(), mi)
    }
}

pub proof fn lemma_class_map_merge_at(
    s: Seq<(u64, ClassModel)>,
    id: u64,
    mi: MethodsInfoModel,
    n: int,
)
    requires
        0 <= n < s.len(),
        forall|j: int| 0 <= j < n ==> s[j].0 != id,
        s[n].0 == id,
    ensures
        class_map_merge(s, id, mi) == s.update(
            n,
            (id, class_model_merged(s[n].1, mi.attrs, mi.getters, mi.setters, mi.methods)),
        ),
    decreases n,
{
    let merged = class_model_merged(s[n].1, mi.attrs, mi.getters, mi.setters, mi.methods);
    if n == 0 {
        assert(seq![(id, merged)] + s.drop_first() =~= s.update(0, (id, merged)));
    } else {
        lemma_class_map_merge_at(s.drop_first(), id, mi, n - 1);
        assert(s.drop_first()[n - 1] == s[n]);
        assert(seq![s[0]] + s.drop_first().update(n - 1, (id, merged)) =~= s.update(n, (id, merged)));
    }
}

pub proof fn lemma_enum_map_merge_at(s: Seq<(u64, EnumModel)>, id: u64, mi: MethodsInfoModel, n: int)
    requires
        0 <= n < s.len(),
        forall|j: int| 0 <= j < n ==> s[j].0 != id,
        s[n].0 == id,
    ensures
        enum_map_merge(s, id, mi) == s.update(
            n,
            (id, enum_model_merged(s[n].1, mi.attrs, mi.getters, mi.setters, mi.methods)),
        ),
    decreases n,
{
    let merged = enum_model_merged(s[n].1, mi.attrs, mi.getters, mi.setters, mi.methods);
    if n == 0 {
        assert(seq![(id, merged)] + s.drop_first() =~= s.update(0, (id, merged)));
    } else {
        lemma_enum_map_merge_at(s.drop_first(), id, mi, n - 1);
        assert(s.drop_first()[n - 1] == s[n]);
        assert(seq![s[0]] + s.drop_first().update(n - 1, (id, merged)) =~= s.update(n, (id, merged)));
    }
}

/// The table step for a block whose identity the first `n` modules lack and
/// module `n` declares.
pub proof fn lemma_add_methods_found(
    t: Seq<(Seq<char>, ModuleModel)>,
    mi: MethodsInfoModel,
    n: int,
)
    requires
        0 <= n < t.len(),
        forall|j: int| 0 <= j < n ==> !module_has_id(#[trigger] t[j].1, mi.struct_id),
        module_has_id(t[n].1, mi.struct_id),
    ensures
        add_methods_t(t, mi) == t.update(n, (t[n].0, module_merged(t[n].1, mi))),
    decreases n,
{
    let merged = (t[n].0, module_merged(t[n].1, mi));
    if n == 0 {
        assert(seq![merged] + t.drop_first() =~= t.update(0, merged));
    } else {
        lemma_add_methods_found(t.drop_first(), mi, n - 1);
        assert(t.drop_first()[n - 1] == t[n]);
        assert(seq![t[0]] + t.drop_first().update(n - 1, merged) =~= t.update(n, merged));
    }
}

/// A methods block whose identity no module declares changes nothing: its
/// contributions are silently discarded, and this is not an error.
pub proof fn lemma_add_methods_absent(t: Seq<(Seq<char>, ModuleModel)>, mi: MethodsInfoModel)
    requires
        forall|j: int| 0 <= j < t.len() ==> !module_has_id(#[trigger] t[j].1, mi.struct_id),
    ensures
        add_methods_t(t, mi) == t,
    decreases t.len(),
{
    if t.len() > 0 {
        lemma_add_methods_absent(t.drop_first(), mi);
        assert(seq![t[0]] + t.drop_first() =~= t);
    }
}

impl Module {
    /// Merges a methods block into this module's class or enum holding its
    /// identity; reports whether one did.
    pub fn merge_methods_block(&mut self, info: &PyMethodsInfo) -> (merged: bool)
        requires
            module_wf(old(self)@),
        ensures
            merged == module_has_id(old(self)@, info@.struct_id),
            merged ==> final(self)@ == module_merged(old(self)@, info@),
            !merged ==> final(self)@ == old(self)@,
            module_wf(final(self)@),
    {
        let ghost m0 = self@;
        let id = info.struct_id;
        if let Some(n) = id_find(&self.class, id) {
            let mut e = self.class.remove(n);
            e.1.merge_lists(&info.attrs, &info.getters, &info.setters, &info.methods);
            self.class.insert(n, e);
            proof {
                let merged_c = class_model_merged(
                    m0.class[n as int].1,
                    info@.attrs,
                    info@.getters,
                    info@.setters,
                    info@.methods,
                );
                assert(self@.class =~= m0.class.update(n as int, (id, merged_c)));
                lemma_class_map_merge_at(m0.class, id, info@, n as int);
                lemma_id_get_at(m0.class, id, n as int);
                assert(id_keys_sorted(self@.class)) by {
                    assert(forall|i: int|
                        0 <= i < self@.class.len() ==> self@.class[i].0 == m0.class[i].0);
                }
            }
            true
        } else if let Some(n) = id_find(&self.enum_, id) {
            let mut e = self.enum_.remove(n);
            e.1.merge_lists(&info.attrs, &info.getters, &info.setters, &info.methods);
            self.enum_.insert(n, e);
            proof {
                let merged_e = enum_model_merged(
                    m0.enum_[n as int].1,
                    info@.attrs,
                    info@.getters,
                    info@.setters,
                    info@.methods,
                );
                assert(self@.enum_ =~= m0.enum_.update(n as int, (id, merged_e)));
                lemma_enum_map_merge_at(m0.enum_, id, info@, n as int);
                lemma_id_get_at(m0.enum_, id, n as int);
                lemma_id_all_diff_get_none(m0.class, id);
                assert(id_keys_sorted(self@.enum_)) by {
                    assert(forall|i: int|
                        0 <= i < self@.enum_.len() ==> self@.enum_[i].0 == m0.enum_[i].0);
                }
            }
            true
        } else {
            proof {
                lemma_id_all_diff_get_none(m0.class, id);
                lemma_id_all_diff_get_none(m0.enum_, id);
            }
            false
        }
    }
}

impl StubInfoBuilder {
    /// Offers a methods block to each module in table order and merges it
    /// into the first one declaring its identity; a block whose identity is
    /// absent everywhere is silently discarded.
    pub fn add_methods(&mut self, info: &PyMethodsInfo)
        requires
            table_wf(table_view(old(self).modules@)),
        ensures
            table_view(final(self).modules@) == add_methods_t(
                table_view(old(self).modules@),
                info@,
            ),
            table_wf(table_view(final(self).modules@)),
            final(self).default_module_name == old(self).default_module_name,
            final(self).python_root == old(self).python_root,
            final(self).module_filter == old(self).module_filter,
            final(self).rust_module_filters == old(self).rust_module_filters,
    {
        let ghost t0 = table_view(self.modules@);
        let mut i: usize = 0;
        while i < self.modules.len()
            invariant
                i <= self.modules@.len(),
                t0 == table_view(old(self).modules@),
                table_view(self.modules@) == t0,
                table_wf(t0),
                forall|j: int| 0 <= j < i ==> !module_has_id(#[trigger] t0[j].1, info@.struct_id),
                self.default_module_name == old(self).default_module_name,
                self.python_root == old(self).python_root,
                self.module_filter == old(self).module_filter,
                self.rust_module_filters == old(self).rust_module_filters,
            decreases self.modules@.len() - i,
        {
            let mut entry = self.modules.remove(i);
            proof {
                assert(t0[i as int] == (entry.0@, entry.1@));
                assert(module_wf(t0[i as int].1));
            }
            let merged = entry.1.merge_methods_block(info);
            let ghost m1 = entry.1@;
            self.modules.insert(i, entry);
            if merged {
                proof {
                    assert(table_view(self.modules@) =~= t0.update(
                        i as int,
                        (t0[i as int].0, module_merged(t0[i as int].1, info@)),
                    ));
                    lemma_add_methods_found(t0, info@, i as int);
                    let t2 = table_view(self.modules@);
                    assert(keys_sorted(t2)) by {
                        assert(forall|x: int| 0 <= x < t2.len() ==> t2[x].0 == t0[x].0);
                    }
                    assert forall|x: int| 0 <= x < t2.len() implies module_wf(
                        #[trigger] t2[x].1,
                    ) by {
                        if x != i {
                            assert(t2[x] == t0[x]);
                        }
                    }
                }
                return;
            }
            proof {
                assert(table_view(self.modules@) =~= t0);
            }
            i += 1;
        }
        proof {
            lemma_add_methods_absent(t0, info@);
        }
    }
}

// ---------------------------------------------------------------------------
// Hierarchy building
// ---------------------------------------------------------------------------

pub open spec fn acc_view(a: Seq<(String, Vec<String>)>) -> Seq<(Seq<char>, Seq<Seq<char>>)> {
    a.map_values(|p: (String, Vec<String>)| (p.0@, strs_view(p.1@)))
}

pub open spec fn acc_wf(a: Seq<(Seq<char>, Seq<Seq<char>>)>) -> bool {
    &&& keys_sorted(a)
    &&& forall|i: int| 0 <= i < a.len() ==> set_sorted(#[trigger] a[i].1)
}

/// Records `name`'s leaf segment under its parent namespace, when it has one.
pub open spec fn child_map_step(
    acc: Seq<(Seq<char>, Seq<Seq<char>>)>,
    name: Seq<char>,
) -> Seq<(Seq<char>, Seq<Seq<char>>)> {
    if last_dot(name) < 0 {
        acc
    } else {
        let p = parent_name(name);
        let l = leaf_name(name);
        let cur = match assoc_get(acc, p) {
            Some(s) => s,
            None => Seq::empty(),
        };
        assoc_put(acc, p, set_put(cur, l))
    }
}

/// The per-parent sets of immediate child leaf names, over all table keys.
pub open spec fn collect_children(keys: Seq<Seq<char>>) -> Seq<(Seq<char>, Seq<Seq<char>>)>
    decreases keys.len(),
{
    if keys.len() == 0 {
        Seq::empty()
    } else {
        child_map_step(collect_children(keys.drop_last()), keys.last())
    }
}

pub open spec fn set_put_all(s: Seq<Seq<char>>, xs: Seq<Seq<char>>) -> Seq<Seq<char>>
    decreases xs.len(),
{
    if xs.len() == 0 {
        s
    } else {
        set_put(set_put_all(s, xs.drop_last()), xs.last())
    }
}

/// Extends a parent's submodule set when the parent is materialized; a
/// parent namespace never registered gets no module, and its children stay
/// unlinked.
pub open spec fn attach_children_step(
    t: Seq<(Seq<char>, ModuleModel)>,
    e: (Seq<char>, Seq<Seq<char>>),
) -> Seq<(Seq<char>, ModuleModel)> {
    match assoc_get(t, e.0) {
        Some(m) => assoc_put(t, e.0, ModuleModel { submodules: set_put_all(m.submodules, e.1), ..m }),
        None => t,
    }
}

pub open spec fn attach_children(
    t: Seq<(Seq<char>, ModuleModel)>,
    acc: Seq<(Seq<char>, Seq<Seq<char>>)>,
) -> Seq<(Seq<char>, ModuleModel)>
    decreases acc.len(),
{
    if acc.len() == 0 {
        t
    } else {
        attach_children_step(attach_children(t, acc.drop_last()), acc.last())
    }
}

/// The table after hierarchy building: every materialized parent's submodule
/// set is extended with the leaf names of its direct children.
pub open spec fn register_submodules_t(
    t: Seq<(Seq<char>, ModuleModel)>,
) -> Seq<(Seq<char>, ModuleModel)> {
    attach_children(t, collect_children(assoc_keys(t)))
}

impl StubInfoBuilder {
    /// Derives parent/child links from the dotted names in the table and
    /// attaches each child's leaf name to its parent, where the parent is
    /// itself a table entry.
    pub fn register_submodules(&mut self)
        requires
            table_wf(table_view(old(self).modules@)),
        ensures
            table_view(final(self).modules@) == register_submodules_t(
                table_view(old(self).modules@),
            ),
            table_wf(table_view(final(self).modules@)),
            final(self).default_module_name == old(self).default_module_name,
            final(self).python_root == old(self).python_root,
            final(self).module_filter == old(self).module_filter,
            final(self).rust_module_filters == old(self).rust_module_filters,
    {
        let ghost t0 = table_view(self.modules@);
        let ghost keys = assoc_keys(t0);
        let mut acc: Vec<(String, Vec<String>)> = Vec::new();
        proof {
            assert(acc_view(acc@) =~= Seq::<(Seq<char>, Seq<Seq<char>>)>::empty());
            assert(keys.take(0) =~= Seq::<Seq<char>>::empty());
        }
        let mut i: usize = 0;
        while i < self.modules.len()
            invariant
                i <= self.modules@.len(),
                t0 == table_view(old(self).modules@),
                table_view(self.modules@) == t0,
                table_wf(t0),
                keys == assoc_keys(t0),
                acc_view(acc@) == collect_children(keys.take(i as int)),
                acc_wf(acc_view(acc@)),
                self.default_module_name == old(self).default_module_name,
                self.python_root == old(self).python_root,
                self.module_filter == old(self).module_filter,
                self.rust_module_filters == old(self).rust_module_filters,
            decreases self.modules@.len() - i,
        {
            let ghost acc0 = acc_view(acc@);
            let name_ref = &self.modules[i].0;
            proof {
                assert(keys[i as int] == name_ref@);
            }
            match split_parent(name_ref) {
                None => {
                    proof {
                        assert(child_map_step(acc0, keys[i as int]) == acc0);
                    }
                },
                Some((parent, leaf)) => {
                    let n = str_pos(&acc, &parent);
                    proof {
                        lemma_lex_lt_irrefl(parent@);
                    }
                    if n < acc.len() && acc[n].0 == parent {
                        let mut e = acc.remove(n);
                        proof {
                            assert(acc0[n as int] == (e.0@, strs_view(e.1@)));
                            assert(set_sorted(acc0[n as int].1));
                        }
                        crate::table::set_insert(&mut e.1, &leaf);
                        acc.insert(n, e);
                        proof {
                            assert forall|j: int| 0 <= j < n implies acc0[j].0 != parent@ by {
                                if acc0[j].0 == parent@ {
                                    assert(lex_lt(parent@, parent@));
                                }
                            }
                            lemma_get_at(acc0, parent@, n as int);
                            let newset = set_put(acc0[n as int].1, leaf@);
                            assert(acc_view(acc@) =~= acc0.update(n as int, (parent@, newset)));
                            lemma_put_found(acc0, parent@, newset, n as int);
                            let a1 = acc_view(acc@);
                            assert(keys_sorted(a1)) by {
                                assert(forall|x: int| 0 <= x < a1.len() ==> a1[x].0 == acc0[x].0);
                            }
                            assert forall|x: int| 0 <= x < a1.len() implies set_sorted(
                                #[trigger] a1[x].1,
                            ) by {
                                if x != n {
                                    assert(a1[x] == acc0[x]);
                                }
                            }
                        }
                    } else {
                        let mut v0: Vec<String> = Vec::new();
                        v0.push(leaf);
                        acc.insert(n, (parent, v0));
                        proof {
                            lemma_sorted_get_none(acc0, parent@, n as int);
                            let l = leaf_name(keys[i as int]);
                            assert(strs_view(v0@) =~= seq![l]);
                            assert(set_put(Seq::<Seq<char>>::empty(), l) =~= seq![l]);
                            assert(acc_view(acc@) =~= acc0.insert(n as int, (parent@, seq![l])));
                            lemma_put_inserted(acc0, parent@, seq![l], n as int);
                            lemma_put_sorted(acc0, parent@, seq![l]);
                            let a1 = acc_view(acc@);
                            assert forall|x: int| 0 <= x < a1.len() implies set_sorted(
                                #[trigger] a1[x].1,
                            ) by {
                                if x < n {
                                    assert(a1[x] == acc0[x]);
                                } else if x > n {
                                    assert(a1[x] == acc0[x - 1]);
                                } else {
                                    assert(a1[x].1 =~= seq![l]);
                                }
                            }
                        }
                    }
                },
            }
            proof {
                assert(keys.take(i + 1).drop_last() =~= keys.take(i as int));
                assert(keys.take(i + 1).last() == keys[i as int]);
                assert(collect_children(keys.take(i + 1)) == child_map_step(
                    collect_children(keys.take(i as int)),
                    keys[i as int],
                ));
            }
            i += 1;
        }
        proof {
            assert(keys.take(keys.len() as int) =~= keys);
        }
        let ghost accm = acc_view(acc@);
        let mut j: usize = 0;
        proof {
            assert(accm.take(0) =~= Seq::<(Seq<char>, Seq<Seq<char>>)>::empty());
        }
        while j < acc.len()
            invariant
                j <= acc@.len(),
                t0 == table_view(old(self).modules@),
                accm == collect_children(assoc_keys(t0)),
                acc_view(acc@) == accm,
                acc_wf(accm),
                table_wf(t0),
                table_view(self.modules@) == attach_children(t0, accm.take(j as int)),
                table_wf(table_view(self.modules@)),
                self.default_module_name == old(self).default_module_name,
                self.python_root == old(self).python_root,
                self.module_filter == old(self).module_filter,
                self.rust_module_filters == old(self).rust_module_filters,
            decreases acc@.len() - j,
        {
            let ghost tj = table_view(self.modules@);
            let parent_ref = &acc[j].0;
            proof {
                assert(accm[j as int].0 == parent_ref@);
                lemma_lex_lt_irrefl(parent_ref@);
            }
            let n = str_pos(&self.modules, parent_ref);
            if n < self.modules.len() && self.modules[n].0 == *parent_ref {
                let mut entry = self.modules.remove(n);
                let ghost m0 = entry.1@;
                let ghost e_key = entry.0;
                let ghost cs = accm[j as int].1;
                proof {
                    assert(tj[n as int] == (e_key@, m0));
                    assert(module_wf(tj[n as int].1));
                    assert(cs.take(0) =~= Seq::<Seq<char>>::empty());
                    assert(set_put_all(m0.submodules, cs.take(0)) == m0.submodules);
                    assert(entry.1@ == (ModuleModel {
                        submodules: set_put_all(m0.submodules, cs.take(0)),
                        ..m0
                    }));
                }
                let mut c: usize = 0;
                while c < acc[j].1.len()
                    invariant
                        j < acc@.len(),
                        acc_view(acc@) == accm,
                        cs == accm[j as int].1,
                        c <= acc@[j as int].1@.len(),
                        cs.len() == acc@[j as int].1@.len(),
                        entry.0 == e_key,
                        entry.1@ == (ModuleModel {
                            submodules: set_put_all(m0.submodules, cs.take(c as int)),
                            ..m0
                        }),
                        module_wf(entry.1@),
                        module_wf(m0),
                    decreases acc@[j as int].1@.len() - c,
                {
                    let child = &acc[j].1[c];
                    proof {
                        assert(cs[c as int] == child@);
                    }
                    entry.1.add_submodule(child);
                    proof {
                        assert(cs.take(c + 1).drop_last() =~= cs.take(c as int));
                        assert(cs.take(c + 1).last() == cs[c as int]);
                        assert(set_put_all(m0.submodules, cs.take(c + 1)) == set_put(
                            set_put_all(m0.submodules, cs.take(c as int)),
                            cs[c as int],
                        ));
                    }
                    c += 1;
                }
                proof {
                    assert(cs.take(cs.len() as int) =~= cs);
                }
                let ghost m1 = entry.1@;
                self.modules.insert(n, entry);
                proof {
                    assert forall|x: int| 0 <= x < n implies tj[x].0 != parent_ref@ by {
                        if tj[x].0 == parent_ref@ {
                            assert(lex_lt(parent_ref@, parent_ref@));
                        }
                    }
                    lemma_get_at(tj, parent_ref@, n as int);
                    assert(m1 == (ModuleModel { submodules: set_put_all(m0.submodules, cs), ..m0 }));
                    assert(table_view(self.modules@) =~= tj.update(n as int, (parent_ref@, m1)));
                    lemma_put_found(tj, parent_ref@, m1, n as int);
                    assert(attach_children_step(tj, accm[j as int]) == table_view(self.modules@));
                    let t2 = table_view(self.modules@);
                    assert(keys_sorted(t2)) by {
                        assert(forall|x: int| 0 <= x < t2.len() ==> t2[x].0 == tj[x].0);
                    }
                    assert forall|x: int| 0 <= x < t2.len() implies module_wf(
                        #[trigger] t2[x].1,
                    ) by {
                        if x != n {
                            assert(t2[x] == tj[x]);
                        }
                    }
                }
            } else {
                proof {
                    lemma_sorted_get_none(tj, parent_ref@, n as int);
                    assert(attach_children_step(tj, accm[j as int]) == tj);
                }
            }
            proof {
                assert(accm.take(j + 1).drop_last() =~= accm.take(j as int));
                assert(accm.take(j + 1).last() == accm[j as int]);
                assert(attach_children(t0, accm.take(j + 1)) == attach_children_step(
                    attach_children(t0, accm.take(j as int)),
                    accm[j as int],
                ));
            }
            j += 1;
        }
        proof {
            assert(accm.take(acc@.len() as int) =~= accm);
        }
    }
}

// ---------------------------------------------------------------------------
// One aggregation run
// ---------------------------------------------------------------------------

pub open spec fn add_classes_t(
    t: Seq<(Seq<char>, ModuleModel)>,
    infos: Seq<ClassInfoModel>,
    d: Seq<char>,
    nsf: Option<Seq<char>>,
    of: Option<Seq<Seq<char>>>,
) -> Seq<(Seq<char>, ModuleModel)>
    decreases infos.len(),
{
    if infos.len() == 0 {
        t
    } else {
        let t1 = add_classes_t(t, infos.drop_last(), d, nsf, of);
        let i = infos.last();
        if include_ns(nsf, effective_name(i.module, d)) && include_origin(of, i.rust_module_path) {
            add_class_t(t1, i, d)
        } else {
            t1
        }
    }
}

pub open spec fn add_complex_enums_t(
    t: Seq<(Seq<char>, ModuleModel)>,
    infos: Seq<ComplexEnumInfoModel>,
    d: Seq<char>,
    nsf: Option<Seq<char>>,
    of: Option<Seq<Seq<char>>>,
) -> Seq<(Seq<char>, ModuleModel)>
    decreases infos.len(),
{
    if infos.len() == 0 {
        t
    } else {
        let t1 = add_complex_enums_t(t, infos.drop_last(), d, nsf, of);
        let i = infos.last();
        if include_ns(nsf, effective_name(i.module, d)) && include_origin(of, i.rust_module_path) {
            add_complex_enum_t(t1, i, d)
        } else {
            t1
        }
    }
}

pub open spec fn add_enums_t(
    t: Seq<(Seq<char>, ModuleModel)>,
    infos: Seq<EnumInfoModel>,
    d: Seq<char>,
    nsf: Option<Seq<char>>,
    of: Option<Seq<Seq<char>>>,
) -> Seq<(Seq<char>, ModuleModel)>
    decreases infos.len(),
{
    if infos.len() == 0 {
        t
    } else {
        let t1 = add_enums_t(t, infos.drop_last(), d, nsf, of);
        let i = infos.last();
        if include_ns(nsf, effective_name(i.module, d)) && include_origin(of, i.rust_module_path) {
            add_enum_t(t1, i, d)
        } else {
            t1
        }
    }
}

pub open spec fn add_functions_t(
    t: Seq<(Seq<char>, ModuleModel)>,
    infos: Seq<FunctionInfoModel>,
    d: Seq<char>,
    nsf: Option<Seq<char>>,
) -> Seq<(Seq<char>, ModuleModel)>
    decreases infos.len(),
{
    if infos.len() == 0 {
        t
    } else {
        let t1 = add_functions_t(t, infos.drop_last(), d, nsf);
        let i = infos.last();
        if include_ns(nsf, effective_name(i.module, d)) {
            add_function_t(t1, i, d)
        } else {
            t1
        }
    }
}

pub open spec fn add_errors_t(
    t: Seq<(Seq<char>, ModuleModel)>,
    infos: Seq<ErrorInfoModel>,
    d: Seq<char>,
    nsf: Option<Seq<char>>,
) -> Seq<(Seq<char>, ModuleModel)>
    decreases infos.len(),
{
    if infos.len() == 0 {
        t
    } else {
        let t1 = add_errors_t(t, infos.drop_last(), d, nsf);
        let i = infos.last();
        if include_ns(nsf, i.module) {
            add_error_t(t1, i, d)
        } else {
            t1
        }
    }
}

pub open spec fn add_variables_t(
    t: Seq<(Seq<char>, ModuleModel)>,
    infos: Seq<crate::registry::VariableInfoModel>,
    d: Seq<char>,
    nsf: Option<Seq<char>>,
) -> Seq<(Seq<char>, ModuleModel)>
    decreases infos.len(),
{
    if infos.len() == 0 {
        t
    } else {
        let t1 = add_variables_t(t, infos.drop_last(), d, nsf);
        let i = infos.last();
        if include_ns(nsf, i.module) {
            add_variable_t(t1, i, d)
        } else {
            t1
        }
    }
}

pub open spec fn add_methods_all_t(
    t: Seq<(Seq<char>, ModuleModel)>,
    infos: Seq<MethodsInfoModel>,
) -> Seq<(Seq<char>, ModuleModel)>
    decreases infos.len(),
{
    if infos.len() == 0 {
        t
    } else {
        add_methods_t(add_methods_all_t(t, infos.drop_last()), infos.last())
    }
}

/// The whole aggregation: primary descriptors through the filters, then
/// methods blocks, then hierarchy building.
pub open spec fn build_table(
    reg: RegistryModel,
    d: Seq<char>,
    nsf: Option<Seq<char>>,
    of: Option<Seq<Seq<char>>>,
) -> Seq<(Seq<char>, ModuleModel)> {
    let t = add_classes_t(Seq::empty(), reg.classes, d, nsf, of);
    let t = add_complex_enums_t(t, reg.complex_enums, d, nsf, of);
    let t = add_enums_t(t, reg.enums, d, nsf, of);
    let t = add_functions_t(t, reg.functions, d, nsf);
    let t = add_errors_t(t, reg.errors, d, nsf);
    let t = add_variables_t(t, reg.variables, d, nsf);
    let t = add_methods_all_t(t, reg.methods);
    register_submodules_t(t)
}

impl StubInfoBuilder {
    /// Aggregates every registered descriptor into the module table and
    /// finishes it into a `StubInfo`.
    pub fn build(self, registry: &Registry) -> (r: StubInfo)
        requires
            self.modules@.len() == 0,
        ensures
            table_view(r.modules@) == build_table(
                registry@,
                self.default_module_name@,
                opt_str_view(self.module_filter),
                opt_strs_view(self.rust_module_filters),
            ),
            table_wf(table_view(r.modules@)),
            r.python_root == self.python_root,
            r.module_filter == self.module_filter,
            r.rust_module_filters == self.rust_module_filters,
    {
        let mut this = self;
        let ghost d = this.default_module_name@;
        let ghost nsf = opt_str_view(this.module_filter);
        let ghost of = opt_strs_view(this.rust_module_filters);
        let ghost dm0 = this.default_module_name;
        let ghost pr0 = this.python_root;
        let ghost mf0 = this.module_filter;
        let ghost rf0 = this.rust_module_filters;
        proof {
            assert(table_view(this.modules@) =~= Seq::<(Seq<char>, ModuleModel)>::empty());
            assert(registry@.classes.take(0) =~= Seq::<ClassInfoModel>::empty());
        }
        let ghost t_a = add_classes_t(Seq::empty(), registry@.classes, d, nsf, of);
        let mut i: usize = 0;
        while i < registry.classes.len()
            invariant
                i <= registry.classes@.len(),
                this.default_module_name == dm0,
                this.python_root == pr0,
                this.module_filter == mf0,
                this.rust_module_filters == rf0,
                d == dm0@,
                nsf == opt_str_view(mf0),
                of == opt_strs_view(rf0),
                table_wf(table_view(this.modules@)),
                table_view(this.modules@) == add_classes_t(
                    Seq::empty(),
                    registry@.classes.take(i as int),
                    d,
                    nsf,
                    of,
                ),
            decreases registry.classes@.len() - i,
        {
            let info = &registry.classes[i];
            proof {
                assert(registry@.classes[i as int] == info@);
            }
            let m_ref = info.module.as_ref();
            proof {
                assert(opt_ref_view(m_ref) == info@.module);
            }
            let ok_ns = this.should_include_module(m_ref);
            let ok_origin = this.should_include_rust_module(&info.rust_module_path);
            if ok_ns && ok_origin {
                this.add_class(info);
            }
            proof {
                assert(registry@.classes.take(i + 1).drop_last() =~= registry@.classes.take(
                    i as int,
                ));
                assert(registry@.classes.take(i + 1).last() == registry@.classes[i as int]);
            }
            i += 1;
        }
        proof {
            assert(registry@.classes.take(registry.classes@.len() as int) =~= registry@.classes);
            assert(registry@.complex_enums.take(0) =~= Seq::<ComplexEnumInfoModel>::empty());
        }
        let ghost t_b = add_complex_enums_t(t_a, registry@.complex_enums, d, nsf, of);
        let mut i: usize = 0;
        while i < registry.complex_enums.len()
            invariant
                i <= registry.complex_enums@.len(),
                this.default_module_name == dm0,
                this.python_root == pr0,
                this.module_filter == mf0,
                this.rust_module_filters == rf0,
                d == dm0@,
                nsf == opt_str_view(mf0),
                of == opt_strs_view(rf0),
                table_wf(table_view(this.modules@)),
                table_view(this.modules@) == add_complex_enums_t(
                    t_a,
                    registry@.complex_enums.take(i as int),
                    d,
                    nsf,
                    of,
                ),
            decreases registry.complex_enums@.len() - i,
        {
            let info = &registry.complex_enums[i];
            proof {
                assert(registry@.complex_enums[i as int] == info@);
            }
            let m_ref = info.module.as_ref();
            proof {
                assert(opt_ref_view(m_ref) == info@.module);
            }
            let ok_ns = this.should_include_module(m_ref);
            let ok_origin = this.should_include_rust_module(&info.rust_module_path);
            if ok_ns && ok_origin {
                this.add_complex_enum(info);
            }
            proof {
                assert(registry@.complex_enums.take(i + 1).drop_last()
                    =~= registry@.complex_enums.take(i as int));
                assert(registry@.complex_enums.take(i + 1).last()
                    == registry@.complex_enums[i as int]);
            }
            i += 1;
        }
        proof {
            assert(registry@.complex_enums.take(registry.complex_enums@.len() as int)
                =~= registry@.complex_enums);
            assert(registry@.enums.take(0) =~= Seq::<EnumInfoModel>::empty());
        }
        let ghost t_c = add_enums_t(t_b, registry@.enums, d, nsf, of);
        let mut i: usize = 0;
        while i < registry.enums.len()
            invariant
                i <= registry.enums@.len(),
                this.default_module_name == dm0,
                this.python_root == pr0,
                this.module_filter == mf0,
                this.rust_module_filters == rf0,
                d == dm0@,
                nsf == opt_str_view(mf0),
                of == opt_strs_view(rf0),
                table_wf(table_view(this.modules@)),
                table_view(this.modules@) == add_enums_t(
                    t_b,
                    registry@.enums.take(i as int),
                    d,
                    nsf,
                    of,
                ),
            decreases registry.enums@.len() - i,
        {
            let info = &registry.enums[i];
            proof {
                assert(registry@.enums[i as int] == info@);
            }
            let m_ref = info.module.as_ref();
            proof {
                assert(opt_ref_view(m_ref) == info@.module);
            }
            let ok_ns = this.should_include_module(m_ref);
            let ok_origin = this.should_include_rust_module(&info.rust_module_path);
            if ok_ns && ok_origin {
                this.add_enum(info);
            }
            proof {
                assert(registry@.enums.take(i + 1).drop_last() =~= registry@.enums.take(i as int));
                assert(registry@.enums.take(i + 1).last() == registry@.enums[i as int]);
            }
            i += 1;
        }
        proof {
            assert(registry@.enums.take(registry.enums@.len() as int) =~= registry@.enums);
            assert(registry@.functions.take(0) =~= Seq::<FunctionInfoModel>::empty());
        }
        let ghost t_d = add_functions_t(t_c, registry@.functions, d, nsf);
        let mut i: usize = 0;
        while i < registry.functions.len()
            invariant
                i <= registry.functions@.len(),
                this.default_module_name == dm0,
                this.python_root == pr0,
                this.module_filter == mf0,
                this.rust_module_filters == rf0,
                d == dm0@,
                nsf == opt_str_view(mf0),
                of == opt_strs_view(rf0),
                table_wf(table_view(this.modules@)),
                table_view(this.modules@) == add_functions_t(
                    t_c,
                    registry@.functions.take(i as int),
                    d,
                    nsf,
                ),
            decreases registry.functions@.len() - i,
        {
            let info = &registry.functions[i];
            proof {
                assert(registry@.functions[i as int] == info@);
            }
            let m_ref = info.module.as_ref();
            proof {
                assert(opt_ref_view(m_ref) == info@.module);
            }
            let ok_ns = this.should_include_module(m_ref);
            if ok_ns {
                this.add_function(info);
            }
            proof {
                assert(registry@.functions.take(i + 1).drop_last() =~= registry@.functions.take(
                    i as int,
                ));
                assert(registry@.functions.take(i + 1).last() == registry@.functions[i as int]);
            }
            i += 1;
        }
        proof {
            assert(registry@.functions.take(registry.functions@.len() as int)
                =~= registry@.functions);
            assert(registry@.errors.take(0) =~= Seq::<ErrorInfoModel>::empty());
        }
        let ghost t_e = add_errors_t(t_d, registry@.errors, d, nsf);
        let mut i: usize = 0;
        while i < registry.errors.len()
            invariant
                i <= registry.errors@.len(),
                this.default_module_name == dm0,
                this.python_root == pr0,
                this.module_filter == mf0,
                this.rust_module_filters == rf0,
                d == dm0@,
                nsf == opt_str_view(mf0),
                of == opt_strs_view(rf0),
                table_wf(table_view(this.modules@)),
                table_view(this.modules@) == add_errors_t(
                    t_d,
                    registry@.errors.take(i as int),
                    d,
                    nsf,
                ),
            decreases registry.errors@.len() - i,
        {
            let info = &registry.errors[i];
            proof {
                assert(registry@.errors[i as int] == info@);
            }
            let ok_ns = this.should_include_module(Some(&info.module));
            if ok_ns {
                this.add_error(info);
            }
            proof {
                assert(registry@.errors.take(i + 1).drop_last() =~= registry@.errors.take(
                    i as int,
                ));
                assert(registry@.errors.take(i + 1).last() == registry@.errors[i as int]);
            }
            i += 1;
        }
        proof {
            assert(registry@.errors.take(registry.errors@.len() as int) =~= registry@.errors);
            assert(registry@.variables.take(0)
                =~= Seq::<crate::registry::VariableInfoModel>::empty());
        }
        let ghost t_f = add_variables_t(t_e, registry@.variables, d, nsf);
        let mut i: usize = 0;
        while i < registry.variables.len()
            invariant
                i <= registry.variables@.len(),
                this.default_module_name == dm0,
                this.python_root == pr0,
                this.module_filter == mf0,
                this.rust_module_filters == rf0,
                d == dm0@,
                nsf == opt_str_view(mf0),
                of == opt_strs_view(rf0),
                table_wf(table_view(this.modules@)),
                table_view(this.modules@) == add_variables_t(
                    t_e,
                    registry@.variables.take(i as int),
                    d,
                    nsf,
                ),
            decreases registry.variables@.len() - i,
        {
            let info = &registry.variables[i];
            proof {
                assert(registry@.variables[i as int] == info@);
            }
            let ok_ns = this.should_include_module(Some(&info.module));
            if ok_ns {
                this.add_variable(info);
            }
            proof {
                assert(registry@.variables.take(i + 1).drop_last() =~= registry@.variables.take(
                    i as int,
                ));
                assert(registry@.variables.take(i + 1).last() == registry@.variables[i as int]);
            }
            i += 1;
        }
        proof {
            assert(registry@.variables.take(registry.variables@.len() as int)
                =~= registry@.variables);
            assert(registry@.methods.take(0) =~= Seq::<MethodsInfoModel>::empty());
        }
        let ghost t_g = add_methods_all_t(t_f, registry@.methods);
        let mut i: usize = 0;
        while i < registry.methods.len()
            invariant
                i <= registry.methods@.len(),
                this.default_module_name == dm0,
                this.python_root == pr0,
                this.module_filter == mf0,
                this.rust_module_filters == rf0,
                table_wf(table_view(this.modules@)),
                table_view(this.modules@) == add_methods_all_t(
                    t_f,
                    registry@.methods.take(i as int),
                ),
            decreases registry.methods@.len() - i,
        {
            let info = &registry.methods[i];
            proof {
                assert(registry@.methods[i as int] == info@);
            }
            this.add_methods(info);
            proof {
                assert(registry@.methods.take(i + 1).drop_last() =~= registry@.methods.take(
                    i as int,
                ));
                assert(registry@.methods.take(i + 1).last() == registry@.methods[i as int]);
            }
            i += 1;
        }
        proof {
            assert(registry@.methods.take(registry.methods@.len() as int) =~= registry@.methods);
        }
        this.register_submodules();
        StubInfo {
            modules: this.modules,
            python_root: this.python_root,
            module_filter: this.module_filter,
            rust_module_filters: this.rust_module_filters,
        }
    }

    /// A builder for the given root namespace and output root, with an empty
    /// table and no filters.
    pub fn from_project_root(default_module_name: String, project_root: String) -> (r:
        StubInfoBuilder)
        ensures
            r.modules@.len() == 0,
            r.default_module_name == default_module_name,
            r.python_root == project_root,
            r.module_filter is None,
            r.rust_module_filters is None,
    {
        StubInfoBuilder {
            modules: Vec::new(),
            default_module_name,
            python_root: project_root,
            module_filter: None,
            rust_module_filters: None,
        }
    }

    /// A builder configured from parsed project configuration: the project's
    /// module name, and its source root or, failing that, the manifest
    /// directory.
    pub fn from_pyproject_toml(pyproject: PyProject, manifest_dir: String) -> (r: StubInfoBuilder)
        ensures
            r.modules@.len() == 0,
            r.default_module_name == pyproject.module_name,
            r.python_root == (match pyproject.python_source {
                Some(p) => p,
                None => manifest_dir,
            }),
            r.module_filter is None,
            r.rust_module_filters is None,
    {
        let root = match pyproject.python_source {
            Some(p) => p,
            None => manifest_dir,
        };
        StubInfoBuilder::from_project_root(pyproject.module_name, root)
    }
}

// ---------------------------------------------------------------------------
// The finished artifact
// ---------------------------------------------------------------------------

/// Parsed project configuration, supplied by the caller: the module name and
/// the optional source root recorded in the project file.
pub struct PyProject {
    pub module_name: String,
    pub python_source: Option<String>,
}

/// The completed module table with the resolved output root, read-only for
/// emission.
pub struct StubInfo {
    pub modules: Vec<(String, Module)>,
    pub python_root: String,
    pub module_filter: Option<String>,
    pub rust_module_filters: Option<Vec<String>>,
}

impl View for StubInfo {
    type V = StubInfoModel;

    open spec fn view(&self) -> StubInfoModel {
        StubInfoModel {
            modules: table_view(self.modules@),
            python_root: self.python_root@,
            module_filter: opt_str_view(self.module_filter),
            rust_module_filters: opt_strs_view(self.rust_module_filters),
        }
    }
}

impl StubInfo {
    /// Aggregates from configuration already parsed out of a project file;
    /// the manifest directory stands in when no source root is configured.
    pub fn from_pyproject_toml(registry: &Registry, pyproject: PyProject, manifest_dir: String) -> (r:
        StubInfo)
        ensures
            r@.modules == build_table(registry@, pyproject.module_name@, None, None),
            table_wf(r@.modules),
            r.python_root == (match pyproject.python_source {
                Some(p) => p,
                None => manifest_dir,
            }),
            r@.module_filter is None,
            r@.rust_module_filters is None,
    {
        StubInfoBuilder::from_pyproject_toml(pyproject, manifest_dir).build(registry)
    }

    /// Aggregates everything in the registry under the given root namespace,
    /// with no filters.
    pub fn from_project_root(registry: &Registry, default_module_name: String, project_root: String) -> (r:
        StubInfo)
        ensures
            r@.modules == build_table(registry@, default_module_name@, None, None),
            table_wf(r@.modules),
            r.python_root == project_root,
            r@.module_filter is None,
            r@.rust_module_filters is None,
    {
        StubInfoBuilder::from_project_root(default_module_name, project_root).build(registry)
    }

    /// Aggregates with a namespace filter: only descriptors whose effective
    /// namespace starts with `filter` are included.
    pub fn from_project_root_with_filter(
        registry: &Registry,
        default_module_name: String,
        project_root: String,
        filter: String,
    ) -> (r: StubInfo)
        ensures
            r@.modules == build_table(registry@, default_module_name@, Some(filter@), None),
            table_wf(r@.modules),
            r.python_root == project_root,
            r@.module_filter == Some(filter@),
            r@.rust_module_filters is None,
    {
        let mut builder = StubInfoBuilder::from_project_root(default_module_name, project_root);
        builder.module_filter = Some(filter);
        builder.build(registry)
    }

    /// Aggregates with one origin filter: only descriptors whose origin path
    /// starts with `rust_filter` are included.
    pub fn from_project_root_with_rust_filter(
        registry: &Registry,
        default_module_name: String,
        project_root: String,
        rust_filter: String,
    ) -> (r: StubInfo)
        ensures
            r@.modules == build_table(
                registry@,
                default_module_name@,
                None,
                Some(seq![rust_filter@]),
            ),
            table_wf(r@.modules),
            r.python_root == project_root,
            r@.module_filter is None,
            r@.rust_module_filters == Some(seq![rust_filter@]),
    {
        let ghost fv = rust_filter@;
        let mut filters: Vec<String> = Vec::new();
        filters.push(rust_filter);
        proof {
            assert(strs_view(filters@) =~= seq![fv]);
        }
        StubInfo::from_project_root_with_rust_filters(
            registry,
            default_module_name,
            project_root,
            &filters,
        )
    }

    /// Aggregates with several origin filters: a descriptor is included when
    /// its origin path starts with any of them.
    pub fn from_project_root_with_rust_filters(
        registry: &Registry,
        default_module_name: String,
        project_root: String,
        rust_filters: &Vec<String>,
    ) -> (r: StubInfo)
        ensures
            r@.modules == build_table(
                registry@,
                default_module_name@,
                None,
                Some(strs_view(rust_filters@)),
            ),
            table_wf(r@.modules),
            r.python_root == project_root,
            r@.module_filter is None,
            r@.rust_module_filters == Some(strs_view(rust_filters@)),
    {
        let mut builder = StubInfoBuilder::from_project_root(default_module_name, project_root);
        builder.rust_module_filters = Some(crate::defs::dup_strings(rust_filters));
        builder.build(registry)
    }

    /// The number of modules to emit.
    pub fn module_count(&self) -> (n: usize)
        ensures
            n == self@.modules.len(),
    {
        self.modules.len()
    }

    /// The destination of module `i` below the output root: a leaf stub file
    /// when the module has no submodules, a package directory with an index
    /// stub when it has some. The same module maps to the same destination
    /// every time; only adding a first submodule moves it.
    pub fn module_dest(&self, i: usize) -> (r: String)
        requires
            i < self@.modules.len(),
        ensures
            r@ == dest_path(
                self@.python_root,
                self@.modules[i as int].0,
                self@.modules[i as int].1.submodules.len() != 0,
            ),
    {
        let entry = &self.modules[i];
        proof {
            assert(self@.modules[i as int] == (entry.0@, entry.1@));
            assert(entry.1@.submodules.len() == entry.1.submodules@.len());
        }
        let has_subs = entry.1.submodules.len() != 0;
        build_dest_path(&self.python_root, &entry.0, has_subs)
    }

    /// The destinations of all modules, in table order.
    pub fn emission_paths(&self) -> (r: Vec<String>)
        ensures
            r@.len() == self@.modules.len(),
            forall|i: int|
                0 <= i < r@.len() ==> r@[i]@ == dest_path(
                    self@.python_root,
                    self@.modules[i].0,
                    self@.modules[i].1.submodules.len() != 0,
                ),
    {
        let mut r: Vec<String> = Vec::new();
        let mut i: usize = 0;
        while i < self.modules.len()
            invariant
                i <= self@.modules.len(),
                r@.len() == i,
                forall|j: int|
                    0 <= j < i ==> r@[j]@ == dest_path(
                        self@.python_root,
                        self@.modules[j].0,
                        self@.modules[j].1.submodules.len() != 0,
                    ),
            decreases self@.modules.len() - i,
        {
            let p = self.module_dest(i);
            r.push(p);
            i += 1;
        }
        r
    }
}

// ---------------------------------------------------------------------------
// Laws
// ---------------------------------------------------------------------------

/// Determinism: a fixed registry and fixed filters determine the module
/// table exactly; two aggregation runs over the same descriptors agree.
pub proof fn lemma_aggregation_deterministic(
    reg: RegistryModel,
    d: Seq<char>,
    nsf: Option<Seq<char>>,
    of: Option<Seq<Seq<char>>>,
    t1: Seq<(Seq<char>, ModuleModel)>,
    t2: Seq<(Seq<char>, ModuleModel)>,
)
    requires
        t1 == build_table(reg, d, nsf, of),
        t2 == build_table(reg, d, nsf, of),
    ensures
        t1 == t2,
{
}

/// A bound key has an entry.
proof fn lemma_get_some_at_index<V>(s: Seq<(Seq<char>, V)>, k: Seq<char>)
    requires
        assoc_get(s, k) is Some,
    ensures
        exists|n: int| 0 <= n < s.len() && #[trigger] s[n].0 == k,
    decreases s.len(),
{
    if s.len() > 0 {
        if s[0].0 == k {
            assert(s[0].0 == k);
        } else {
            lemma_get_some_at_index(s.drop_first(), k);
            let n = choose|n: int| 0 <= n < s.drop_first().len() && #[trigger] s.drop_first()[n].0
                == k;
            assert(s[n + 1].0 == k);
        }
    }
}

proof fn lemma_attach_step_keys(t: Seq<(Seq<char>, ModuleModel)>, e: (Seq<char>, Seq<Seq<char>>))
    requires
        keys_sorted(t),
    ensures
        assoc_keys(attach_children_step(t, e)) == assoc_keys(t),
        keys_sorted(attach_children_step(t, e)),
{
    match assoc_get(t, e.0) {
        Some(m) => {
            lemma_get_some_at_index(t, e.0);
            let n = choose|n: int| 0 <= n < t.len() && #[trigger] t[n].0 == e.0;
            let v = ModuleModel { submodules: set_put_all(m.submodules, e.1), ..m };
            assert(forall|j: int| 0 <= j < n ==> lex_lt(#[trigger] t[j].0, e.0));
            crate::table::lemma_put_keys_existing(t, e.0, v, n);
            let t2 = attach_children_step(t, e);
            assert(t2 == assoc_put(t, e.0, v));
            assert(assoc_keys(t2).len() == assoc_keys(t).len());
            assert(t2.len() == t.len());
            assert forall|i: int, j: int| 0 <= i < j < t2.len() implies lex_lt(
                t2[i].0,
                t2[j].0,
            ) by {
                assert(t2[i].0 == assoc_keys(t2)[i]);
                assert(t2[j].0 == assoc_keys(t2)[j]);
                assert(assoc_keys(t)[i] == t[i].0);
                assert(assoc_keys(t)[j] == t[j].0);
            }
        },
        None => {},
    }
}

proof fn lemma_attach_children_keys(
    t: Seq<(Seq<char>, ModuleModel)>,
    acc: Seq<(Seq<char>, Seq<Seq<char>>)>,
)
    requires
        keys_sorted(t),
    ensures
        assoc_keys(attach_children(t, acc)) == assoc_keys(t),
        keys_sorted(attach_children(t, acc)),
    decreases acc.len(),
{
    if acc.len() > 0 {
        lemma_attach_children_keys(t, acc.drop_last());
        lemma_attach_step_keys(attach_children(t, acc.drop_last()), acc.last());
    }
}

/// Hierarchy building materializes no module: the table's keys are exactly
/// what they were. A parent namespace never registered stays absent; its
/// children remain independent entries, unlinked from any submodule set.
pub proof fn lemma_hierarchy_no_implicit_parent(t: Seq<(Seq<char>, ModuleModel)>)
    requires
        keys_sorted(t),
    ensures
        assoc_keys(register_submodules_t(t)) == assoc_keys(t),
{
    lemma_attach_children_keys(t, collect_children(assoc_keys(t)));
}

} // verus!
