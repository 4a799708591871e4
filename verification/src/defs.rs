//! The data model: definitions collected into modules, and the ghost models
//! that contracts speak of. Every definition type is an exec struct of plain
//! strings with a ghost model (its view) of character sequences.

use crate::table::assoc_put;
use crate::table::id_keys_sorted;
use crate::table::id_pos;
use crate::table::id_put;
use crate::table::keys_sorted;
use crate::table::lemma_id_put_found;
use crate::table::lemma_id_put_inserted;
use crate::table::lemma_id_put_sorted;
use crate::table::lemma_put_found;
use crate::table::lemma_put_inserted;
use crate::table::lemma_put_sorted;
use crate::table::set_insert;
use crate::table::set_put;
use crate::table::set_sorted;
use crate::table::str_pos;
use vstd::prelude::*;

verus! {

// ---------------------------------------------------------------------------
// Ghost models
// ---------------------------------------------------------------------------

pub ghost struct MemberModel {
    pub name: Seq<char>,
    pub ty: Seq<char>,
    pub doc: Seq<char>,
    pub default: Option<Seq<char>>,
}

pub ghost struct MethodModel {
    pub name: Seq<char>,
    pub signature: Seq<char>,
    pub doc: Seq<char>,
}

pub ghost struct ClassModel {
    pub name: Seq<char>,
    pub doc: Seq<char>,
    pub attrs: Seq<MemberModel>,
    pub getters: Seq<MemberModel>,
    pub setters: Seq<MemberModel>,
    pub methods: Seq<MethodModel>,
}

pub ghost struct EnumModel {
    pub name: Seq<char>,
    pub doc: Seq<char>,
    pub variants: Seq<Seq<char>>,
    pub attrs: Seq<MemberModel>,
    pub getters: Seq<MemberModel>,
    pub setters: Seq<MemberModel>,
    pub methods: Seq<MethodModel>,
}

pub ghost struct FunctionModel {
    pub name: Seq<char>,
    pub signature: Seq<char>,
    pub doc: Seq<char>,
}

pub ghost struct ErrorModel {
    pub name: Seq<char>,
    pub base: Seq<char>,
}

pub ghost struct VariableModel {
    pub name: Seq<char>,
    pub ty: Seq<char>,
}

pub ghost struct ModuleModel {
    pub name: Seq<char>,
    pub default_module_name: Seq<char>,
    pub class: Seq<(u64, ClassModel)>,
    pub enum_: Seq<(u64, EnumModel)>,
    pub function: Seq<(Seq<char>, FunctionModel)>,
    pub error: Seq<(Seq<char>, ErrorModel)>,
    pub variables: Seq<(Seq<char>, VariableModel)>,
    pub submodules: Seq<Seq<char>>,
}

/// Every map of the module is kept in ascending key order.
pub open spec fn module_wf(m: ModuleModel) -> bool {
    &&& id_keys_sorted(m.class)
    &&& id_keys_sorted(m.enum_)
    &&& keys_sorted(m.function)
    &&& keys_sorted(m.error)
    &&& keys_sorted(m.variables)
    &&& set_sorted(m.submodules)
}

// ---------------------------------------------------------------------------
// View helpers
// ---------------------------------------------------------------------------

pub open spec fn opt_str_view(o: Option<String>) -> Option<Seq<char>> {
    match o {
        Some(s) => Some(s@),
        None => None,
    }
}

pub open spec fn strs_view(v: Seq<String>) -> Seq<Seq<char>> {
    crate::table::elems_view(v)
}

pub open spec fn members_view(s: Seq<MemberDef>) -> Seq<MemberModel> {
    s.map_values(|m: MemberDef| m@)
}

pub open spec fn methods_view(s: Seq<MethodDef>) -> Seq<MethodModel> {
    s.map_values(|m: MethodDef| m@)
}

// ---------------------------------------------------------------------------
// Exec definition types
// ---------------------------------------------------------------------------

/// An attribute, getter or setter entry of a class or enum.
pub struct MemberDef {
    pub name: String,
    pub ty: String,
    pub doc: String,
    pub default: Option<String>,
}

impl View for MemberDef {
    type V = MemberModel;

    open spec fn view(&self) -> MemberModel {
        MemberModel {
            name: self.name@,
            ty: self.ty@,
            doc: self.doc@,
            default: opt_str_view(self.default),
        }
    }
}

/// A method entry of a class or enum.
pub struct MethodDef {
    pub name: String,
    pub signature: String,
    pub doc: String,
}

impl View for MethodDef {
    type V = MethodModel;

    open spec fn view(&self) -> MethodModel {
        MethodModel { name: self.name@, signature: self.signature@, doc: self.doc@ }
    }
}

/// A class (or complex enum) definition accumulated for one module.
pub struct ClassDef {
    pub name: String,
    pub doc: String,
    pub attrs: Vec<MemberDef>,
    pub getters: Vec<MemberDef>,
    pub setters: Vec<MemberDef>,
    pub methods: Vec<MethodDef>,
}

impl View for ClassDef {
    type V = ClassModel;

    open spec fn view(&self) -> ClassModel {
        ClassModel {
            name: self.name@,
            doc: self.doc@,
            attrs: members_view(self.attrs@),
            getters: members_view(self.getters@),
            setters: members_view(self.setters@),
            methods: methods_view(self.methods@),
        }
    }
}

/// A plain enum definition accumulated for one module.
pub struct EnumDef {
    pub name: String,
    pub doc: String,
    pub variants: Vec<String>,
    pub attrs: Vec<MemberDef>,
    pub getters: Vec<MemberDef>,
    pub setters: Vec<MemberDef>,
    pub methods: Vec<MethodDef>,
}

impl View for EnumDef {
    type V = EnumModel;

    open spec fn view(&self) -> EnumModel {
        EnumModel {
            name: self.name@,
            doc: self.doc@,
            variants: strs_view(self.variants@),
            attrs: members_view(self.attrs@),
            getters: members_view(self.getters@),
            setters: members_view(self.setters@),
            methods: methods_view(self.methods@),
        }
    }
}

/// A module-level function definition.
pub struct FunctionDef {
    pub name: String,
    pub signature: String,
    pub doc: String,
}

impl View for FunctionDef {
    type V = FunctionModel;

    open spec fn view(&self) -> FunctionModel {
        FunctionModel { name: self.name@, signature: self.signature@, doc: self.doc@ }
    }
}

/// A module-level error (exception) definition.
pub struct ErrorDef {
    pub name: String,
    pub base: String,
}

impl View for ErrorDef {
    type V = ErrorModel;

    open spec fn view(&self) -> ErrorModel {
        ErrorModel { name: self.name@, base: self.base@ }
    }
}

/// A module-level variable definition.
pub struct VariableDef {
    pub name: String,
    pub ty: String,
}

impl View for VariableDef {
    type V = VariableModel;

    open spec fn view(&self) -> VariableModel {
        VariableModel { name: self.name@, ty: self.ty@ }
    }
}

/// One namespace of the output tree and everything declared in it.
pub struct Module {
    pub name: String,
    pub default_module_name: String,
    pub class: Vec<(u64, ClassDef)>,
    pub enum_: Vec<(u64, EnumDef)>,
    pub function: Vec<(String, FunctionDef)>,
    pub error: Vec<(String, ErrorDef)>,
    pub variables: Vec<(String, VariableDef)>,
    pub submodules: Vec<String>,
}

impl View for Module {
    type V = ModuleModel;

    open spec fn view(&self) -> ModuleModel {
        ModuleModel {
            name: self.name@,
            default_module_name: self.default_module_name@,
            class: self.class@.map_values(|p: (u64, ClassDef)| (p.0, p.1@)),
            enum_: self.enum_@.map_values(|p: (u64, EnumDef)| (p.0, p.1@)),
            function: self.function@.map_values(|p: (String, FunctionDef)| (p.0@, p.1@)),
            error: self.error@.map_values(|p: (String, ErrorDef)| (p.0@, p.1@)),
            variables: self.variables@.map_values(|p: (String, VariableDef)| (p.0@, p.1@)),
            submodules: strs_view(self.submodules@),
        }
    }
}

pub open spec fn empty_module_model(name: Seq<char>, default_module_name: Seq<char>) -> ModuleModel {
    ModuleModel {
        name: name,
        default_module_name: default_module_name,
        class: Seq::empty(),
        enum_: Seq::empty(),
        function: Seq::empty(),
        error: Seq::empty(),
        variables: Seq::empty(),
        submodules: Seq::empty(),
    }
}

impl Module {
    /// A module with the given names and nothing declared yet.
    pub fn new(name: String, default_module_name: String) -> (r: Module)
        ensures
            r@ == empty_module_model(name@, default_module_name@),
            module_wf(r@),
    {
        let r = Module {
            name,
            default_module_name,
            class: Vec::new(),
            enum_: Vec::new(),
            function: Vec::new(),
            error: Vec::new(),
            variables: Vec::new(),
            submodules: Vec::new(),
        };
        proof {
            assert(r@.class =~= Seq::<(u64, ClassModel)>::empty());
            assert(r@.enum_ =~= Seq::<(u64, EnumModel)>::empty());
            assert(r@.function =~= Seq::<(Seq<char>, FunctionModel)>::empty());
            assert(r@.error =~= Seq::<(Seq<char>, ErrorModel)>::empty());
            assert(r@.variables =~= Seq::<(Seq<char>, VariableModel)>::empty());
            assert(r@.submodules =~= Seq::<Seq<char>>::empty());
        }
        r
    }
}

// ---------------------------------------------------------------------------
// Duplication helpers: fresh values with the same model
// ---------------------------------------------------------------------------

pub fn dup_opt_string(o: &Option<String>) -> (r: Option<String>)
    ensures
        opt_str_view(r) == opt_str_view(*o),
{
    match o {
        Some(s) => Some(s.clone()),
        None => None,
    }
}

pub fn dup_member(m: &MemberDef) -> (r: MemberDef)
    ensures
        r@ == m@,
{
    MemberDef {
        name: m.name.clone(),
        ty: m.ty.clone(),
        doc: m.doc.clone(),
        default: dup_opt_string(&m.default),
    }
}

pub fn dup_method(m: &MethodDef) -> (r: MethodDef)
    ensures
        r@ == m@,
{
    MethodDef { name: m.name.clone(), signature: m.signature.clone(), doc: m.doc.clone() }
}

pub fn dup_strings(v: &Vec<String>) -> (r: Vec<String>)
    ensures
        strs_view(r@) == strs_view(v@),
{
    let mut r: Vec<String> = Vec::new();
    let mut i: usize = 0;
    while i < v.len()
        invariant
            i <= v.len(),
            r@ == v@.take(i as int),
        decreases v.len() - i,
    {
        r.push(v[i].clone());
        assert(r@ =~= v@.take(i + 1));
        i += 1;
    }
    assert(v@.take(v.len() as int) =~= v@);
    r
}

/// Appends a copy of every entry of `src` to `dst`, in order.
pub fn extend_members(dst: &mut Vec<MemberDef>, src: &Vec<MemberDef>)
    ensures
        members_view(final(dst)@) == members_view(old(dst)@) + members_view(src@),
{
    let mut i: usize = 0;
    while i < src.len()
        invariant
            i <= src.len(),
            members_view(dst@) == members_view(old(dst)@) + members_view(src@.take(i as int)),
        decreases src.len() - i,
    {
        let ghost prev = dst@;
        let m = dup_member(&src[i]);
        dst.push(m);
        proof {
            assert(members_view(dst@) =~= members_view(prev).push(src@[i as int]@));
            assert(members_view(old(dst)@) + members_view(src@.take(i + 1))
                =~= members_view(prev).push(src@[i as int]@));
        }
        i += 1;
    }
    assert(src@.take(src@.len() as int) =~= src@);
}

/// Appends a copy of every entry of `src` to `dst`, in order.
pub fn extend_methods(dst: &mut Vec<MethodDef>, src: &Vec<MethodDef>)
    ensures
        methods_view(final(dst)@) == methods_view(old(dst)@) + methods_view(src@),
{
    let mut i: usize = 0;
    while i < src.len()
        invariant
            i <= src.len(),
            methods_view(dst@) == methods_view(old(dst)@) + methods_view(src@.take(i as int)),
        decreases src.len() - i,
    {
        let ghost prev = dst@;
        let m = dup_method(&src[i]);
        dst.push(m);
        proof {
            assert(methods_view(dst@) =~= methods_view(prev).push(src@[i as int]@));
            assert(methods_view(old(dst)@) + methods_view(src@.take(i + 1))
                =~= methods_view(prev).push(src@[i as int]@));
        }
        i += 1;
    }
    assert(src@.take(src@.len() as int) =~= src@);
}

// ---------------------------------------------------------------------------
// Merging a methods block into a class or enum definition
// ---------------------------------------------------------------------------

/// The class after a methods block contributed further members.
pub open spec fn class_model_merged(
    c: ClassModel,
    attrs: Seq<MemberModel>,
    getters: Seq<MemberModel>,
    setters: Seq<MemberModel>,
    methods: Seq<MethodModel>,
) -> ClassModel {
    ClassModel {
        name: c.name,
        doc: c.doc,
        attrs: c.attrs + attrs,
        getters: c.getters + getters,
        setters: c.setters + setters,
        methods: c.methods + methods,
    }
}

/// The enum after a methods block contributed further members.
pub open spec fn enum_model_merged(
    e: EnumModel,
    attrs: Seq<MemberModel>,
    getters: Seq<MemberModel>,
    setters: Seq<MemberModel>,
    methods: Seq<MethodModel>,
) -> EnumModel {
    EnumModel {
        name: e.name,
        doc: e.doc,
        variants: e.variants,
        attrs: e.attrs + attrs,
        getters: e.getters + getters,
        setters: e.setters + setters,
        methods: e.methods + methods,
    }
}

// ---------------------------------------------------------------------------
// Insertions into one module's maps
// ---------------------------------------------------------------------------

impl Module {
    /// Binds `id` to `cls` in the class map, replacing any previous binding.
    pub fn insert_class(&mut self, id: u64, cls: ClassDef)
        requires
            module_wf(old(self)@),
        ensures
            final(self)@ == (ModuleModel { class: id_put(old(self)@.class, id, cls@), ..old(self)@ }),
            module_wf(final(self)@),
    {
        let ghost m0 = self@;
        let ghost c = cls@;
        let n = id_pos(&self.class, id);
        proof {
            lemma_id_put_sorted(m0.class, id, c);
        }
        if n < self.class.len() && self.class[n].0 == id {
            let _replaced = self.class.remove(n);
            self.class.insert(n, (id, cls));
            proof {
                assert(self@.class =~= m0.class.update(n as int, (id, c)));
                lemma_id_put_found(m0.class, id, c, n as int);
            }
        } else {
            self.class.insert(n, (id, cls));
            proof {
                assert(self@.class =~= m0.class.insert(n as int, (id, c)));
                lemma_id_put_inserted(m0.class, id, c, n as int);
            }
        }
    }

    /// Binds `id` to `e` in the enum map, replacing any previous binding.
    pub fn insert_enum(&mut self, id: u64, e: EnumDef)
        requires
            module_wf(old(self)@),
        ensures
            final(self)@ == (ModuleModel { enum_: id_put(old(self)@.enum_, id, e@), ..old(self)@ }),
            module_wf(final(self)@),
    {
        let ghost m0 = self@;
        let ghost em = e@;
        let n = id_pos(&self.enum_, id);
        proof {
            lemma_id_put_sorted(m0.enum_, id, em);
        }
        if n < self.enum_.len() && self.enum_[n].0 == id {
            let _replaced = self.enum_.remove(n);
            self.enum_.insert(n, (id, e));
            proof {
                assert(self@.enum_ =~= m0.enum_.update(n as int, (id, em)));
                lemma_id_put_found(m0.enum_, id, em, n as int);
            }
        } else {
            self.enum_.insert(n, (id, e));
            proof {
                assert(self@.enum_ =~= m0.enum_.insert(n as int, (id, em)));
                lemma_id_put_inserted(m0.enum_, id, em, n as int);
            }
        }
    }

    /// Binds `name` to `f` in the function map, replacing any previous binding.
    pub fn insert_function(&mut self, name: &String, f: FunctionDef)
        requires
            module_wf(old(self)@),
        ensures
            final(self)@ == (ModuleModel {
                function: assoc_put(old(self)@.function, name@, f@),
                ..old(self)@
            }),
            module_wf(final(self)@),
    {
        let ghost m0 = self@;
        let ghost fm = f@;
        let n = str_pos(&self.function, name);
        proof {
            lemma_put_sorted(m0.function, name@, fm);
        }
        if n < self.function.len() && self.function[n].0 == *name {
            let _replaced = self.function.remove(n);
            self.function.insert(n, (name.clone(), f));
            proof {
                assert(self@.function =~= m0.function.update(n as int, (name@, fm)));
                lemma_put_found(m0.function, name@, fm, n as int);
            }
        } else {
            self.function.insert(n, (name.clone(), f));
            proof {
                assert(self@.function =~= m0.function.insert(n as int, (name@, fm)));
                lemma_put_inserted(m0.function, name@, fm, n as int);
            }
        }
    }

    /// Binds `name` to `e` in the error map, replacing any previous binding.
    pub fn insert_error(&mut self, name: &String, e: ErrorDef)
        requires
            module_wf(old(self)@),
        ensures
            final(self)@ == (ModuleModel {
                error: assoc_put(old(self)@.error, name@, e@),
                ..old(self)@
            }),
            module_wf(final(self)@),
    {
        let ghost m0 = self@;
        let ghost em = e@;
        let n = str_pos(&self.error, name);
        proof {
            lemma_put_sorted(m0.error, name@, em);
        }
        if n < self.error.len() && self.error[n].0 == *name {
            let _replaced = self.error.remove(n);
            self.error.insert(n, (name.clone(), e));
            proof {
                assert(self@.error =~= m0.error.update(n as int, (name@, em)));
                lemma_put_found(m0.error, name@, em, n as int);
            }
        } else {
            self.error.insert(n, (name.clone(), e));
            proof {
                assert(self@.error =~= m0.error.insert(n as int, (name@, em)));
                lemma_put_inserted(m0.error, name@, em, n as int);
            }
        }
    }

    /// Binds `name` to `v` in the variable map, replacing any previous binding.
    pub fn insert_variable(&mut self, name: &String, v: VariableDef)
        requires
            module_wf(old(self)@),
        ensures
            final(self)@ == (ModuleModel {
                variables: assoc_put(old(self)@.variables, name@, v@),
                ..old(self)@
            }),
            module_wf(final(self)@),
    {
        let ghost m0 = self@;
        let ghost vm = v@;
        let n = str_pos(&self.variables, name);
        proof {
            lemma_put_sorted(m0.variables, name@, vm);
        }
        if n < self.variables.len() && self.variables[n].0 == *name {
            let _replaced = self.variables.remove(n);
            self.variables.insert(n, (name.clone(), v));
            proof {
                assert(self@.variables =~= m0.variables.update(n as int, (name@, vm)));
                lemma_put_found(m0.variables, name@, vm, n as int);
            }
        } else {
            self.variables.insert(n, (name.clone(), v));
            proof {
                assert(self@.variables =~= m0.variables.insert(n as int, (name@, vm)));
                lemma_put_inserted(m0.variables, name@, vm, n as int);
            }
        }
    }

    /// Adds `name` to the submodule set.
    pub fn add_submodule(&mut self, name: &String)
        requires
            module_wf(old(self)@),
        ensures
            final(self)@ == (ModuleModel {
                submodules: set_put(old(self)@.submodules, name@),
                ..old(self)@
            }),
            module_wf(final(self)@),
    {
        set_insert(&mut self.submodules, name);
    }
}

impl ClassDef {
    /// Appends the lists of a methods block, in descriptor order.
    pub fn merge_lists(
        &mut self,
        attrs: &Vec<MemberDef>,
        getters: &Vec<MemberDef>,
        setters: &Vec<MemberDef>,
        methods: &Vec<MethodDef>,
    )
        ensures
            final(self)@ == class_model_merged(
                old(self)@,
                members_view(attrs@),
                members_view(getters@),
                members_view(setters@),
                methods_view(methods@),
            ),
    {
        extend_members(&mut self.attrs, attrs);
        extend_members(&mut self.getters, getters);
        extend_members(&mut self.setters, setters);
        extend_methods(&mut self.methods, methods);
    }
}

impl EnumDef {
    /// Appends the lists of a methods block, in descriptor order.
    pub fn merge_lists(
        &mut self,
        attrs: &Vec<MemberDef>,
        getters: &Vec<MemberDef>,
        setters: &Vec<MemberDef>,
        methods: &Vec<MethodDef>,
    )
        ensures
            final(self)@ == enum_model_merged(
                old(self)@,
                members_view(attrs@),
                members_view(getters@),
                members_view(setters@),
                methods_view(methods@),
            ),
    {
        extend_members(&mut self.attrs, attrs);
        extend_members(&mut self.getters, getters);
        extend_members(&mut self.setters, setters);
        extend_methods(&mut self.methods, methods);
    }
}

} // verus!
