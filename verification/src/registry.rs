//! Descriptors and the registry that collects them.
//!
//! Each independently compiled unit contributes descriptors by explicit
//! registration calls before aggregation starts; the aggregation engine then
//! reads the registry without mutating it. A type identity is a precomputed
//! stable key: equal across every descriptor of the same underlying type.

use crate::defs::members_view;
use crate::defs::methods_view;
use crate::defs::opt_str_view;
use crate::defs::strs_view;
use crate::defs::ClassDef;
use crate::defs::ClassModel;
use crate::defs::EnumDef;
use crate::defs::EnumModel;
use crate::defs::ErrorDef;
use crate::defs::ErrorModel;
use crate::defs::FunctionDef;
use crate::defs::FunctionModel;
use crate::defs::MemberDef;
use crate::defs::MemberModel;
use crate::defs::MethodDef;
use crate::defs::MethodModel;
use crate::defs::VariableDef;
use crate::defs::VariableModel;
use vstd::prelude::*;

verus! {

// ---------------------------------------------------------------------------
// Ghost models of the descriptors
// ---------------------------------------------------------------------------

pub ghost struct ClassInfoModel {
    pub struct_id: u64,
    pub module: Option<Seq<char>>,
    pub rust_module_path: Seq<char>,
    pub name: Seq<char>,
    pub doc: Seq<char>,
}

pub ghost struct ComplexEnumInfoModel {
    pub enum_id: u64,
    pub module: Option<Seq<char>>,
    pub rust_module_path: Seq<char>,
    pub name: Seq<char>,
    pub doc: Seq<char>,
}

pub ghost struct EnumInfoModel {
    pub enum_id: u64,
    pub module: Option<Seq<char>>,
    pub rust_module_path: Seq<char>,
    pub name: Seq<char>,
    pub doc: Seq<char>,
    pub variants: Seq<Seq<char>>,
}

pub ghost struct FunctionInfoModel {
    pub module: Option<Seq<char>>,
    pub name: Seq<char>,
    pub signature: Seq<char>,
    pub doc: Seq<char>,
}

pub ghost struct ErrorInfoModel {
    pub module: Seq<char>,
    pub name: Seq<char>,
    pub base: Seq<char>,
}

pub ghost struct VariableInfoModel {
    pub module: Seq<char>,
    pub name: Seq<char>,
    pub ty: Seq<char>,
}

pub ghost struct MethodsInfoModel {
    pub struct_id: u64,
    pub attrs: Seq<MemberModel>,
    pub getters: Seq<MemberModel>,
    pub setters: Seq<MemberModel>,
    pub methods: Seq<MethodModel>,
}

pub ghost struct RegistryModel {
    pub classes: Seq<ClassInfoModel>,
    pub complex_enums: Seq<ComplexEnumInfoModel>,
    pub enums: Seq<EnumInfoModel>,
    pub functions: Seq<FunctionInfoModel>,
    pub errors: Seq<ErrorInfoModel>,
    pub variables: Seq<VariableInfoModel>,
    pub methods: Seq<MethodsInfoModel>,
}

// ---------------------------------------------------------------------------
// Exec descriptor types
// ---------------------------------------------------------------------------

/// Describes a class exposed to the host language.
pub struct PyClassInfo {
    pub struct_id: u64,
    pub module: Option<String>,
    pub rust_module_path: String,
    pub name: String,
    pub doc: String,
}

impl View for PyClassInfo {
    type V = ClassInfoModel;

    open spec fn view(&self) -> ClassInfoModel {
        ClassInfoModel {
            struct_id: self.struct_id,
            module: opt_str_view(self.module),
            rust_module_path: self.rust_module_path@,
            name: self.name@,
            doc: self.doc@,
        }
    }
}

/// Describes an enum with payload-carrying variants, rendered as a class.
pub struct PyComplexEnumInfo {
    pub enum_id: u64,
    pub module: Option<String>,
    pub rust_module_path: String,
    pub name: String,
    pub doc: String,
}

impl View for PyComplexEnumInfo {
    type V = ComplexEnumInfoModel;

    open spec fn view(&self) -> ComplexEnumInfoModel {
        ComplexEnumInfoModel {
            enum_id: self.enum_id,
            module: opt_str_view(self.module),
            rust_module_path: self.rust_module_path@,
            name: self.name@,
            doc: self.doc@,
        }
    }
}

/// Describes a plain enum and its enumerators.
pub struct PyEnumInfo {
    pub enum_id: u64,
    pub module: Option<String>,
    pub rust_module_path: String,
    pub name: String,
    pub doc: String,
    pub variants: Vec<String>,
}

impl View for PyEnumInfo {
    type V = EnumInfoModel;

    open spec fn view(&self) -> EnumInfoModel {
        EnumInfoModel {
            enum_id: self.enum_id,
            module: opt_str_view(self.module),
            rust_module_path: self.rust_module_path@,
            name: self.name@,
            doc: self.doc@,
            variants: strs_view(self.variants@),
        }
    }
}

/// Describes a module-level function.
pub struct PyFunctionInfo {
    pub module: Option<String>,
    pub name: String,
    pub signature: String,
    pub doc: String,
}

impl View for PyFunctionInfo {
    type V = FunctionInfoModel;

    open spec fn view(&self) -> FunctionInfoModel {
        FunctionInfoModel {
            module: opt_str_view(self.module),
            name: self.name@,
            signature: self.signature@,
            doc: self.doc@,
        }
    }
}

/// Describes an error (exception) type; its target namespace is mandatory.
pub struct PyErrorInfo {
    pub module: String,
    pub name: String,
    pub base: String,
}

impl View for PyErrorInfo {
    type V = ErrorInfoModel;

    open spec fn view(&self) -> ErrorInfoModel {
        ErrorInfoModel { module: self.module@, name: self.name@, base: self.base@ }
    }
}

/// Describes a module-level variable; its target namespace is mandatory.
pub struct PyVariableInfo {
    pub module: String,
    pub name: String,
    pub ty: String,
}

impl View for PyVariableInfo {
    type V = VariableInfoModel;

    open spec fn view(&self) -> VariableInfoModel {
        VariableInfoModel { module: self.module@, name: self.name@, ty: self.ty@ }
    }
}

/// Members contributed to a class or enum separately from its declaration,
/// matched purely by type identity.
pub struct PyMethodsInfo {
    pub struct_id: u64,
    pub attrs: Vec<MemberDef>,
    pub getters: Vec<MemberDef>,
    pub setters: Vec<MemberDef>,
    pub methods: Vec<MethodDef>,
}

impl View for PyMethodsInfo {
    type V = MethodsInfoModel;

    open spec fn view(&self) -> MethodsInfoModel {
        MethodsInfoModel {
            struct_id: self.struct_id,
            attrs: members_view(self.attrs@),
            getters: members_view(self.getters@),
            setters: members_view(self.setters@),
            methods: methods_view(self.methods@),
        }
    }
}

// ---------------------------------------------------------------------------
// The registry
// ---------------------------------------------------------------------------

/// The read-only collection of all contributed descriptors, one list per
/// descriptor kind, in registration order.
pub struct Registry {
    pub classes: Vec<PyClassInfo>,
    pub complex_enums: Vec<PyComplexEnumInfo>,
    pub enums: Vec<PyEnumInfo>,
    pub functions: Vec<PyFunctionInfo>,
    pub errors: Vec<PyErrorInfo>,
    pub variables: Vec<PyVariableInfo>,
    pub methods: Vec<PyMethodsInfo>,
}

impl View for Registry {
    type V = RegistryModel;

    open spec fn view(&self) -> RegistryModel {
        RegistryModel {
            classes: self.classes@.map_values(|c: PyClassInfo| c@),
            complex_enums: self.complex_enums@.map_values(|c: PyComplexEnumInfo| c@),
            enums: self.enums@.map_values(|c: PyEnumInfo| c@),
            functions: self.functions@.map_values(|c: PyFunctionInfo| c@),
            errors: self.errors@.map_values(|c: PyErrorInfo| c@),
            variables: self.variables@.map_values(|c: PyVariableInfo| c@),
            methods: self.methods@.map_values(|c: PyMethodsInfo| c@),
        }
    }
}

impl Registry {
    /// A registry with nothing contributed yet.
    pub fn new() -> (r: Registry)
        ensures
            r@.classes == Seq::<ClassInfoModel>::empty(),
            r@.complex_enums == Seq::<ComplexEnumInfoModel>::empty(),
            r@.enums == Seq::<EnumInfoModel>::empty(),
            r@.functions == Seq::<FunctionInfoModel>::empty(),
            r@.errors == Seq::<ErrorInfoModel>::empty(),
            r@.variables == Seq::<VariableInfoModel>::empty(),
            r@.methods == Seq::<MethodsInfoModel>::empty(),
    {
        let r = Registry {
            classes: Vec::new(),
            complex_enums: Vec::new(),
            enums: Vec::new(),
            functions: Vec::new(),
            errors: Vec::new(),
            variables: Vec::new(),
            methods: Vec::new(),
        };
        proof {
            assert(r@.classes =~= Seq::<ClassInfoModel>::empty());
            assert(r@.complex_enums =~= Seq::<ComplexEnumInfoModel>::empty());
            assert(r@.enums =~= Seq::<EnumInfoModel>::empty());
            assert(r@.functions =~= Seq::<FunctionInfoModel>::empty());
            assert(r@.errors =~= Seq::<ErrorInfoModel>::empty());
            assert(r@.variables =~= Seq::<VariableInfoModel>::empty());
            assert(r@.methods =~= Seq::<MethodsInfoModel>::empty());
        }
        r
    }

    pub fn register_class(&mut self, info: PyClassInfo)
        ensures
            final(self)@ == (RegistryModel { classes: old(self)@.classes.push(info@), ..old(self)@ }),
    {
        self.classes.push(info);
        proof {
            assert(self@.classes =~= old(self)@.classes.push(info@));
            assert(self@.complex_enums =~= old(self)@.complex_enums);
            assert(self@.enums =~= old(self)@.enums);
            assert(self@.functions =~= old(self)@.functions);
            assert(self@.errors =~= old(self)@.errors);
            assert(self@.variables =~= old(self)@.variables);
            assert(self@.methods =~= old(self)@.methods);
        }
    }

    pub fn register_complex_enum(&mut self, info: PyComplexEnumInfo)
        ensures
            final(self)@ == (RegistryModel {
                complex_enums: old(self)@.complex_enums.push(info@),
                ..old(self)@
            }),
    {
        self.complex_enums.push(info);
        proof {
            assert(self@.classes =~= old(self)@.classes);
            assert(self@.complex_enums =~= old(self)@.complex_enums.push(info@));
            assert(self@.enums =~= old(self)@.enums);
            assert(self@.functions =~= old(self)@.functions);
            assert(self@.errors =~= old(self)@.errors);
            assert(self@.variables =~= old(self)@.variables);
            assert(self@.methods =~= old(self)@.methods);
        }
    }

    pub fn register_enum(&mut self, info: PyEnumInfo)
        ensures
            final(self)@ == (RegistryModel { enums: old(self)@.enums.push(info@), ..old(self)@ }),
    {
        self.enums.push(info);
        proof {
            assert(self@.classes =~= old(self)@.classes);
            assert(self@.complex_enums =~= old(self)@.complex_enums);
            assert(self@.enums =~= old(self)@.enums.push(info@));
            assert(self@.functions =~= old(self)@.functions);
            assert(self@.errors =~= old(self)@.errors);
            assert(self@.variables =~= old(self)@.variables);
            assert(self@.methods =~= old(self)@.methods);
        }
    }

    pub fn register_function(&mut self, info: PyFunctionInfo)
        ensures
            final(self)@ == (RegistryModel {
                functions: old(self)@.functions.push(info@),
                ..old(self)@
            }),
    {
        self.functions.push(info);
        proof {
            assert(self@.classes =~= old(self)@.classes);
            assert(self@.complex_enums =~= old(self)@.complex_enums);
            assert(self@.enums =~= old(self)@.enums);
            assert(self@.functions =~= old(self)@.functions.push(info@));
            assert(self@.errors =~= old(self)@.errors);
            assert(self@.variables =~= old(self)@.variables);
            assert(self@.methods =~= old(self)@.methods);
        }
    }

    pub fn register_error(&mut self, info: PyErrorInfo)
        ensures
            final(self)@ == (RegistryModel { errors: old(self)@.errors.push(info@), ..old(self)@ }),
    {
        self.errors.push(info);
        proof {
            assert(self@.classes =~= old(self)@.classes);
            assert(self@.complex_enums =~= old(self)@.complex_enums);
            assert(self@.enums =~= old(self)@.enums);
            assert(self@.functions =~= old(self)@.functions);
            assert(self@.errors =~= old(self)@.errors.push(info@));
            assert(self@.variables =~= old(self)@.variables);
            assert(self@.methods =~= old(self)@.methods);
        }
    }

    pub fn register_variable(&mut self, info: PyVariableInfo)
        ensures
            final(self)@ == (RegistryModel {
                variables: old(self)@.variables.push(info@),
                ..old(self)@
            }),
    {
        self.variables.push(info);
        proof {
            assert(self@.classes =~= old(self)@.classes);
            assert(self@.complex_enums =~= old(self)@.complex_enums);
            assert(self@.enums =~= old(self)@.enums);
            assert(self@.functions =~= old(self)@.functions);
            assert(self@.errors =~= old(self)@.errors);
            assert(self@.variables =~= old(self)@.variables.push(info@));
            assert(self@.methods =~= old(self)@.methods);
        }
    }

    pub fn register_methods(&mut self, info: PyMethodsInfo)
        ensures
            final(self)@ == (RegistryModel { methods: old(self)@.methods.push(info@), ..old(self)@ }),
    {
        self.methods.push(info);
        proof {
            assert(self@.classes =~= old(self)@.classes);
            assert(self@.complex_enums =~= old(self)@.complex_enums);
            assert(self@.enums =~= old(self)@.enums);
            assert(self@.functions =~= old(self)@.functions);
            assert(self@.errors =~= old(self)@.errors);
            assert(self@.variables =~= old(self)@.variables);
            assert(self@.methods =~= old(self)@.methods.push(info@));
        }
    }
}

// ---------------------------------------------------------------------------
// Definitions built from descriptors
// ---------------------------------------------------------------------------

/// The class definition a class descriptor initially contributes.
pub open spec fn class_model_of(i: ClassInfoModel) -> ClassModel {
    ClassModel {
        name: i.name,
        doc: i.doc,
        attrs: Seq::empty(),
        getters: Seq::empty(),
        setters: Seq::empty(),
        methods: Seq::empty(),
    }
}

/// The class definition a complex-enum descriptor initially contributes.
pub open spec fn class_model_of_complex(i: ComplexEnumInfoModel) -> ClassModel {
    ClassModel {
        name: i.name,
        doc: i.doc,
        attrs: Seq::empty(),
        getters: Seq::empty(),
        setters: Seq::empty(),
        methods: Seq::empty(),
    }
}

/// The enum definition a plain-enum descriptor contributes.
pub open spec fn enum_model_of(i: EnumInfoModel) -> EnumModel {
    EnumModel {
        name: i.name,
        doc: i.doc,
        variants: i.variants,
        attrs: Seq::empty(),
        getters: Seq::empty(),
        setters: Seq::empty(),
        methods: Seq::empty(),
    }
}

pub open spec fn function_model_of(i: FunctionInfoModel) -> FunctionModel {
    FunctionModel { name: i.name, signature: i.signature, doc: i.doc }
}

pub open spec fn error_model_of(i: ErrorInfoModel) -> ErrorModel {
    ErrorModel { name: i.name, base: i.base }
}

pub open spec fn variable_model_of(i: VariableInfoModel) -> VariableModel {
    VariableModel { name: i.name, ty: i.ty }
}

impl ClassDef {
    pub fn from_class_info(info: &PyClassInfo) -> (r: ClassDef)
        ensures
            r@ == class_model_of(info@),
    {
        let r = ClassDef {
            name: info.name.clone(),
            doc: info.doc.clone(),
            attrs: Vec::new(),
            getters: Vec::new(),
            setters: Vec::new(),
            methods: Vec::new(),
        };
        proof {
            assert(r@.attrs =~= Seq::<MemberModel>::empty());
            assert(r@.getters =~= Seq::<MemberModel>::empty());
            assert(r@.setters =~= Seq::<MemberModel>::empty());
            assert(r@.methods =~= Seq::<MethodModel>::empty());
        }
        r
    }

    pub fn from_complex_enum_info(info: &PyComplexEnumInfo) -> (r: ClassDef)
        ensures
            r@ == class_model_of_complex(info@),
    {
        let r = ClassDef {
            name: info.name.clone(),
            doc: info.doc.clone(),
            attrs: Vec::new(),
            getters: Vec::new(),
            setters: Vec::new(),
            methods: Vec::new(),
        };
        proof {
            assert(r@.attrs =~= Seq::<MemberModel>::empty());
            assert(r@.getters =~= Seq::<MemberModel>::empty());
            assert(r@.setters =~= Seq::<MemberModel>::empty());
            assert(r@.methods =~= Seq::<MethodModel>::empty());
        }
        r
    }
}

impl EnumDef {
    pub fn from_enum_info(info: &PyEnumInfo) -> (r: EnumDef)
        ensures
            r@ == enum_model_of(info@),
    {
        let r = EnumDef {
            name: info.name.clone(),
            doc: info.doc.clone(),
            variants: crate::defs::dup_strings(&info.variants),
            attrs: Vec::new(),
            getters: Vec::new(),
            setters: Vec::new(),
            methods: Vec::new(),
        };
        proof {
            assert(r@.attrs =~= Seq::<MemberModel>::empty());
            assert(r@.getters =~= Seq::<MemberModel>::empty());
            assert(r@.setters =~= Seq::<MemberModel>::empty());
            assert(r@.methods =~= Seq::<MethodModel>::empty());
        }
        r
    }
}

impl FunctionDef {
    pub fn from_info(info: &PyFunctionInfo) -> (r: FunctionDef)
        ensures
            r@ == function_model_of(info@),
    {
        FunctionDef {
            name: info.name.clone(),
            signature: info.signature.clone(),
            doc: info.doc.clone(),
        }
    }
}

impl ErrorDef {
    pub fn from_info(info: &PyErrorInfo) -> (r: ErrorDef)
        ensures
            r@ == error_model_of(info@),
    {
        ErrorDef { name: info.name.clone(), base: info.base.clone() }
    }
}

impl VariableDef {
    pub fn from_info(info: &PyVariableInfo) -> (r: VariableDef)
        ensures
            r@ == variable_model_of(info@),
    {
        VariableDef { name: info.name.clone(), ty: info.ty.clone() }
    }
}

} // verus!
