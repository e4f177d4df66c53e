//! The description of a type library as plain values: what the native
//! type-description interfaces answered, item by item.

use vstd::prelude::*;
use vstd::string::StringExecFns;
use crate::codes;
use crate::error::Error;
use crate::rc::BString;

verus! {

/// A 16-byte identifier.
#[derive(Clone, Copy, Debug)]
pub struct Guid {
    pub data1: u32,
    pub data2: u16,
    pub data3: u16,
    pub data4: [u8; 8],
}

/// What is read of a type that another type refers to: a parent, or the
/// target of a user-defined reference.
#[derive(Debug)]
pub struct ReferencedType {
    pub name: BString,
    /// The size of an instance in bytes.
    pub size_instance: u32,
    /// The size of the virtual function table in bytes.
    pub size_vft: u16,
}

/// The shape of a type.
#[derive(Debug)]
pub enum TypeDesc {
    /// A type known by its code alone.
    WellKnown(u16),
    /// A pointer to a type.
    Pointer(Box<TypeDesc>),
    /// An array of fixed size: its element type, the number of its
    /// dimensions and the number of elements in the first one.
    FixedArray { element: Box<TypeDesc>, dimensions: u16, bound: u32 },
    /// A reference to a described type by its handle, with what came of
    /// dereferencing the handle.
    UserDefined { handle: u32, target: Result<ReferencedType, Error> },
}

impl TypeDesc {
    /// The code that the native format gives this shape.
    pub open spec fn spec_vt(self) -> u16 {
        match self {
            TypeDesc::WellKnown(vt) => vt,
            TypeDesc::Pointer(_) => codes::VT_PTR,
            TypeDesc::FixedArray { .. } => codes::VT_CARRAY,
            TypeDesc::UserDefined { .. } => codes::VT_USERDEFINED,
        }
    }

    /// The code that the native format gives this shape.
    pub fn vt(&self) -> (vt: u16)
        ensures
            vt == self.spec_vt(),
    {
        match self {
            TypeDesc::WellKnown(vt) => *vt,
            TypeDesc::Pointer(_) => codes::VT_PTR,
            TypeDesc::FixedArray { .. } => codes::VT_CARRAY,
            TypeDesc::UserDefined { .. } => codes::VT_USERDEFINED,
        }
    }
}

/// The type of a parameter, field or return value, with its direction
/// flags.
#[derive(Debug)]
pub struct ElemDesc {
    pub tdesc: TypeDesc,
    pub param_flags: u16,
}

impl ElemDesc {
    /// The direction flags, widened.
    pub open spec fn spec_flags(self) -> u32 {
        self.param_flags as u32
    }

    /// The direction flags, widened.
    pub fn flags(&self) -> (flags: u32)
        ensures
            flags == self.spec_flags(),
    {
        self.param_flags as u32
    }

    /// Whether the flags mark an explicit return value.
    pub open spec fn spec_is_retval(self) -> bool {
        self.spec_flags() & codes::PARAMFLAG_FRETVAL == codes::PARAMFLAG_FRETVAL
    }

    /// Whether the flags mark an explicit return value.
    pub fn is_retval(&self) -> (retval: bool)
        ensures
            retval == self.spec_is_retval(),
    {
        (self.flags() & codes::PARAMFLAG_FRETVAL) == codes::PARAMFLAG_FRETVAL
    }
}

/// A tagged value, as far as it is read: its tag and its 32-bit integer.
#[derive(Clone, Copy, Debug)]
pub struct Variant {
    pub vt: u16,
    pub l_val: i32,
}

/// The descriptor of a variable: an enumerator, a field or a property.
#[derive(Debug)]
pub struct VarDesc {
    pub memid: i32,
    pub elemdesc_var: ElemDesc,
    /// The value of a constant; of no meaning for another variable.
    pub value: Variant,
}

/// One enumerator constant.
#[derive(Debug)]
pub struct Var {
    pub name: BString,
    pub desc: VarDesc,
}

impl Var {
    /// The enumerator with the given descriptor and the name that the native
    /// interface gave for it: exactly one name.
    pub fn new(desc: VarDesc, name: Option<String>, num_names_received: u32) -> (var: Var)
        requires
            num_names_received == 1,
            name is Some,
        ensures
            var.name@ == name->0@,
            var.desc == desc,
    {
        Var { name: BString::attach(name), desc }
    }

    pub fn name(&self) -> (name: &BString)
        ensures
            name == self.name,
    {
        &self.name
    }

    pub fn value(&self) -> (value: &Variant)
        ensures
            *value == self.desc.value,
    {
        &self.desc.value
    }
}

/// One field of a record or a union, or one property of an interface.
#[derive(Debug)]
pub struct Field {
    pub name: BString,
    pub desc: VarDesc,
}

impl Field {
    /// The field with the given descriptor and the name that the native
    /// interface gave for it: exactly one name.
    pub fn new(desc: VarDesc, name: Option<String>, num_names_received: u32) -> (field: Field)
        requires
            num_names_received == 1,
            name is Some,
        ensures
            field.name@ == name->0@,
            field.desc == desc,
    {
        Field { name: BString::attach(name), desc }
    }

    pub fn name(&self) -> (name: &BString)
        ensures
            name == self.name,
    {
        &self.name
    }

    pub fn member_id(&self) -> (memid: i32)
        ensures
            memid == self.desc.memid,
    {
        self.desc.memid
    }

    pub fn type_(&self) -> (tdesc: &TypeDesc)
        ensures
            *tdesc == self.desc.elemdesc_var.tdesc,
    {
        &self.desc.elemdesc_var.tdesc
    }
}

/// The descriptor of a function, without its parameters.
#[derive(Debug)]
pub struct FuncDesc {
    pub memid: i32,
    pub funckind: u32,
    pub invkind: u32,
    /// The number of parameters.
    pub c_params: i16,
    /// The byte offset of the function's slot in the virtual function table.
    pub o_vft: i16,
    /// The return type.
    pub elemdesc_func: ElemDesc,
}

/// One parameter of a function.
#[derive(Debug)]
pub struct Param {
    pub name: BString,
    pub desc: ElemDesc,
}

impl Param {
    pub fn name(&self) -> (name: &BString)
        ensures
            name == self.name,
    {
        &self.name
    }

    pub fn desc(&self) -> (desc: &ElemDesc)
        ensures
            desc == self.desc,
    {
        &self.desc
    }
}

/// One function or property accessor.
#[derive(Debug)]
pub struct Function {
    pub name: BString,
    pub desc: FuncDesc,
    pub params: Vec<Param>,
}

/// Whether the invocation kind is a property-put or a property-putref.
pub open spec fn is_put(invkind: u32) -> bool {
    invkind == codes::INVOKE_PROPERTYPUT || invkind == codes::INVOKE_PROPERTYPUTREF
}

/// Whether the invocation kind is a call or a property-get.
pub open spec fn is_call_or_get(invkind: u32) -> bool {
    invkind == codes::INVOKE_FUNC || invkind == codes::INVOKE_PROPERTYGET
}

impl Function {
    /// Whether the number of names that the native interface gave for a
    /// function fits its descriptor: one for the function and one for each
    /// parameter. Only a property-put or property-putref may come with one
    /// name less, that of its last parameter, the value that is put.
    pub open spec fn counts_fit(
        desc: FuncDesc,
        param_descs: Seq<ElemDesc>,
        names: Seq<Option<String>>,
        num_names_received: u32,
    ) -> bool {
        &&& desc.c_params >= 0
        &&& param_descs.len() == desc.c_params
        &&& names.len() == 1 + desc.c_params
        &&& is_call_or_get(desc.invkind) || is_put(desc.invkind)
        &&& num_names_received == 1 + desc.c_params || (is_put(desc.invkind)
            && num_names_received == desc.c_params && num_names_received >= 1
            && names.last() is None)
    }

    /// Whether the names that the native interface gave for a function fit
    /// its descriptor. The first name is the function's own, the others are
    /// those of its parameters in order. Their number fits, and each name is
    /// there but the one that a property-put or property-putref may come
    /// without.
    pub open spec fn names_fit(
        desc: FuncDesc,
        param_descs: Seq<ElemDesc>,
        names: Seq<Option<String>>,
        num_names_received: u32,
    ) -> bool {
        &&& Function::counts_fit(desc, param_descs, names, num_names_received)
        &&& forall|i: int|
            0 <= i < names.len() ==> (#[trigger] names[i] is Some || (i == names.len() - 1
                && num_names_received == desc.c_params))
    }

    /// Tells whether the names that the native interface gave for a function
    /// fit its descriptor.
    pub fn check_names(
        desc: &FuncDesc,
        param_descs: &Vec<ElemDesc>,
        names: &Vec<Option<String>>,
        num_names_received: u32,
    ) -> (fit: bool)
        ensures
            fit == Function::names_fit(*desc, param_descs@, names@, num_names_received),
    {
        if desc.c_params < 0 {
            return false;
        }
        let c_params: usize = desc.c_params as usize;
        if param_descs.len() != c_params || names.len() != c_params + 1 {
            return false;
        }
        let put = desc.invkind == codes::INVOKE_PROPERTYPUT || desc.invkind
            == codes::INVOKE_PROPERTYPUTREF;
        let call_or_get = desc.invkind == codes::INVOKE_FUNC || desc.invkind
            == codes::INVOKE_PROPERTYGET;
        if !put && !call_or_get {
            return false;
        }
        let all = num_names_received as u64 == c_params as u64 + 1;
        let one_less = put && num_names_received as u64 == c_params as u64 && num_names_received
            >= 1 && names[names.len() - 1].is_none();
        if !all && !one_less {
            return false;
        }
        let mut i: usize = 0;
        while i < names.len()
            invariant
                i <= names.len(),
                c_params == desc.c_params,
                Function::counts_fit(*desc, param_descs@, names@, num_names_received),
                forall|j: int|
                    0 <= j < i ==> (#[trigger] names@[j] is Some || (j == names@.len() - 1
                        && num_names_received == desc.c_params)),
            decreases names.len() - i,
        {
            if names[i].is_none() && !(i == names.len() - 1 && num_names_received as u64
                == c_params as u64) {
                return false;
            }
            i += 1;
        }
        true
    }

    /// The name of the parameter that stands at `i` among the names: the
    /// name given, or `value` where none was given.
    pub open spec fn param_name(names: Seq<Option<String>>, i: int) -> Seq<char> {
        match names[i] {
            Some(name) => name@,
            None => "value"@,
        }
    }

    /// Whether the number of parameters is the one that the descriptor
    /// gives.
    pub open spec fn wf(self) -> bool {
        self.params@.len() == self.desc.c_params
    }

    /// The function with the given descriptor, parameter descriptors and
    /// names. Where a property-put or property-putref came without the name
    /// of its last parameter, that parameter is named `value`.
    pub fn new(
        desc: FuncDesc,
        param_descs: Vec<ElemDesc>,
        names: Vec<Option<String>>,
        num_names_received: u32,
    ) -> (function: Function)
        requires
            Function::names_fit(desc, param_descs@, names@, num_names_received),
        ensures
            function.wf(),
            function.desc == desc,
            function.name@ == names@[0]->0@,
            forall|i: int|
                0 <= i < param_descs@.len() ==> {
                    &&& (#[trigger] function.params@[i]).desc == param_descs@[i]
                    &&& function.params@[i].name@ == Function::param_name(names@, i + 1)
                },
    {
        let ghost all_names = names@;
        let ghost all_descs = param_descs@;
        let mut names = names;
        let mut param_descs = param_descs;
        let name = BString::attach(names.remove(0));
        let mut params: Vec<Param> = Vec::new();
        while param_descs.len() > 0
            invariant
                names@.len() == param_descs@.len(),
                params@.len() + param_descs@.len() == all_descs.len(),
                all_names.len() == 1 + all_descs.len(),
                names@ == all_names.skip(1 + params@.len() as int),
                param_descs@ == all_descs.skip(params@.len() as int),
                forall|i: int|
                    0 <= i < all_names.len() ==> (#[trigger] all_names[i] is Some || i
                        == all_names.len() - 1),
                forall|i: int|
                    0 <= i < params@.len() ==> {
                        &&& (#[trigger] params@[i]).desc == all_descs[i]
                        &&& params@[i].name@ == Function::param_name(all_names, i + 1)
                    },
            decreases param_descs.len(),
        {
            let param_desc = param_descs.remove(0);
            let given = names.remove(0);
            let param_name = match given {
                Some(param_name) => Some(param_name),
                None => Some(String::from_str("value")),
            };
            let ghost before = params@;
            params.push(Param { name: BString::attach(param_name), desc: param_desc });
            assert(names@ =~= all_names.skip(1 + params@.len() as int));
            assert(param_descs@ =~= all_descs.skip(params@.len() as int));
            assert forall|i: int| 0 <= i < params@.len() implies {
                &&& (#[trigger] params@[i]).desc == all_descs[i]
                &&& params@[i].name@ == Function::param_name(all_names, i + 1)
            } by {
                if i < before.len() {
                    assert(params@[i] == before[i]);
                }
            }
        }
        Function { name, desc, params }
    }

    pub fn name(&self) -> (name: &BString)
        ensures
            name == self.name,
    {
        &self.name
    }

    pub fn desc(&self) -> (desc: &FuncDesc)
        ensures
            desc == self.desc,
    {
        &self.desc
    }

    pub fn params(&self) -> (params: &Vec<Param>)
        ensures
            params == self.params,
    {
        &self.params
    }
}

/// The attributes of a described type.
#[derive(Debug)]
pub struct TypeAttr {
    pub guid: Guid,
    /// The size of an instance in bytes.
    pub size_instance: u32,
    pub typekind: u32,
    /// The size of the virtual function table in bytes.
    pub size_vft: u16,
    /// The alignment of an instance in bytes.
    pub alignment: u16,
    /// For an alias, the type that it stands for.
    pub tdesc_alias: TypeDesc,
}

/// One described type with its members. A member that could not be got holds
/// the error in its place.
#[derive(Debug)]
pub struct TypeInfo {
    pub name: BString,
    pub type_attr: TypeAttr,
    /// The enumerators, for an enumeration.
    pub vars: Vec<Result<Var, Error>>,
    /// The fields or properties.
    pub fields: Vec<Result<Field, Error>>,
    pub functions: Vec<Result<Function, Error>>,
    /// The types that this one inherits from or implements, in the order of
    /// their declaration.
    pub parents: Vec<Result<ReferencedType, Error>>,
    /// What came of asking a dispatch type for the vtable interface that it
    /// is the late-bound half of. The element-not-found error says that
    /// there is none.
    pub interface_of_dispinterface: Result<Box<TypeInfo>, Error>,
}

impl TypeInfo {
    /// A described type with the given name and attributes, without
    /// members, and with no vtable interface that it would be the half of.
    pub fn new(name: Option<String>, type_attr: TypeAttr) -> (type_info: TypeInfo)
        requires
            name is Some,
        ensures
            type_info.name@ == name->0@,
            type_info.type_attr == type_attr,
            type_info.vars@.len() == 0,
            type_info.fields@.len() == 0,
            type_info.functions@.len() == 0,
            type_info.parents@.len() == 0,
            type_info.interface_of_dispinterface == Err::<Box<TypeInfo>, Error>(
                Error::HResult(codes::TYPE_E_ELEMENTNOTFOUND),
            ),
    {
        TypeInfo {
            name: BString::attach(name),
            type_attr,
            vars: Vec::new(),
            fields: Vec::new(),
            functions: Vec::new(),
            parents: Vec::new(),
            interface_of_dispinterface: Err(Error::HResult(codes::TYPE_E_ELEMENTNOTFOUND)),
        }
    }

    pub fn name(&self) -> (name: &BString)
        ensures
            name == self.name,
    {
        &self.name
    }

    pub fn attributes(&self) -> (type_attr: &TypeAttr)
        ensures
            type_attr == self.type_attr,
    {
        &self.type_attr
    }

    pub fn get_vars(&self) -> (vars: &Vec<Result<Var, Error>>)
        ensures
            vars == self.vars,
    {
        &self.vars
    }

    pub fn get_fields(&self) -> (fields: &Vec<Result<Field, Error>>)
        ensures
            fields == self.fields,
    {
        &self.fields
    }

    pub fn get_functions(&self) -> (functions: &Vec<Result<Function, Error>>)
        ensures
            functions == self.functions,
    {
        &self.functions
    }

    pub fn get_parents(&self) -> (parents: &Vec<Result<ReferencedType, Error>>)
        ensures
            parents == self.parents,
    {
        &self.parents
    }
}

/// A type library: its described types in order. A type that could not be
/// got holds the error in its place.
#[derive(Debug)]
pub struct TypeLib {
    pub type_infos: Vec<Result<TypeInfo, Error>>,
}

impl TypeLib {
    pub fn new(type_infos: Vec<Result<TypeInfo, Error>>) -> (type_lib: TypeLib)
        ensures
            type_lib.type_infos == type_infos,
    {
        TypeLib { type_infos }
    }

    pub fn get_type_infos(&self) -> (type_infos: &Vec<Result<TypeInfo, Error>>)
        ensures
            type_infos == self.type_infos,
    {
        &self.type_infos
    }
}

} // verus!
