//! What a pass leaves as it is: the text that is written stays, the
//! statistics only grow, and a pass that has stopped does nothing more.

use vstd::prelude::*;
use crate::emit::aliases::alias_block;
use crate::emit::coclasses::{coclass_block, coclass_parent, coclass_parents};
use crate::emit::dispatch::{
    argument_line, argument_lines, dispatch_arguments, dispatch_block, dispatch_function,
    dispatch_functions, dispatch_members, dispatch_properties, dispatch_property, dispatch_stub,
    inherited_scan,
};
use crate::emit::enums::{enum_block, enum_member, enum_members};
use crate::emit::interfaces::{
    getter_param, getter_params, getter_return, interface_block, interface_function,
    interface_functions, interface_getter, interface_head, interface_members, interface_method,
    interface_parent, interface_parents, interface_properties, interface_property,
    parents_vtable_size,
};
use crate::emit::lines::{param_line, param_lines, value_param_lines};
use crate::emit::modules::{module_block, module_function, module_functions};
use crate::emit::records::{record_block, record_field, record_fields};
use crate::emit::unions::{union_block, union_field, union_fields};
use crate::error::Error;
use crate::generate::{library, type_block, type_slot};
use crate::pass::Pass;
use crate::resolve::sanitized;
use crate::types::{Field, Function, Param, ReferencedType, TypeInfo, Var};

verus! {

/// The lines of parameters add text, count missing types and change nothing else.
pub proof fn lemma_param_lines_declare(st: Pass, indent: Seq<char>, params: Seq<Param>, i: int)
    ensures
        param_lines(st, indent, params, i).declared_from(st),
    decreases params.len() - i,
{
    if 0 <= i < params.len() {
        let next = param_line(st, indent, params[i]);
        if next.halt is None {
            lemma_param_lines_declare(next, indent, params, i + 1);
        }
    }
}

/// The lines of the parameters that are not return values add text, count
/// missing types and change nothing else.
pub proof fn lemma_value_param_lines_declare(
    st: Pass,
    indent: Seq<char>,
    params: Seq<Param>,
    i: int,
)
    ensures
        value_param_lines(st, indent, params, i).declared_from(st),
    decreases params.len() - i,
{
    if 0 <= i < params.len() {
        let next = if params[i].desc.spec_is_retval() {
            st
        } else {
            param_line(st, indent, params[i])
        };
        if next.halt is None {
            lemma_value_param_lines_declare(next, indent, params, i + 1);
        }
    }
}

/// The enumerators add text, count missing types and change nothing else.
pub proof fn lemma_enum_members_declare(st: Pass, members: Seq<Result<Var, Error>>, i: int)
    ensures
        enum_members(st, members, i).declared_from(st),
    decreases members.len() - i,
{
    if 0 <= i < members.len() {
        let next = enum_member(st, members[i]);
        if next.halt is None {
            lemma_enum_members_declare(next, members, i + 1);
        }
    }
}

/// What comes of a state that came of another one has come of that one.
pub proof fn lemma_declared_chain(first: Pass, second: Pass, third: Pass)
    requires
        second.declared_from(first),
        third.declared_from(second),
    ensures
        third.declared_from(first),
{
}

/// The block of an enumeration adds text and changes nothing else.
pub proof fn lemma_enum_block_declares(st: Pass, type_info: TypeInfo)
    ensures
        enum_block(st, type_info).declared_from(st),
{
    let begun = st.write("ENUM!{enum "@).write(type_info.name@).write(" {\n"@);
    let listed = enum_members(begun, type_info.vars@, 0);
    lemma_enum_members_declare(begun, type_info.vars@, 0);
    assert(begun.declared_from(st));
    lemma_declared_chain(st, begun, listed);
    assert(enum_block(st, type_info) == listed.write("}}\n"@).write("\n"@));
    assert(listed.write("}}\n"@).write("\n"@).declared_from(listed));
    lemma_declared_chain(st, listed, enum_block(st, type_info));
}

/// The fields of a record add text, count missing types and change nothing else.
pub proof fn lemma_record_fields_declare(st: Pass, fields: Seq<Result<Field, Error>>, i: int)
    ensures
        record_fields(st, fields, i).declared_from(st),
    decreases fields.len() - i,
{
    if 0 <= i < fields.len() {
        let next = record_field(st, fields[i]);
        if next.halt is None {
            lemma_record_fields_declare(next, fields, i + 1);
        }
    }
}

/// The block of a record adds text, counts missing types and changes
/// nothing else.
pub proof fn lemma_record_block_declares(st: Pass, type_info: TypeInfo)
    ensures
        record_block(st, type_info).declared_from(st),
{
    let begun = st.write("STRUCT!{struct "@).write(type_info.name@).write(" {\n"@);
    let listed = record_fields(begun, type_info.fields@, 0);
    lemma_record_fields_declare(begun, type_info.fields@, 0);
    assert(begun.declared_from(st));
    lemma_declared_chain(st, begun, listed);
    assert(listed.write("}}\n"@).write("\n"@).declared_from(listed));
    lemma_declared_chain(st, listed, record_block(st, type_info));
}

/// One function of a module adds text, counts missing types and changes nothing else.
pub proof fn lemma_module_function_declares(st: Pass, function: Result<Function, Error>)
    ensures
        module_function(st, function).declared_from(st),
{
    if let Ok(function) = function {
        let begun = st.write("extern \"system\" pub fn "@).write(function.name@).write("(\n"@);
        let listed = param_lines(begun, "    "@, function.params@, 0);
        lemma_param_lines_declare(begun, "    "@, function.params@, 0);
        assert(begun.declared_from(st));
        lemma_declared_chain(st, begun, listed);
        let ended = crate::emit::lines::typed_line(
            listed,
            ") -> "@,
            function.desc.elemdesc_func.tdesc,
            crate::codes::PARAMFLAG_FOUT,
            ",\n"@,
        ).write("\n"@);
        assert(ended.declared_from(listed));
        lemma_declared_chain(st, listed, ended);
    }
}

/// The functions of a module add text, count missing types and change nothing else.
pub proof fn lemma_module_functions_declare(
    st: Pass,
    functions: Seq<Result<Function, Error>>,
    i: int,
)
    ensures
        module_functions(st, functions, i).declared_from(st),
    decreases functions.len() - i,
{
    if 0 <= i < functions.len() {
        let next = module_function(st, functions[i]);
        lemma_module_function_declares(st, functions[i]);
        if next.halt is None {
            lemma_module_functions_declare(next, functions, i + 1);
        }
    }
}

/// The declarations of a module add text, count missing types and change
/// nothing else.
pub proof fn lemma_module_block_declares(st: Pass, type_info: TypeInfo)
    ensures
        module_block(st, type_info).declared_from(st),
{
    lemma_module_functions_declare(st, type_info.functions@, 0);
}

/// The interfaces of a class add text, count missing types and change nothing else.
pub proof fn lemma_coclass_parents_declare(
    st: Pass,
    parents: Seq<Result<ReferencedType, Error>>,
    i: int,
)
    ensures
        coclass_parents(st, parents, i).declared_from(st),
    decreases parents.len() - i,
{
    if 0 <= i < parents.len() {
        let next = coclass_parent(st, parents[i]);
        if next.halt is None {
            lemma_coclass_parents_declare(next, parents, i + 1);
        }
    }
}

/// The declaration of a class adds text and changes nothing else.
pub proof fn lemma_coclass_block_declares(st: Pass, type_info: TypeInfo)
    ensures
        coclass_block(st, type_info).declared_from(st),
{
    lemma_coclass_parents_declare(st, type_info.parents@, 0);
}

/// The declaration of an alias adds text, counts a missing type and changes
/// nothing else.
pub proof fn lemma_alias_block_declares(st: Pass, type_info: TypeInfo)
    ensures
        alias_block(st, type_info).declared_from(st),
{
}

/// The fields of a union add text, count missing types and change nothing else.
pub proof fn lemma_union_fields_declare(st: Pass, fields: Seq<Result<Field, Error>>, i: int)
    ensures
        union_fields(st, fields, i).declared_from(st),
    decreases fields.len() - i,
{
    if 0 <= i < fields.len() {
        let next = union_field(st, fields[i]);
        if next.halt is None {
            lemma_union_fields_declare(next, fields, i + 1);
        }
    }
}

/// The block of a union adds text, counts missing types and changes
/// nothing else.
pub proof fn lemma_union_block_declares(st: Pass, type_info: TypeInfo)
    ensures
        union_block(st, type_info).declared_from(st),
{
    if let Ok(storage) = crate::emit::unions::union_storage(type_info.type_attr) {
        let begun = st.write("UNION2!{union "@).write(type_info.name@).write(" {\n"@).write(
            "    "@,
        ).write(storage).write(",\n"@);
        let listed = union_fields(begun, type_info.fields@, 0);
        lemma_union_fields_declare(begun, type_info.fields@, 0);
        assert(begun.declared_from(st));
        lemma_declared_chain(st, begun, listed);
        assert(listed.write("}}\n"@).write("\n"@).declared_from(listed));
        lemma_declared_chain(st, listed, union_block(st, type_info));
    }
}

/// The parents of an interface add text, count missing types and change nothing else.
pub proof fn lemma_interface_parents_declare(
    st: Pass,
    parents: Seq<Result<ReferencedType, Error>>,
    i: int,
)
    ensures
        interface_parents(st, parents, i).declared_from(st),
    decreases parents.len() - i,
{
    if 0 <= i < parents.len() {
        let next = interface_parent(st, parents, i);
        if next.halt is None {
            lemma_interface_parents_declare(next, parents, i + 1);
        }
    }
}

/// The head of an interface adds text, counts missing types and changes nothing else.
pub proof fn lemma_interface_head_declares(st: Pass, type_info: TypeInfo)
    ensures
        interface_head(st, type_info).declared_from(st),
{
    let begun = st.write(crate::emit::lines::uuid_line(type_info.type_attr.guid)).write(
        "interface "@,
    ).write(type_info.name@).write("("@).write(type_info.name@).write("Vtbl)"@);
    let listed = interface_parents(begun, type_info.parents@, 0);
    lemma_interface_parents_declare(begun, type_info.parents@, 0);
    assert(begun.declared_from(st));
    lemma_declared_chain(st, begun, listed);
    assert(listed.write(" {\n"@).declared_from(listed));
    lemma_declared_chain(st, listed, interface_head(st, type_info));
}

/// A function of an interface adds text, counts missing types and changes nothing else.
pub proof fn lemma_interface_method_declares(st: Pass, prefix: Seq<char>, function: Function)
    ensures
        interface_method(st, prefix, function).declared_from(st),
{
    let begun = st.write("    fn "@).write(prefix).write(function.name@).write("(\n"@);
    let listed = param_lines(begun, "        "@, function.params@, 0);
    lemma_param_lines_declare(begun, "        "@, function.params@, 0);
    assert(begun.declared_from(st));
    lemma_declared_chain(st, begun, listed);
    assert(interface_method(st, prefix, function).declared_from(listed));
    lemma_declared_chain(st, listed, interface_method(st, prefix, function));
}

/// The parameters of a property-get add text, count missing types and change nothing else.
pub proof fn lemma_getter_params_declare(st: Pass, function: Function, i: int)
    ensures
        getter_params(st, function, i).declared_from(st),
    decreases function.params@.len() - i,
{
    if 0 <= i < function.params@.len() {
        let next = getter_param(st, function, i);
        if next.halt is None {
            lemma_getter_params_declare(next, function, i + 1);
        }
    }
}

/// A property-get of an interface adds text, counts missing types and changes nothing else.
pub proof fn lemma_interface_getter_declares(st: Pass, function: Function)
    ensures
        interface_getter(st, function).declared_from(st),
{
    let begun = st.write("    fn get_"@).write(function.name@).write("(\n"@);
    let listed = getter_params(begun, function, 0);
    lemma_getter_params_declare(begun, function, 0);
    assert(begun.declared_from(st));
    lemma_declared_chain(st, begun, listed);
    assert(getter_return(listed, function).declared_from(listed));
    lemma_declared_chain(st, listed, interface_getter(st, function));
}

/// One function of an interface adds text, counts missing types and changes nothing else.
pub proof fn lemma_interface_function_declares(
    st: Pass,
    function: Result<Function, Error>,
    boundary: int,
)
    ensures
        interface_function(st, function, boundary).declared_from(st),
{
    if let Ok(function) = function {
        lemma_interface_getter_declares(st, function);
        if let Some(prefix) = crate::emit::interfaces::invoke_prefix(function.desc.invkind) {
            lemma_interface_method_declares(st, prefix, function);
        }
    }
}

/// The functions of an interface add text, count missing types and change nothing else.
pub proof fn lemma_interface_functions_declare(
    st: Pass,
    functions: Seq<Result<Function, Error>>,
    boundary: int,
    i: int,
)
    ensures
        interface_functions(st, functions, boundary, i).declared_from(st),
    decreases functions.len() - i,
{
    if 0 <= i < functions.len() {
        let next = interface_function(st, functions[i], boundary);
        lemma_interface_function_declares(st, functions[i], boundary);
        if next.halt is None {
            lemma_interface_functions_declare(next, functions, boundary, i + 1);
        }
    }
}

/// The properties of an interface add text, count missing types and change nothing else.
pub proof fn lemma_interface_properties_declare(
    st: Pass,
    properties: Seq<Result<Field, Error>>,
    i: int,
)
    ensures
        interface_properties(st, properties, i).declared_from(st),
    decreases properties.len() - i,
{
    if 0 <= i < properties.len() {
        let next = interface_property(st, properties[i]);
        if next.halt is None {
            lemma_interface_properties_declare(next, properties, i + 1);
        }
    }
}

/// The members of an interface add text, count missing types and change nothing else.
pub proof fn lemma_interface_members_declare(st: Pass, type_info: TypeInfo)
    ensures
        interface_members(st, type_info).declared_from(st),
{
    let boundary = parents_vtable_size(type_info.parents@, type_info.parents@.len() as int);
    lemma_interface_functions_declare(st, type_info.functions@, boundary, 0);
    lemma_interface_properties_declare(
        interface_functions(st, type_info.functions@, boundary, 0),
        type_info.fields@,
        0,
    );
}

/// The block of an interface adds text, counts missing types and changes
/// nothing else.
pub proof fn lemma_interface_block_declares(st: Pass, type_info: TypeInfo)
    ensures
        interface_block(st, type_info).declared_from(st),
{
    lemma_interface_head_declares(st, type_info);
    lemma_interface_members_declare(interface_head(st, type_info), type_info);
}

/// The slots of an argument array add text, count missing types and change nothing else.
pub proof fn lemma_argument_lines_declare(st: Pass, params: Seq<Param>, n: int)
    ensures
        argument_lines(st, params, n).declared_from(st),
    decreases n,
{
    if 0 < n <= params.len() {
        let next = if params[n - 1].desc.spec_is_retval() {
            st
        } else {
            argument_line(st, params[n - 1].desc.tdesc, sanitized(params[n - 1].name@))
        };
        if next.halt is None {
            lemma_argument_lines_declare(next, params, n - 1);
        }
    }
}

/// The argument array of a helper adds text, counts missing types and changes nothing else.
pub proof fn lemma_dispatch_arguments_declare(st: Pass, params: Seq<Param>)
    ensures
        dispatch_arguments(st, params).declared_from(st),
{
    let begun = st.write("        let mut args: [VARIANT; "@).write(
        crate::text::decimal(
            crate::emit::dispatch::count_value_params(params, params.len() as int),
        ),
    ).write("] = [\n"@);
    let listed = argument_lines(begun, params, params.len() as int);
    lemma_argument_lines_declare(begun, params, params.len() as int);
    assert(begun.declared_from(st));
    lemma_declared_chain(st, begun, listed);
    assert(listed.write("        ];\n"@).write("\n"@).declared_from(listed));
    lemma_declared_chain(st, listed, listed.write("        ];\n"@).write("\n"@));
}

/// The helper of a function adds text, counts missing types and changes nothing else.
pub proof fn lemma_dispatch_stub_declares(
    st: Pass,
    prefix: Seq<char>,
    flag: Seq<char>,
    function: Function,
)
    ensures
        dispatch_stub(st, prefix, flag, function).declared_from(st),
{
    let begun = st.write("    pub unsafe fn "@).write(prefix).write(function.name@).write(
        "(\n"@,
    ).write("        &self,\n"@);
    let listed = value_param_lines(begun, "        "@, function.params@, 0);
    lemma_value_param_lines_declare(begun, "        "@, function.params@, 0);
    assert(begun.declared_from(st));
    lemma_declared_chain(st, begun, listed);
    let signed = listed.write(crate::emit::dispatch::HELPER_RETURN@);
    assert(signed.declared_from(listed));
    lemma_declared_chain(st, listed, signed);
    let filled = dispatch_arguments(signed, function.params@);
    lemma_dispatch_arguments_declare(signed, function.params@);
    lemma_declared_chain(st, signed, filled);
    assert(dispatch_stub(st, prefix, flag, function).declared_from(filled));
    lemma_declared_chain(st, filled, dispatch_stub(st, prefix, flag, function));
}

/// One function of a dispatch type adds text, counts missing types and changes nothing else.
pub proof fn lemma_dispatch_function_declares(
    st: Pass,
    function: Result<Function, Error>,
    has_inherited: bool,
)
    ensures
        dispatch_function(st, function, has_inherited).declared_from(st),
{
    if let Ok(function) = function {
        if let Some(prefix) = crate::emit::interfaces::invoke_prefix(function.desc.invkind) {
            if let Some(flag) = crate::emit::dispatch::dispatch_flag(function.desc.invkind) {
                lemma_dispatch_stub_declares(st, prefix, flag, function);
            }
        }
    }
}

/// The functions of a dispatch type add text, count missing types and change nothing else.
pub proof fn lemma_dispatch_functions_declare(
    st: Pass,
    functions: Seq<Result<Function, Error>>,
    has_inherited: bool,
    i: int,
)
    ensures
        dispatch_functions(st, functions, has_inherited, i).declared_from(st),
    decreases functions.len() - i,
{
    if 0 <= i < functions.len() {
        let next = dispatch_function(st, functions[i], has_inherited);
        lemma_dispatch_function_declares(st, functions[i], has_inherited);
        if next.halt is None {
            lemma_dispatch_functions_declare(next, functions, has_inherited, i + 1);
        }
    }
}

/// The helpers of one property add text, count missing types and change nothing else.
pub proof fn lemma_dispatch_property_declares(st: Pass, property: Result<Field, Error>)
    ensures
        dispatch_property(st, property).declared_from(st),
{
    if let Ok(property) = property {
        let name = sanitized(property.name@);
        let type_ = property.desc.elemdesc_var.tdesc;
        let got = st.write("    pub unsafe fn get_"@).write(name).write("(\n"@).write(
            crate::emit::dispatch::HELPER_RETURN@,
        ).write(
            crate::emit::dispatch::invoke_text(
                crate::emit::dispatch::NULL_POINTER@,
                crate::emit::dispatch::NULL_POINTER@,
                0,
                0,
                property.desc.memid,
                "DISPATCH_PROPERTYGET"@,
            ),
        );
        assert(got.declared_from(st));
        let named = got.write("    pub unsafe fn put_"@).write(name).write("(\n"@);
        assert(named.declared_from(got));
        lemma_declared_chain(st, got, named);
        let typed = crate::emit::lines::typed_line(
            named,
            "        value: "@,
            type_,
            crate::codes::PARAMFLAG_FIN,
            ",\n"@,
        );
        assert(typed.declared_from(named));
        lemma_declared_chain(st, named, typed);
        let signed = typed.write(crate::emit::dispatch::HELPER_RETURN@).write(
            "        let mut args: [VARIANT; 1] = [\n"@,
        );
        assert(signed.declared_from(typed));
        lemma_declared_chain(st, typed, signed);
        let filled = argument_line(signed, type_, "value"@);
        assert(filled.declared_from(signed));
        lemma_declared_chain(st, signed, filled);
        let ended = filled.write("        ];\n"@).write("\n"@).write(
            crate::emit::dispatch::invoke_text(
                crate::emit::dispatch::ARGS_POINTER@,
                crate::emit::dispatch::NULL_POINTER@,
                1,
                0,
                property.desc.memid,
                "DISPATCH_PROPERTYPUT"@,
            ),
        );
        assert(ended.declared_from(filled));
        lemma_declared_chain(st, filled, ended);
        assert(dispatch_property(st, Ok(property)) == ended);
    }
}

/// The properties of a dispatch type add text, count missing types and change nothing else.
pub proof fn lemma_dispatch_properties_declare(
    st: Pass,
    properties: Seq<Result<Field, Error>>,
    i: int,
)
    ensures
        dispatch_properties(st, properties, i).declared_from(st),
    decreases properties.len() - i,
{
    if 0 <= i < properties.len() {
        let next = dispatch_property(st, properties[i]);
        lemma_dispatch_property_declares(st, properties[i]);
        if next.halt is None {
            lemma_dispatch_properties_declare(next, properties, i + 1);
        }
    }
}

/// The helpers of a dispatch type add text, count missing types and change nothing else.
pub proof fn lemma_dispatch_members_declare(st: Pass, type_info: TypeInfo)
    ensures
        dispatch_members(st, type_info).declared_from(st),
{
    if let Ok(has_inherited) = inherited_scan(type_info.functions@, 0) {
        lemma_dispatch_functions_declare(st, type_info.functions@, has_inherited, 0);
        lemma_dispatch_properties_declare(
            dispatch_functions(st, type_info.functions@, has_inherited, 0),
            type_info.fields@,
            0,
        );
    }
}

/// The declarations of a dispatch type add text, count missing types and
/// change nothing else.
pub proof fn lemma_dispatch_block_declares(st: Pass, type_info: TypeInfo)
    ensures
        dispatch_block(st, type_info).declared_from(st),
{
    let declared = st.write(crate::emit::lines::uuid_line(type_info.type_attr.guid)).write(
        "interface "@,
    ).write(type_info.name@).write("("@).write(type_info.name@).write(
        "Vtbl): IDispatch(IDispatchVtbl) {\n"@,
    ).write("}}\n"@);
    assert(declared.declared_from(st));
    if crate::emit::dispatch::dispatch_parent_fits(type_info.parents@) {
        let opened = declared.write("\n"@).write("impl "@).write(type_info.name@).write(" {\n"@);
        assert(opened.declared_from(declared));
        lemma_declared_chain(st, declared, opened);
        let listed = dispatch_members(opened, type_info);
        lemma_dispatch_members_declare(opened, type_info);
        lemma_declared_chain(st, opened, listed);
        assert(listed.write("}\n"@).write("\n"@).declared_from(listed));
        lemma_declared_chain(st, listed, dispatch_block(st, type_info));
    }
}

/// The declarations of a described type add text at the end and count
/// missing types. Of the rest of the statistics they change one thing at
/// most: a dispatch type that is not emitted adds its name at the end of
/// the list of the skipped ones.
pub proof fn law_type_block_frame(st: Pass, type_info: TypeInfo, emit_dispinterfaces: bool)
    ensures
        type_block(st, type_info, emit_dispinterfaces).follows(st),
        type_block(st, type_info, emit_dispinterfaces).result.num_types_not_found
            == st.result.num_types_not_found,
        type_block(
            st,
            type_info,
            emit_dispinterfaces,
        ).result.skipped_dispinterface_of_dual_interfaces
            == st.result.skipped_dispinterface_of_dual_interfaces,
        type_info.type_attr.typekind != crate::codes::TKIND_DISPATCH || emit_dispinterfaces
            ==> type_block(st, type_info, emit_dispinterfaces).declared_from(st),
{
    lemma_enum_block_declares(st, type_info);
    lemma_record_block_declares(st, type_info);
    lemma_module_block_declares(st, type_info);
    lemma_interface_block_declares(st, type_info);
    lemma_dispatch_block_declares(st, type_info);
    lemma_coclass_block_declares(st, type_info);
    lemma_alias_block_declares(st, type_info);
    lemma_union_block_declares(st, type_info);
}

/// One element of a type library adds text at the end, does not lower a
/// counter, and adds at most one name to each list, at its end.
pub proof fn law_type_slot_follows(
    st: Pass,
    slot: Result<TypeInfo, Error>,
    emit_dispinterfaces: bool,
)
    ensures
        type_slot(st, slot, emit_dispinterfaces).follows(st),
        type_slot(st, slot, emit_dispinterfaces).result.skipped_dispinterfaces.len()
            <= st.result.skipped_dispinterfaces.len() + 1,
        type_slot(
            st,
            slot,
            emit_dispinterfaces,
        ).result.skipped_dispinterface_of_dual_interfaces.len()
            <= st.result.skipped_dispinterface_of_dual_interfaces.len() + 1,
{
    if let Ok(type_info) = slot {
        law_type_block_frame(st, type_info, emit_dispinterfaces);
        if let Ok(Some(interface)) = crate::generate::dual_interface(type_info) {
            law_type_block_frame(
                st.record((st.result.skipped_dual_half(type_info.name@), None)),
                interface,
                emit_dispinterfaces,
            );
        }
    }
}

/// A pass over a type library only adds: the text before it stays at the
/// front of the text, no counter falls, and the names recorded before stay
/// at the front of the lists. A pass that has stopped does nothing more.
pub proof fn law_pass_follows(
    st: Pass,
    slots: Seq<Result<TypeInfo, Error>>,
    emit_dispinterfaces: bool,
    i: int,
)
    ensures
        library(st, slots, emit_dispinterfaces, i).follows(st),
    decreases slots.len() - i,
{
    if 0 <= i < slots.len() {
        let next = type_slot(st, slots[i], emit_dispinterfaces);
        law_type_slot_follows(st, slots[i], emit_dispinterfaces);
        if next.halt is None {
            law_pass_follows(next, slots, emit_dispinterfaces, i + 1);
        }
    }
}

} // verus!
