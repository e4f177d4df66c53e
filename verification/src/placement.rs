//! What a pass writes does not depend on the text that stands before it:
//! with more text in front, the same text is added, the same is counted,
//! and the pass stops for the same reason.

use vstd::prelude::*;
use crate::codes;
use crate::emit::aliases::alias_block;
use crate::emit::coclasses::{coclass_block, coclass_parent, coclass_parents};
use crate::emit::dispatch::{
    argument_line, argument_lines, count_value_params, dispatch_arguments, dispatch_block,
    dispatch_flag, dispatch_function, dispatch_functions, dispatch_members, dispatch_parent_fits,
    dispatch_properties, dispatch_property, dispatch_stub, inherited_scan, HELPER_RETURN,
};
use crate::emit::enums::{enum_block, enum_member, enum_members};
use crate::emit::interfaces::{
    getter_param, getter_params, getter_return, interface_block, interface_function,
    interface_functions, interface_getter, interface_head, interface_members, interface_method,
    interface_parent, interface_parents, interface_properties, interface_property,
    invoke_prefix, parents_vtable_size,
};
use crate::emit::lines::{param_line, param_lines, uuid_line, value_param_lines};
use crate::emit::modules::{module_block, module_function, module_functions};
use crate::emit::records::{record_block, record_field, record_fields};
use crate::emit::unions::{union_block, union_field, union_fields, union_storage};
use crate::error::{Error, Halt};
use crate::generate::{dual_interface, library, pass_over, type_block, type_slot};
use crate::pass::{BuildResultView, Pass};
use crate::resolve::sanitized;
use crate::text;
use crate::types::{Field, Function, Param, ReferencedType, TypeDesc, TypeInfo, Var};

verus! {

/// Text is written behind more text as it is written without it.
pub broadcast proof fn lemma_write_behind(st: Pass, before: Seq<char>, s: Seq<char>)
    ensures
        #[trigger] st.behind(before).write(s) == st.write(s).behind(before),
{
    assert(st.behind(before).write(s).text =~= st.write(s).behind(before).text);
}

/// A type is resolved behind more text as it is resolved without it.
pub broadcast proof fn lemma_resolve_behind(
    st: Pass,
    before: Seq<char>,
    type_: TypeDesc,
    param_flags: u32,
)
    ensures
        #[trigger] st.behind(before).resolve(type_, param_flags) == st.resolve(
            type_,
            param_flags,
        ).behind(before),
{
}

/// A pass stops behind more text as it stops without it.
pub broadcast proof fn lemma_stop_behind(st: Pass, before: Seq<char>, halt: Halt)
    ensures
        #[trigger] st.behind(before).stop(halt) == st.stop(halt).behind(before),
{
}

/// The statistics change behind more text as they change without it.
pub broadcast proof fn lemma_record_behind(
    st: Pass,
    before: Seq<char>,
    change: (BuildResultView, Option<Halt>),
)
    ensures
        #[trigger] st.behind(before).record(change) == st.record(change).behind(before),
{
}

pub broadcast group group_behind {
    lemma_write_behind,
    lemma_resolve_behind,
    lemma_stop_behind,
    lemma_record_behind,
}

/// The lines of parameters are written behind more text as without it.
pub proof fn lemma_param_lines_behind(
    st: Pass,
    before: Seq<char>,
    indent: Seq<char>,
    params: Seq<Param>,
    i: int,
)
    ensures
        param_lines(st.behind(before), indent, params, i) == param_lines(
            st,
            indent,
            params,
            i,
        ).behind(before),
    decreases params.len() - i,
{
    broadcast use group_behind;

    if 0 <= i < params.len() {
        let next = param_line(st, indent, params[i]);
        assert(param_line(st.behind(before), indent, params[i]) == next.behind(before));
        if next.halt is None {
            lemma_param_lines_behind(next, before, indent, params, i + 1);
        }
    }
}

/// The lines of the parameters that are not return values are written
/// behind more text as without it.
pub proof fn lemma_value_param_lines_behind(
    st: Pass,
    before: Seq<char>,
    indent: Seq<char>,
    params: Seq<Param>,
    i: int,
)
    ensures
        value_param_lines(st.behind(before), indent, params, i) == value_param_lines(
            st,
            indent,
            params,
            i,
        ).behind(before),
    decreases params.len() - i,
{
    broadcast use group_behind;

    if 0 <= i < params.len() {
        let next = if params[i].desc.spec_is_retval() {
            st
        } else {
            param_line(st, indent, params[i])
        };
        assert(param_line(st.behind(before), indent, params[i]) == param_line(
            st,
            indent,
            params[i],
        ).behind(before));
        if next.halt is None {
            lemma_value_param_lines_behind(next, before, indent, params, i + 1);
        }
    }
}

/// The enumerators are written behind more text as without it.
pub proof fn lemma_enum_members_behind(
    st: Pass,
    before: Seq<char>,
    members: Seq<Result<Var, Error>>,
    i: int,
)
    ensures
        enum_members(st.behind(before), members, i) == enum_members(st, members, i).behind(
            before,
        ),
    decreases members.len() - i,
{
    broadcast use group_behind;

    if 0 <= i < members.len() {
        let next = enum_member(st, members[i]);
        assert(enum_member(st.behind(before), members[i]) == next.behind(before));
        if next.halt is None {
            lemma_enum_members_behind(next, before, members, i + 1);
        }
    }
}

/// The block of an enumeration is written behind more text as without it.
pub proof fn lemma_enum_block_behind(st: Pass, before: Seq<char>, type_info: TypeInfo)
    ensures
        enum_block(st.behind(before), type_info) == enum_block(st, type_info).behind(before),
{
    broadcast use group_behind;

    lemma_enum_members_behind(
        st.write("ENUM!{enum "@).write(type_info.name@).write(" {\n"@),
        before,
        type_info.vars@,
        0,
    );
}

/// The fields of a record are written behind more text as without it.
pub proof fn lemma_record_fields_behind(
    st: Pass,
    before: Seq<char>,
    fields: Seq<Result<Field, Error>>,
    i: int,
)
    ensures
        record_fields(st.behind(before), fields, i) == record_fields(st, fields, i).behind(
            before,
        ),
    decreases fields.len() - i,
{
    broadcast use group_behind;

    if 0 <= i < fields.len() {
        let next = record_field(st, fields[i]);
        assert(record_field(st.behind(before), fields[i]) == next.behind(before));
        if next.halt is None {
            lemma_record_fields_behind(next, before, fields, i + 1);
        }
    }
}

/// The block of a record is written behind more text as without it.
pub proof fn lemma_record_block_behind(st: Pass, before: Seq<char>, type_info: TypeInfo)
    ensures
        record_block(st.behind(before), type_info) == record_block(st, type_info).behind(before),
{
    broadcast use group_behind;

    lemma_record_fields_behind(
        st.write("STRUCT!{struct "@).write(type_info.name@).write(" {\n"@),
        before,
        type_info.fields@,
        0,
    );
}

/// One function of a module is written behind more text as without it.
pub proof fn lemma_module_function_behind(
    st: Pass,
    before: Seq<char>,
    function: Result<Function, Error>,
)
    ensures
        module_function(st.behind(before), function) == module_function(st, function).behind(
            before,
        ),
{
    broadcast use group_behind;

    if let Ok(function) = function {
        lemma_param_lines_behind(
            st.write("extern \"system\" pub fn "@).write(function.name@).write("(\n"@),
            before,
            "    "@,
            function.params@,
            0,
        );
    }
}

/// The functions of a module are written behind more text as without it.
pub proof fn lemma_module_functions_behind(
    st: Pass,
    before: Seq<char>,
    functions: Seq<Result<Function, Error>>,
    i: int,
)
    ensures
        module_functions(st.behind(before), functions, i) == module_functions(
            st,
            functions,
            i,
        ).behind(before),
    decreases functions.len() - i,
{
    if 0 <= i < functions.len() {
        let next = module_function(st, functions[i]);
        lemma_module_function_behind(st, before, functions[i]);
        if next.halt is None {
            lemma_module_functions_behind(next, before, functions, i + 1);
        }
    }
}

/// The declarations of a module are written behind more text as without it.
pub proof fn lemma_module_block_behind(st: Pass, before: Seq<char>, type_info: TypeInfo)
    ensures
        module_block(st.behind(before), type_info) == module_block(st, type_info).behind(before),
{
    broadcast use group_behind;

    lemma_module_functions_behind(st, before, type_info.functions@, 0);
}

/// The interfaces of a class are written behind more text as without it.
pub proof fn lemma_coclass_parents_behind(
    st: Pass,
    before: Seq<char>,
    parents: Seq<Result<ReferencedType, Error>>,
    i: int,
)
    ensures
        coclass_parents(st.behind(before), parents, i) == coclass_parents(st, parents, i).behind(
            before,
        ),
    decreases parents.len() - i,
{
    broadcast use group_behind;

    if 0 <= i < parents.len() {
        let next = coclass_parent(st, parents[i]);
        assert(coclass_parent(st.behind(before), parents[i]) == next.behind(before));
        if next.halt is None {
            lemma_coclass_parents_behind(next, before, parents, i + 1);
        }
    }
}

/// The declaration of a class is written behind more text as without it.
pub proof fn lemma_coclass_block_behind(st: Pass, before: Seq<char>, type_info: TypeInfo)
    ensures
        coclass_block(st.behind(before), type_info) == coclass_block(st, type_info).behind(
            before,
        ),
{
    broadcast use group_behind;

    lemma_coclass_parents_behind(st, before, type_info.parents@, 0);
}

/// The declaration of an alias is written behind more text as without it.
pub proof fn lemma_alias_block_behind(st: Pass, before: Seq<char>, type_info: TypeInfo)
    ensures
        alias_block(st.behind(before), type_info) == alias_block(st, type_info).behind(before),
{
    broadcast use group_behind;

}

/// The fields of a union are written behind more text as without it.
pub proof fn lemma_union_fields_behind(
    st: Pass,
    before: Seq<char>,
    fields: Seq<Result<Field, Error>>,
    i: int,
)
    ensures
        union_fields(st.behind(before), fields, i) == union_fields(st, fields, i).behind(before),
    decreases fields.len() - i,
{
    broadcast use group_behind;

    if 0 <= i < fields.len() {
        let next = union_field(st, fields[i]);
        assert(union_field(st.behind(before), fields[i]) == next.behind(before));
        if next.halt is None {
            lemma_union_fields_behind(next, before, fields, i + 1);
        }
    }
}

/// The block of a union is written behind more text as without it.
pub proof fn lemma_union_block_behind(st: Pass, before: Seq<char>, type_info: TypeInfo)
    ensures
        union_block(st.behind(before), type_info) == union_block(st, type_info).behind(before),
{
    broadcast use group_behind;

    if let Ok(storage) = union_storage(type_info.type_attr) {
        lemma_union_fields_behind(
            st.write("UNION2!{union "@).write(type_info.name@).write(" {\n"@).write(
                "    "@,
            ).write(storage).write(",\n"@),
            before,
            type_info.fields@,
            0,
        );
    }
}

/// The parents of an interface are written behind more text as without it.
pub proof fn lemma_interface_parents_behind(
    st: Pass,
    before: Seq<char>,
    parents: Seq<Result<ReferencedType, Error>>,
    i: int,
)
    ensures
        interface_parents(st.behind(before), parents, i) == interface_parents(
            st,
            parents,
            i,
        ).behind(before),
    decreases parents.len() - i,
{
    broadcast use group_behind;

    if 0 <= i < parents.len() {
        let next = interface_parent(st, parents, i);
        assert(interface_parent(st.behind(before), parents, i) == next.behind(before));
        if next.halt is None {
            lemma_interface_parents_behind(next, before, parents, i + 1);
        }
    }
}

/// The head of an interface is written behind more text as without it.
pub proof fn lemma_interface_head_behind(st: Pass, before: Seq<char>, type_info: TypeInfo)
    ensures
        interface_head(st.behind(before), type_info) == interface_head(st, type_info).behind(
            before,
        ),
{
    broadcast use group_behind;

    lemma_interface_parents_behind(
        st.write(uuid_line(type_info.type_attr.guid)).write("interface "@).write(
            type_info.name@,
        ).write("("@).write(type_info.name@).write("Vtbl)"@),
        before,
        type_info.parents@,
        0,
    );
}

/// A function of an interface is written behind more text as without it.
pub proof fn lemma_interface_method_behind(
    st: Pass,
    before: Seq<char>,
    prefix: Seq<char>,
    function: Function,
)
    ensures
        interface_method(st.behind(before), prefix, function) == interface_method(
            st,
            prefix,
            function,
        ).behind(before),
{
    broadcast use group_behind;

    lemma_param_lines_behind(
        st.write("    fn "@).write(prefix).write(function.name@).write("(\n"@),
        before,
        "        "@,
        function.params@,
        0,
    );
}

/// The parameters of a property-get are written behind more text as without it.
pub proof fn lemma_getter_params_behind(st: Pass, before: Seq<char>, function: Function, i: int)
    ensures
        getter_params(st.behind(before), function, i) == getter_params(st, function, i).behind(
            before,
        ),
    decreases function.params@.len() - i,
{
    broadcast use group_behind;

    if 0 <= i < function.params@.len() {
        let next = getter_param(st, function, i);
        assert(getter_param(st.behind(before), function, i) == next.behind(before));
        if next.halt is None {
            lemma_getter_params_behind(next, before, function, i + 1);
        }
    }
}

/// A property-get of an interface is written behind more text as without it.
pub proof fn lemma_interface_getter_behind(st: Pass, before: Seq<char>, function: Function)
    ensures
        interface_getter(st.behind(before), function) == interface_getter(st, function).behind(
            before,
        ),
{
    broadcast use group_behind;

    let begun = st.write("    fn get_"@).write(function.name@).write("(\n"@);
    lemma_getter_params_behind(begun, before, function, 0);
    let listed = getter_params(begun, function, 0);
    assert(getter_return(listed.behind(before), function) == getter_return(
        listed,
        function,
    ).behind(before));
}

/// One function of an interface is written behind more text as without it.
pub proof fn lemma_interface_function_behind(
    st: Pass,
    before: Seq<char>,
    function: Result<Function, Error>,
    boundary: int,
)
    ensures
        interface_function(st.behind(before), function, boundary) == interface_function(
            st,
            function,
            boundary,
        ).behind(before),
{
    broadcast use group_behind;

    if let Ok(function) = function {
        lemma_interface_getter_behind(st, before, function);
        if let Some(prefix) = invoke_prefix(function.desc.invkind) {
            lemma_interface_method_behind(st, before, prefix, function);
        }
    }
}

/// The functions of an interface are written behind more text as without it.
pub proof fn lemma_interface_functions_behind(
    st: Pass,
    before: Seq<char>,
    functions: Seq<Result<Function, Error>>,
    boundary: int,
    i: int,
)
    ensures
        interface_functions(st.behind(before), functions, boundary, i) == interface_functions(
            st,
            functions,
            boundary,
            i,
        ).behind(before),
    decreases functions.len() - i,
{
    if 0 <= i < functions.len() {
        let next = interface_function(st, functions[i], boundary);
        lemma_interface_function_behind(st, before, functions[i], boundary);
        if next.halt is None {
            lemma_interface_functions_behind(next, before, functions, boundary, i + 1);
        }
    }
}

/// The properties of an interface are written behind more text as without it.
pub proof fn lemma_interface_properties_behind(
    st: Pass,
    before: Seq<char>,
    properties: Seq<Result<Field, Error>>,
    i: int,
)
    ensures
        interface_properties(st.behind(before), properties, i) == interface_properties(
            st,
            properties,
            i,
        ).behind(before),
    decreases properties.len() - i,
{
    broadcast use group_behind;

    if 0 <= i < properties.len() {
        let next = interface_property(st, properties[i]);
        assert(interface_property(st.behind(before), properties[i]) == next.behind(before));
        if next.halt is None {
            lemma_interface_properties_behind(next, before, properties, i + 1);
        }
    }
}

/// The members of an interface are written behind more text as without it.
pub proof fn lemma_interface_members_behind(st: Pass, before: Seq<char>, type_info: TypeInfo)
    ensures
        interface_members(st.behind(before), type_info) == interface_members(
            st,
            type_info,
        ).behind(before),
{
    let boundary = parents_vtable_size(type_info.parents@, type_info.parents@.len() as int);
    lemma_interface_functions_behind(st, before, type_info.functions@, boundary, 0);
    lemma_interface_properties_behind(
        interface_functions(st, type_info.functions@, boundary, 0),
        before,
        type_info.fields@,
        0,
    );
}

/// The block of an interface is written behind more text as without it.
pub proof fn lemma_interface_block_behind(st: Pass, before: Seq<char>, type_info: TypeInfo)
    ensures
        interface_block(st.behind(before), type_info) == interface_block(st, type_info).behind(
            before,
        ),
{
    broadcast use group_behind;

    lemma_interface_head_behind(st, before, type_info);
    lemma_interface_members_behind(interface_head(st, type_info), before, type_info);
}

/// The slots of an argument array are written behind more text as without it.
pub proof fn lemma_argument_lines_behind(st: Pass, before: Seq<char>, params: Seq<Param>, n: int)
    ensures
        argument_lines(st.behind(before), params, n) == argument_lines(st, params, n).behind(
            before,
        ),
    decreases n,
{
    broadcast use group_behind;

    if 0 < n <= params.len() {
        let slot = argument_line(st, params[n - 1].desc.tdesc, sanitized(params[n - 1].name@));
        assert(argument_line(
            st.behind(before),
            params[n - 1].desc.tdesc,
            sanitized(params[n - 1].name@),
        ) == slot.behind(before));
        let next = if params[n - 1].desc.spec_is_retval() {
            st
        } else {
            slot
        };
        if next.halt is None {
            lemma_argument_lines_behind(next, before, params, n - 1);
        }
    }
}

/// The argument array of a helper is written behind more text as without it.
pub proof fn lemma_dispatch_arguments_behind(st: Pass, before: Seq<char>, params: Seq<Param>)
    ensures
        dispatch_arguments(st.behind(before), params) == dispatch_arguments(st, params).behind(
            before,
        ),
{
    broadcast use group_behind;

    lemma_argument_lines_behind(
        st.write("        let mut args: [VARIANT; "@).write(
            text::decimal(count_value_params(params, params.len() as int)),
        ).write("] = [\n"@),
        before,
        params,
        params.len() as int,
    );
}

/// The helper of a function is written behind more text as without it.
pub proof fn lemma_dispatch_stub_behind(
    st: Pass,
    before: Seq<char>,
    prefix: Seq<char>,
    flag: Seq<char>,
    function: Function,
)
    ensures
        dispatch_stub(st.behind(before), prefix, flag, function) == dispatch_stub(
            st,
            prefix,
            flag,
            function,
        ).behind(before),
{
    broadcast use group_behind;

    let begun = st.write("    pub unsafe fn "@).write(prefix).write(function.name@).write(
        "(\n"@,
    ).write("        &self,\n"@);
    lemma_value_param_lines_behind(begun, before, "        "@, function.params@, 0);
    let signed = value_param_lines(begun, "        "@, function.params@, 0).write(
        HELPER_RETURN@,
    );
    lemma_dispatch_arguments_behind(signed, before, function.params@);
}

/// One function of a dispatch type is written behind more text as without it.
pub proof fn lemma_dispatch_function_behind(
    st: Pass,
    before: Seq<char>,
    function: Result<Function, Error>,
    has_inherited: bool,
)
    ensures
        dispatch_function(st.behind(before), function, has_inherited) == dispatch_function(
            st,
            function,
            has_inherited,
        ).behind(before),
{
    broadcast use group_behind;

    if let Ok(function) = function {
        if let Some(prefix) = invoke_prefix(function.desc.invkind) {
            if let Some(flag) = dispatch_flag(function.desc.invkind) {
                lemma_dispatch_stub_behind(st, before, prefix, flag, function);
            }
        }
    }
}

/// The functions of a dispatch type are written behind more text as without it.
pub proof fn lemma_dispatch_functions_behind(
    st: Pass,
    before: Seq<char>,
    functions: Seq<Result<Function, Error>>,
    has_inherited: bool,
    i: int,
)
    ensures
        dispatch_functions(st.behind(before), functions, has_inherited, i) == dispatch_functions(
            st,
            functions,
            has_inherited,
            i,
        ).behind(before),
    decreases functions.len() - i,
{
    if 0 <= i < functions.len() {
        let next = dispatch_function(st, functions[i], has_inherited);
        lemma_dispatch_function_behind(st, before, functions[i], has_inherited);
        if next.halt is None {
            lemma_dispatch_functions_behind(next, before, functions, has_inherited, i + 1);
        }
    }
}

/// The helpers of one property are written behind more text as without it.
pub proof fn lemma_dispatch_property_behind(
    st: Pass,
    before: Seq<char>,
    property: Result<Field, Error>,
)
    ensures
        dispatch_property(st.behind(before), property) == dispatch_property(
            st,
            property,
        ).behind(before),
{
    broadcast use group_behind;

}

/// The properties of a dispatch type are written behind more text as without it.
pub proof fn lemma_dispatch_properties_behind(
    st: Pass,
    before: Seq<char>,
    properties: Seq<Result<Field, Error>>,
    i: int,
)
    ensures
        dispatch_properties(st.behind(before), properties, i) == dispatch_properties(
            st,
            properties,
            i,
        ).behind(before),
    decreases properties.len() - i,
{
    if 0 <= i < properties.len() {
        let next = dispatch_property(st, properties[i]);
        lemma_dispatch_property_behind(st, before, properties[i]);
        if next.halt is None {
            lemma_dispatch_properties_behind(next, before, properties, i + 1);
        }
    }
}

/// The helpers of a dispatch type are written behind more text as without it.
pub proof fn lemma_dispatch_members_behind(st: Pass, before: Seq<char>, type_info: TypeInfo)
    ensures
        dispatch_members(st.behind(before), type_info) == dispatch_members(st, type_info).behind(
            before,
        ),
{
    broadcast use group_behind;

    if let Ok(has_inherited) = inherited_scan(type_info.functions@, 0) {
        lemma_dispatch_functions_behind(st, before, type_info.functions@, has_inherited, 0);
        lemma_dispatch_properties_behind(
            dispatch_functions(st, type_info.functions@, has_inherited, 0),
            before,
            type_info.fields@,
            0,
        );
    }
}

/// The declarations of a dispatch type are written behind more text as without it.
pub proof fn lemma_dispatch_block_behind(st: Pass, before: Seq<char>, type_info: TypeInfo)
    ensures
        dispatch_block(st.behind(before), type_info) == dispatch_block(st, type_info).behind(
            before,
        ),
{
    broadcast use group_behind;

    let declared = st.write(uuid_line(type_info.type_attr.guid)).write("interface "@).write(
        type_info.name@,
    ).write("("@).write(type_info.name@).write("Vtbl): IDispatch(IDispatchVtbl) {\n"@).write(
        "}}\n"@,
    );
    if dispatch_parent_fits(type_info.parents@) {
        lemma_dispatch_members_behind(
            declared.write("\n"@).write("impl "@).write(type_info.name@).write(" {\n"@),
            before,
            type_info,
        );
    }
}

/// The declarations of a described type are written behind more text as
/// they are written without it.
pub proof fn law_type_block_behind(
    st: Pass,
    before: Seq<char>,
    type_info: TypeInfo,
    emit_dispinterfaces: bool,
)
    ensures
        type_block(st.behind(before), type_info, emit_dispinterfaces) == type_block(
            st,
            type_info,
            emit_dispinterfaces,
        ).behind(before),
{
    let typekind = type_info.type_attr.typekind;
    if typekind == codes::TKIND_ENUM {
        lemma_enum_block_behind(st, before, type_info);
    } else if typekind == codes::TKIND_RECORD {
        lemma_record_block_behind(st, before, type_info);
    } else if typekind == codes::TKIND_MODULE {
        lemma_module_block_behind(st, before, type_info);
    } else if typekind == codes::TKIND_INTERFACE {
        lemma_interface_block_behind(st, before, type_info);
    } else if typekind == codes::TKIND_DISPATCH {
        if emit_dispinterfaces {
            lemma_dispatch_block_behind(st, before, type_info);
        } else {
            lemma_record_behind(
                st,
                before,
                (st.result.skipped_dispinterface(type_info.name@), None),
            );
        }
    } else if typekind == codes::TKIND_COCLASS {
        lemma_coclass_block_behind(st, before, type_info);
    } else if typekind == codes::TKIND_ALIAS {
        lemma_alias_block_behind(st, before, type_info);
    } else if typekind == codes::TKIND_UNION {
        lemma_union_block_behind(st, before, type_info);
    } else {
        lemma_stop_behind(st, before, Halt::Defect(crate::error::Defect::TypeKind));
    }
}

/// One element of a type library is handled behind more text as it is
/// handled without it.
pub proof fn law_type_slot_behind(
    st: Pass,
    before: Seq<char>,
    slot: Result<TypeInfo, Error>,
    emit_dispinterfaces: bool,
)
    ensures
        type_slot(st.behind(before), slot, emit_dispinterfaces) == type_slot(
            st,
            slot,
            emit_dispinterfaces,
        ).behind(before),
{
    broadcast use group_behind;

    if let Ok(type_info) = slot {
        law_type_block_behind(st, before, type_info, emit_dispinterfaces);
        if let Ok(Some(interface)) = dual_interface(type_info) {
            law_type_block_behind(
                st.record((st.result.skipped_dual_half(type_info.name@), None)),
                before,
                interface,
                emit_dispinterfaces,
            );
        }
    }
}

/// The elements of a type library are handled behind more text as they are
/// handled without it.
pub proof fn law_library_behind(
    st: Pass,
    before: Seq<char>,
    slots: Seq<Result<TypeInfo, Error>>,
    emit_dispinterfaces: bool,
    i: int,
)
    ensures
        library(st.behind(before), slots, emit_dispinterfaces, i) == library(
            st,
            slots,
            emit_dispinterfaces,
            i,
        ).behind(before),
    decreases slots.len() - i,
{
    if 0 <= i < slots.len() {
        let next = type_slot(st, slots[i], emit_dispinterfaces);
        law_type_slot_behind(st, before, slots[i], emit_dispinterfaces);
        if next.halt is None {
            law_library_behind(next, before, slots, emit_dispinterfaces, i + 1);
        }
    }
}

/// A pass that begins behind some text ends with that text in front of
/// what the pass writes where it begins with none: the same declarations,
/// the same statistics, the same reason to stop.
pub proof fn law_pass_is_appended(
    text: Seq<char>,
    type_lib: crate::types::TypeLib,
    emit_dispinterfaces: bool,
)
    ensures
        pass_over(text, type_lib, emit_dispinterfaces) == pass_over(
            Seq::empty(),
            type_lib,
            emit_dispinterfaces,
        ).behind(text),
{
    let start = Pass::running(Seq::empty(), BuildResultView::empty());
    law_library_behind(start, text, type_lib.type_infos@, emit_dispinterfaces, 0);
    assert(start.behind(text).text =~= text);
}

} // verus!
