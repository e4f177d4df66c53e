//! Vtable interfaces.

use vstd::prelude::*;
use vstd::string::StringExecFns;
use crate::codes;
use crate::error::{Defect, Error, Halt};
use crate::emit::lines::{
    emit_param_line, emit_param_lines, emit_typed_line, param_line, param_lines, typed_line,
    uuid_line, uuid_line_text,
};
use crate::pass::{BuildResult, Pass};
use crate::resolve::{sanitized, sanitize_reserved, well_known_type_to_string};
use crate::types::{Field, Function, Param, ReferencedType, TypeDesc, TypeInfo};

verus! {

/// The sum of the sizes of the virtual function tables of the first `n`
/// parents.
pub open spec fn parents_vtable_size(parents: Seq<Result<ReferencedType, Error>>, n: int) -> int
    decreases n,
{
    if n <= 0 {
        0
    } else {
        parents_vtable_size(parents, n - 1) + match parents[n - 1] {
            Ok(parent) => parent.size_vft as int,
            Err(_) => 0,
        }
    }
}

/// The offset of a function's slot in the virtual function table, read as
/// an unsigned 16-bit number.
pub open spec fn vtable_offset(o_vft: i16) -> int {
    if o_vft >= 0 {
        o_vft as int
    } else {
        o_vft + 0x1_0000
    }
}

/// Whether a function is inherited: its slot lies below the boundary, which
/// is the sum of the sizes of the parents' virtual function tables.
pub open spec fn is_inherited(function: Function, boundary: int) -> bool {
    vtable_offset(function.desc.o_vft) < boundary
}

/// What stands in front of the name of a function, by its invocation kind.
pub open spec fn invoke_prefix(invkind: u32) -> Option<Seq<char>> {
    if invkind == codes::INVOKE_FUNC {
        Some(""@)
    } else if invkind == codes::INVOKE_PROPERTYGET {
        Some("get_"@)
    } else if invkind == codes::INVOKE_PROPERTYPUT {
        Some("put_"@)
    } else if invkind == codes::INVOKE_PROPERTYPUTREF {
        Some("putref_"@)
    } else {
        None
    }
}

/// What stands in front of the name of a function, by its invocation kind.
pub fn invoke_prefix_text(invkind: u32) -> (prefix: Option<&'static str>)
    ensures
        match prefix {
            Some(prefix) => invoke_prefix(invkind) == Some(prefix@),
            None => invoke_prefix(invkind) is None,
        },
{
    if invkind == codes::INVOKE_FUNC {
        Some("")
    } else if invkind == codes::INVOKE_PROPERTYGET {
        Some("get_")
    } else if invkind == codes::INVOKE_PROPERTYPUT {
        Some("put_")
    } else if invkind == codes::INVOKE_PROPERTYPUTREF {
        Some("putref_")
    } else {
        None
    }
}

/// The state after one parent in the list of parents: a colon in front of
/// the first, a comma in front of each other one. The sum of the sizes of
/// the virtual function tables up to this parent must fit in 16 bits.
pub open spec fn interface_parent(
    st: Pass,
    parents: Seq<Result<ReferencedType, Error>>,
    i: int,
) -> Pass {
    match parents[i] {
        Ok(parent) => {
            let named = st.write(
                if i == 0 {
                    ": "@
                } else {
                    ", "@
                },
            ).write(parent.name@).write("("@).write(parent.name@).write("Vtbl)"@);
            if parents_vtable_size(parents, i + 1) > u16::MAX {
                named.defect(Defect::Overflow)
            } else {
                named
            }
        },
        Err(e) => st.fail(e),
    }
}

/// The state after the parents from `i` on, in order.
pub open spec fn interface_parents(
    st: Pass,
    parents: Seq<Result<ReferencedType, Error>>,
    i: int,
) -> Pass
    decreases parents.len() - i,
{
    if i < 0 || i >= parents.len() {
        st
    } else {
        let next = interface_parent(st, parents, i);
        if next.halt is Some {
            next
        } else {
            interface_parents(next, parents, i + 1)
        }
    }
}

/// The state after the head of an interface: its identifier, its name and
/// the list of its parents.
pub open spec fn interface_head(st: Pass, type_info: TypeInfo) -> Pass {
    interface_parents(
        st.write(uuid_line(type_info.type_attr.guid)).write("interface "@).write(
            type_info.name@,
        ).write("("@).write(type_info.name@).write("Vtbl)"@),
        type_info.parents@,
        0,
    ).write(" {\n"@)
}

/// The state after a function that is declared with all its parameters and
/// its own return type, where a pointer is a mutable one.
pub open spec fn interface_method(st: Pass, prefix: Seq<char>, function: Function) -> Pass {
    typed_line(
        param_lines(
            st.write("    fn "@).write(prefix).write(function.name@).write("(\n"@),
            "        "@,
            function.params@,
            0,
        ),
        "    ) -> "@,
        function.desc.elemdesc_func.tdesc,
        codes::PARAMFLAG_FOUT,
        ",\n"@,
    )
}

/// The state after one parameter of a property-get. A parameter that is
/// marked as the return value gets no line; the function that has one must
/// declare the status code as its return type.
pub open spec fn getter_param(st: Pass, function: Function, i: int) -> Pass {
    if function.params@[i].desc.spec_is_retval() {
        if function.desc.elemdesc_func.tdesc.spec_vt() != codes::VT_HRESULT {
            st.defect(Defect::ReturnValue)
        } else {
            st
        }
    } else {
        param_line(st, "        "@, function.params@[i])
    }
}

/// The state after the parameters of a property-get from `i` on, in order.
pub open spec fn getter_params(st: Pass, function: Function, i: int) -> Pass
    decreases function.params@.len() - i,
{
    if i < 0 || i >= function.params@.len() {
        st
    } else {
        let next = getter_param(st, function, i);
        if next.halt is Some {
            next
        } else {
            getter_params(next, function, i + 1)
        }
    }
}

/// The place of the parameter that is marked as the return value among the
/// first `n` parameters: the last one, where several are marked.
pub open spec fn explicit_retval(params: Seq<Param>, n: int) -> Option<int>
    decreases n,
{
    if n <= 0 {
        None
    } else if params[n - 1].desc.spec_is_retval() {
        Some(n - 1)
    } else {
        explicit_retval(params, n - 1)
    }
}

/// The state after the end of a property-get. Where a parameter is marked
/// as the return value, the function returns the value directly: the
/// parameter is a pointer, and the return type is what it points to. Else
/// the function takes a mutable pointer to the value and returns the status
/// code.
pub open spec fn getter_return(st: Pass, function: Function) -> Pass {
    match explicit_retval(function.params@, function.params@.len() as int) {
        Some(k) => match function.params@[k].desc.tdesc {
            TypeDesc::Pointer(value) => typed_line(
                st,
                "    ) -> "@,
                *value,
                function.params@[k].desc.spec_flags(),
                ",\n"@,
            ),
            _ => st.defect(Defect::ReturnValue),
        },
        None => typed_line(
            st,
            "        value: *mut "@,
            function.desc.elemdesc_func.tdesc,
            codes::PARAMFLAG_FOUT,
            ",\n"@,
        ).write("    ) -> "@).write("HRESULT"@).write(",\n"@),
    }
}

/// The state after a property-get.
pub open spec fn interface_getter(st: Pass, function: Function) -> Pass {
    getter_return(
        getter_params(st.write("    fn get_"@).write(function.name@).write("(\n"@), function, 0),
        function,
    )
}

/// The state after one function of an interface. An inherited function is
/// passed over. A function that is declared here must be neither a static
/// nor a dispatch function, and is written as its invocation kind asks.
pub open spec fn interface_function(
    st: Pass,
    function: Result<Function, Error>,
    boundary: int,
) -> Pass {
    match function {
        Ok(function) => if is_inherited(function, boundary) {
            st
        } else if function.desc.funckind == codes::FUNC_STATIC || function.desc.funckind
            == codes::FUNC_DISPATCH {
            st.defect(Defect::FunctionKind)
        } else if function.desc.invkind == codes::INVOKE_PROPERTYGET {
            interface_getter(st, function)
        } else {
            match invoke_prefix(function.desc.invkind) {
                Some(prefix) => interface_method(st, prefix, function),
                None => st.defect(Defect::InvokeKind),
            }
        },
        Err(e) => st.fail(e),
    }
}

/// The state after the functions from `i` on, in order.
pub open spec fn interface_functions(
    st: Pass,
    functions: Seq<Result<Function, Error>>,
    boundary: int,
    i: int,
) -> Pass
    decreases functions.len() - i,
{
    if i < 0 || i >= functions.len() {
        st
    } else {
        let next = interface_function(st, functions[i], boundary);
        if next.halt is Some {
            next
        } else {
            interface_functions(next, functions, boundary, i + 1)
        }
    }
}

/// The state after one property of an interface: a function that gets it
/// through a mutable pointer and a function that puts it, both returning
/// the status code.
pub open spec fn interface_property(st: Pass, property: Result<Field, Error>) -> Pass {
    match property {
        Ok(property) => typed_line(
            typed_line(
                st.write("    fn get_"@).write(sanitized(property.name@)).write("(\n"@),
                "        value: *mut "@,
                property.desc.elemdesc_var.tdesc,
                codes::PARAMFLAG_FOUT,
                ",\n"@,
            ).write("    ) -> "@).write("HRESULT"@).write(",\n"@).write("    fn put_"@).write(
                sanitized(property.name@),
            ).write("(\n"@),
            "        value: "@,
            property.desc.elemdesc_var.tdesc,
            codes::PARAMFLAG_FIN,
            ",\n"@,
        ).write("    ) -> "@).write("HRESULT"@).write(",\n"@),
        Err(e) => st.fail(e),
    }
}

/// The state after the properties from `i` on, in order.
pub open spec fn interface_properties(
    st: Pass,
    properties: Seq<Result<Field, Error>>,
    i: int,
) -> Pass
    decreases properties.len() - i,
{
    if i < 0 || i >= properties.len() {
        st
    } else {
        let next = interface_property(st, properties[i]);
        if next.halt is Some {
            next
        } else {
            interface_properties(next, properties, i + 1)
        }
    }
}

/// The state after the functions and properties of an interface: the
/// functions that are declared here, not those inherited from the parents,
/// then the accessors of the properties.
pub open spec fn interface_members(st: Pass, type_info: TypeInfo) -> Pass {
    interface_properties(
        interface_functions(
            st,
            type_info.functions@,
            parents_vtable_size(type_info.parents@, type_info.parents@.len() as int),
            0,
        ),
        type_info.fields@,
        0,
    )
}

/// The state after the block of an interface.
pub open spec fn interface_block(st: Pass, type_info: TypeInfo) -> Pass {
    interface_members(interface_head(st, type_info), type_info).write("}}\n"@).write("\n"@)
}

/// A pass that has stopped stays as it is over the functions and properties
/// of an interface.
pub proof fn lemma_stopped_interface_members(st: Pass, type_info: TypeInfo)
    requires
        st.halt is Some,
    ensures
        interface_members(st, type_info) == st,
{
}

/// The offset of a function's slot in the virtual function table, read as
/// an unsigned 16-bit number.
pub fn vtable_offset_of(o_vft: i16) -> (offset: u16)
    ensures
        offset == vtable_offset(o_vft),
{
    if o_vft >= 0 {
        o_vft as u16
    } else {
        ((o_vft as i32) + 0x1_0000) as u16
    }
}

fn emit_interface_parent(
    parents: &Vec<Result<ReferencedType, Error>>,
    i: usize,
    size_before: u16,
    out: &mut String,
    build_result: &BuildResult,
) -> (r: Result<u16, Halt>)
    requires
        i < parents.len(),
        size_before == parents_vtable_size(parents@, i as int),
    ensures
        Pass::at(final(out)@, build_result@, r) == interface_parent(
            Pass::running(old(out)@, build_result@),
            parents@,
            i as int,
        ),
        r matches Ok(size) ==> size == parents_vtable_size(parents@, i + 1),
{
    match &parents[i] {
        Ok(parent) => {
            out.append(
                if i == 0 {
                    ": "
                } else {
                    ", "
                },
            );
            out.append(parent.name.as_str());
            out.append("(");
            out.append(parent.name.as_str());
            out.append("Vtbl)");
            if parent.size_vft > u16::MAX - size_before {
                return Err(Halt::Defect(Defect::Overflow));
            }
            Ok(size_before + parent.size_vft)
        },
        Err(e) => Err(Halt::Failed(*e)),
    }
}

/// Writes the head of an interface and gives the sum of the sizes of the
/// parents' virtual function tables.
pub fn emit_interface_head(
    type_info: &TypeInfo,
    out: &mut String,
    build_result: &BuildResult,
) -> (r: Result<u16, Halt>)
    ensures
        Pass::at(final(out)@, build_result@, r) == interface_head(
            Pass::running(old(out)@, build_result@),
            *type_info,
        ),
        r matches Ok(size) ==> size == parents_vtable_size(
            type_info.parents@,
            type_info.parents@.len() as int,
        ),
{
    let identity = uuid_line_text(&type_info.attributes().guid);
    out.append(identity.as_str());
    out.append("interface ");
    out.append(type_info.name().as_str());
    out.append("(");
    out.append(type_info.name().as_str());
    out.append("Vtbl)");
    let parents = type_info.get_parents();
    let mut parents_vtbl_size: u16 = 0;
    let mut i: usize = 0;
    while i < parents.len()
        invariant
            i <= parents.len(),
            parents@ == type_info.parents@,
            parents_vtbl_size == parents_vtable_size(parents@, i as int),
            interface_head(Pass::running(old(out)@, build_result@), *type_info)
                == interface_parents(Pass::running(out@, build_result@), parents@, i as int).write(
                " {\n"@,
            ),
        decreases parents.len() - i,
    {
        parents_vtbl_size =
            emit_interface_parent(parents, i, parents_vtbl_size, out, build_result)?;
        i += 1;
    }
    out.append(" {\n");
    Ok(parents_vtbl_size)
}

fn emit_interface_method(
    prefix: &str,
    function: &Function,
    out: &mut String,
    build_result: &mut BuildResult,
) -> (r: Result<(), Halt>)
    ensures
        Pass::at(final(out)@, final(build_result)@, r) == interface_method(
            Pass::running(old(out)@, old(build_result)@),
            prefix@,
            *function,
        ),
{
    out.append("    fn ");
    out.append(prefix);
    out.append(function.name().as_str());
    out.append("(\n");
    emit_param_lines("        ", function.params(), out, build_result)?;
    emit_typed_line(
        "    ) -> ",
        &function.desc().elemdesc_func.tdesc,
        codes::PARAMFLAG_FOUT,
        ",\n",
        out,
        build_result,
    )
}

fn emit_getter_return(
    function: &Function,
    retval: Option<usize>,
    out: &mut String,
    build_result: &mut BuildResult,
) -> (r: Result<(), Halt>)
    requires
        match retval {
            Some(k) => explicit_retval(function.params@, function.params@.len() as int) == Some(
                k as int,
            ) && k < function.params@.len(),
            None => explicit_retval(function.params@, function.params@.len() as int) is None,
        },
    ensures
        Pass::at(final(out)@, final(build_result)@, r) == getter_return(
            Pass::running(old(out)@, old(build_result)@),
            *function,
        ),
{
    match retval {
        Some(k) => {
            let param = &function.params()[k];
            match &param.desc.tdesc {
                TypeDesc::Pointer(value) => emit_typed_line(
                    "    ) -> ",
                    value,
                    param.desc.flags(),
                    ",\n",
                    out,
                    build_result,
                ),
                _ => Err(Halt::Defect(Defect::ReturnValue)),
            }
        },
        None => {
            emit_typed_line(
                "        value: *mut ",
                &function.desc().elemdesc_func.tdesc,
                codes::PARAMFLAG_FOUT,
                ",\n",
                out,
                build_result,
            )?;
            out.append("    ) -> ");
            out.append(well_known_type_to_string(codes::VT_HRESULT));
            out.append(",\n");
            Ok(())
        },
    }
}

fn emit_interface_getter(
    function: &Function,
    out: &mut String,
    build_result: &mut BuildResult,
) -> (r: Result<(), Halt>)
    ensures
        Pass::at(final(out)@, final(build_result)@, r) == interface_getter(
            Pass::running(old(out)@, old(build_result)@),
            *function,
        ),
{
    out.append("    fn get_");
    out.append(function.name().as_str());
    out.append("(\n");
    let params = function.params();
    let mut retval: Option<usize> = None;
    let mut i: usize = 0;
    while i < params.len()
        invariant
            i <= params.len(),
            params@ == function.params@,
            match retval {
                Some(k) => explicit_retval(params@, i as int) == Some(k as int) && k < i,
                None => explicit_retval(params@, i as int) is None,
            },
            interface_getter(Pass::running(old(out)@, old(build_result)@), *function)
                == getter_return(
                getter_params(Pass::running(out@, build_result@), *function, i as int),
                *function,
            ),
        decreases params.len() - i,
    {
        if params[i].desc.is_retval() {
            if function.desc().elemdesc_func.tdesc.vt() != codes::VT_HRESULT {
                return Err(Halt::Defect(Defect::ReturnValue));
            }
            retval = Some(i);
        } else {
            emit_param_line("        ", &params[i], out, build_result)?;
        }
        i += 1;
    }
    emit_getter_return(function, retval, out, build_result)
}

fn emit_interface_function(
    function: &Result<Function, Error>,
    boundary: u16,
    out: &mut String,
    build_result: &mut BuildResult,
) -> (r: Result<(), Halt>)
    ensures
        Pass::at(final(out)@, final(build_result)@, r) == interface_function(
            Pass::running(old(out)@, old(build_result)@),
            *function,
            boundary as int,
        ),
{
    match function {
        Ok(function) => {
            let function_desc = function.desc();
            if vtable_offset_of(function_desc.o_vft) < boundary {
                return Ok(());
            }
            if function_desc.funckind == codes::FUNC_STATIC || function_desc.funckind
                == codes::FUNC_DISPATCH {
                return Err(Halt::Defect(Defect::FunctionKind));
            }
            if function_desc.invkind == codes::INVOKE_PROPERTYGET {
                emit_interface_getter(function, out, build_result)
            } else {
                match invoke_prefix_text(function_desc.invkind) {
                    Some(prefix) => emit_interface_method(prefix, function, out, build_result),
                    None => Err(Halt::Defect(Defect::InvokeKind)),
                }
            }
        },
        Err(e) => Err(Halt::Failed(*e)),
    }
}

fn emit_interface_property(
    property: &Result<Field, Error>,
    out: &mut String,
    build_result: &mut BuildResult,
) -> (r: Result<(), Halt>)
    ensures
        Pass::at(final(out)@, final(build_result)@, r) == interface_property(
            Pass::running(old(out)@, old(build_result)@),
            *property,
        ),
{
    match property {
        Ok(property) => {
            let property_name = sanitize_reserved(property.name());
            out.append("    fn get_");
            out.append(property_name.as_str());
            out.append("(\n");
            emit_typed_line(
                "        value: *mut ",
                property.type_(),
                codes::PARAMFLAG_FOUT,
                ",\n",
                out,
                build_result,
            )?;
            out.append("    ) -> ");
            out.append(well_known_type_to_string(codes::VT_HRESULT));
            out.append(",\n");
            out.append("    fn put_");
            out.append(property_name.as_str());
            out.append("(\n");
            emit_typed_line(
                "        value: ",
                property.type_(),
                codes::PARAMFLAG_FIN,
                ",\n",
                out,
                build_result,
            )?;
            out.append("    ) -> ");
            out.append(well_known_type_to_string(codes::VT_HRESULT));
            out.append(",\n");
            Ok(())
        },
        Err(e) => Err(Halt::Failed(*e)),
    }
}

/// Writes the functions that an interface declares itself, and the
/// accessors of its properties. The boundary is the sum of the sizes of the
/// parents' virtual function tables.
pub fn emit_interface_members(
    type_info: &TypeInfo,
    boundary: u16,
    out: &mut String,
    build_result: &mut BuildResult,
) -> (r: Result<(), Halt>)
    requires
        boundary == parents_vtable_size(type_info.parents@, type_info.parents@.len() as int),
    ensures
        Pass::at(final(out)@, final(build_result)@, r) == interface_members(
            Pass::running(old(out)@, old(build_result)@),
            *type_info,
        ),
{
    let functions = type_info.get_functions();
    let mut i: usize = 0;
    while i < functions.len()
        invariant
            i <= functions.len(),
            functions@ == type_info.functions@,
            boundary == parents_vtable_size(type_info.parents@, type_info.parents@.len() as int),
            interface_members(Pass::running(old(out)@, old(build_result)@), *type_info)
                == interface_properties(
                interface_functions(
                    Pass::running(out@, build_result@),
                    functions@,
                    boundary as int,
                    i as int,
                ),
                type_info.fields@,
                0,
            ),
        decreases functions.len() - i,
    {
        emit_interface_function(&functions[i], boundary, out, build_result)?;
        i += 1;
    }
    let properties = type_info.get_fields();
    let mut j: usize = 0;
    while j < properties.len()
        invariant
            j <= properties.len(),
            properties@ == type_info.fields@,
            interface_members(Pass::running(old(out)@, old(build_result)@), *type_info)
                == interface_properties(Pass::running(out@, build_result@), properties@, j as int),
        decreases properties.len() - j,
    {
        emit_interface_property(&properties[j], out, build_result)?;
        j += 1;
    }
    Ok(())
}

/// Writes the block of an interface.
pub fn emit_interface(type_info: &TypeInfo, out: &mut String, build_result: &mut BuildResult) -> (r:
    Result<(), Halt>)
    ensures
        Pass::at(final(out)@, final(build_result)@, r) == interface_block(
            Pass::running(old(out)@, old(build_result)@),
            *type_info,
        ),
{
    proof {
        let stopped = interface_head(Pass::running(out@, build_result@), *type_info);
        if stopped.halt is Some {
            lemma_stopped_interface_members(stopped, *type_info);
        }
    }
    let boundary = emit_interface_head(type_info, out, build_result)?;
    emit_interface_members(type_info, boundary, out, build_result)?;
    out.append("}}\n");
    out.append("\n");
    Ok(())
}

} // verus!
