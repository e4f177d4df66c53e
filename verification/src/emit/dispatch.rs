//! Dispatch interfaces: the late-bound interface itself, and for each
//! member a helper that invokes it by its member id.

use vstd::prelude::*;
use vstd::string::StringExecFns;
use crate::arguments::{argument_slot, try_vartype_mutator};
use crate::codes;
use crate::error::{Defect, Error, Halt};
use crate::emit::interfaces::{invoke_prefix, invoke_prefix_text};
use crate::emit::lines::{
    emit_typed_line, emit_value_param_lines, typed_line, uuid_line, uuid_line_text,
    value_param_lines,
};
use crate::pass::{BuildResult, Pass};
use crate::resolve::{sanitized, sanitize_reserved};
use crate::text;
use crate::types::{is_put, Field, Function, Param, ReferencedType, TypeDesc, TypeInfo};

verus! {

/// The name of the base late-bound interface.
pub const BASE_INTERFACE: &'static str = "IDispatch";

/// What every helper returns: the status code, the result value, the
/// exception information and the index of the argument in error.
pub const HELPER_RETURN: &'static str = "    ) -> (HRESULT, VARIANT, EXCEPINFO, UINT) {\n";

/// The local variables of a helper, up to the fields of the argument block.
pub const INVOKE_LOCALS: &'static str =
    "        let mut result: VARIANT = ::core::mem::uninitialized();\n        VariantInit(&mut result);\n\n        let mut exception_info: EXCEPINFO = ::core::mem::zeroed();\n\n        let mut error_arg: UINT = 0;\n\n        let mut disp_params = DISPPARAMS {\n";

/// The end of the argument block and the call of the generic invocation
/// method, up to the member id.
pub const INVOKE_CALL: &'static str =
    "        };\n\n        let hr = ((*self.lpVtbl).parent.Invoke)(\n            self as *const _ as *mut _,\n            /* dispIdMember */ ";

/// The arguments between the member id and the invocation flag: a null
/// interface id and the locale zero.
pub const INVOKE_FIXED: &'static str =
    ",\n            /* riid */ &IID_NULL,\n            /* lcid */ 0,\n            /* wFlags */ ";

/// The arguments behind the invocation flag, and the four values that the
/// helper returns as they are.
pub const INVOKE_OUTPUTS: &'static str =
    ",\n            /* pDispParams */ &mut disp_params,\n            /* pVarResult */ &mut result,\n            /* pExcepInfo */ &mut exception_info,\n            /* puArgErr */ &mut error_arg,\n        );\n\n        (hr, result, exception_info, error_arg)\n    }\n\n";

/// A slot of the argument array, up to its tag.
pub const SLOT_OPEN: &'static str =
    "            { let mut v: VARIANT = ::core::mem::uninitialized(); VariantInit(&mut v); *v.vt_mut() = ";

pub const NULL_POINTER: &'static str = "::core::ptr::null_mut()";

pub const ARGS_POINTER: &'static str = "args.as_mut_ptr()";

/// The size of the virtual function table of the base late-bound
/// interface: three slots of the base object and four of its own, each of
/// the size of a pointer.
pub open spec fn base_vtable_size() -> int {
    7 * (usize::BITS as int / 8)
}

/// The size of the virtual function table of the base late-bound
/// interface.
pub fn base_vtable_bytes() -> (size: usize)
    ensures
        size == base_vtable_size(),
{
    7 * core::mem::size_of::<usize>()
}

/// The invocation flag of an invocation kind.
pub open spec fn dispatch_flag(invkind: u32) -> Option<Seq<char>> {
    if invkind == codes::INVOKE_FUNC {
        Some("DISPATCH_METHOD"@)
    } else if invkind == codes::INVOKE_PROPERTYGET {
        Some("DISPATCH_PROPERTYGET"@)
    } else if invkind == codes::INVOKE_PROPERTYPUT {
        Some("DISPATCH_PROPERTYPUT"@)
    } else if invkind == codes::INVOKE_PROPERTYPUTREF {
        Some("DISPATCH_PROPERTYPUTREF"@)
    } else {
        None
    }
}

/// The invocation flag of an invocation kind.
pub fn dispatch_flag_text(invkind: u32) -> (flag: Option<&'static str>)
    ensures
        match flag {
            Some(flag) => dispatch_flag(invkind) == Some(flag@),
            None => dispatch_flag(invkind) is None,
        },
{
    if invkind == codes::INVOKE_FUNC {
        Some("DISPATCH_METHOD")
    } else if invkind == codes::INVOKE_PROPERTYGET {
        Some("DISPATCH_PROPERTYGET")
    } else if invkind == codes::INVOKE_PROPERTYPUT {
        Some("DISPATCH_PROPERTYPUT")
    } else if invkind == codes::INVOKE_PROPERTYPUTREF {
        Some("DISPATCH_PROPERTYPUTREF")
    } else {
        None
    }
}

/// The body of a helper from its local variables on: the argument block
/// with the given fields, and the call of the generic invocation method of
/// the base late-bound interface with the member id, a null interface id,
/// the locale zero, the invocation flag, the argument block and the three
/// output slots. The status code and the outputs are returned as they are.
pub open spec fn invoke_text(
    rgvarg: Seq<char>,
    named_args: Seq<char>,
    c_args: int,
    c_named_args: int,
    memid: i32,
    flag: Seq<char>,
) -> Seq<char> {
    INVOKE_LOCALS@ + "            rgvarg: "@ + rgvarg + ",\n"@ + "            rgdispidNamedArgs: "@
        + named_args + ",\n"@ + "            cArgs: "@ + text::decimal(c_args) + ",\n"@
        + "            cNamedArgs: "@ + text::decimal(c_named_args) + ",\n"@ + INVOKE_CALL@
        + text::decimal(memid as int) + INVOKE_FIXED@ + flag + INVOKE_OUTPUTS@
}

/// The body of a helper from its local variables on.
pub fn invoke_body(
    rgvarg: &str,
    named_args: &str,
    c_args: i16,
    c_named_args: i16,
    memid: i32,
    flag: &str,
) -> (body: String)
    ensures
        body@ == invoke_text(
            rgvarg@,
            named_args@,
            c_args as int,
            c_named_args as int,
            memid,
            flag@,
        ),
{
    let mut body = String::from_str(INVOKE_LOCALS);
    body.append("            rgvarg: ");
    body.append(rgvarg);
    body.append(",\n");
    body.append("            rgdispidNamedArgs: ");
    body.append(named_args);
    body.append(",\n");
    body.append("            cArgs: ");
    text::push_decimal(&mut body, c_args as i64);
    body.append(",\n");
    body.append("            cNamedArgs: ");
    text::push_decimal(&mut body, c_named_args as i64);
    body.append(",\n");
    body.append(INVOKE_CALL);
    text::push_decimal(&mut body, memid as i64);
    body.append(INVOKE_FIXED);
    body.append(flag);
    body.append(INVOKE_OUTPUTS);
    body
}

/// The state after one slot of the argument array: a tagged value with the
/// tag and the storage that the type of the argument asks for.
pub open spec fn argument_line(st: Pass, type_: TypeDesc, param_name: Seq<char>) -> Pass {
    match argument_slot(type_, param_name) {
        Ok((vt, mutator)) => st.write(SLOT_OPEN@).write(text::decimal(vt as int)).write(
            "; *v"@,
        ).write(mutator).write("; v },\n"@),
        Err(defect) => st.defect(defect),
    }
}

/// Writes one slot of the argument array.
pub fn emit_argument_line(
    type_: &TypeDesc,
    param_name: &str,
    out: &mut String,
    build_result: &BuildResult,
) -> (r: Result<(), Halt>)
    ensures
        Pass::at(final(out)@, build_result@, r) == argument_line(
            Pass::running(old(out)@, build_result@),
            *type_,
            param_name@,
        ),
{
    let (vt, mutator) = try_vartype_mutator(type_, param_name)?;
    out.append(SLOT_OPEN);
    text::push_decimal(out, vt as i64);
    out.append("; *v");
    out.append(mutator.as_str());
    out.append("; v },\n");
    Ok(())
}

/// The number of parameters among the first `n` that are not marked as the
/// return value.
pub open spec fn count_value_params(params: Seq<Param>, n: int) -> int
    decreases n,
{
    if n <= 0 {
        0
    } else {
        count_value_params(params, n - 1) + if params[n - 1].desc.spec_is_retval() {
            0int
        } else {
            1int
        }
    }
}

/// The state after the slots of the first `n` parameters that are not
/// marked as the return value, the last parameter first.
pub open spec fn argument_lines(st: Pass, params: Seq<Param>, n: int) -> Pass
    decreases n,
{
    if n <= 0 || n > params.len() {
        st
    } else {
        let next = if params[n - 1].desc.spec_is_retval() {
            st
        } else {
            argument_line(st, params[n - 1].desc.tdesc, sanitized(params[n - 1].name@))
        };
        if next.halt is Some {
            next
        } else {
            argument_lines(next, params, n - 1)
        }
    }
}

/// The state after the argument array of a helper: one slot for each
/// parameter that is not marked as the return value, in reverse order; no
/// array where there is no such parameter.
pub open spec fn dispatch_arguments(st: Pass, params: Seq<Param>) -> Pass {
    if count_value_params(params, params.len() as int) == 0 {
        st
    } else {
        argument_lines(
            st.write("        let mut args: [VARIANT; "@).write(
                text::decimal(count_value_params(params, params.len() as int)),
            ).write("] = [\n"@),
            params,
            params.len() as int,
        ).write("        ];\n"@).write("\n"@)
    }
}

fn emit_dispatch_arguments(params: &Vec<Param>, out: &mut String, build_result: &BuildResult) -> (r:
    Result<(), Halt>)
    ensures
        Pass::at(final(out)@, build_result@, r) == dispatch_arguments(
            Pass::running(old(out)@, build_result@),
            params@,
        ),
{
    let mut count: usize = 0;
    let mut i: usize = 0;
    while i < params.len()
        invariant
            i <= params.len(),
            count <= i,
            count == count_value_params(params@, i as int),
        decreases params.len() - i,
    {
        if !params[i].desc.is_retval() {
            count += 1;
        }
        i += 1;
    }
    if count == 0 {
        return Ok(());
    }
    out.append("        let mut args: [VARIANT; ");
    text::push_decimal_digits(out, count as u64);
    out.append("] = [\n");
    let mut n: usize = params.len();
    while n > 0
        invariant
            n <= params.len(),
            count_value_params(params@, params@.len() as int) != 0,
            dispatch_arguments(Pass::running(old(out)@, build_result@), params@) == argument_lines(
                Pass::running(out@, build_result@),
                params@,
                n as int,
            ).write("        ];\n"@).write("\n"@),
        decreases n,
    {
        let param = &params[n - 1];
        if !param.desc.is_retval() {
            let name = sanitize_reserved(param.name());
            emit_argument_line(&param.desc.tdesc, name.as_str(), out, build_result)?;
        }
        n -= 1;
    }
    out.append("        ];\n");
    out.append("\n");
    Ok(())
}

/// The state after the helper of one function: its signature with the
/// parameters that are not marked as the return value, the argument array,
/// and the invocation. A property-put or property-putref names the reserved
/// member id of the value that is put as its one named argument.
pub open spec fn dispatch_stub(
    st: Pass,
    prefix: Seq<char>,
    flag: Seq<char>,
    function: Function,
) -> Pass {
    let signed = value_param_lines(
        st.write("    pub unsafe fn "@).write(prefix).write(function.name@).write("(\n"@).write(
            "        &self,\n"@,
        ),
        "        "@,
        function.params@,
        0,
    ).write(HELPER_RETURN@);
    let filled = dispatch_arguments(signed, function.params@);
    if is_put(function.desc.invkind) {
        filled.write("        let disp_id_put = DISPID_PROPERTYPUT;\n\n"@).write(
            invoke_text(
                if function.desc.c_params > 0 {
                    ARGS_POINTER@
                } else {
                    NULL_POINTER@
                },
                "&disp_id_put"@,
                function.desc.c_params as int,
                1,
                function.desc.memid,
                flag,
            ),
        )
    } else {
        filled.write(
            invoke_text(
                if function.desc.c_params > 0 {
                    ARGS_POINTER@
                } else {
                    NULL_POINTER@
                },
                NULL_POINTER@,
                function.desc.c_params as int,
                0,
                function.desc.memid,
                flag,
            ),
        )
    }
}

fn emit_dispatch_stub(
    prefix: &str,
    flag: &str,
    function: &Function,
    out: &mut String,
    build_result: &mut BuildResult,
) -> (r: Result<(), Halt>)
    ensures
        Pass::at(final(out)@, final(build_result)@, r) == dispatch_stub(
            Pass::running(old(out)@, old(build_result)@),
            prefix@,
            flag@,
            *function,
        ),
{
    let function_desc = function.desc();
    out.append("    pub unsafe fn ");
    out.append(prefix);
    out.append(function.name().as_str());
    out.append("(\n");
    out.append("        &self,\n");
    emit_value_param_lines("        ", function.params(), out, build_result)?;
    out.append(HELPER_RETURN);
    emit_dispatch_arguments(function.params(), out, build_result)?;
    let rgvarg = if function_desc.c_params > 0 {
        ARGS_POINTER
    } else {
        NULL_POINTER
    };
    if function_desc.invkind == codes::INVOKE_PROPERTYPUT || function_desc.invkind
        == codes::INVOKE_PROPERTYPUTREF {
        out.append("        let disp_id_put = DISPID_PROPERTYPUT;\n\n");
        let body = invoke_body(
            rgvarg,
            "&disp_id_put",
            function_desc.c_params,
            1,
            function_desc.memid,
            flag,
        );
        out.append(body.as_str());
    } else {
        let body = invoke_body(
            rgvarg,
            NULL_POINTER,
            function_desc.c_params,
            0,
            function_desc.memid,
            flag,
        );
        out.append(body.as_str());
    }
    Ok(())
}

/// Whether a dispatch type lists functions that it inherits: whether one of
/// its functions has a slot above the start of the virtual function table.
/// The functions are read in order up to the first such one, and each of
/// them must be there.
pub open spec fn inherited_scan(functions: Seq<Result<Function, Error>>, i: int) -> Result<
    bool,
    Defect,
>
    decreases functions.len() - i,
{
    if i < 0 || i >= functions.len() {
        Ok(false)
    } else {
        match functions[i] {
            Ok(function) => if function.desc.o_vft > 0 {
                Ok(true)
            } else {
                inherited_scan(functions, i + 1)
            },
            Err(_) => Err(Defect::Unavailable),
        }
    }
}

/// Whether a dispatch type lists functions that it inherits.
pub fn has_inherited_functions(functions: &Vec<Result<Function, Error>>) -> (r: Result<bool, Halt>)
    ensures
        match inherited_scan(functions@, 0) {
            Ok(found) => r == Ok::<bool, Halt>(found),
            Err(defect) => r == Err::<bool, Halt>(Halt::Defect(defect)),
        },
{
    let mut i: usize = 0;
    while i < functions.len()
        invariant
            i <= functions.len(),
            inherited_scan(functions@, 0) == inherited_scan(functions@, i as int),
        decreases functions.len() - i,
    {
        match &functions[i] {
            Ok(function) => {
                if function.desc.o_vft > 0 {
                    return Ok(true);
                }
            },
            Err(_) => {
                return Err(Halt::Defect(Defect::Unavailable));
            },
        }
        i += 1;
    }
    Ok(false)
}

/// Whether a function of a dispatch type is one of those that the base
/// late-bound interface declares: the type lists inherited functions and
/// the function's slot lies in the virtual function table of the base.
pub open spec fn is_base_function(function: Function, has_inherited: bool) -> bool {
    has_inherited && 0 <= function.desc.o_vft < base_vtable_size()
}

/// The state after one function of a dispatch type, which must be a
/// dispatch function. A function of the base late-bound interface is passed
/// over.
pub open spec fn dispatch_function(
    st: Pass,
    function: Result<Function, Error>,
    has_inherited: bool,
) -> Pass {
    match function {
        Ok(function) => if function.desc.funckind != codes::FUNC_DISPATCH {
            st.defect(Defect::FunctionKind)
        } else if is_base_function(function, has_inherited) {
            st
        } else {
            match (invoke_prefix(function.desc.invkind), dispatch_flag(function.desc.invkind)) {
                (Some(prefix), Some(flag)) => dispatch_stub(st, prefix, flag, function),
                _ => st.defect(Defect::InvokeKind),
            }
        },
        Err(e) => st.fail(e),
    }
}

/// The state after the functions from `i` on, in order.
pub open spec fn dispatch_functions(
    st: Pass,
    functions: Seq<Result<Function, Error>>,
    has_inherited: bool,
    i: int,
) -> Pass
    decreases functions.len() - i,
{
    if i < 0 || i >= functions.len() {
        st
    } else {
        let next = dispatch_function(st, functions[i], has_inherited);
        if next.halt is Some {
            next
        } else {
            dispatch_functions(next, functions, has_inherited, i + 1)
        }
    }
}

fn emit_dispatch_function(
    function: &Result<Function, Error>,
    has_inherited: bool,
    out: &mut String,
    build_result: &mut BuildResult,
) -> (r: Result<(), Halt>)
    ensures
        Pass::at(final(out)@, final(build_result)@, r) == dispatch_function(
            Pass::running(old(out)@, old(build_result)@),
            *function,
            has_inherited,
        ),
{
    match function {
        Ok(function) => {
            let function_desc = function.desc();
            if function_desc.funckind != codes::FUNC_DISPATCH {
                return Err(Halt::Defect(Defect::FunctionKind));
            }
            if has_inherited && function_desc.o_vft >= 0 && (function_desc.o_vft as usize)
                < base_vtable_bytes() {
                return Ok(());
            }
            match (
                invoke_prefix_text(function_desc.invkind),
                dispatch_flag_text(function_desc.invkind),
            ) {
                (Some(prefix), Some(flag)) => emit_dispatch_stub(
                    prefix,
                    flag,
                    function,
                    out,
                    build_result,
                ),
                _ => Err(Halt::Defect(Defect::InvokeKind)),
            }
        },
        Err(e) => Err(Halt::Failed(*e)),
    }
}

/// The state after the two helpers of one property: one that gets it,
/// without arguments, and one that puts it, with the value as its one
/// argument.
pub open spec fn dispatch_property(st: Pass, property: Result<Field, Error>) -> Pass {
    match property {
        Ok(property) => {
            let put_signed = typed_line(
                st.write("    pub unsafe fn get_"@).write(sanitized(property.name@)).write(
                    "(\n"@,
                ).write(HELPER_RETURN@).write(
                    invoke_text(
                        NULL_POINTER@,
                        NULL_POINTER@,
                        0,
                        0,
                        property.desc.memid,
                        "DISPATCH_PROPERTYGET"@,
                    ),
                ).write("    pub unsafe fn put_"@).write(sanitized(property.name@)).write("(\n"@),
                "        value: "@,
                property.desc.elemdesc_var.tdesc,
                codes::PARAMFLAG_FIN,
                ",\n"@,
            ).write(HELPER_RETURN@).write("        let mut args: [VARIANT; 1] = [\n"@);
            argument_line(put_signed, property.desc.elemdesc_var.tdesc, "value"@).write(
                "        ];\n"@,
            ).write("\n"@).write(
                invoke_text(
                    ARGS_POINTER@,
                    NULL_POINTER@,
                    1,
                    0,
                    property.desc.memid,
                    "DISPATCH_PROPERTYPUT"@,
                ),
            )
        },
        Err(e) => st.fail(e),
    }
}

/// The state after the properties from `i` on, in order.
pub open spec fn dispatch_properties(
    st: Pass,
    properties: Seq<Result<Field, Error>>,
    i: int,
) -> Pass
    decreases properties.len() - i,
{
    if i < 0 || i >= properties.len() {
        st
    } else {
        let next = dispatch_property(st, properties[i]);
        if next.halt is Some {
            next
        } else {
            dispatch_properties(next, properties, i + 1)
        }
    }
}

fn emit_dispatch_property(
    property: &Result<Field, Error>,
    out: &mut String,
    build_result: &mut BuildResult,
) -> (r: Result<(), Halt>)
    ensures
        Pass::at(final(out)@, final(build_result)@, r) == dispatch_property(
            Pass::running(old(out)@, old(build_result)@),
            *property,
        ),
{
    match property {
        Ok(property) => {
            let property_name = sanitize_reserved(property.name());
            out.append("    pub unsafe fn get_");
            out.append(property_name.as_str());
            out.append("(\n");
            out.append(HELPER_RETURN);
            let get_body = invoke_body(
                NULL_POINTER,
                NULL_POINTER,
                0,
                0,
                property.member_id(),
                "DISPATCH_PROPERTYGET",
            );
            out.append(get_body.as_str());
            out.append("    pub unsafe fn put_");
            out.append(property_name.as_str());
            out.append("(\n");
            emit_typed_line(
                "        value: ",
                property.type_(),
                codes::PARAMFLAG_FIN,
                ",\n",
                out,
                build_result,
            )?;
            out.append(HELPER_RETURN);
            out.append("        let mut args: [VARIANT; 1] = [\n");
            emit_argument_line(property.type_(), "value", out, build_result)?;
            out.append("        ];\n");
            out.append("\n");
            let put_body = invoke_body(
                ARGS_POINTER,
                NULL_POINTER,
                1,
                0,
                property.member_id(),
                "DISPATCH_PROPERTYPUT",
            );
            out.append(put_body.as_str());
            Ok(())
        },
        Err(e) => Err(Halt::Failed(*e)),
    }
}

/// Whether the parents of a dispatch type are what they must be: exactly
/// one, the base late-bound interface with a virtual function table of its
/// fixed size.
pub open spec fn dispatch_parent_fits(parents: Seq<Result<ReferencedType, Error>>) -> bool {
    &&& parents.len() == 1
    &&& parents[0] matches Ok(parent)
    &&& parent.name@ == BASE_INTERFACE@
    &&& parent.size_vft == base_vtable_size()
}

/// Whether the parents of a dispatch type are what they must be.
pub fn check_dispatch_parent(parents: &Vec<Result<ReferencedType, Error>>) -> (fits: bool)
    ensures
        fits == dispatch_parent_fits(parents@),
{
    if parents.len() != 1 {
        return false;
    }
    match &parents[0] {
        Ok(parent) => text::same_text(parent.name.as_str(), BASE_INTERFACE) && (
        parent.size_vft as usize) == base_vtable_bytes(),
        Err(_) => false,
    }
}

/// The state after the helpers of a dispatch type: those of the functions,
/// then those of the properties.
pub open spec fn dispatch_members(st: Pass, type_info: TypeInfo) -> Pass {
    match inherited_scan(type_info.functions@, 0) {
        Ok(has_inherited) => dispatch_properties(
            dispatch_functions(st, type_info.functions@, has_inherited, 0),
            type_info.fields@,
            0,
        ),
        Err(defect) => st.defect(defect),
    }
}

/// The state after the declarations of a dispatch type: a vtable interface
/// that extends the base late-bound interface with no new slot, then the
/// helpers of its members.
pub open spec fn dispatch_block(st: Pass, type_info: TypeInfo) -> Pass {
    let declared = st.write(uuid_line(type_info.type_attr.guid)).write("interface "@).write(
        type_info.name@,
    ).write("("@).write(type_info.name@).write("Vtbl): IDispatch(IDispatchVtbl) {\n"@).write(
        "}}\n"@,
    );
    if !dispatch_parent_fits(type_info.parents@) {
        declared.defect(Defect::DispatchParent)
    } else {
        dispatch_members(
            declared.write("\n"@).write("impl "@).write(type_info.name@).write(" {\n"@),
            type_info,
        ).write("}\n"@).write("\n"@)
    }
}

/// Writes the helpers of a dispatch type.
pub fn emit_dispatch_members(
    type_info: &TypeInfo,
    out: &mut String,
    build_result: &mut BuildResult,
) -> (r: Result<(), Halt>)
    ensures
        Pass::at(final(out)@, final(build_result)@, r) == dispatch_members(
            Pass::running(old(out)@, old(build_result)@),
            *type_info,
        ),
{
    let functions = type_info.get_functions();
    let has_inherited = has_inherited_functions(functions)?;
    let mut i: usize = 0;
    while i < functions.len()
        invariant
            i <= functions.len(),
            functions@ == type_info.functions@,
            inherited_scan(type_info.functions@, 0) == Ok::<bool, Defect>(has_inherited),
            dispatch_members(Pass::running(old(out)@, old(build_result)@), *type_info)
                == dispatch_properties(
                dispatch_functions(
                    Pass::running(out@, build_result@),
                    functions@,
                    has_inherited,
                    i as int,
                ),
                type_info.fields@,
                0,
            ),
        decreases functions.len() - i,
    {
        emit_dispatch_function(&functions[i], has_inherited, out, build_result)?;
        i += 1;
    }
    let properties = type_info.get_fields();
    let mut j: usize = 0;
    while j < properties.len()
        invariant
            j <= properties.len(),
            properties@ == type_info.fields@,
            dispatch_members(Pass::running(old(out)@, old(build_result)@), *type_info)
                == dispatch_properties(Pass::running(out@, build_result@), properties@, j as int),
        decreases properties.len() - j,
    {
        emit_dispatch_property(&properties[j], out, build_result)?;
        j += 1;
    }
    Ok(())
}

/// Writes the declarations of a dispatch type.
pub fn emit_dispatch(type_info: &TypeInfo, out: &mut String, build_result: &mut BuildResult) -> (r:
    Result<(), Halt>)
    ensures
        Pass::at(final(out)@, final(build_result)@, r) == dispatch_block(
            Pass::running(old(out)@, old(build_result)@),
            *type_info,
        ),
{
    let identity = uuid_line_text(&type_info.attributes().guid);
    out.append(identity.as_str());
    out.append("interface ");
    out.append(type_info.name().as_str());
    out.append("(");
    out.append(type_info.name().as_str());
    out.append("Vtbl): IDispatch(IDispatchVtbl) {\n");
    out.append("}}\n");
    if !check_dispatch_parent(type_info.get_parents()) {
        return Err(Halt::Defect(Defect::DispatchParent));
    }
    out.append("\n");
    out.append("impl ");
    out.append(type_info.name().as_str());
    out.append(" {\n");
    emit_dispatch_members(type_info, out, build_result)?;
    out.append("}\n");
    out.append("\n");
    Ok(())
}

} // verus!
