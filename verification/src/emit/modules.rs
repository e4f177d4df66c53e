//! Modules.

use vstd::prelude::*;
use vstd::string::StringExecFns;
use crate::codes;
use crate::error::{Defect, Error, Halt};
use crate::emit::lines::{emit_param_lines, emit_typed_line, param_lines, typed_line};
use crate::pass::{BuildResult, Pass};
use crate::types::{Function, TypeInfo};

verus! {

/// The state after one function of a module, which must be a static
/// function: a flat external signature with the name, the parameters and
/// the return type, where a pointer is a mutable one.
pub open spec fn module_function(st: Pass, function: Result<Function, Error>) -> Pass {
    match function {
        Ok(function) => if function.desc.funckind != codes::FUNC_STATIC {
            st.defect(Defect::FunctionKind)
        } else {
            typed_line(
                param_lines(
                    st.write("extern \"system\" pub fn "@).write(function.name@).write("(\n"@),
                    "    "@,
                    function.params@,
                    0,
                ),
                ") -> "@,
                function.desc.elemdesc_func.tdesc,
                codes::PARAMFLAG_FOUT,
                ",\n"@,
            ).write("\n"@)
        },
        Err(e) => st.fail(e),
    }
}

/// The state after the functions from `i` on, in order.
pub open spec fn module_functions(st: Pass, functions: Seq<Result<Function, Error>>, i: int) -> Pass
    decreases functions.len() - i,
{
    if i < 0 || i >= functions.len() {
        st
    } else {
        let next = module_function(st, functions[i]);
        if next.halt is Some {
            next
        } else {
            module_functions(next, functions, i + 1)
        }
    }
}

/// The state after the declarations of a module: its functions in order.
pub open spec fn module_block(st: Pass, type_info: TypeInfo) -> Pass {
    module_functions(st, type_info.functions@, 0).write("\n"@)
}

fn emit_module_function(
    function: &Result<Function, Error>,
    out: &mut String,
    build_result: &mut BuildResult,
) -> (r: Result<(), Halt>)
    ensures
        Pass::at(final(out)@, final(build_result)@, r) == module_function(
            Pass::running(old(out)@, old(build_result)@),
            *function,
        ),
{
    match function {
        Ok(function) => {
            let function_desc = function.desc();
            if function_desc.funckind != codes::FUNC_STATIC {
                return Err(Halt::Defect(Defect::FunctionKind));
            }
            out.append("extern \"system\" pub fn ");
            out.append(function.name().as_str());
            out.append("(\n");
            emit_param_lines("    ", function.params(), out, build_result)?;
            emit_typed_line(
                ") -> ",
                &function_desc.elemdesc_func.tdesc,
                codes::PARAMFLAG_FOUT,
                ",\n",
                out,
                build_result,
            )?;
            out.append("\n");
            Ok(())
        },
        Err(e) => Err(Halt::Failed(*e)),
    }
}

/// Writes the declarations of a module.
pub fn emit_module(type_info: &TypeInfo, out: &mut String, build_result: &mut BuildResult) -> (r:
    Result<(), Halt>)
    ensures
        Pass::at(final(out)@, final(build_result)@, r) == module_block(
            Pass::running(old(out)@, old(build_result)@),
            *type_info,
        ),
{
    let functions = type_info.get_functions();
    let mut i: usize = 0;
    while i < functions.len()
        invariant
            i <= functions.len(),
            functions@ == type_info.functions@,
            module_block(Pass::running(old(out)@, old(build_result)@), *type_info)
                == module_functions(
                Pass::running(out@, build_result@),
                functions@,
                i as int,
            ).write("\n"@),
        decreases functions.len() - i,
    {
        emit_module_function(&functions[i], out, build_result)?;
        i += 1;
    }
    out.append("\n");
    Ok(())
}

} // verus!
