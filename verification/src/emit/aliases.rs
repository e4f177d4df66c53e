//! Aliases.

use vstd::prelude::*;
use vstd::string::StringExecFns;
use crate::codes;
use crate::error::Halt;
use crate::pass::{BuildResult, Pass};
use crate::resolve::{resolved_text, try_type_to_string};
use crate::types::TypeInfo;

verus! {

/// The state after the declaration of an alias: a direct alias of the type
/// that it stands for, where a pointer is a mutable one.
pub open spec fn alias_block(st: Pass, type_info: TypeInfo) -> Pass {
    st.resolve(type_info.type_attr.tdesc_alias, codes::PARAMFLAG_FOUT).write("pub type "@).write(
        type_info.name@,
    ).write(" = "@).write(
        resolved_text(type_info.type_attr.tdesc_alias, codes::PARAMFLAG_FOUT),
    ).write(";\n"@).write("\n"@)
}

/// Writes the declaration of an alias.
pub fn emit_alias(type_info: &TypeInfo, out: &mut String, build_result: &mut BuildResult) -> (r:
    Result<(), Halt>)
    ensures
        Pass::at(final(out)@, final(build_result)@, r) == alias_block(
            Pass::running(old(out)@, old(build_result)@),
            *type_info,
        ),
{
    let aliased = try_type_to_string(
        &type_info.attributes().tdesc_alias,
        codes::PARAMFLAG_FOUT,
        build_result,
    )?;
    out.append("pub type ");
    out.append(type_info.name().as_str());
    out.append(" = ");
    out.append(aliased.as_str());
    out.append(";\n");
    out.append("\n");
    Ok(())
}

} // verus!
