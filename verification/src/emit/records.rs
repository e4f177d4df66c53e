//! Records.

use vstd::prelude::*;
use vstd::string::StringExecFns;
use crate::codes;
use crate::error::{Error, Halt};
use crate::emit::lines::{emit_member_line, member_line};
use crate::pass::{BuildResult, Pass};
use crate::resolve::{sanitized, sanitize_reserved};
use crate::types::{Field, TypeInfo};

verus! {

/// The state after one field of a record: its sanitized name and its type,
/// where a pointer is a mutable one.
pub open spec fn record_field(st: Pass, field: Result<Field, Error>) -> Pass {
    match field {
        Ok(field) => member_line(
            st,
            "    "@,
            sanitized(field.name@),
            field.desc.elemdesc_var.tdesc,
            codes::PARAMFLAG_FOUT,
        ),
        Err(e) => st.fail(e),
    }
}

/// The state after the fields from `i` on, in order.
pub open spec fn record_fields(st: Pass, fields: Seq<Result<Field, Error>>, i: int) -> Pass
    decreases fields.len() - i,
{
    if i < 0 || i >= fields.len() {
        st
    } else {
        let next = record_field(st, fields[i]);
        if next.halt is Some {
            next
        } else {
            record_fields(next, fields, i + 1)
        }
    }
}

/// The state after the block of a record: its fields in order.
pub open spec fn record_block(st: Pass, type_info: TypeInfo) -> Pass {
    record_fields(
        st.write("STRUCT!{struct "@).write(type_info.name@).write(" {\n"@),
        type_info.fields@,
        0,
    ).write("}}\n"@).write("\n"@)
}

fn emit_record_field(
    field: &Result<Field, Error>,
    out: &mut String,
    build_result: &mut BuildResult,
) -> (r: Result<(), Halt>)
    ensures
        Pass::at(final(out)@, final(build_result)@, r) == record_field(
            Pass::running(old(out)@, old(build_result)@),
            *field,
        ),
{
    match field {
        Ok(field) => {
            let name = sanitize_reserved(field.name());
            emit_member_line(
                "    ",
                name.as_str(),
                field.type_(),
                codes::PARAMFLAG_FOUT,
                out,
                build_result,
            )
        },
        Err(e) => Err(Halt::Failed(*e)),
    }
}

/// Writes the block of a record.
pub fn emit_record(type_info: &TypeInfo, out: &mut String, build_result: &mut BuildResult) -> (r:
    Result<(), Halt>)
    ensures
        Pass::at(final(out)@, final(build_result)@, r) == record_block(
            Pass::running(old(out)@, old(build_result)@),
            *type_info,
        ),
{
    out.append("STRUCT!{struct ");
    out.append(type_info.name().as_str());
    out.append(" {\n");
    let fields = type_info.get_fields();
    let mut i: usize = 0;
    while i < fields.len()
        invariant
            i <= fields.len(),
            fields@ == type_info.fields@,
            record_block(Pass::running(old(out)@, old(build_result)@), *type_info)
                == record_fields(Pass::running(out@, build_result@), fields@, i as int).write(
                "}}\n"@,
            ).write("\n"@),
        decreases fields.len() - i,
    {
        emit_record_field(&fields[i], out, build_result)?;
        i += 1;
    }
    out.append("}}\n");
    out.append("\n");
    Ok(())
}

} // verus!
