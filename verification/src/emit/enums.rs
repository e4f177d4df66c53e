//! Enumerations.

use vstd::prelude::*;
use vstd::string::StringExecFns;
use crate::codes;
use crate::error::{Defect, Error, Halt};
use crate::pass::{BuildResult, Pass};
use crate::resolve::{sanitized, sanitize_reserved};
use crate::text;
use crate::types::{TypeInfo, Var, Variant};

verus! {

/// The value of an enumerator as it is written: a value that is not
/// negative in decimal, a negative one as the eight hexadecimal digits of
/// its unsigned 32-bit form behind `0x`.
pub open spec fn enum_value_text(value: i32) -> Seq<char> {
    if value >= 0 {
        text::decimal(value as int)
    } else {
        "0x"@ + text::hex_digits(text::unsigned32(value), 8)
    }
}

/// The value of an enumerator as it is written.
pub fn enum_value_to_string(value: i32) -> (written: String)
    ensures
        written@ == enum_value_text(value),
{
    if value >= 0 {
        let mut written = String::new();
        text::push_decimal(&mut written, value as i64);
        assert(written@ =~= enum_value_text(value));
        written
    } else {
        let mut written = String::from_str("0x");
        text::push_hex32(&mut written, value);
        written
    }
}

/// The state after the value of an enumerator, which must be tagged as a
/// 4-byte integer.
pub open spec fn enum_value(st: Pass, value: Variant) -> Pass {
    if value.vt != codes::VT_I4 {
        st.defect(Defect::EnumValueTag)
    } else {
        st.write(enum_value_text(value.l_val)).write(",\n"@)
    }
}

/// The state after one enumerator: its sanitized name, then its value.
pub open spec fn enum_member(st: Pass, member: Result<Var, Error>) -> Pass {
    match member {
        Ok(var) => enum_value(
            st.write("    "@).write(sanitized(var.name@)).write(" = "@),
            var.desc.value,
        ),
        Err(e) => st.fail(e),
    }
}

/// The state after the enumerators from `i` on, in order.
pub open spec fn enum_members(st: Pass, members: Seq<Result<Var, Error>>, i: int) -> Pass
    decreases members.len() - i,
{
    if i < 0 || i >= members.len() {
        st
    } else {
        let next = enum_member(st, members[i]);
        if next.halt is Some {
            next
        } else {
            enum_members(next, members, i + 1)
        }
    }
}

/// The state after the block of named constants of an enumeration.
pub open spec fn enum_block(st: Pass, type_info: TypeInfo) -> Pass {
    enum_members(
        st.write("ENUM!{enum "@).write(type_info.name@).write(" {\n"@),
        type_info.vars@,
        0,
    ).write("}}\n"@).write("\n"@)
}

fn emit_enum_member(
    member: &Result<Var, Error>,
    out: &mut String,
    build_result: &BuildResult,
) -> (r: Result<(), Halt>)
    ensures
        Pass::at(final(out)@, build_result@, r) == enum_member(
            Pass::running(old(out)@, build_result@),
            *member,
        ),
{
    match member {
        Ok(var) => {
            let name = sanitize_reserved(var.name());
            out.append("    ");
            out.append(name.as_str());
            out.append(" = ");
            let value = var.value();
            if value.vt != codes::VT_I4 {
                return Err(Halt::Defect(Defect::EnumValueTag));
            }
            let written = enum_value_to_string(value.l_val);
            out.append(written.as_str());
            out.append(",\n");
            Ok(())
        },
        Err(e) => Err(Halt::Failed(*e)),
    }
}

/// Writes the block of named constants of an enumeration.
pub fn emit_enum(type_info: &TypeInfo, out: &mut String, build_result: &BuildResult) -> (r: Result<
    (),
    Halt,
>)
    ensures
        Pass::at(final(out)@, build_result@, r) == enum_block(
            Pass::running(old(out)@, build_result@),
            *type_info,
        ),
{
    out.append("ENUM!{enum ");
    out.append(type_info.name().as_str());
    out.append(" {\n");
    let members = type_info.get_vars();
    let mut i: usize = 0;
    while i < members.len()
        invariant
            i <= members.len(),
            members@ == type_info.vars@,
            enum_block(Pass::running(old(out)@, build_result@), *type_info) == enum_members(
                Pass::running(out@, build_result@),
                members@,
                i as int,
            ).write("}}\n"@).write("\n"@),
        decreases members.len() - i,
    {
        emit_enum_member(&members[i], out, build_result)?;
        i += 1;
    }
    out.append("}}\n");
    out.append("\n");
    Ok(())
}

} // verus!
