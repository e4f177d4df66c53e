//! Lines that several kinds of declarations share.

use vstd::prelude::*;
use vstd::string::StringExecFns;
use crate::error::Halt;
use crate::pass::{BuildResult, Pass};
use crate::resolve::{resolved_text, sanitized, sanitize_reserved, try_type_to_string};
use crate::text;
use crate::types::{Guid, Param, TypeDesc};

verus! {

/// The line that gives the identifier of an interface or a class.
pub open spec fn uuid_line(guid: Guid) -> Seq<char> {
    "RIDL!{#[uuid(0x"@ + text::hex_digits(guid.data1 as nat, 8) + ", 0x"@ + text::hex_digits(
        guid.data2 as nat,
        4,
    ) + ", 0x"@ + text::hex_digits(guid.data3 as nat, 4) + ", 0x"@ + text::hex_digits(
        guid.data4@[0] as nat,
        2,
    ) + ", 0x"@ + text::hex_digits(guid.data4@[1] as nat, 2) + ", 0x"@ + text::hex_digits(
        guid.data4@[2] as nat,
        2,
    ) + ", 0x"@ + text::hex_digits(guid.data4@[3] as nat, 2) + ", 0x"@ + text::hex_digits(
        guid.data4@[4] as nat,
        2,
    ) + ", 0x"@ + text::hex_digits(guid.data4@[5] as nat, 2) + ", 0x"@ + text::hex_digits(
        guid.data4@[6] as nat,
        2,
    ) + ", 0x"@ + text::hex_digits(guid.data4@[7] as nat, 2) + ")]\n"@
}

/// The line that gives the identifier of an interface or a class.
pub fn uuid_line_text(guid: &Guid) -> (line: String)
    ensures
        line@ == uuid_line(*guid),
{
    let mut line = String::from_str("RIDL!{#[uuid(0x");
    text::push_hex_digits(&mut line, guid.data1, 8);
    line.append(", 0x");
    text::push_hex_digits(&mut line, guid.data2 as u32, 4);
    line.append(", 0x");
    text::push_hex_digits(&mut line, guid.data3 as u32, 4);
    line.append(", 0x");
    text::push_hex_digits(&mut line, guid.data4[0] as u32, 2);
    line.append(", 0x");
    text::push_hex_digits(&mut line, guid.data4[1] as u32, 2);
    line.append(", 0x");
    text::push_hex_digits(&mut line, guid.data4[2] as u32, 2);
    line.append(", 0x");
    text::push_hex_digits(&mut line, guid.data4[3] as u32, 2);
    line.append(", 0x");
    text::push_hex_digits(&mut line, guid.data4[4] as u32, 2);
    line.append(", 0x");
    text::push_hex_digits(&mut line, guid.data4[5] as u32, 2);
    line.append(", 0x");
    text::push_hex_digits(&mut line, guid.data4[6] as u32, 2);
    line.append(", 0x");
    text::push_hex_digits(&mut line, guid.data4[7] as u32, 2);
    line.append(")]\n");
    line
}

/// The state after a line that holds a type expression: the type is
/// resolved first, and nothing of the line is written where that stops the
/// pass.
pub open spec fn typed_line(
    st: Pass,
    before: Seq<char>,
    type_: TypeDesc,
    param_flags: u32,
    after: Seq<char>,
) -> Pass {
    st.resolve(type_, param_flags).write(before).write(resolved_text(type_, param_flags)).write(
        after,
    )
}

/// Writes a line that holds a type expression.
pub fn emit_typed_line(
    before: &str,
    type_: &TypeDesc,
    param_flags: u32,
    after: &str,
    out: &mut String,
    build_result: &mut BuildResult,
) -> (r: Result<(), Halt>)
    ensures
        Pass::at(final(out)@, final(build_result)@, r) == typed_line(
            Pass::running(old(out)@, old(build_result)@),
            before@,
            *type_,
            param_flags,
            after@,
        ),
{
    let type_text = try_type_to_string(type_, param_flags, build_result)?;
    out.append(before);
    out.append(type_text.as_str());
    out.append(after);
    Ok(())
}

/// The state after the line of a member that is declared with its type: the
/// indentation, the name, a colon, the type expression and a comma.
pub open spec fn member_line(
    st: Pass,
    indent: Seq<char>,
    name: Seq<char>,
    type_: TypeDesc,
    param_flags: u32,
) -> Pass {
    st.resolve(type_, param_flags).write(indent).write(name).write(": "@).write(
        resolved_text(type_, param_flags),
    ).write(",\n"@)
}

/// Writes the line of a member that is declared with its type.
pub fn emit_member_line(
    indent: &str,
    name: &str,
    type_: &TypeDesc,
    param_flags: u32,
    out: &mut String,
    build_result: &mut BuildResult,
) -> (r: Result<(), Halt>)
    ensures
        Pass::at(final(out)@, final(build_result)@, r) == member_line(
            Pass::running(old(out)@, old(build_result)@),
            indent@,
            name@,
            *type_,
            param_flags,
        ),
{
    let type_text = try_type_to_string(type_, param_flags, build_result)?;
    out.append(indent);
    out.append(name);
    out.append(": ");
    out.append(type_text.as_str());
    out.append(",\n");
    Ok(())
}

/// The state after the line of one parameter, which is declared under its
/// sanitized name with the type that its own direction flags give.
pub open spec fn param_line(st: Pass, indent: Seq<char>, param: Param) -> Pass {
    member_line(st, indent, sanitized(param.name@), param.desc.tdesc, param.desc.spec_flags())
}

/// The state after the lines of the parameters from `i` on, in order.
pub open spec fn param_lines(st: Pass, indent: Seq<char>, params: Seq<Param>, i: int) -> Pass
    decreases params.len() - i,
{
    if i < 0 || i >= params.len() {
        st
    } else {
        let next = param_line(st, indent, params[i]);
        if next.halt is Some {
            next
        } else {
            param_lines(next, indent, params, i + 1)
        }
    }
}

/// The state after the lines of the parameters from `i` on that are not
/// marked as the return value, in order.
pub open spec fn value_param_lines(
    st: Pass,
    indent: Seq<char>,
    params: Seq<Param>,
    i: int,
) -> Pass
    decreases params.len() - i,
{
    if i < 0 || i >= params.len() {
        st
    } else {
        let next = if params[i].desc.spec_is_retval() {
            st
        } else {
            param_line(st, indent, params[i])
        };
        if next.halt is Some {
            next
        } else {
            value_param_lines(next, indent, params, i + 1)
        }
    }
}

/// Writes the line of one parameter.
pub fn emit_param_line(
    indent: &str,
    param: &Param,
    out: &mut String,
    build_result: &mut BuildResult,
) -> (r: Result<(), Halt>)
    ensures
        Pass::at(final(out)@, final(build_result)@, r) == param_line(
            Pass::running(old(out)@, old(build_result)@),
            indent@,
            *param,
        ),
{
    let name = sanitize_reserved(&param.name);
    emit_member_line(
        indent,
        name.as_str(),
        &param.desc.tdesc,
        param.desc.flags(),
        out,
        build_result,
    )
}

/// Writes the lines of all parameters, in order.
pub fn emit_param_lines(
    indent: &str,
    params: &Vec<Param>,
    out: &mut String,
    build_result: &mut BuildResult,
) -> (r: Result<(), Halt>)
    ensures
        Pass::at(final(out)@, final(build_result)@, r) == param_lines(
            Pass::running(old(out)@, old(build_result)@),
            indent@,
            params@,
            0,
        ),
{
    let mut i: usize = 0;
    while i < params.len()
        invariant
            i <= params.len(),
            param_lines(Pass::running(old(out)@, old(build_result)@), indent@, params@, 0)
                == param_lines(Pass::running(out@, build_result@), indent@, params@, i as int),
        decreases params.len() - i,
    {
        emit_param_line(indent, &params[i], out, build_result)?;
        i += 1;
    }
    Ok(())
}

/// Writes the lines of the parameters that are not marked as the return
/// value, in order.
pub fn emit_value_param_lines(
    indent: &str,
    params: &Vec<Param>,
    out: &mut String,
    build_result: &mut BuildResult,
) -> (r: Result<(), Halt>)
    ensures
        Pass::at(final(out)@, final(build_result)@, r) == value_param_lines(
            Pass::running(old(out)@, old(build_result)@),
            indent@,
            params@,
            0,
        ),
{
    let mut i: usize = 0;
    while i < params.len()
        invariant
            i <= params.len(),
            value_param_lines(Pass::running(old(out)@, old(build_result)@), indent@, params@, 0)
                == value_param_lines(
                Pass::running(out@, build_result@),
                indent@,
                params@,
                i as int,
            ),
        decreases params.len() - i,
    {
        if !params[i].desc.is_retval() {
            emit_param_line(indent, &params[i], out, build_result)?;
        }
        i += 1;
    }
    Ok(())
}

} // verus!
