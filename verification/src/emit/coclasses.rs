//! Classes.

use vstd::prelude::*;
use vstd::string::StringExecFns;
use crate::error::{Error, Halt};
use crate::emit::lines::{uuid_line, uuid_line_text};
use crate::pass::{BuildResult, Pass};
use crate::types::{ReferencedType, TypeInfo};

verus! {

/// The state after the line that names one interface that a class
/// implements.
pub open spec fn coclass_parent(st: Pass, parent: Result<ReferencedType, Error>) -> Pass {
    match parent {
        Ok(parent) => st.write("// Implements "@).write(parent.name@).write("\n"@),
        Err(e) => st.fail(e),
    }
}

/// The state after the lines of the implemented interfaces from `i` on, in
/// order.
pub open spec fn coclass_parents(
    st: Pass,
    parents: Seq<Result<ReferencedType, Error>>,
    i: int,
) -> Pass
    decreases parents.len() - i,
{
    if i < 0 || i >= parents.len() {
        st
    } else {
        let next = coclass_parent(st, parents[i]);
        if next.halt is Some {
            next
        } else {
            coclass_parents(next, parents, i + 1)
        }
    }
}

/// The state after the declaration of a class: the interfaces that it
/// implements, as comments, and then its identity, without members.
pub open spec fn coclass_block(st: Pass, type_info: TypeInfo) -> Pass {
    coclass_parents(st, type_info.parents@, 0).write(uuid_line(type_info.type_attr.guid)).write(
        "class "@,
    ).write(type_info.name@).write("; }\n"@).write("\n"@)
}

fn emit_coclass_parent(
    parent: &Result<ReferencedType, Error>,
    out: &mut String,
    build_result: &BuildResult,
) -> (r: Result<(), Halt>)
    ensures
        Pass::at(final(out)@, build_result@, r) == coclass_parent(
            Pass::running(old(out)@, build_result@),
            *parent,
        ),
{
    match parent {
        Ok(parent) => {
            out.append("// Implements ");
            out.append(parent.name.as_str());
            out.append("\n");
            Ok(())
        },
        Err(e) => Err(Halt::Failed(*e)),
    }
}

/// Writes the declaration of a class.
pub fn emit_coclass(type_info: &TypeInfo, out: &mut String, build_result: &BuildResult) -> (r:
    Result<(), Halt>)
    ensures
        Pass::at(final(out)@, build_result@, r) == coclass_block(
            Pass::running(old(out)@, build_result@),
            *type_info,
        ),
{
    let parents = type_info.get_parents();
    let mut i: usize = 0;
    while i < parents.len()
        invariant
            i <= parents.len(),
            parents@ == type_info.parents@,
            coclass_block(Pass::running(old(out)@, build_result@), *type_info) == coclass_parents(
                Pass::running(out@, build_result@),
                parents@,
                i as int,
            ).write(uuid_line(type_info.type_attr.guid)).write("class "@).write(
                type_info.name@,
            ).write("; }\n"@).write("\n"@),
        decreases parents.len() - i,
    {
        emit_coclass_parent(&parents[i], out, build_result)?;
        i += 1;
    }
    let identity = uuid_line_text(&type_info.attributes().guid);
    out.append(identity.as_str());
    out.append("class ");
    out.append(type_info.name().as_str());
    out.append("; }\n");
    out.append("\n");
    Ok(())
}

} // verus!
