//! Unions.

use vstd::prelude::*;
use vstd::string::StringExecFns;
use crate::codes;
use crate::error::{Defect, Error, Halt};
use crate::pass::{BuildResult, Pass};
use crate::resolve::{resolved_text, sanitized, sanitize_reserved, try_type_to_string};
use crate::text;
use crate::types::{Field, TypeAttr, TypeInfo};

verus! {

/// The word that has the alignment of a union, for the two alignments that
/// are understood.
pub open spec fn aligned_word(alignment: u16) -> Option<Seq<char>> {
    if alignment == 4 {
        Some("u32"@)
    } else if alignment == 8 {
        Some("u64"@)
    } else {
        None
    }
}

/// The number of aligned words that cover an instance: its size, rounded
/// up to the alignment, in words.
pub open spec fn aligned_words(size_instance: u32, alignment: u16) -> int {
    (size_instance + alignment - 1) / (alignment as int)
}

/// The backing storage of a union: one aligned word, or an array of as many
/// as cover the instance.
pub open spec fn union_storage(type_attr: TypeAttr) -> Result<Seq<char>, Defect> {
    match aligned_word(type_attr.alignment) {
        None => Err(Defect::Alignment),
        Some(word) => if type_attr.size_instance + type_attr.alignment - 1 > u32::MAX {
            Err(Defect::Overflow)
        } else if aligned_words(type_attr.size_instance, type_attr.alignment) == 0 {
            Err(Defect::InstanceSize)
        } else if aligned_words(type_attr.size_instance, type_attr.alignment) == 1 {
            Ok(word)
        } else {
            Ok(
                "["@ + word + "; "@ + text::decimal(
                    aligned_words(type_attr.size_instance, type_attr.alignment),
                ) + "]"@,
            )
        },
    }
}

/// The backing storage of a union.
pub fn union_storage_text(type_attr: &TypeAttr) -> (r: Result<String, Halt>)
    ensures
        match union_storage(*type_attr) {
            Ok(storage) => r matches Ok(written) && written@ == storage,
            Err(defect) => r == Err::<String, Halt>(Halt::Defect(defect)),
        },
{
    if type_attr.alignment != 4 && type_attr.alignment != 8 {
        return Err(Halt::Defect(Defect::Alignment));
    }
    let word = if type_attr.alignment == 4 {
        "u32"
    } else {
        "u64"
    };
    let alignment: u32 = type_attr.alignment as u32;
    if type_attr.size_instance > u32::MAX - (alignment - 1) {
        return Err(Halt::Defect(Defect::Overflow));
    }
    let num_aligned_elements: u32 = (type_attr.size_instance + (alignment - 1)) / alignment;
    if num_aligned_elements == 0 {
        Err(Halt::Defect(Defect::InstanceSize))
    } else if num_aligned_elements == 1 {
        Ok(String::from_str(word))
    } else {
        let mut storage = String::from_str("[");
        storage.append(word);
        storage.append("; ");
        text::push_decimal(&mut storage, num_aligned_elements as i64);
        storage.append("]");
        Ok(storage)
    }
}

/// The state after one field of a union: a slot to read it and a slot to
/// change it, of the field's own type, where a pointer is a mutable one.
pub open spec fn union_field(st: Pass, field: Result<Field, Error>) -> Pass {
    match field {
        Ok(field) => st.resolve(field.desc.elemdesc_var.tdesc, codes::PARAMFLAG_FOUT).write(
            "    "@,
        ).write(sanitized(field.name@)).write(" "@).write(sanitized(field.name@)).write(
            "_mut: "@,
        ).write(resolved_text(field.desc.elemdesc_var.tdesc, codes::PARAMFLAG_FOUT)).write(
            ",\n"@,
        ),
        Err(e) => st.fail(e),
    }
}

/// The state after the fields from `i` on, in order.
pub open spec fn union_fields(st: Pass, fields: Seq<Result<Field, Error>>, i: int) -> Pass
    decreases fields.len() - i,
{
    if i < 0 || i >= fields.len() {
        st
    } else {
        let next = union_field(st, fields[i]);
        if next.halt is Some {
            next
        } else {
            union_fields(next, fields, i + 1)
        }
    }
}

/// The state after the block of a union: the backing storage that all
/// fields share, then the fields in order.
pub open spec fn union_block(st: Pass, type_info: TypeInfo) -> Pass {
    match union_storage(type_info.type_attr) {
        Ok(storage) => union_fields(
            st.write("UNION2!{union "@).write(type_info.name@).write(" {\n"@).write(
                "    "@,
            ).write(storage).write(",\n"@),
            type_info.fields@,
            0,
        ).write("}}\n"@).write("\n"@),
        Err(defect) => st.defect(defect),
    }
}

fn emit_union_field(
    field: &Result<Field, Error>,
    out: &mut String,
    build_result: &mut BuildResult,
) -> (r: Result<(), Halt>)
    ensures
        Pass::at(final(out)@, final(build_result)@, r) == union_field(
            Pass::running(old(out)@, old(build_result)@),
            *field,
        ),
{
    match field {
        Ok(field) => {
            let name = sanitize_reserved(field.name());
            let field_type = try_type_to_string(
                field.type_(),
                codes::PARAMFLAG_FOUT,
                build_result,
            )?;
            out.append("    ");
            out.append(name.as_str());
            out.append(" ");
            out.append(name.as_str());
            out.append("_mut: ");
            out.append(field_type.as_str());
            out.append(",\n");
            Ok(())
        },
        Err(e) => Err(Halt::Failed(*e)),
    }
}

/// Writes the block of a union.
pub fn emit_union(type_info: &TypeInfo, out: &mut String, build_result: &mut BuildResult) -> (r:
    Result<(), Halt>)
    ensures
        Pass::at(final(out)@, final(build_result)@, r) == union_block(
            Pass::running(old(out)@, old(build_result)@),
            *type_info,
        ),
{
    let storage = union_storage_text(type_info.attributes())?;
    out.append("UNION2!{union ");
    out.append(type_info.name().as_str());
    out.append(" {\n");
    out.append("    ");
    out.append(storage.as_str());
    out.append(",\n");
    let fields = type_info.get_fields();
    let mut i: usize = 0;
    while i < fields.len()
        invariant
            i <= fields.len(),
            fields@ == type_info.fields@,
            union_block(Pass::running(old(out)@, old(build_result)@), *type_info) == union_fields(
                Pass::running(out@, build_result@),
                fields@,
                i as int,
            ).write("}}\n"@).write("\n"@),
        decreases fields.len() - i,
    {
        emit_union_field(&fields[i], out, build_result)?;
        i += 1;
    }
    out.append("}}\n");
    out.append("\n");
    Ok(())
}

} // verus!
