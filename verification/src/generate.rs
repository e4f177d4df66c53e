//! The pass over a whole type library.

use vstd::prelude::*;
use crate::codes;
use crate::emit::aliases::{alias_block, emit_alias};
use crate::emit::coclasses::{coclass_block, emit_coclass};
use crate::emit::dispatch::{dispatch_block, emit_dispatch};
use crate::emit::enums::{emit_enum, enum_block};
use crate::emit::interfaces::{emit_interface, interface_block};
use crate::emit::modules::{emit_module, module_block};
use crate::emit::records::{emit_record, record_block};
use crate::emit::unions::{emit_union, union_block};
use crate::error::{Defect, Error, Halt};
use crate::pass::{BuildResult, BuildResultView, Pass};
use crate::types::{TypeInfo, TypeLib};

verus! {

/// The parts of a described type that its declarations are made of.
#[derive(Clone, Copy, Debug, PartialEq, Eq, Structural)]
pub struct Reads {
    /// The enumerators.
    pub vars: bool,
    /// The fields or properties.
    pub fields: bool,
    pub functions: bool,
    pub parents: bool,
    /// The identifier.
    pub guid: bool,
    /// The size and the alignment of an instance.
    pub layout: bool,
    /// The type that an alias stands for.
    pub alias: bool,
}

impl Reads {
    /// Nothing but the name and the kind.
    pub open spec fn nothing() -> Reads {
        Reads {
            vars: false,
            fields: false,
            functions: false,
            parents: false,
            guid: false,
            layout: false,
            alias: false,
        }
    }
}

/// The parts of a described type that the declarations of a type of the
/// given kind are made of, besides its name.
pub open spec fn spec_reads(typekind: u32, emit_dispinterfaces: bool) -> Reads {
    if typekind == codes::TKIND_ENUM {
        Reads { vars: true, ..Reads::nothing() }
    } else if typekind == codes::TKIND_RECORD {
        Reads { fields: true, ..Reads::nothing() }
    } else if typekind == codes::TKIND_MODULE {
        Reads { functions: true, ..Reads::nothing() }
    } else if typekind == codes::TKIND_INTERFACE {
        Reads { fields: true, functions: true, parents: true, guid: true, ..Reads::nothing() }
    } else if typekind == codes::TKIND_DISPATCH && emit_dispinterfaces {
        Reads { fields: true, functions: true, parents: true, guid: true, ..Reads::nothing() }
    } else if typekind == codes::TKIND_COCLASS {
        Reads { parents: true, guid: true, ..Reads::nothing() }
    } else if typekind == codes::TKIND_ALIAS {
        Reads { alias: true, ..Reads::nothing() }
    } else if typekind == codes::TKIND_UNION {
        Reads { fields: true, layout: true, ..Reads::nothing() }
    } else {
        Reads::nothing()
    }
}

/// The parts of a described type that the declarations of a type of the
/// given kind are made of, besides its name.
pub fn reads(typekind: u32, emit_dispinterfaces: bool) -> (parts: Reads)
    ensures
        parts == spec_reads(typekind, emit_dispinterfaces),
{
    let nothing = Reads {
        vars: false,
        fields: false,
        functions: false,
        parents: false,
        guid: false,
        layout: false,
        alias: false,
    };
    if typekind == codes::TKIND_ENUM {
        Reads { vars: true, ..nothing }
    } else if typekind == codes::TKIND_RECORD {
        Reads { fields: true, ..nothing }
    } else if typekind == codes::TKIND_MODULE {
        Reads { functions: true, ..nothing }
    } else if typekind == codes::TKIND_INTERFACE {
        Reads { fields: true, functions: true, parents: true, guid: true, ..nothing }
    } else if typekind == codes::TKIND_DISPATCH && emit_dispinterfaces {
        Reads { fields: true, functions: true, parents: true, guid: true, ..nothing }
    } else if typekind == codes::TKIND_COCLASS {
        Reads { parents: true, guid: true, ..nothing }
    } else if typekind == codes::TKIND_ALIAS {
        Reads { alias: true, ..nothing }
    } else if typekind == codes::TKIND_UNION {
        Reads { fields: true, layout: true, ..nothing }
    } else {
        nothing
    }
}

/// Whether two described types agree in their name, their kind and the
/// given parts.
pub open spec fn agree(a: TypeInfo, b: TypeInfo, parts: Reads) -> bool {
    &&& a.name@ == b.name@
    &&& a.type_attr.typekind == b.type_attr.typekind
    &&& parts.vars ==> a.vars@ == b.vars@
    &&& parts.fields ==> a.fields@ == b.fields@
    &&& parts.functions ==> a.functions@ == b.functions@
    &&& parts.parents ==> a.parents@ == b.parents@
    &&& parts.guid ==> a.type_attr.guid == b.type_attr.guid
    &&& parts.layout ==> a.type_attr.size_instance == b.type_attr.size_instance
        && a.type_attr.alignment == b.type_attr.alignment
    &&& parts.alias ==> a.type_attr.tdesc_alias == b.type_attr.tdesc_alias
}

/// The state after the declarations of one described type, by its kind. A
/// dispatch type is only recorded by its name where dispatch types are not
/// to be emitted. A kind outside the eight known ones is a defect.
pub open spec fn type_block(st: Pass, type_info: TypeInfo, emit_dispinterfaces: bool) -> Pass {
    let typekind = type_info.type_attr.typekind;
    if typekind == codes::TKIND_ENUM {
        enum_block(st, type_info)
    } else if typekind == codes::TKIND_RECORD {
        record_block(st, type_info)
    } else if typekind == codes::TKIND_MODULE {
        module_block(st, type_info)
    } else if typekind == codes::TKIND_INTERFACE {
        interface_block(st, type_info)
    } else if typekind == codes::TKIND_DISPATCH {
        if emit_dispinterfaces {
            dispatch_block(st, type_info)
        } else {
            st.record((st.result.skipped_dispinterface(type_info.name@), None))
        }
    } else if typekind == codes::TKIND_COCLASS {
        coclass_block(st, type_info)
    } else if typekind == codes::TKIND_ALIAS {
        alias_block(st, type_info)
    } else if typekind == codes::TKIND_UNION {
        union_block(st, type_info)
    } else {
        st.defect(Defect::TypeKind)
    }
}

/// Whether a dispatch type is the late-bound half of a dual interface: it
/// is one where asking for the vtable interface gave one, and it is none
/// where the element was not found. Any other error ends the pass.
pub open spec fn dual_interface(type_info: TypeInfo) -> Result<Option<TypeInfo>, Error> {
    if type_info.type_attr.typekind != codes::TKIND_DISPATCH {
        Ok(None)
    } else {
        match type_info.interface_of_dispinterface {
            Ok(interface) => Ok(Some(*interface)),
            Err(Error::HResult(hr)) => if hr == codes::TYPE_E_ELEMENTNOTFOUND {
                Ok(None)
            } else {
                Err(Error::HResult(hr))
            },
        }
    }
}

/// The state after one described type. The late-bound half of a dual
/// interface is recorded by its name, and the vtable interface is emitted
/// in its place.
pub open spec fn described_type(st: Pass, type_info: TypeInfo, emit_dispinterfaces: bool) -> Pass {
    match dual_interface(type_info) {
        Ok(Some(interface)) => type_block(
            st.record((st.result.skipped_dual_half(type_info.name@), None)),
            interface,
            emit_dispinterfaces,
        ),
        Ok(None) => type_block(st, type_info, emit_dispinterfaces),
        Err(e) => st.fail(e),
    }
}

/// The state after one element of a type library. A type whose library
/// cannot be loaded is counted and passed over; any other error ends the
/// pass.
pub open spec fn type_slot(
    st: Pass,
    slot: Result<TypeInfo, Error>,
    emit_dispinterfaces: bool,
) -> Pass {
    match slot {
        Ok(type_info) => described_type(st, type_info, emit_dispinterfaces),
        Err(Error::HResult(hr)) => if hr == codes::TYPE_E_CANTLOADLIBRARY {
            st.record(st.result.type_not_found())
        } else {
            st.fail(Error::HResult(hr))
        },
    }
}

/// The state after the elements of a type library from `i` on, in order.
pub open spec fn library(
    st: Pass,
    slots: Seq<Result<TypeInfo, Error>>,
    emit_dispinterfaces: bool,
    i: int,
) -> Pass
    decreases slots.len() - i,
{
    if i < 0 || i >= slots.len() {
        st
    } else {
        let next = type_slot(st, slots[i], emit_dispinterfaces);
        if next.halt is Some {
            next
        } else {
            library(next, slots, emit_dispinterfaces, i + 1)
        }
    }
}

/// The state after a whole pass over a type library that begins behind the
/// given text, with empty statistics.
pub open spec fn pass_over(
    text: Seq<char>,
    type_lib: TypeLib,
    emit_dispinterfaces: bool,
) -> Pass {
    library(
        Pass::running(text, BuildResultView::empty()),
        type_lib.type_infos@,
        emit_dispinterfaces,
        0,
    )
}

/// Writes the declarations of one described type, by its kind.
pub fn emit_type(
    type_info: &TypeInfo,
    emit_dispinterfaces: bool,
    out: &mut String,
    build_result: &mut BuildResult,
) -> (r: Result<(), Halt>)
    ensures
        Pass::at(final(out)@, final(build_result)@, r) == type_block(
            Pass::running(old(out)@, old(build_result)@),
            *type_info,
            emit_dispinterfaces,
        ),
{
    let typekind = type_info.attributes().typekind;
    if typekind == codes::TKIND_ENUM {
        emit_enum(type_info, out, build_result)
    } else if typekind == codes::TKIND_RECORD {
        emit_record(type_info, out, build_result)
    } else if typekind == codes::TKIND_MODULE {
        emit_module(type_info, out, build_result)
    } else if typekind == codes::TKIND_INTERFACE {
        emit_interface(type_info, out, build_result)
    } else if typekind == codes::TKIND_DISPATCH {
        if emit_dispinterfaces {
            emit_dispatch(type_info, out, build_result)
        } else {
            build_result.skip_dispinterface(type_info.name().to_string());
            Ok(())
        }
    } else if typekind == codes::TKIND_COCLASS {
        emit_coclass(type_info, out, build_result)
    } else if typekind == codes::TKIND_ALIAS {
        emit_alias(type_info, out, build_result)
    } else if typekind == codes::TKIND_UNION {
        emit_union(type_info, out, build_result)
    } else {
        Err(Halt::Defect(Defect::TypeKind))
    }
}

/// Writes the declarations of one described type, with the vtable
/// interface in the place of the late-bound half of a dual interface.
pub fn emit_described_type(
    type_info: &TypeInfo,
    emit_dispinterfaces: bool,
    out: &mut String,
    build_result: &mut BuildResult,
) -> (r: Result<(), Halt>)
    ensures
        Pass::at(final(out)@, final(build_result)@, r) == described_type(
            Pass::running(old(out)@, old(build_result)@),
            *type_info,
            emit_dispinterfaces,
        ),
{
    if type_info.attributes().typekind == codes::TKIND_DISPATCH {
        match &type_info.interface_of_dispinterface {
            Ok(interface) => {
                build_result.skip_dual_half(type_info.name().to_string());
                emit_type(interface, emit_dispinterfaces, out, build_result)
            },
            Err(Error::HResult(hr)) => {
                if *hr == codes::TYPE_E_ELEMENTNOTFOUND {
                    emit_type(type_info, emit_dispinterfaces, out, build_result)
                } else {
                    Err(Halt::Failed(Error::HResult(*hr)))
                }
            },
        }
    } else {
        emit_type(type_info, emit_dispinterfaces, out, build_result)
    }
}

/// Handles one element of a type library.
pub fn emit_type_slot(
    slot: &Result<TypeInfo, Error>,
    emit_dispinterfaces: bool,
    out: &mut String,
    build_result: &mut BuildResult,
) -> (r: Result<(), Halt>)
    ensures
        Pass::at(final(out)@, final(build_result)@, r) == type_slot(
            Pass::running(old(out)@, old(build_result)@),
            *slot,
            emit_dispinterfaces,
        ),
{
    match slot {
        Ok(type_info) => emit_described_type(type_info, emit_dispinterfaces, out, build_result),
        Err(Error::HResult(hr)) => {
            if *hr == codes::TYPE_E_CANTLOADLIBRARY {
                build_result.count_type_not_found()
            } else {
                Err(Halt::Failed(Error::HResult(*hr)))
            }
        },
    }
}

/// Runs a pass over a type library and appends the declarations to `out`.
/// The pass ends with the statistics, or with the reason for which it
/// stopped; `out` then holds what was written until there.
pub fn try_build(type_lib: &TypeLib, emit_dispinterfaces: bool, out: &mut String) -> (r: Result<
    BuildResult,
    Halt,
>)
    ensures
        final(out)@ == pass_over(old(out)@, *type_lib, emit_dispinterfaces).text,
        match r {
            Ok(build_result) => {
                &&& pass_over(old(out)@, *type_lib, emit_dispinterfaces).halt is None
                &&& build_result@ == pass_over(old(out)@, *type_lib, emit_dispinterfaces).result
            },
            Err(halt) => pass_over(old(out)@, *type_lib, emit_dispinterfaces).halt == Some(halt),
        },
{
    let mut build_result = BuildResult::new();
    let slots = type_lib.get_type_infos();
    let mut i: usize = 0;
    while i < slots.len()
        invariant
            i <= slots.len(),
            slots@ == type_lib.type_infos@,
            pass_over(old(out)@, *type_lib, emit_dispinterfaces) == library(
                Pass::running(out@, build_result@),
                slots@,
                emit_dispinterfaces,
                i as int,
            ),
        decreases slots.len() - i,
    {
        emit_type_slot(&slots[i], emit_dispinterfaces, out, &mut build_result)?;
        i += 1;
    }
    Ok(build_result)
}

/// Runs a pass over a type library that holds no defect, and appends the
/// declarations to `out`. The pass ends with the statistics, or with the
/// first native error that is not recoverable; `out` then holds what was
/// written until there.
pub fn build(type_lib: &TypeLib, emit_dispinterfaces: bool, out: &mut String) -> (r: Result<
    BuildResult,
    Error,
>)
    requires
        !(pass_over(old(out)@, *type_lib, emit_dispinterfaces).halt matches Some(Halt::Defect(_))),
    ensures
        final(out)@ == pass_over(old(out)@, *type_lib, emit_dispinterfaces).text,
        match r {
            Ok(build_result) => {
                &&& pass_over(old(out)@, *type_lib, emit_dispinterfaces).halt is None
                &&& build_result@ == pass_over(old(out)@, *type_lib, emit_dispinterfaces).result
            },
            Err(e) => pass_over(old(out)@, *type_lib, emit_dispinterfaces).halt == Some(
                Halt::Failed(e),
            ),
        },
{
    match try_build(type_lib, emit_dispinterfaces, out) {
        Ok(build_result) => Ok(build_result),
        Err(Halt::Failed(e)) => Err(e),
        Err(Halt::Defect(_)) => vstd::pervasive::unreached(),
    }
}

} // verus!
