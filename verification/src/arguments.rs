//! The slot of a tagged value that carries an argument of a late-bound call.

use vstd::prelude::*;
use vstd::string::StringExecFns;
use crate::codes;
use crate::error::{Defect, Halt};
use crate::types::TypeDesc;

verus! {

/// For a scalar that a tagged value stores directly: the text that assigns
/// to its storage, up to the value assigned.
pub open spec fn direct_accessor(vt: u16) -> Option<Seq<char>> {
    if vt == codes::VT_I2 {
        Some(".iVal_mut() = "@)
    } else if vt == codes::VT_I4 {
        Some(".lVal_mut() = "@)
    } else if vt == codes::VT_CY {
        Some(".cyVal_mut() = "@)
    } else if vt == codes::VT_BSTR {
        Some(".bstrVal_mut() = "@)
    } else if vt == codes::VT_DISPATCH {
        Some(".pdispVal_mut() = "@)
    } else if vt == codes::VT_ERROR {
        Some(".scode_mut() = "@)
    } else if vt == codes::VT_BOOL {
        Some(".boolVal_mut() = "@)
    } else if vt == codes::VT_UNKNOWN {
        Some(".punkVal_mut() = "@)
    } else if vt == codes::VT_UI2 {
        Some(".uiVal_mut() = "@)
    } else if vt == codes::VT_UI4 {
        Some(".ulVal_mut() = "@)
    } else if vt == codes::VT_INT {
        Some(".intVal_mut() = "@)
    } else if vt == codes::VT_UINT {
        Some(".uintVal_mut() = "@)
    } else {
        None
    }
}

/// For a scalar that a tagged value can point to: the text that assigns to
/// the storage of the pointer, up to the value assigned.
pub open spec fn by_reference_accessor(vt: u16) -> Option<Seq<char>> {
    if vt == codes::VT_I4 {
        Some(".plVal_mut() = "@)
    } else if vt == codes::VT_BSTR {
        Some(".pbstrVal_mut() = "@)
    } else if vt == codes::VT_DISPATCH {
        Some(".ppdispVal_mut() = "@)
    } else if vt == codes::VT_BOOL {
        Some(".pboolVal_mut() = "@)
    } else if vt == codes::VT_VARIANT {
        Some(".pvarval_mut() = "@)
    } else {
        None
    }
}

/// The tag of a tagged value that points to a scalar with the given code.
pub open spec fn by_reference_tag(vt: u16) -> u32 {
    (vt as u32) | codes::VT_BYREF
}

/// The slot that carries an argument of the given type: the tag of the
/// tagged value, and the text that stores the parameter in it.
///
/// A scalar is stored directly under its own code, and a tagged value is
/// copied whole. A pointer to a scalar is stored under the by-reference tag
/// of the scalar, a pointer to a described type as a dispatch pointer. A
/// described type itself is stored as a 4-byte integer, which it must be.
pub open spec fn argument_slot(type_: TypeDesc, param_name: Seq<char>) -> Result<
    (u32, Seq<char>),
    Defect,
> {
    match type_ {
        TypeDesc::WellKnown(vt) => if vt == codes::VT_VARIANT {
            Ok((vt as u32, " = *(&"@ + param_name + " as *const _ as *mut _)"@))
        } else {
            match direct_accessor(vt) {
                Some(accessor) => Ok((vt as u32, accessor + param_name)),
                None => Err(Defect::ArgumentType),
            }
        },
        TypeDesc::Pointer(pointee) => match *pointee {
            TypeDesc::WellKnown(vt) => match by_reference_accessor(vt) {
                Some(accessor) => Ok((by_reference_tag(vt), accessor + param_name)),
                None => Err(Defect::ArgumentType),
            },
            TypeDesc::UserDefined { .. } => Ok(
                (codes::VT_DISPATCH as u32, ".pdispVal_mut() = "@ + param_name),
            ),
            _ => Err(Defect::ArgumentType),
        },
        TypeDesc::UserDefined { handle, target } => match target {
            Ok(referenced) => if referenced.size_instance == 4 {
                Ok((codes::VT_I4 as u32, ".lVal_mut() = "@ + param_name))
            } else {
                Err(Defect::ArgumentType)
            },
            Err(_) => Err(Defect::Unavailable),
        },
        TypeDesc::FixedArray { .. } => Err(Defect::ArgumentType),
    }
}

fn direct_accessor_text(vt: u16) -> (accessor: Option<&'static str>)
    ensures
        match accessor {
            Some(accessor) => direct_accessor(vt) == Some(accessor@),
            None => direct_accessor(vt) is None,
        },
{
    if vt == codes::VT_I2 {
        Some(".iVal_mut() = ")
    } else if vt == codes::VT_I4 {
        Some(".lVal_mut() = ")
    } else if vt == codes::VT_CY {
        Some(".cyVal_mut() = ")
    } else if vt == codes::VT_BSTR {
        Some(".bstrVal_mut() = ")
    } else if vt == codes::VT_DISPATCH {
        Some(".pdispVal_mut() = ")
    } else if vt == codes::VT_ERROR {
        Some(".scode_mut() = ")
    } else if vt == codes::VT_BOOL {
        Some(".boolVal_mut() = ")
    } else if vt == codes::VT_UNKNOWN {
        Some(".punkVal_mut() = ")
    } else if vt == codes::VT_UI2 {
        Some(".uiVal_mut() = ")
    } else if vt == codes::VT_UI4 {
        Some(".ulVal_mut() = ")
    } else if vt == codes::VT_INT {
        Some(".intVal_mut() = ")
    } else if vt == codes::VT_UINT {
        Some(".uintVal_mut() = ")
    } else {
        None
    }
}

fn by_reference_accessor_text(vt: u16) -> (accessor: Option<&'static str>)
    ensures
        match accessor {
            Some(accessor) => by_reference_accessor(vt) == Some(accessor@),
            None => by_reference_accessor(vt) is None,
        },
{
    if vt == codes::VT_I4 {
        Some(".plVal_mut() = ")
    } else if vt == codes::VT_BSTR {
        Some(".pbstrVal_mut() = ")
    } else if vt == codes::VT_DISPATCH {
        Some(".ppdispVal_mut() = ")
    } else if vt == codes::VT_BOOL {
        Some(".pboolVal_mut() = ")
    } else if vt == codes::VT_VARIANT {
        Some(".pvarval_mut() = ")
    } else {
        None
    }
}

fn assignment(accessor: &str, param_name: &str) -> (mutator: String)
    ensures
        mutator@ == accessor@ + param_name@,
{
    let mut mutator = String::from_str(accessor);
    mutator.append(param_name);
    mutator
}

/// The slot that carries an argument of the given type, or the defect for
/// which there is none.
pub fn try_vartype_mutator(type_: &TypeDesc, param_name: &str) -> (r: Result<(u32, String), Halt>)
    ensures
        match argument_slot(*type_, param_name@) {
            Ok((vt, mutator)) => r matches Ok((tag, text)) && tag == vt && text@ == mutator,
            Err(defect) => r == Err::<(u32, String), Halt>(Halt::Defect(defect)),
        },
{
    match type_ {
        TypeDesc::WellKnown(vt) => {
            if *vt == codes::VT_VARIANT {
                let mut mutator = String::from_str(" = *(&");
                mutator.append(param_name);
                mutator.append(" as *const _ as *mut _)");
                Ok((*vt as u32, mutator))
            } else {
                match direct_accessor_text(*vt) {
                    Some(accessor) => Ok((*vt as u32, assignment(accessor, param_name))),
                    None => Err(Halt::Defect(Defect::ArgumentType)),
                }
            }
        },
        TypeDesc::Pointer(pointee) => match &**pointee {
            TypeDesc::WellKnown(vt) => match by_reference_accessor_text(*vt) {
                Some(accessor) => Ok(
                    ((*vt as u32) | codes::VT_BYREF, assignment(accessor, param_name)),
                ),
                None => Err(Halt::Defect(Defect::ArgumentType)),
            },
            TypeDesc::UserDefined { .. } => Ok(
                (codes::VT_DISPATCH as u32, assignment(".pdispVal_mut() = ", param_name)),
            ),
            _ => Err(Halt::Defect(Defect::ArgumentType)),
        },
        TypeDesc::UserDefined { handle, target } => match target {
            Ok(referenced) => {
                if referenced.size_instance == 4 {
                    Ok((codes::VT_I4 as u32, assignment(".lVal_mut() = ", param_name)))
                } else {
                    Err(Halt::Defect(Defect::ArgumentType))
                }
            },
            Err(_) => Err(Halt::Defect(Defect::Unavailable)),
        },
        TypeDesc::FixedArray { .. } => Err(Halt::Defect(Defect::ArgumentType)),
    }
}

/// The slot that carries an argument of the given type, for a type that has
/// one.
pub fn vartype_mutator(type_: &TypeDesc, param_name: &str) -> (slot: (u32, String))
    requires
        argument_slot(*type_, param_name@) is Ok,
    ensures
        argument_slot(*type_, param_name@) matches Ok((vt, mutator)) && slot.0 == vt && slot.1@
            == mutator,
{
    match try_vartype_mutator(type_, param_name) {
        Ok(slot) => slot,
        Err(_) => vstd::pervasive::unreached(),
    }
}

} // verus!
