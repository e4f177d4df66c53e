//! From type descriptors to the type expressions of the emitted
//! declarations.

use vstd::prelude::*;
use vstd::string::StringExecFns;
use crate::codes;
use crate::error::{Defect, Error, Halt};
use crate::pass::{halt_of, BuildResult, BuildResultView, Pass};
use crate::rc::BString;
use crate::text;
use crate::types::TypeDesc;

verus! {

/// The name that stands for a referenced type that could not be loaded.
pub const MISSING_TYPE: &'static str = "__missing_type__";

/// A name as it is emitted where a member is declared: a name that is a
/// reserved word of the emitted dialect gets an underscore behind it.
pub open spec fn sanitized(name: Seq<char>) -> Seq<char> {
    if name == "impl"@ {
        "impl_"@
    } else if name == "type"@ {
        "type_"@
    } else {
        name
    }
}

/// The name as it is emitted where a member is declared.
pub fn sanitize_reserved(s: &BString) -> (sanitized_name: String)
    ensures
        sanitized_name@ == sanitized(s@),
{
    if text::same_text(s.as_str(), "impl") {
        String::from_str("impl_")
    } else if text::same_text(s.as_str(), "type") {
        String::from_str("type_")
    } else {
        s.to_string()
    }
}

/// The table of well-known types: the name of the type with the given code,
/// if the table has the code.
pub open spec fn well_known_name(vt: u16) -> Option<Seq<char>> {
    if vt == codes::VT_I2 {
        Some("i16"@)
    } else if vt == codes::VT_I4 {
        Some("i32"@)
    } else if vt == codes::VT_R4 {
        Some("f32"@)
    } else if vt == codes::VT_R8 {
        Some("f64"@)
    } else if vt == codes::VT_CY {
        Some("CY"@)
    } else if vt == codes::VT_DATE {
        Some("DATE"@)
    } else if vt == codes::VT_BSTR {
        Some("BSTR"@)
    } else if vt == codes::VT_DISPATCH {
        Some("LPDISPATCH"@)
    } else if vt == codes::VT_ERROR {
        Some("SCODE"@)
    } else if vt == codes::VT_BOOL {
        Some("VARIANT_BOOL"@)
    } else if vt == codes::VT_VARIANT {
        Some("VARIANT"@)
    } else if vt == codes::VT_UNKNOWN {
        Some("LPUNKNOWN"@)
    } else if vt == codes::VT_DECIMAL {
        Some("DECIMAL"@)
    } else if vt == codes::VT_I1 {
        Some("i8"@)
    } else if vt == codes::VT_UI1 {
        Some("u8"@)
    } else if vt == codes::VT_UI2 {
        Some("u16"@)
    } else if vt == codes::VT_UI4 {
        Some("u32"@)
    } else if vt == codes::VT_I8 {
        Some("i64"@)
    } else if vt == codes::VT_UI8 {
        Some("u64"@)
    } else if vt == codes::VT_INT {
        Some("INT"@)
    } else if vt == codes::VT_UINT {
        Some("UINT"@)
    } else if vt == codes::VT_VOID {
        Some("c_void"@)
    } else if vt == codes::VT_HRESULT {
        Some("HRESULT"@)
    } else if vt == codes::VT_SAFEARRAY {
        Some("SAFEARRAY"@)
    } else if vt == codes::VT_LPSTR {
        Some("LPSTR"@)
    } else if vt == codes::VT_LPWSTR {
        Some("LPCWSTR"@)
    } else {
        None
    }
}

/// Looks the code up in the table of well-known types.
pub fn well_known_type_name(vt: u16) -> (name: Option<&'static str>)
    ensures
        match name {
            Some(name) => well_known_name(vt) == Some(name@),
            None => well_known_name(vt) is None,
        },
{
    if vt == codes::VT_I2 {
        Some("i16")
    } else if vt == codes::VT_I4 {
        Some("i32")
    } else if vt == codes::VT_R4 {
        Some("f32")
    } else if vt == codes::VT_R8 {
        Some("f64")
    } else if vt == codes::VT_CY {
        Some("CY")
    } else if vt == codes::VT_DATE {
        Some("DATE")
    } else if vt == codes::VT_BSTR {
        Some("BSTR")
    } else if vt == codes::VT_DISPATCH {
        Some("LPDISPATCH")
    } else if vt == codes::VT_ERROR {
        Some("SCODE")
    } else if vt == codes::VT_BOOL {
        Some("VARIANT_BOOL")
    } else if vt == codes::VT_VARIANT {
        Some("VARIANT")
    } else if vt == codes::VT_UNKNOWN {
        Some("LPUNKNOWN")
    } else if vt == codes::VT_DECIMAL {
        Some("DECIMAL")
    } else if vt == codes::VT_I1 {
        Some("i8")
    } else if vt == codes::VT_UI1 {
        Some("u8")
    } else if vt == codes::VT_UI2 {
        Some("u16")
    } else if vt == codes::VT_UI4 {
        Some("u32")
    } else if vt == codes::VT_I8 {
        Some("i64")
    } else if vt == codes::VT_UI8 {
        Some("u64")
    } else if vt == codes::VT_INT {
        Some("INT")
    } else if vt == codes::VT_UINT {
        Some("UINT")
    } else if vt == codes::VT_VOID {
        Some("c_void")
    } else if vt == codes::VT_HRESULT {
        Some("HRESULT")
    } else if vt == codes::VT_SAFEARRAY {
        Some("SAFEARRAY")
    } else if vt == codes::VT_LPSTR {
        Some("LPSTR")
    } else if vt == codes::VT_LPWSTR {
        Some("LPCWSTR")
    } else {
        None
    }
}

/// The name of the well-known type with the given code, which the table
/// has.
pub fn well_known_type_to_string(vt: u16) -> (name: &'static str)
    requires
        well_known_name(vt) is Some,
    ensures
        Some(name@) == well_known_name(vt),
{
    match well_known_type_name(vt) {
        Some(name) => name,
        None => vstd::pervasive::unreached(),
    }
}

/// Whether the direction flags mark a parameter as going in and not out.
pub open spec fn is_in_only(param_flags: u32) -> bool {
    (param_flags & codes::PARAMFLAG_FIN) == codes::PARAMFLAG_FIN && (param_flags
        & codes::PARAMFLAG_FOUT) == 0
}

/// What stands in front of the pointee of a pointer: an immutable pointer
/// for a parameter that goes in only, else a mutable one.
pub open spec fn pointer_prefix(param_flags: u32) -> Seq<char> {
    if is_in_only(param_flags) {
        "*const "@
    } else {
        "*mut "@
    }
}

/// A type expression, and whether it names a referenced type that could not
/// be loaded.
pub struct Resolved {
    pub text: Seq<char>,
    pub missing: bool,
}

/// What a type descriptor resolves to under the given direction flags: the
/// type expression, or the reason for which there is none.
///
/// A pointer wraps what its pointee resolves to; a fixed array, which has
/// one dimension, what its element resolves to; a well-known code resolves
/// to its name in the table. A reference to a described type resolves to
/// that type's name, and to the placeholder for a missing type where the
/// library of that type cannot be loaded.
pub open spec fn resolve(desc: TypeDesc, param_flags: u32) -> Result<Resolved, Halt>
    decreases desc,
{
    match desc {
        TypeDesc::WellKnown(vt) => match well_known_name(vt) {
            Some(name) => Ok(Resolved { text: name, missing: false }),
            None => Err(Halt::Defect(Defect::UnknownVartype)),
        },
        TypeDesc::Pointer(inner) => match resolve(*inner, param_flags) {
            Ok(pointee) => Ok(
                Resolved { text: pointer_prefix(param_flags) + pointee.text, ..pointee },
            ),
            Err(halt) => Err(halt),
        },
        TypeDesc::FixedArray { element, dimensions, bound } => if dimensions != 1 {
            Err(Halt::Defect(Defect::ArrayDimensions))
        } else {
            match resolve(*element, param_flags) {
                Ok(element) => Ok(
                    Resolved {
                        text: "["@ + element.text + "; "@ + text::decimal(bound as int) + "]"@,
                        ..element
                    },
                ),
                Err(halt) => Err(halt),
            }
        },
        TypeDesc::UserDefined { handle, target } => match target {
            Ok(referenced) => Ok(Resolved { text: referenced.name@, missing: false }),
            Err(Error::HResult(hr)) => if hr == codes::TYPE_E_CANTLOADLIBRARY {
                Ok(Resolved { text: MISSING_TYPE@, missing: true })
            } else {
                Err(Halt::Failed(Error::HResult(hr)))
            },
        },
    }
}

/// The type expression that a type descriptor resolves to, where it
/// resolves.
pub open spec fn resolved_text(desc: TypeDesc, param_flags: u32) -> Seq<char> {
    match resolve(desc, param_flags) {
        Ok(resolved) => resolved.text,
        Err(_) => Seq::empty(),
    }
}

impl BuildResultView {
    /// The statistics after a type descriptor was resolved, and the reason
    /// for which the pass stops there, if it does: a missing referenced type
    /// is counted.
    pub open spec fn resolving(self, desc: TypeDesc, param_flags: u32) -> (
        BuildResultView,
        Option<Halt>,
    ) {
        match resolve(desc, param_flags) {
            Ok(resolved) => if resolved.missing {
                self.missing_type()
            } else {
                (self, None)
            },
            Err(halt) => (self, Some(halt)),
        }
    }
}

impl Pass {
    /// The state after a type descriptor was resolved.
    pub open spec fn resolve(self, desc: TypeDesc, param_flags: u32) -> Pass {
        self.record(self.result.resolving(desc, param_flags))
    }
}

/// Resolves a type descriptor to a type expression, and counts a referenced
/// type that is missing.
pub fn try_type_to_string(type_: &TypeDesc, param_flags: u32, build_result: &mut BuildResult) -> (r:
    Result<String, Halt>)
    ensures
        (final(build_result)@, halt_of(r)) == old(build_result)@.resolving(*type_, param_flags),
        r matches Ok(type_text) ==> type_text@ == resolved_text(*type_, param_flags),
    decreases type_,
{
    match type_ {
        TypeDesc::WellKnown(vt) => match well_known_type_name(*vt) {
            Some(name) => Ok(String::from_str(name)),
            None => Err(Halt::Defect(Defect::UnknownVartype)),
        },
        TypeDesc::Pointer(inner) => {
            let pointee = try_type_to_string(inner, param_flags, build_result)?;
            let in_only = (param_flags & codes::PARAMFLAG_FIN) == codes::PARAMFLAG_FIN && (
            param_flags & codes::PARAMFLAG_FOUT) == 0;
            let mut type_text = if in_only {
                String::from_str("*const ")
            } else {
                String::from_str("*mut ")
            };
            type_text.append(pointee.as_str());
            Ok(type_text)
        },
        TypeDesc::FixedArray { element, dimensions, bound } => {
            if *dimensions != 1 {
                return Err(Halt::Defect(Defect::ArrayDimensions));
            }
            let element_name = try_type_to_string(element, param_flags, build_result)?;
            let mut type_text = String::from_str("[");
            type_text.append(element_name.as_str());
            type_text.append("; ");
            text::push_decimal(&mut type_text, *bound as i64);
            type_text.append("]");
            Ok(type_text)
        },
        TypeDesc::UserDefined { handle, target } => match target {
            Ok(referenced) => Ok(referenced.name.to_string()),
            Err(Error::HResult(hr)) => {
                if *hr == codes::TYPE_E_CANTLOADLIBRARY {
                    build_result.count_missing_type()?;
                    Ok(String::from_str(MISSING_TYPE))
                } else {
                    Err(Halt::Failed(Error::HResult(*hr)))
                }
            },
        },
    }
}

/// Resolves a type descriptor that has a type expression or fails with a
/// native error.
pub fn type_to_string(type_: &TypeDesc, param_flags: u32, build_result: &mut BuildResult) -> (r:
    Result<String, Error>)
    requires
        !(old(build_result)@.resolving(*type_, param_flags).1 matches Some(Halt::Defect(_))),
    ensures
        final(build_result)@ == old(build_result)@.resolving(*type_, param_flags).0,
        match r {
            Ok(type_text) => old(build_result)@.resolving(*type_, param_flags).1 is None
                && type_text@ == resolved_text(*type_, param_flags),
            Err(e) => old(build_result)@.resolving(*type_, param_flags).1 == Some(
                Halt::Failed(e),
            ),
        },
{
    match try_type_to_string(type_, param_flags, build_result) {
        Ok(type_text) => Ok(type_text),
        Err(Halt::Failed(e)) => Err(e),
        Err(Halt::Defect(_)) => vstd::pervasive::unreached(),
    }
}

} // verus!
