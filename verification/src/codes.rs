//! Numeric codes of the native type-description format.

use vstd::prelude::*;

verus! {

/// Status code of a native call that succeeded.
pub const S_OK: i32 = 0;

/// Status code: the element asked for does not exist.
pub const TYPE_E_ELEMENTNOTFOUND: i32 = -2147319765i32;

/// Status code: a referenced type library cannot be loaded.
pub const TYPE_E_CANTLOADLIBRARY: i32 = -2147312566i32;

// Type codes.
pub const VT_I2: u16 = 2;
pub const VT_I4: u16 = 3;
pub const VT_R4: u16 = 4;
pub const VT_R8: u16 = 5;
pub const VT_CY: u16 = 6;
pub const VT_DATE: u16 = 7;
pub const VT_BSTR: u16 = 8;
pub const VT_DISPATCH: u16 = 9;
pub const VT_ERROR: u16 = 10;
pub const VT_BOOL: u16 = 11;
pub const VT_VARIANT: u16 = 12;
pub const VT_UNKNOWN: u16 = 13;
pub const VT_DECIMAL: u16 = 14;
pub const VT_I1: u16 = 16;
pub const VT_UI1: u16 = 17;
pub const VT_UI2: u16 = 18;
pub const VT_UI4: u16 = 19;
pub const VT_I8: u16 = 20;
pub const VT_UI8: u16 = 21;
pub const VT_INT: u16 = 22;
pub const VT_UINT: u16 = 23;
pub const VT_VOID: u16 = 24;
pub const VT_HRESULT: u16 = 25;
pub const VT_PTR: u16 = 26;
pub const VT_SAFEARRAY: u16 = 27;
pub const VT_CARRAY: u16 = 28;
pub const VT_USERDEFINED: u16 = 29;
pub const VT_LPSTR: u16 = 30;
pub const VT_LPWSTR: u16 = 31;

/// Added to the code of a scalar to tag a tagged value that holds a pointer
/// to that scalar.
pub const VT_BYREF: u32 = 0x4000;

// Kinds of described types.
pub const TKIND_ENUM: u32 = 0;
pub const TKIND_RECORD: u32 = 1;
pub const TKIND_MODULE: u32 = 2;
pub const TKIND_INTERFACE: u32 = 3;
pub const TKIND_DISPATCH: u32 = 4;
pub const TKIND_COCLASS: u32 = 5;
pub const TKIND_ALIAS: u32 = 6;
pub const TKIND_UNION: u32 = 7;

// Kinds of functions.
pub const FUNC_VIRTUAL: u32 = 0;
pub const FUNC_PUREVIRTUAL: u32 = 1;
pub const FUNC_NONVIRTUAL: u32 = 2;
pub const FUNC_STATIC: u32 = 3;
pub const FUNC_DISPATCH: u32 = 4;

// Kinds of invocation: call, property-get, property-put, property-putref.
pub const INVOKE_FUNC: u32 = 1;
pub const INVOKE_PROPERTYGET: u32 = 2;
pub const INVOKE_PROPERTYPUT: u32 = 4;
pub const INVOKE_PROPERTYPUTREF: u32 = 8;

// Direction flags of a parameter: none, in, out, return value.
pub const PARAMFLAG_NONE: u32 = 0;
pub const PARAMFLAG_FIN: u32 = 0x1;
pub const PARAMFLAG_FOUT: u32 = 0x2;
pub const PARAMFLAG_FRETVAL: u32 = 0x8;

} // verus!
