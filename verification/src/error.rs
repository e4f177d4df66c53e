//! Why a pass over a type library stops before its end.

use vstd::prelude::*;
use vstd::string::StringExecFns;
use crate::codes;
use crate::text;

verus! {

/// A failure that the native type-description interfaces reported.
#[derive(Clone, Copy, Debug, PartialEq, Eq, Structural)]
pub enum Error {
    /// The status code of a native call that did not succeed.
    HResult(i32),
}

/// A shape of the description that the generator does not understand. The
/// pass does not guess: it stops at the first one it meets.
#[derive(Clone, Copy, Debug, PartialEq, Eq, Structural)]
pub enum Defect {
    /// A type code that is not in the table of well-known types.
    UnknownVartype,
    /// A fixed array with other than one dimension.
    ArrayDimensions,
    /// An enumerator whose value is not tagged as a 4-byte integer.
    EnumValueTag,
    /// A function kind that the type's kind does not admit.
    FunctionKind,
    /// An invocation kind other than call, property-get, property-put and
    /// property-putref.
    InvokeKind,
    /// A property-get with an explicit return-value parameter whose declared
    /// return type is not the status code, or whose return-value parameter is
    /// not a pointer.
    ReturnValue,
    /// A dispatch type whose parents are not exactly the base late-bound
    /// interface.
    DispatchParent,
    /// A member or a referenced type that has to be read where no error can
    /// be passed on, and that could not be got.
    Unavailable,
    /// A parameter type for which no tagged-value slot is known.
    ArgumentType,
    /// A union alignment other than 4 or 8 bytes.
    Alignment,
    /// A union whose backing storage would have no element.
    InstanceSize,
    /// A type kind outside the eight known ones.
    TypeKind,
    /// A sum or a counter that leaves its integer type.
    Overflow,
}

/// The reason for which a pass stopped.
#[derive(Clone, Copy, Debug, PartialEq, Eq, Structural)]
pub enum Halt {
    /// A native call failed with an error that is not recoverable.
    Failed(Error),
    /// The description has a shape that the generator does not understand.
    Defect(Defect),
}

/// What a status code means: success for the zero code, else the error that
/// carries the code.
pub open spec fn spec_to_result(hr: i32) -> Result<(), Error> {
    if hr == codes::S_OK {
        Ok(())
    } else {
        Err(Error::HResult(hr))
    }
}

/// Maps the status code of a native call to a result.
pub fn to_result(hr: i32) -> (r: Result<(), Error>)
    ensures
        r == spec_to_result(hr),
{
    if hr == codes::S_OK {
        Ok(())
    } else {
        Err(Error::HResult(hr))
    }
}

impl Error {
    /// The text that describes the error: a readable label for the code that
    /// says that a type library cannot be loaded, else the code as eight
    /// hexadecimal digits of its unsigned 32-bit form.
    pub open spec fn spec_message(self) -> Seq<char> {
        match self {
            Error::HResult(hr) => if hr == codes::TYPE_E_CANTLOADLIBRARY {
                "TYPE_E_CANTLOADLIBRARY"@
            } else {
                "HRESULT 0x"@ + text::hex_digits(text::unsigned32(hr), 8)
            },
        }
    }

    /// The text that describes the error.
    pub fn message(&self) -> (s: String)
        ensures
            s@ == self.spec_message(),
    {
        match self {
            Error::HResult(hr) => {
                if *hr == codes::TYPE_E_CANTLOADLIBRARY {
                    String::from_str("TYPE_E_CANTLOADLIBRARY")
                } else {
                    let mut s = String::from_str("HRESULT 0x");
                    text::push_hex32(&mut s, *hr);
                    s
                }
            },
        }
    }
}

} // verus!
