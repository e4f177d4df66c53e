//! What holds of every type library, stated over the functions that say
//! what a pass writes.

use vstd::prelude::*;
use crate::codes;
use crate::emit::enums::{enum_block, enum_member, enum_members, enum_value_text};
use crate::emit::interfaces::{
    interface_function, interface_functions, interface_members, interface_properties,
    is_inherited, parents_vtable_size,
};
use crate::emit::lines::member_line;
use crate::error::{Defect, Error, Halt};
use crate::frame::law_type_block_frame;
use crate::generate::{agree, described_type, spec_reads, type_block, type_slot};
use crate::pass::{BuildResultView, Pass};
use crate::resolve::{is_in_only, resolve, resolved_text, sanitized, Resolved, MISSING_TYPE};
use crate::text;
use crate::types::{Function, TypeDesc, TypeInfo, Var};

verus! {

/// The value of an enumerator that is not negative is written in decimal;
/// a negative one is written as `0x` and the eight hexadecimal digits of
/// the number that has the same 32 bits and no sign.
pub proof fn law_enum_value_text(value: i32)
    ensures
        value >= 0 ==> enum_value_text(value) == text::decimal_digits(value as nat),
        value < 0 ==> enum_value_text(value) == "0x"@ + text::hex_digits(
            (value + 0x1_0000_0000) as nat,
            8,
        ),
        text::hex_digits(text::unsigned32(value), 8).len() == 8,
{
    lemma_hex_digits_len(text::unsigned32(value), 8);
}

/// Hexadecimal digits of a fixed width are as many as the width.
pub proof fn lemma_hex_digits_len(n: nat, width: nat)
    ensures
        text::hex_digits(n, width).len() == width,
    decreases width,
{
    if width > 0 {
        lemma_hex_digits_len(n / 16, (width - 1) as nat);
    }
}

/// Every enumerator whose value is tagged as a 4-byte integer is written as
/// one line: its sanitized name and its value. An enumerator with another
/// tag ends the pass with a defect.
pub proof fn law_enum_member(st: Pass, var: Var)
    requires
        st.halt is None,
    ensures
        var.desc.value.vt == codes::VT_I4 ==> enum_member(st, Ok(var)) == (Pass {
            text: st.text + "    "@ + sanitized(var.name@) + " = "@ + enum_value_text(
                var.desc.value.l_val,
            ) + ",\n"@,
            ..st
        }),
        var.desc.value.vt != codes::VT_I4 ==> enum_member(st, Ok(var)).halt == Some(
            Halt::Defect(Defect::EnumValueTag),
        ),
{
}

/// The line of one enumerator: its sanitized name and its value.
pub open spec fn enum_line(var: Var) -> Seq<char> {
    "    "@ + sanitized(var.name@) + " = "@ + enum_value_text(var.desc.value.l_val) + ",\n"@
}

/// The lines of the first `n` enumerators, in order.
pub open spec fn enum_lines(members: Seq<Result<Var, Error>>, n: int) -> Seq<char>
    decreases n,
{
    if n <= 0 {
        Seq::empty()
    } else {
        enum_lines(members, n - 1) + enum_line(members[n - 1]->Ok_0)
    }
}

/// Whether every enumerator is there and has a value that is tagged as a
/// 4-byte integer.
pub open spec fn enum_is_whole(members: Seq<Result<Var, Error>>) -> bool {
    forall|i: int|
        0 <= i < members.len() ==> (#[trigger] members[i] matches Ok(var) && var.desc.value.vt
            == codes::VT_I4)
}

/// From any place on, the enumerators that are left are written as their
/// lines behind the lines of those before them.
pub proof fn lemma_enum_members_are_lines(
    st: Pass,
    before: Seq<char>,
    members: Seq<Result<Var, Error>>,
    i: int,
)
    requires
        st.halt is None,
        0 <= i <= members.len(),
        enum_is_whole(members),
        st.text == before + enum_lines(members, i),
    ensures
        enum_members(st, members, i) == (Pass {
            text: before + enum_lines(members, members.len() as int),
            ..st
        }),
    decreases members.len() - i,
{
    if i < members.len() {
        let next = enum_member(st, members[i]);
        assert(members[i] is Ok);
        assert(next.text =~= before + enum_lines(members, i + 1));
        lemma_enum_members_are_lines(next, before, members, i + 1);
    }
}

/// The block of an enumeration whose enumerators are all there, each with
/// a value that is tagged as a 4-byte integer, is its opening line, one
/// line for each enumerator in their order, and its closing lines. Nothing
/// is counted.
pub proof fn law_enum_block_text(st: Pass, type_info: TypeInfo)
    requires
        st.halt is None,
        enum_is_whole(type_info.vars@),
    ensures
        enum_block(st, type_info) == (Pass {
            text: st.text + "ENUM!{enum "@ + type_info.name@ + " {\n"@ + enum_lines(
                type_info.vars@,
                type_info.vars@.len() as int,
            ) + "}}\n"@ + "\n"@,
            ..st
        }),
{
    let begun = st.write("ENUM!{enum "@).write(type_info.name@).write(" {\n"@);
    assert(begun.text =~= begun.text + enum_lines(type_info.vars@, 0));
    lemma_enum_members_are_lines(begun, begun.text, type_info.vars@, 0);
}

/// Whether an element of the functions of an interface is declared by the
/// interface itself: it is not a function whose slot lies below the
/// boundary.
pub open spec fn declared_here(boundary: int) -> spec_fn(Result<Function, Error>) -> bool {
    |function: Result<Function, Error>|
        !(function matches Ok(function) && is_inherited(function, boundary))
}

/// A pass that has stopped stays as it is over the functions of an
/// interface.
pub proof fn lemma_stopped_interface_functions(
    st: Pass,
    functions: Seq<Result<Function, Error>>,
    boundary: int,
    i: int,
)
    requires
        st.halt is Some,
    ensures
        interface_functions(st, functions, boundary, i) == st,
{
}

/// The functions behind a prefix are written as they are written alone.
pub proof fn lemma_interface_functions_behind(
    st: Pass,
    before: Seq<Result<Function, Error>>,
    functions: Seq<Result<Function, Error>>,
    boundary: int,
    i: int,
)
    requires
        0 <= i <= functions.len(),
    ensures
        interface_functions(st, before + functions, boundary, before.len() + i)
            == interface_functions(st, functions, boundary, i),
    decreases functions.len() - i,
{
    if i < functions.len() {
        assert((before + functions)[before.len() + i] == functions[i]);
        let next = interface_function(st, functions[i], boundary);
        if next.halt is None {
            lemma_interface_functions_behind(next, before, functions, boundary, i + 1);
        }
    }
}

/// From any place on, the functions of an interface are written as the
/// functions among them that the interface declares itself are written
/// where nothing is inherited.
pub proof fn lemma_interface_functions_from(
    st: Pass,
    functions: Seq<Result<Function, Error>>,
    boundary: int,
    i: int,
)
    requires
        0 <= i <= functions.len(),
    ensures
        interface_functions(st, functions, boundary, i) == interface_functions(
            st,
            functions.skip(i).filter(declared_here(boundary)),
            0,
            0,
        ),
    decreases functions.len() - i,
{
    let declared = declared_here(boundary);
    if st.halt is Some {
        lemma_stopped_interface_functions(st, functions, boundary, i);
        lemma_stopped_interface_functions(st, functions.skip(i).filter(declared), 0, 0);
    } else if i >= functions.len() {
        reveal_with_fuel(Seq::filter, 1);
        assert(functions.skip(i).len() == 0);
        assert(functions.skip(i).filter(declared).len() == 0);
    } else {
        let first = functions[i];
        let rest = functions.skip(i + 1);
        assert(functions.skip(i) =~= seq![first] + rest);
        Seq::filter_distributes_over_add(seq![first], rest, declared);
        assert(seq![first].filter(declared) =~= if declared(first) {
            seq![first]
        } else {
            Seq::empty()
        }) by {
            reveal_with_fuel(Seq::filter, 2);
            assert(seq![first].drop_last() =~= Seq::empty());
        }
        if declared(first) {
            let kept = seq![first] + rest.filter(declared);
            assert(functions.skip(i).filter(declared) == kept);
            let next = interface_function(st, first, boundary);
            assert(next == interface_function(st, kept[0], 0));
            if next.halt is None {
                lemma_interface_functions_behind(next, seq![first], rest.filter(declared), 0, 0);
                lemma_interface_functions_from(next, functions, boundary, i + 1);
            }
        } else {
            assert(functions.skip(i).filter(declared) =~= rest.filter(declared));
            lemma_interface_functions_from(st, functions, boundary, i + 1);
        }
    }
}

/// The functions that an interface block holds are exactly the functions
/// whose slot in the virtual function table does not lie below the sum of
/// the sizes of the parents' tables, each once and in their order: the
/// functions are written as those among them would be written for an
/// interface that inherits nothing.
pub proof fn law_inherited_functions_left_out(
    st: Pass,
    functions: Seq<Result<Function, Error>>,
    boundary: int,
)
    ensures
        interface_functions(st, functions, boundary, 0) == interface_functions(
            st,
            functions.filter(declared_here(boundary)),
            0,
            0,
        ),
{
    lemma_interface_functions_from(st, functions, boundary, 0);
    assert(functions.skip(0) =~= functions);
}

/// For every interface, the functions that its block holds are exactly the
/// functions whose slot does not lie below the sum of the sizes of its
/// parents' virtual function tables, each once and in their order: its
/// members are written as the members of an interface without inherited
/// functions that lists those functions alone.
pub proof fn law_interface_declares_own_functions(st: Pass, type_info: TypeInfo)
    ensures
        interface_members(st, type_info) == interface_properties(
            interface_functions(
                st,
                type_info.functions@.filter(
                    declared_here(
                        parents_vtable_size(type_info.parents@, type_info.parents@.len() as int),
                    ),
                ),
                0,
                0,
            ),
            type_info.fields@,
            0,
        ),
{
    law_inherited_functions_left_out(
        st,
        type_info.functions@,
        parents_vtable_size(type_info.parents@, type_info.parents@.len() as int),
    );
}

/// An inherited function writes nothing and counts nothing.
pub proof fn law_inherited_function_writes_nothing(st: Pass, function: Function, boundary: int)
    requires
        is_inherited(function, boundary),
    ensures
        interface_function(st, Ok(function), boundary) == st,
{
}

/// The code of the 4-byte signed integer resolves to the name of the 32-bit
/// signed integer, whatever the direction flags.
pub proof fn law_long_is_i32(param_flags: u32)
    ensures
        resolve(TypeDesc::WellKnown(codes::VT_I4), param_flags) == Ok::<Resolved, Halt>(
            Resolved { text: "i32"@, missing: false },
        ),
{
}

/// A pointer resolves to what its pointee resolves to behind a pointer:
/// an immutable one where the flags mark the parameter as going in and not
/// out, a mutable one under any other flags.
pub proof fn law_pointer_direction(pointee: TypeDesc, param_flags: u32)
    ensures
        resolve(TypeDesc::Pointer(Box::new(pointee)), param_flags) == match resolve(
            pointee,
            param_flags,
        ) {
            Ok(resolved) => Ok::<Resolved, Halt>(
                Resolved {
                    text: if is_in_only(param_flags) {
                        "*const "@
                    } else {
                        "*mut "@
                    } + resolved.text,
                    missing: resolved.missing,
                },
            ),
            Err(halt) => Err(halt),
        },
{
}

/// Of the direction flags in, out, both and none, only in alone marks a
/// parameter as going in only; a mark as the return value changes nothing
/// of it.
pub proof fn law_in_only_flags()
    ensures
        is_in_only(codes::PARAMFLAG_FIN),
        !is_in_only(codes::PARAMFLAG_FOUT),
        !is_in_only(codes::PARAMFLAG_FIN | codes::PARAMFLAG_FOUT),
        !is_in_only(codes::PARAMFLAG_NONE),
        !is_in_only(codes::PARAMFLAG_FOUT | codes::PARAMFLAG_FRETVAL),
{
    assert(1u32 & 1u32 == 1u32 && 1u32 & 2u32 == 0u32) by (bit_vector);
    assert(2u32 & 1u32 == 0u32) by (bit_vector);
    assert((1u32 | 2u32) & 2u32 == 2u32) by (bit_vector);
    assert(0u32 & 1u32 == 0u32) by (bit_vector);
    assert((2u32 | 8u32) & 1u32 == 0u32) by (bit_vector);
}

/// A reference to a type whose library cannot be loaded.
pub open spec fn missing_reference(handle: u32) -> TypeDesc {
    TypeDesc::UserDefined {
        handle,
        target: Err(Error::HResult(codes::TYPE_E_CANTLOADLIBRARY)),
    }
}

/// Each occurrence of a reference to a type whose library cannot be loaded
/// resolves to the placeholder and adds exactly one to the count of missing
/// types; nothing else of the state changes.
pub proof fn law_missing_reference(st: Pass, handle: u32, param_flags: u32)
    requires
        st.halt is None,
        st.result.num_missing_types < usize::MAX,
    ensures
        resolved_text(missing_reference(handle), param_flags) == MISSING_TYPE@,
        st.resolve(missing_reference(handle), param_flags) == (Pass {
            result: BuildResultView {
                num_missing_types: st.result.num_missing_types + 1,
                ..st.result
            },
            ..st
        }),
{
}

/// Two members that refer to the same missing type are written with the
/// placeholder once each, and the count of missing types grows by two: the
/// occurrences are not taken together.
pub proof fn law_missing_reference_counted_each_time(
    st: Pass,
    indent: Seq<char>,
    first: Seq<char>,
    second: Seq<char>,
    handle: u32,
    param_flags: u32,
)
    requires
        st.halt is None,
        st.result.num_missing_types + 1 < usize::MAX,
    ensures
        member_line(
            member_line(st, indent, first, missing_reference(handle), param_flags),
            indent,
            second,
            missing_reference(handle),
            param_flags,
        ) == (Pass {
            text: st.text + indent + first + ": "@ + MISSING_TYPE@ + ",\n"@ + indent + second
                + ": "@ + MISSING_TYPE@ + ",\n"@,
            result: BuildResultView {
                num_missing_types: st.result.num_missing_types + 2,
                ..st.result
            },
            ..st
        }),
{
}

/// A dispatch type for which a vtable interface was found is replaced by
/// that interface, and its own name is added once to the list of the dual
/// interfaces whose late-bound half was left out.
pub proof fn law_dual_interface_replaced(
    st: Pass,
    type_info: TypeInfo,
    interface: TypeInfo,
    emit_dispinterfaces: bool,
)
    requires
        st.halt is None,
        type_info.type_attr.typekind == codes::TKIND_DISPATCH,
        type_info.interface_of_dispinterface == Ok::<Box<TypeInfo>, Error>(Box::new(interface)),
    ensures
        described_type(st, type_info, emit_dispinterfaces) == type_block(
            Pass {
                result: BuildResultView {
                    skipped_dispinterface_of_dual_interfaces:
                        st.result.skipped_dispinterface_of_dual_interfaces.push(type_info.name@),
                    ..st.result
                },
                ..st
            },
            interface,
            emit_dispinterfaces,
        ),
{
}

/// Where the late-bound half of a dual interface is replaced, its name is
/// recorded exactly once: behind the declarations of the vtable interface
/// the list of the replaced halves is the list before them with the name
/// added at its end.
pub proof fn law_dual_interface_recorded_once(
    st: Pass,
    type_info: TypeInfo,
    interface: TypeInfo,
    emit_dispinterfaces: bool,
)
    requires
        st.halt is None,
        type_info.type_attr.typekind == codes::TKIND_DISPATCH,
        type_info.interface_of_dispinterface == Ok::<Box<TypeInfo>, Error>(Box::new(interface)),
    ensures
        described_type(
            st,
            type_info,
            emit_dispinterfaces,
        ).result.skipped_dispinterface_of_dual_interfaces
            == st.result.skipped_dispinterface_of_dual_interfaces.push(type_info.name@),
{
    law_type_block_frame(
        st.record((st.result.skipped_dual_half(type_info.name@), None)),
        interface,
        emit_dispinterfaces,
    );
}

/// A dispatch type for which the vtable interface was not found is handled
/// as a dispatch type of its own, and is not recorded as a half of a dual
/// interface.
pub proof fn law_plain_dispatch_kept(st: Pass, type_info: TypeInfo, emit_dispinterfaces: bool)
    requires
        type_info.type_attr.typekind == codes::TKIND_DISPATCH,
        type_info.interface_of_dispinterface == Err::<Box<TypeInfo>, Error>(
            Error::HResult(codes::TYPE_E_ELEMENTNOTFOUND),
        ),
    ensures
        described_type(st, type_info, emit_dispinterfaces) == type_block(
            st,
            type_info,
            emit_dispinterfaces,
        ),
{
}

/// The declarations of a described type are made of its name and of the
/// parts that its kind reads, and of nothing else: two types that agree in
/// these are written alike.
pub proof fn law_only_what_is_read(st: Pass, a: TypeInfo, b: TypeInfo, emit_dispinterfaces: bool)
    requires
        agree(a, b, spec_reads(a.type_attr.typekind, emit_dispinterfaces)),
    ensures
        type_block(st, a, emit_dispinterfaces) == type_block(st, b, emit_dispinterfaces),
{
}

/// A type that could not be got because its library cannot be loaded is
/// passed over: it adds one to the count of the types not found and leaves
/// the text as it is.
pub proof fn law_type_not_found_counted(st: Pass, emit_dispinterfaces: bool)
    requires
        st.halt is None,
        st.result.num_types_not_found < usize::MAX,
    ensures
        type_slot(
            st,
            Err(Error::HResult(codes::TYPE_E_CANTLOADLIBRARY)),
            emit_dispinterfaces,
        ) == (Pass {
            result: BuildResultView {
                num_types_not_found: st.result.num_types_not_found + 1,
                ..st.result
            },
            ..st
        }),
{
}

} // verus!
