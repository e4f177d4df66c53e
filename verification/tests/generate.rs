use winapi_tlb_bindgen::codes;
use winapi_tlb_bindgen::{
    build, emit_described_type, emit_type, emit_type_slot, try_build, BString, BuildResult, Defect,
    ElemDesc, Error, Field, Guid, Halt, ReferencedType, TypeAttr, TypeDesc, TypeInfo, TypeLib, Var,
    VarDesc, Variant,
};

fn known(vt: u16) -> TypeDesc {
    TypeDesc::WellKnown(vt)
}

fn described(type_name_text: &str, typekind: u32) -> TypeInfo {
    TypeInfo::new(
        Some(type_name_text.to_string()),
        TypeAttr {
            guid: Guid { data1: 1, data2: 2, data3: 3, data4: [4, 5, 6, 7, 8, 9, 10, 11] },
            size_instance: 4,
            typekind,
            size_vft: 0,
            alignment: 4,
            tdesc_alias: known(codes::VT_UI1),
        },
    )
}

fn color() -> TypeInfo {
    let mut color = described("Color", codes::TKIND_ENUM);
    for (member, value) in [("RED", 0), ("GREEN", 1), ("BLUE", -1)] {
        color.vars.push(Ok(Var::new(
            VarDesc {
                memid: 0,
                elemdesc_var: ElemDesc { tdesc: known(codes::VT_I4), param_flags: 0 },
                value: Variant { vt: codes::VT_I4, l_val: value },
            },
            Some(member.to_string()),
            1,
        )));
    }
    color
}

fn record_with(field_type: TypeDesc) -> TypeInfo {
    let mut record = described("Holder", codes::TKIND_RECORD);
    record.fields.push(Ok(Field::new(
        VarDesc {
            memid: 0,
            elemdesc_var: ElemDesc { tdesc: field_type, param_flags: 0 },
            value: Variant { vt: 0, l_val: 0 },
        },
        Some("held".to_string()),
        1,
    )));
    record
}

fn missing() -> TypeDesc {
    TypeDesc::UserDefined {
        handle: 1,
        target: Err(Error::HResult(codes::TYPE_E_CANTLOADLIBRARY)),
    }
}

fn dispatch(type_name_text: &str) -> TypeInfo {
    let mut events = described(type_name_text, codes::TKIND_DISPATCH);
    events.parents.push(Ok(ReferencedType {
        name: BString::attach(Some("IDispatch".to_string())),
        size_instance: 8,
        size_vft: (7 * std::mem::size_of::<usize>()) as u16,
    }));
    events
}

const UUID_LINE: &str =
    "RIDL!{#[uuid(0x00000001, 0x0002, 0x0003, 0x04, 0x05, 0x06, 0x07, 0x08, 0x09, 0x0a, 0x0b)]\n";
const COLOR: &str =
    "ENUM!{enum Color {\n    RED = 0,\n    GREEN = 1,\n    BLUE = 0xffffffff,\n}}\n\n";

#[test]
fn empty_library_writes_nothing() {
    let mut out = String::new();
    let build_result = build(&TypeLib::new(vec![]), true, &mut out).unwrap();
    assert_eq!(out, "");
    assert_eq!(build_result.num_missing_types, 0);
    assert_eq!(build_result.num_types_not_found, 0);
    assert!(build_result.skipped_dispinterfaces.is_empty());
    assert!(build_result.skipped_dispinterface_of_dual_interfaces.is_empty());
}

#[test]
fn library_blocks_follow_each_other_in_order() {
    let mut alias = described("Byte", codes::TKIND_ALIAS);
    alias.type_attr.tdesc_alias = known(codes::VT_UI1);
    let type_lib = TypeLib::new(vec![Ok(color()), Ok(alias), Ok(record_with(known(3)))]);
    let mut out = String::from("// generated\n");
    let build_result = build(&type_lib, false, &mut out).unwrap();
    assert_eq!(
        out,
        format!(
            "// generated\n{}pub type Byte = u8;\n\nSTRUCT!{{struct Holder {{\n    held: i32,\n}}}}\n\n",
            COLOR
        )
    );
    assert_eq!(build_result.num_missing_types, 0);
    assert_eq!(build_result.num_types_not_found, 0);
}

#[test]
fn library_that_refers_to_an_unregistered_library_completes() {
    let type_lib = TypeLib::new(vec![
        Ok(color()),
        Err(Error::HResult(codes::TYPE_E_CANTLOADLIBRARY)),
        Ok(record_with(missing())),
        Err(Error::HResult(codes::TYPE_E_CANTLOADLIBRARY)),
    ]);
    let mut out = String::new();
    let build_result = build(&type_lib, false, &mut out).unwrap();
    assert!(build_result.num_types_not_found >= 1);
    assert_eq!(build_result.num_types_not_found, 2);
    assert_eq!(build_result.num_missing_types, 1);
    assert_eq!(
        out,
        format!("{}STRUCT!{{struct Holder {{\n    held: __missing_type__,\n}}}}\n\n", COLOR)
    );
}

#[test]
fn type_that_could_not_be_got_otherwise_ends_the_pass() {
    let type_lib = TypeLib::new(vec![
        Ok(color()),
        Err(Error::HResult(-2147467259)),
        Ok(color()),
    ]);
    let mut out = String::new();
    assert_eq!(build(&type_lib, false, &mut out).unwrap_err(), Error::HResult(-2147467259));
    assert_eq!(out, COLOR);
    let mut out = String::new();
    assert_eq!(
        try_build(&type_lib, false, &mut out).unwrap_err(),
        Halt::Failed(Error::HResult(-2147467259))
    );
    assert_eq!(out, COLOR);
}

#[test]
fn element_not_found_for_a_type_ends_the_pass() {
    let type_lib = TypeLib::new(vec![Err(Error::HResult(codes::TYPE_E_ELEMENTNOTFOUND))]);
    let mut out = String::new();
    assert_eq!(
        build(&type_lib, true, &mut out).unwrap_err(),
        Error::HResult(codes::TYPE_E_ELEMENTNOTFOUND)
    );
}

#[test]
fn error_inside_a_type_ends_the_pass_with_what_was_written() {
    let failing = TypeDesc::UserDefined { handle: 1, target: Err(Error::HResult(-5)) };
    let type_lib = TypeLib::new(vec![Ok(color()), Ok(record_with(failing)), Ok(color())]);
    let mut out = String::new();
    assert_eq!(build(&type_lib, false, &mut out).unwrap_err(), Error::HResult(-5));
    assert_eq!(out, format!("{}STRUCT!{{struct Holder {{\n", COLOR));
}

#[test]
fn defect_ends_the_pass() {
    let type_lib = TypeLib::new(vec![Ok(color()), Ok(record_with(known(0))), Ok(color())]);
    let mut out = String::new();
    assert_eq!(
        try_build(&type_lib, false, &mut out).unwrap_err(),
        Halt::Defect(Defect::UnknownVartype)
    );
    assert_eq!(out, format!("{}STRUCT!{{struct Holder {{\n", COLOR));
}

#[test]
fn unknown_kind_is_a_defect() {
    for typekind in [8u32, 9, 100, u32::MAX] {
        let mut out = String::new();
        let mut build_result = BuildResult::new();
        assert_eq!(
            emit_type(&described("Odd", typekind), true, &mut out, &mut build_result),
            Err(Halt::Defect(Defect::TypeKind))
        );
        assert_eq!(out, "");
    }
}

#[test]
fn each_kind_has_its_block() {
    let mut out = String::new();
    let mut build_result = BuildResult::new();
    assert_eq!(
        emit_type(&described("E", codes::TKIND_ENUM), true, &mut out, &mut build_result),
        Ok(())
    );
    assert_eq!(
        emit_type(&described("R", codes::TKIND_RECORD), true, &mut out, &mut build_result),
        Ok(())
    );
    assert_eq!(
        emit_type(&described("M", codes::TKIND_MODULE), true, &mut out, &mut build_result),
        Ok(())
    );
    assert_eq!(
        emit_type(&described("I", codes::TKIND_INTERFACE), true, &mut out, &mut build_result),
        Ok(())
    );
    assert_eq!(emit_type(&dispatch("D"), true, &mut out, &mut build_result), Ok(()));
    assert_eq!(
        emit_type(&described("C", codes::TKIND_COCLASS), true, &mut out, &mut build_result),
        Ok(())
    );
    assert_eq!(
        emit_type(&described("A", codes::TKIND_ALIAS), true, &mut out, &mut build_result),
        Ok(())
    );
    assert_eq!(
        emit_type(&described("U", codes::TKIND_UNION), true, &mut out, &mut build_result),
        Ok(())
    );
    assert_eq!(
        out,
        format!(
            "ENUM!{{enum E {{\n}}}}\n\nSTRUCT!{{struct R {{\n}}}}\n\n\n{uuid}interface I(IVtbl) {{\n}}}}\n\n{uuid}interface D(DVtbl): IDispatch(IDispatchVtbl) {{\n}}}}\n\nimpl D {{\n}}\n\n{uuid}class C; }}\n\npub type A = u8;\n\nUNION2!{{union U {{\n    u32,\n}}}}\n\n",
            uuid = UUID_LINE
        )
    );
}

#[test]
fn dispatch_type_is_skipped_where_dispatch_types_are_not_emitted() {
    let type_lib = TypeLib::new(vec![Ok(dispatch("IEvents")), Ok(color()), Ok(dispatch("IMore"))]);
    let mut out = String::new();
    let build_result = build(&type_lib, false, &mut out).unwrap();
    assert_eq!(out, COLOR);
    assert_eq!(
        build_result.skipped_dispinterfaces,
        vec!["IEvents".to_string(), "IMore".to_string()]
    );
    assert!(build_result.skipped_dispinterface_of_dual_interfaces.is_empty());
}

#[test]
fn skipped_dispatch_type_is_not_looked_at() {
    let mut odd = described("IOdd", codes::TKIND_DISPATCH);
    odd.functions.push(Err(Error::HResult(-1)));
    let mut out = String::new();
    let build_result = build(&TypeLib::new(vec![Ok(odd)]), false, &mut out).unwrap();
    assert_eq!(out, "");
    assert_eq!(build_result.skipped_dispinterfaces, vec!["IOdd".to_string()]);
}

#[test]
fn dispatch_type_is_emitted_where_dispatch_types_are_emitted() {
    let type_lib = TypeLib::new(vec![Ok(dispatch("IEvents"))]);
    let mut out = String::new();
    let build_result = build(&type_lib, true, &mut out).unwrap();
    assert_eq!(
        out,
        format!(
            "{}interface IEvents(IEventsVtbl): IDispatch(IDispatchVtbl) {{\n}}}}\n\nimpl IEvents {{\n}}\n\n",
            UUID_LINE
        )
    );
    assert!(build_result.skipped_dispinterfaces.is_empty());
    assert!(build_result.skipped_dispinterface_of_dual_interfaces.is_empty());
}

#[test]
fn dual_interface_is_replaced_by_its_vtable_interface() {
    for emit_dispinterfaces in [false, true] {
        let mut half = dispatch("DFoo");
        let mut interface = described("IFoo", codes::TKIND_INTERFACE);
        interface.parents.push(Ok(ReferencedType {
            name: BString::attach(Some("IDispatch".to_string())),
            size_instance: 8,
            size_vft: 56,
        }));
        half.interface_of_dispinterface = Ok(Box::new(interface));
        let mut out = String::new();
        let build_result =
            build(&TypeLib::new(vec![Ok(half)]), emit_dispinterfaces, &mut out).unwrap();
        assert_eq!(
            out,
            format!("{}interface IFoo(IFooVtbl): IDispatch(IDispatchVtbl) {{\n}}}}\n\n", UUID_LINE)
        );
        assert_eq!(
            build_result.skipped_dispinterface_of_dual_interfaces,
            vec!["DFoo".to_string()]
        );
        assert!(build_result.skipped_dispinterfaces.is_empty());
    }
}

#[test]
fn dual_interface_whose_other_half_is_a_dispatch_type() {
    let mut half = dispatch("DFoo");
    half.interface_of_dispinterface = Ok(Box::new(dispatch("DBar")));
    let mut out = String::new();
    let mut build_result = BuildResult::new();
    assert_eq!(emit_described_type(&half, false, &mut out, &mut build_result), Ok(()));
    assert_eq!(out, "");
    assert_eq!(build_result.skipped_dispinterface_of_dual_interfaces, vec!["DFoo".to_string()]);
    assert_eq!(build_result.skipped_dispinterfaces, vec!["DBar".to_string()]);
}

#[test]
fn probe_that_fails_otherwise_ends_the_pass() {
    let mut half = dispatch("DFoo");
    half.interface_of_dispinterface = Err(Error::HResult(codes::TYPE_E_CANTLOADLIBRARY));
    let mut out = String::new();
    let mut build_result = BuildResult::new();
    assert_eq!(
        emit_described_type(&half, true, &mut out, &mut build_result),
        Err(Halt::Failed(Error::HResult(codes::TYPE_E_CANTLOADLIBRARY)))
    );
    assert_eq!(out, "");
    assert!(build_result.skipped_dispinterface_of_dual_interfaces.is_empty());
    assert_eq!(build_result.num_types_not_found, 0);
}

#[test]
fn probe_is_read_for_dispatch_types_only() {
    let mut enumeration = color();
    enumeration.interface_of_dispinterface = Err(Error::HResult(-1));
    let mut out = String::new();
    let mut build_result = BuildResult::new();
    assert_eq!(emit_described_type(&enumeration, true, &mut out, &mut build_result), Ok(()));
    assert_eq!(out, COLOR);
    let mut record = record_with(known(codes::VT_I4));
    record.interface_of_dispinterface = Ok(Box::new(color()));
    let mut out = String::new();
    assert_eq!(emit_described_type(&record, true, &mut out, &mut build_result), Ok(()));
    assert_eq!(out, "STRUCT!{struct Holder {\n    held: i32,\n}}\n\n");
    assert!(build_result.skipped_dispinterface_of_dual_interfaces.is_empty());
}

#[test]
fn slot_of_a_type_not_found_is_counted_and_passed_over() {
    let mut out = String::from("x");
    let mut build_result = BuildResult::new();
    for seen in 1usize..=3 {
        assert_eq!(
            emit_type_slot(
                &Err(Error::HResult(codes::TYPE_E_CANTLOADLIBRARY)),
                true,
                &mut out,
                &mut build_result
            ),
            Ok(())
        );
        assert_eq!(build_result.num_types_not_found, seen);
    }
    assert_eq!(out, "x");
    assert_eq!(build_result.num_missing_types, 0);
}

#[test]
fn slot_with_a_type_emits_it() {
    let mut out = String::new();
    let mut build_result = BuildResult::new();
    assert_eq!(emit_type_slot(&Ok(color()), true, &mut out, &mut build_result), Ok(()));
    assert_eq!(out, COLOR);
}

#[test]
fn statistics_add_up_over_the_library() {
    let type_lib = TypeLib::new(vec![
        Ok(record_with(missing())),
        Ok(dispatch("IA")),
        Err(Error::HResult(codes::TYPE_E_CANTLOADLIBRARY)),
        Ok(record_with(TypeDesc::Pointer(Box::new(missing())))),
        Ok(record_with(missing())),
    ]);
    let mut out = String::new();
    let build_result = try_build(&type_lib, false, &mut out).unwrap();
    assert_eq!(build_result.num_missing_types, 3);
    assert_eq!(build_result.num_types_not_found, 1);
    assert_eq!(build_result.skipped_dispinterfaces, vec!["IA".to_string()]);
    assert_eq!(out.matches("__missing_type__").count(), 3);
}
