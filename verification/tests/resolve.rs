use winapi_tlb_bindgen::codes;
use winapi_tlb_bindgen::{
    sanitize_reserved, try_type_to_string, try_vartype_mutator, type_to_string, vartype_mutator,
    well_known_type_name, well_known_type_to_string, BString, BuildResult, Defect, Error, Halt,
    ReferencedType, TypeDesc,
};

fn name(s: &str) -> BString {
    BString::attach(Some(s.to_string()))
}

fn pointer(inner: TypeDesc) -> TypeDesc {
    TypeDesc::Pointer(Box::new(inner))
}

fn array(element: TypeDesc, dimensions: u16, bound: u32) -> TypeDesc {
    TypeDesc::FixedArray { element: Box::new(element), dimensions, bound }
}

fn reference(target: &str, size_instance: u32) -> TypeDesc {
    TypeDesc::UserDefined {
        handle: 7,
        target: Ok(ReferencedType { name: name(target), size_instance, size_vft: 0 }),
    }
}

fn failed_reference(hr: i32) -> TypeDesc {
    TypeDesc::UserDefined { handle: 9, target: Err(Error::HResult(hr)) }
}

const IN: u32 = codes::PARAMFLAG_FIN;
const OUT: u32 = codes::PARAMFLAG_FOUT;

#[test]
fn attached_name_reads_back() {
    let attached = BString::attach(Some("IFoo".to_string()));
    assert_eq!(attached.as_str(), "IFoo");
    assert_eq!(attached.to_string(), "IFoo");
}

#[test]
fn attached_name_may_be_empty_or_not_ascii() {
    assert_eq!(BString::attach(Some(String::new())).to_string(), "");
    assert_eq!(BString::attach(Some("Größe".to_string())).to_string(), "Größe");
}

#[test]
fn reserved_words_get_an_underscore() {
    assert_eq!(sanitize_reserved(&name("impl")), "impl_");
    assert_eq!(sanitize_reserved(&name("type")), "type_");
}

#[test]
fn other_names_stay_as_they_are() {
    assert_eq!(sanitize_reserved(&name("value")), "value");
    assert_eq!(sanitize_reserved(&name("Type")), "Type");
    assert_eq!(sanitize_reserved(&name("impl_")), "impl_");
    assert_eq!(sanitize_reserved(&name("types")), "types");
    assert_eq!(sanitize_reserved(&name("")), "");
    assert_eq!(sanitize_reserved(&name("fn")), "fn");
}

#[test]
fn well_known_table_has_every_listed_code() {
    let table: [(u16, &str); 26] = [
        (codes::VT_I2, "i16"),
        (codes::VT_I4, "i32"),
        (codes::VT_R4, "f32"),
        (codes::VT_R8, "f64"),
        (codes::VT_CY, "CY"),
        (codes::VT_DATE, "DATE"),
        (codes::VT_BSTR, "BSTR"),
        (codes::VT_DISPATCH, "LPDISPATCH"),
        (codes::VT_ERROR, "SCODE"),
        (codes::VT_BOOL, "VARIANT_BOOL"),
        (codes::VT_VARIANT, "VARIANT"),
        (codes::VT_UNKNOWN, "LPUNKNOWN"),
        (codes::VT_DECIMAL, "DECIMAL"),
        (codes::VT_I1, "i8"),
        (codes::VT_UI1, "u8"),
        (codes::VT_UI2, "u16"),
        (codes::VT_UI4, "u32"),
        (codes::VT_I8, "i64"),
        (codes::VT_UI8, "u64"),
        (codes::VT_INT, "INT"),
        (codes::VT_UINT, "UINT"),
        (codes::VT_VOID, "c_void"),
        (codes::VT_HRESULT, "HRESULT"),
        (codes::VT_SAFEARRAY, "SAFEARRAY"),
        (codes::VT_LPSTR, "LPSTR"),
        (codes::VT_LPWSTR, "LPCWSTR"),
    ];
    for (vt, expected) in table {
        assert_eq!(well_known_type_name(vt), Some(expected));
        assert_eq!(well_known_type_to_string(vt), expected);
    }
}

#[test]
fn well_known_codes_have_their_native_values() {
    assert_eq!(well_known_type_name(2), Some("i16"));
    assert_eq!(well_known_type_name(3), Some("i32"));
    assert_eq!(well_known_type_name(8), Some("BSTR"));
    assert_eq!(well_known_type_name(25), Some("HRESULT"));
    assert_eq!(well_known_type_name(31), Some("LPCWSTR"));
}

#[test]
fn well_known_table_has_no_other_code() {
    let known: [u16; 26] = [
        2, 3, 4, 5, 6, 7, 8, 9, 10, 11, 12, 13, 14, 16, 17, 18, 19, 20, 21, 22, 23, 24, 25, 27,
        30, 31,
    ];
    for vt in 0u16..=u16::MAX {
        assert_eq!(well_known_type_name(vt).is_some(), known.contains(&vt));
    }
}

#[test]
fn long_resolves_to_i32_under_any_flags() {
    for flags in [0u32, IN, OUT, IN | OUT, codes::PARAMFLAG_FRETVAL, 0xffff] {
        let mut build_result = BuildResult::new();
        assert_eq!(
            type_to_string(&TypeDesc::WellKnown(codes::VT_I4), flags, &mut build_result),
            Ok("i32".to_string())
        );
        assert_eq!(build_result.num_missing_types, 0);
    }
}

#[test]
fn pointer_in_only_is_immutable() {
    let mut build_result = BuildResult::new();
    assert_eq!(
        type_to_string(&pointer(TypeDesc::WellKnown(codes::VT_I4)), IN, &mut build_result),
        Ok("*const i32".to_string())
    );
    assert_eq!(
        type_to_string(
            &pointer(TypeDesc::WellKnown(codes::VT_I4)),
            IN | codes::PARAMFLAG_FRETVAL,
            &mut build_result
        ),
        Ok("*const i32".to_string())
    );
}

#[test]
fn pointer_under_other_flags_is_mutable() {
    for flags in [0u32, OUT, IN | OUT, OUT | codes::PARAMFLAG_FRETVAL] {
        let mut build_result = BuildResult::new();
        assert_eq!(
            type_to_string(&pointer(TypeDesc::WellKnown(codes::VT_I4)), flags, &mut build_result),
            Ok("*mut i32".to_string())
        );
    }
}

#[test]
fn nested_pointers_share_the_direction() {
    let mut build_result = BuildResult::new();
    let nested = pointer(pointer(TypeDesc::WellKnown(codes::VT_UI1)));
    assert_eq!(type_to_string(&nested, IN, &mut build_result), Ok("*const *const u8".to_string()));
    assert_eq!(type_to_string(&nested, OUT, &mut build_result), Ok("*mut *mut u8".to_string()));
}

#[test]
fn fixed_array_has_element_and_bound() {
    let mut build_result = BuildResult::new();
    assert_eq!(
        type_to_string(&array(TypeDesc::WellKnown(codes::VT_UI2), 1, 260), OUT, &mut build_result),
        Ok("[u16; 260]".to_string())
    );
    assert_eq!(
        type_to_string(&array(TypeDesc::WellKnown(codes::VT_I1), 1, 0), OUT, &mut build_result),
        Ok("[i8; 0]".to_string())
    );
    assert_eq!(
        type_to_string(
            &array(pointer(TypeDesc::WellKnown(codes::VT_VOID)), 1, u32::MAX),
            IN,
            &mut build_result
        ),
        Ok("[*const c_void; 4294967295]".to_string())
    );
}

#[test]
fn pointer_to_fixed_array() {
    let mut build_result = BuildResult::new();
    assert_eq!(
        type_to_string(
            &pointer(array(TypeDesc::WellKnown(codes::VT_R8), 1, 3)),
            OUT,
            &mut build_result
        ),
        Ok("*mut [f64; 3]".to_string())
    );
}

#[test]
fn fixed_array_of_more_dimensions_is_a_defect() {
    let mut build_result = BuildResult::new();
    for dimensions in [0u16, 2, 3] {
        assert_eq!(
            try_type_to_string(
                &array(TypeDesc::WellKnown(codes::VT_I4), dimensions, 4),
                OUT,
                &mut build_result
            ),
            Err(Halt::Defect(Defect::ArrayDimensions))
        );
    }
}

#[test]
fn array_defect_comes_before_what_the_element_holds() {
    let mut build_result = BuildResult::new();
    assert_eq!(
        try_type_to_string(&array(failed_reference(-5), 2, 4), OUT, &mut build_result),
        Err(Halt::Defect(Defect::ArrayDimensions))
    );
    assert_eq!(
        try_type_to_string(&array(TypeDesc::WellKnown(999), 2, 4), OUT, &mut build_result),
        Err(Halt::Defect(Defect::ArrayDimensions))
    );
}

#[test]
fn unknown_code_is_a_defect() {
    let mut build_result = BuildResult::new();
    for vt in [0u16, 1, 15, 26, 28, 29, 36, 0xffff] {
        assert_eq!(
            try_type_to_string(&TypeDesc::WellKnown(vt), OUT, &mut build_result),
            Err(Halt::Defect(Defect::UnknownVartype))
        );
        assert_eq!(
            try_type_to_string(&pointer(TypeDesc::WellKnown(vt)), OUT, &mut build_result),
            Err(Halt::Defect(Defect::UnknownVartype))
        );
    }
    assert_eq!(build_result.num_missing_types, 0);
}

#[test]
fn reference_resolves_to_the_name_of_its_target() {
    let mut build_result = BuildResult::new();
    assert_eq!(
        type_to_string(&reference("IXMLDOMNode", 8), OUT, &mut build_result),
        Ok("IXMLDOMNode".to_string())
    );
    assert_eq!(
        type_to_string(&pointer(reference("type", 8)), IN, &mut build_result),
        Ok("*const type".to_string())
    );
    assert_eq!(build_result.num_missing_types, 0);
}

#[test]
fn missing_reference_is_the_placeholder_and_is_counted() {
    let mut build_result = BuildResult::new();
    assert_eq!(
        type_to_string(
            &failed_reference(codes::TYPE_E_CANTLOADLIBRARY),
            OUT,
            &mut build_result
        ),
        Ok("__missing_type__".to_string())
    );
    assert_eq!(build_result.num_missing_types, 1);
    assert_eq!(build_result.num_types_not_found, 0);
    assert!(build_result.skipped_dispinterfaces.is_empty());
    assert!(build_result.skipped_dispinterface_of_dual_interfaces.is_empty());
}

#[test]
fn missing_reference_is_counted_at_each_occurrence() {
    let mut build_result = BuildResult::new();
    let missing = pointer(failed_reference(codes::TYPE_E_CANTLOADLIBRARY));
    for seen in 1usize..=3 {
        assert_eq!(
            type_to_string(&missing, OUT, &mut build_result),
            Ok("*mut __missing_type__".to_string())
        );
        assert_eq!(build_result.num_missing_types, seen);
    }
    let in_array = array(failed_reference(codes::TYPE_E_CANTLOADLIBRARY), 1, 2);
    assert_eq!(
        type_to_string(&in_array, OUT, &mut build_result),
        Ok("[__missing_type__; 2]".to_string())
    );
    assert_eq!(build_result.num_missing_types, 4);
}

#[test]
fn reference_that_fails_otherwise_is_the_error() {
    let mut build_result = BuildResult::new();
    assert_eq!(
        type_to_string(&failed_reference(-2147467259), OUT, &mut build_result),
        Err(Error::HResult(-2147467259))
    );
    assert_eq!(
        type_to_string(
            &pointer(failed_reference(codes::TYPE_E_ELEMENTNOTFOUND)),
            OUT,
            &mut build_result
        ),
        Err(Error::HResult(codes::TYPE_E_ELEMENTNOTFOUND))
    );
    assert_eq!(
        try_type_to_string(&array(failed_reference(5), 1, 1), OUT, &mut build_result),
        Err(Halt::Failed(Error::HResult(5)))
    );
    assert_eq!(build_result.num_missing_types, 0);
}

#[test]
fn missing_count_that_is_full_is_a_defect() {
    let mut build_result = BuildResult::new();
    build_result.num_missing_types = usize::MAX;
    assert_eq!(
        try_type_to_string(
            &failed_reference(codes::TYPE_E_CANTLOADLIBRARY),
            OUT,
            &mut build_result
        ),
        Err(Halt::Defect(Defect::Overflow))
    );
    assert_eq!(build_result.num_missing_types, usize::MAX);
    assert_eq!(
        try_type_to_string(&TypeDesc::WellKnown(codes::VT_I4), OUT, &mut build_result),
        Ok("i32".to_string())
    );
}

#[test]
fn counters_of_a_build_result() {
    let mut build_result = BuildResult::new();
    assert_eq!(build_result.count_missing_type(), Ok(()));
    assert_eq!(build_result.count_type_not_found(), Ok(()));
    assert_eq!(build_result.count_type_not_found(), Ok(()));
    build_result.skip_dispinterface("A".to_string());
    build_result.skip_dual_half("B".to_string());
    build_result.skip_dual_half("C".to_string());
    assert_eq!(build_result.num_missing_types, 1);
    assert_eq!(build_result.num_types_not_found, 2);
    assert_eq!(build_result.skipped_dispinterfaces, vec!["A".to_string()]);
    assert_eq!(
        build_result.skipped_dispinterface_of_dual_interfaces,
        vec!["B".to_string(), "C".to_string()]
    );
    build_result.num_types_not_found = usize::MAX;
    assert_eq!(build_result.count_type_not_found(), Err(Halt::Defect(Defect::Overflow)));
    assert_eq!(build_result.num_types_not_found, usize::MAX);
}

#[test]
fn scalar_arguments_are_stored_directly() {
    let table: [(u16, &str); 12] = [
        (codes::VT_I2, ".iVal_mut() = p"),
        (codes::VT_I4, ".lVal_mut() = p"),
        (codes::VT_CY, ".cyVal_mut() = p"),
        (codes::VT_BSTR, ".bstrVal_mut() = p"),
        (codes::VT_DISPATCH, ".pdispVal_mut() = p"),
        (codes::VT_ERROR, ".scode_mut() = p"),
        (codes::VT_BOOL, ".boolVal_mut() = p"),
        (codes::VT_UNKNOWN, ".punkVal_mut() = p"),
        (codes::VT_UI2, ".uiVal_mut() = p"),
        (codes::VT_UI4, ".ulVal_mut() = p"),
        (codes::VT_INT, ".intVal_mut() = p"),
        (codes::VT_UINT, ".uintVal_mut() = p"),
    ];
    for (vt, mutator) in table {
        assert_eq!(
            vartype_mutator(&TypeDesc::WellKnown(vt), "p"),
            (vt as u32, mutator.to_string())
        );
    }
}

#[test]
fn tagged_value_argument_is_copied_whole() {
    assert_eq!(
        vartype_mutator(&TypeDesc::WellKnown(codes::VT_VARIANT), "newVal"),
        (12, " = *(&newVal as *const _ as *mut _)".to_string())
    );
}

#[test]
fn pointer_arguments_are_stored_by_reference() {
    let table: [(u16, u32, &str); 5] = [
        (codes::VT_I4, 0x4003, ".plVal_mut() = p"),
        (codes::VT_BSTR, 0x4008, ".pbstrVal_mut() = p"),
        (codes::VT_DISPATCH, 0x4009, ".ppdispVal_mut() = p"),
        (codes::VT_BOOL, 0x400b, ".pboolVal_mut() = p"),
        (codes::VT_VARIANT, 0x400c, ".pvarval_mut() = p"),
    ];
    for (vt, tag, mutator) in table {
        assert_eq!(
            vartype_mutator(&pointer(TypeDesc::WellKnown(vt)), "p"),
            (tag, mutator.to_string())
        );
    }
}

#[test]
fn pointer_to_a_described_type_is_a_dispatch_pointer() {
    assert_eq!(
        vartype_mutator(&pointer(reference("IFoo", 8)), "foo"),
        (9, ".pdispVal_mut() = foo".to_string())
    );
    assert_eq!(
        vartype_mutator(&pointer(failed_reference(codes::TYPE_E_CANTLOADLIBRARY)), "foo"),
        (9, ".pdispVal_mut() = foo".to_string())
    );
}

#[test]
fn described_type_of_four_bytes_is_an_integer() {
    assert_eq!(
        vartype_mutator(&reference("Color", 4), "color"),
        (3, ".lVal_mut() = color".to_string())
    );
}

#[test]
fn described_type_of_another_size_has_no_slot() {
    for size in [0u32, 1, 2, 8, 16] {
        assert_eq!(
            try_vartype_mutator(&reference("Big", size), "big"),
            Err(Halt::Defect(Defect::ArgumentType))
        );
    }
}

#[test]
fn described_type_that_could_not_be_got_has_no_slot() {
    assert_eq!(
        try_vartype_mutator(&failed_reference(codes::TYPE_E_CANTLOADLIBRARY), "x"),
        Err(Halt::Defect(Defect::Unavailable))
    );
    assert_eq!(
        try_vartype_mutator(&failed_reference(-1), "x"),
        Err(Halt::Defect(Defect::Unavailable))
    );
}

#[test]
fn other_argument_types_have_no_slot() {
    for vt in [codes::VT_R4, codes::VT_R8, codes::VT_DATE, codes::VT_I1, codes::VT_UI1,
        codes::VT_I8, codes::VT_UI8, codes::VT_VOID, codes::VT_HRESULT, codes::VT_DECIMAL,
        codes::VT_SAFEARRAY, codes::VT_LPSTR, codes::VT_LPWSTR, codes::VT_PTR,
        codes::VT_USERDEFINED, 0, 999]
    {
        assert_eq!(
            try_vartype_mutator(&TypeDesc::WellKnown(vt), "x"),
            Err(Halt::Defect(Defect::ArgumentType))
        );
    }
    for vt in [codes::VT_I2, codes::VT_UI4, codes::VT_UNKNOWN, codes::VT_R8, codes::VT_INT] {
        assert_eq!(
            try_vartype_mutator(&pointer(TypeDesc::WellKnown(vt)), "x"),
            Err(Halt::Defect(Defect::ArgumentType))
        );
    }
    assert_eq!(
        try_vartype_mutator(&pointer(pointer(TypeDesc::WellKnown(codes::VT_I4))), "x"),
        Err(Halt::Defect(Defect::ArgumentType))
    );
    assert_eq!(
        try_vartype_mutator(&array(TypeDesc::WellKnown(codes::VT_I4), 1, 2), "x"),
        Err(Halt::Defect(Defect::ArgumentType))
    );
    assert_eq!(
        try_vartype_mutator(&pointer(array(TypeDesc::WellKnown(codes::VT_I4), 1, 2)), "x"),
        Err(Halt::Defect(Defect::ArgumentType))
    );
}

#[test]
fn try_vartype_mutator_gives_the_slot_where_there_is_one() {
    assert_eq!(
        try_vartype_mutator(&TypeDesc::WellKnown(codes::VT_BSTR), "name"),
        Ok((8, ".bstrVal_mut() = name".to_string()))
    );
}

#[test]
fn shape_codes() {
    assert_eq!(TypeDesc::WellKnown(17).vt(), 17);
    assert_eq!(pointer(TypeDesc::WellKnown(17)).vt(), codes::VT_PTR);
    assert_eq!(array(TypeDesc::WellKnown(17), 1, 1).vt(), codes::VT_CARRAY);
    assert_eq!(reference("A", 1).vt(), codes::VT_USERDEFINED);
}
