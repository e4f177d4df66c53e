use winapi_tlb_bindgen::codes;
use winapi_tlb_bindgen::emit::enums::enum_value_to_string;
use winapi_tlb_bindgen::emit::lines::uuid_line_text;
use winapi_tlb_bindgen::text::{
    digit_str, push_decimal, push_decimal_digits, push_hex32, push_hex_digits, same_text,
};
use winapi_tlb_bindgen::{to_result, Error, Guid};

fn decimal(n: i64) -> String {
    let mut out = String::new();
    push_decimal(&mut out, n);
    out
}

fn hex(n: u32, width: u8) -> String {
    let mut out = String::new();
    push_hex_digits(&mut out, n, width);
    out
}

#[test]
fn digits_are_lower_case() {
    let all: Vec<&str> = (0u8..16).map(digit_str).collect();
    assert_eq!(all.concat(), "0123456789abcdef");
}

#[test]
fn decimal_of_zero_is_one_digit() {
    assert_eq!(decimal(0), "0");
}

#[test]
fn decimal_has_no_leading_zeros() {
    assert_eq!(decimal(7), "7");
    assert_eq!(decimal(10), "10");
    assert_eq!(decimal(1005), "1005");
    assert_eq!(decimal(2147483647), "2147483647");
}

#[test]
fn decimal_of_negative_has_a_sign() {
    assert_eq!(decimal(-1), "-1");
    assert_eq!(decimal(-4), "-4");
    assert_eq!(decimal(-2147483648), "-2147483648");
    assert_eq!(decimal(i64::MIN), "-9223372036854775808");
    assert_eq!(decimal(i64::MAX), "9223372036854775807");
}

#[test]
fn decimal_digits_of_the_largest_number() {
    let mut out = String::from("n=");
    push_decimal_digits(&mut out, u64::MAX);
    assert_eq!(out, "n=18446744073709551615");
}

#[test]
fn decimal_agrees_with_the_standard_formatter() {
    for n in [0i64, 1, 9, 10, 11, 99, 100, 101, 65535, 65536, -3, -10, -99, -100, 16387] {
        assert_eq!(decimal(n), format!("{}", n));
    }
}

#[test]
fn hex_digits_are_padded_to_the_width() {
    assert_eq!(hex(0, 8), "00000000");
    assert_eq!(hex(0x1f, 2), "1f");
    assert_eq!(hex(0x5, 2), "05");
    assert_eq!(hex(0xabc, 4), "0abc");
    assert_eq!(hex(0xdeadbeef, 8), "deadbeef");
    assert_eq!(hex(0x12345678, 8), "12345678");
}

#[test]
fn hex_digits_of_width_zero_are_empty() {
    assert_eq!(hex(0x1234, 0), "");
}

#[test]
fn hex_digits_keep_the_lowest_digits() {
    assert_eq!(hex(0x12345678, 4), "5678");
}

#[test]
fn hex_agrees_with_the_standard_formatter() {
    for n in [0u32, 1, 15, 16, 255, 256, 0x8002802b, 0x80029c4a, u32::MAX] {
        assert_eq!(hex(n, 8), format!("{:08x}", n));
    }
    for n in [0i32, 1, -1, -3, i32::MIN, i32::MAX, -2147312566] {
        let mut out = String::new();
        push_hex32(&mut out, n);
        assert_eq!(out, format!("{:08x}", n));
    }
}

#[test]
fn hex_of_a_negative_number_is_its_unsigned_form() {
    let mut out = String::from("0x");
    push_hex32(&mut out, -1);
    assert_eq!(out, "0xffffffff");
    let mut out = String::new();
    push_hex32(&mut out, i32::MIN);
    assert_eq!(out, "80000000");
    let mut out = String::new();
    push_hex32(&mut out, -2);
    assert_eq!(out, "fffffffe");
}

#[test]
fn pushing_appends_behind_what_is_there() {
    let mut out = String::from("a");
    push_decimal(&mut out, 12);
    out.push('b');
    push_hex_digits(&mut out, 0xc, 2);
    assert_eq!(out, "a12b0c");
}

#[test]
fn same_text_tells_equal_from_different() {
    assert!(same_text("IDispatch", "IDispatch"));
    assert!(!same_text("IDispatch", "IDispatch2"));
    assert!(!same_text("idispatch", "IDispatch"));
    assert!(same_text("", ""));
    assert!(!same_text("", "x"));
}

#[test]
fn enum_value_not_negative_is_decimal() {
    assert_eq!(enum_value_to_string(0), "0");
    assert_eq!(enum_value_to_string(1), "1");
    assert_eq!(enum_value_to_string(255), "255");
    assert_eq!(enum_value_to_string(i32::MAX), "2147483647");
}

#[test]
fn enum_value_negative_is_unsigned_hex() {
    assert_eq!(enum_value_to_string(-1), "0xffffffff");
    assert_eq!(enum_value_to_string(-2), "0xfffffffe");
    assert_eq!(enum_value_to_string(i32::MIN), "0x80000000");
    assert_eq!(enum_value_to_string(-2147312566), "0x80029c4a");
}

#[test]
fn status_code_zero_is_success() {
    assert_eq!(to_result(0), Ok(()));
    assert_eq!(to_result(codes::S_OK), Ok(()));
}

#[test]
fn status_code_not_zero_is_an_error_with_the_code() {
    assert_eq!(to_result(1), Err(Error::HResult(1)));
    assert_eq!(to_result(-1), Err(Error::HResult(-1)));
    assert_eq!(
        to_result(codes::TYPE_E_CANTLOADLIBRARY),
        Err(Error::HResult(codes::TYPE_E_CANTLOADLIBRARY))
    );
}

#[test]
fn status_codes_have_their_native_values() {
    assert_eq!(codes::TYPE_E_CANTLOADLIBRARY as u32, 0x80029C4A);
    assert_eq!(codes::TYPE_E_ELEMENTNOTFOUND as u32, 0x8002802B);
}

#[test]
fn message_of_cannot_load_library_is_its_label() {
    assert_eq!(
        Error::HResult(codes::TYPE_E_CANTLOADLIBRARY).message(),
        "TYPE_E_CANTLOADLIBRARY"
    );
}

#[test]
fn message_of_another_code_is_hexadecimal() {
    assert_eq!(Error::HResult(codes::TYPE_E_ELEMENTNOTFOUND).message(), "HRESULT 0x8002802b");
    assert_eq!(Error::HResult(1).message(), "HRESULT 0x00000001");
    assert_eq!(Error::HResult(-1).message(), "HRESULT 0xffffffff");
    assert_eq!(Error::HResult(-2147467259).message(), "HRESULT 0x80004005");
}

#[test]
fn uuid_line_has_eleven_padded_numbers() {
    let guid = Guid {
        data1: 0x12345678,
        data2: 0x9abc,
        data3: 0x00f0,
        data4: [0x01, 0x23, 0x45, 0x67, 0x89, 0xab, 0xcd, 0x0f],
    };
    assert_eq!(
        uuid_line_text(&guid),
        "RIDL!{#[uuid(0x12345678, 0x9abc, 0x00f0, 0x01, 0x23, 0x45, 0x67, 0x89, 0xab, 0xcd, 0x0f)]\n"
    );
}

#[test]
fn uuid_line_of_the_null_identifier() {
    let guid = Guid { data1: 0, data2: 0, data3: 0, data4: [0; 8] };
    assert_eq!(
        uuid_line_text(&guid),
        "RIDL!{#[uuid(0x00000000, 0x0000, 0x0000, 0x00, 0x00, 0x00, 0x00, 0x00, 0x00, 0x00, 0x00)]\n"
    );
}
