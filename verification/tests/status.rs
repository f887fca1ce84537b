use itunes_com::hresult::{check, ComError, Reply};

const E_FAIL: i32 = -2147467259;
const CO_E_SERVER_EXEC_FAILURE: i32 = -2146959355;

#[test]
fn zero_is_success() {
    assert_eq!(check(0), Ok(()));
}

#[test]
fn positive_codes_are_success() {
    assert_eq!(check(1), Ok(()));
    assert_eq!(check(i32::MAX), Ok(()));
}

#[test]
fn negative_codes_are_errors_with_their_code() {
    assert_eq!(check(-1), Err(ComError { code: -1 }));
    assert_eq!(check(E_FAIL), Err(ComError { code: E_FAIL }));
    assert_eq!(check(i32::MIN), Err(ComError { code: i32::MIN }));
}

#[test]
fn failure_code_has_the_documented_bit_pattern() {
    assert_eq!(E_FAIL as u32, 0x8000_4005);
    assert_eq!(CO_E_SERVER_EXEC_FAILURE as u32, 0x8008_0005);
    assert_eq!(check(CO_E_SERVER_EXEC_FAILURE), Err(ComError { code: CO_E_SERVER_EXEC_FAILURE }));
}

#[test]
fn successful_reply_gives_its_value() {
    assert_eq!(Reply { code: 0, value: 7i32 }.ok(), Ok(7));
    assert_eq!(Reply { code: 1, value: -3i64 }.ok(), Ok(-3));
}

#[test]
fn failed_reply_gives_its_code_and_drops_the_value() {
    assert_eq!(Reply { code: E_FAIL, value: 7i32 }.ok(), Err(ComError { code: E_FAIL }));
    assert_eq!(
        Reply { code: -1, value: String::from("left over") }.ok(),
        Err(ComError { code: -1 })
    );
}
