use call_resolution::ranking::ArgCheckResult;

/// Ensure that sort work as expected.
#[test]
fn test_arg_check_result_order() {
    let mut v = vec![
        ArgCheckResult::Exact,
        ArgCheckResult::MayBe,
        ArgCheckResult::ArgTypeMismatch,
        ArgCheckResult::WrongArgCount,
    ];
    let expected = v.clone();
    v.sort();

    assert_eq!(v, expected);
}
