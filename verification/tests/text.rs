use kagirfilelists::text::{join_quoted_fields, u64_to_decimal};

#[test]
fn decimal_of_zero_is_one_digit() {
    assert_eq!(u64_to_decimal(0), "0");
}

#[test]
fn decimal_has_no_leading_zero() {
    assert_eq!(u64_to_decimal(7), "7");
    assert_eq!(u64_to_decimal(10), "10");
    assert_eq!(u64_to_decimal(1_700_000_000), "1700000000");
    assert_eq!(u64_to_decimal(909), "909");
}

#[test]
fn decimal_of_the_largest_number() {
    assert_eq!(u64_to_decimal(u64::MAX), "18446744073709551615");
}

#[test]
fn decimal_agrees_with_the_standard_rendering() {
    let mut n: u64 = 1;
    for _ in 0..19 {
        assert_eq!(u64_to_decimal(n), n.to_string());
        assert_eq!(u64_to_decimal(n - 1), (n - 1).to_string());
        n *= 10;
    }
}

#[test]
fn no_fields_give_an_empty_line() {
    assert_eq!(join_quoted_fields(&vec![], ","), "");
}

#[test]
fn one_field_is_quoted_without_separator() {
    assert_eq!(join_quoted_fields(&vec!["a".to_string()], ","), "\"a\"");
}

#[test]
fn fields_are_quoted_and_joined() {
    let fields = vec!["a".to_string(), "".to_string(), "c d".to_string()];
    assert_eq!(join_quoted_fields(&fields, ","), "\"a\",\"\",\"c d\"");
    assert_eq!(join_quoted_fields(&fields, ";"), "\"a\";\"\";\"c d\"");
    assert_eq!(join_quoted_fields(&fields, "\t"), "\"a\"\t\"\"\t\"c d\"");
}

#[test]
fn quotes_and_separators_inside_a_field_are_not_escaped() {
    let fields = vec!["say \"hi\"".to_string(), "a,b".to_string()];
    assert_eq!(join_quoted_fields(&fields, ","), "\"say \"hi\"\",\"a,b\"");
}
