use anycall::naming::snake_to_camel;

#[test]
fn snake_to_camel_joins_words() {
    assert_eq!(snake_to_camel("sum_async"), "SumAsync");
    assert_eq!(snake_to_camel("sum"), "Sum");
}

#[test]
fn snake_to_camel_lowers_inner_letters() {
    assert_eq!(snake_to_camel("HTTP_status"), "HttpStatus");
    assert_eq!(snake_to_camel("get_ID"), "GetId");
}

#[test]
fn snake_to_camel_drops_every_underscore() {
    assert_eq!(snake_to_camel("__a__b_"), "AB");
    assert_eq!(snake_to_camel("_"), "");
    assert_eq!(snake_to_camel(""), "");
}

#[test]
fn snake_to_camel_keeps_digits() {
    assert_eq!(snake_to_camel("v2_call"), "V2Call");
    assert_eq!(snake_to_camel("call_2x"), "Call2x");
}

#[test]
fn snake_to_camel_uses_unicode_case_mapping() {
    assert_eq!(snake_to_camel("ßig_äpfel"), "SSigÄpfel");
}

#[test]
fn snake_to_camel_works_word_by_word() {
    assert_eq!(snake_to_camel("get_user_id"), snake_to_camel("get") + &snake_to_camel("user_id"));
    assert_eq!(snake_to_camel("_sum"), snake_to_camel("sum"));
    assert_eq!(snake_to_camel("sum_"), snake_to_camel("sum"));
}

#[test]
fn snake_to_camel_ignores_ascii_case() {
    assert_eq!(snake_to_camel("SUM_ASYNC"), "SumAsync");
    assert_eq!(snake_to_camel("sUm_aSyNc"), "SumAsync");
}
