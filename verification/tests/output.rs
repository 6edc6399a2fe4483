use asimov_telegram_module::output::{emission, filter, filter_json, Emission, FilterFailure};

#[test]
fn test_filter() {
    let s = r#"{"@type":"ok","@extra":"1"}"#;
    let filter = filter().unwrap();
    let input: serde_json::Value = serde_json::from_str(s).unwrap();
    let res = filter_json(&filter, input.clone());

    match res {
        Emission::Print(value) => assert_eq!(value, input),
        other => panic!("{other:?}"),
    }

}

#[test]
fn no_output_is_passed_over() {
    assert!(matches!(emission(Err(FilterFailure::NoOutput)), Emission::Skip));
}

#[test]
fn failure_is_reported() {
    match emission(Err(FilterFailure::Failed { message: "boom".to_string() })) {
        Emission::Report(text) => assert_eq!(text, "boom"),
        other => panic!("{other:?}"),
    }
}

#[test]
fn value_is_printed() {
    let value: serde_json::Value = serde_json::from_str("[1,2]").unwrap();
    match emission(Ok(value.clone())) {
        Emission::Print(printed) => assert_eq!(printed, value),
        other => panic!("{other:?}"),
    }
}

#[test]
fn the_filter_hands_a_record_on() {
    let filter = filter().unwrap();
    let record: serde_json::Value = serde_json::from_str(r#"[1,"a",null,{"k":true}]"#).unwrap();
    assert_eq!(filter_json(&filter, record.clone()), Emission::Print(record));
}
