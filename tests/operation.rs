use stellar_client::asset::Flag;
use stellar_client::error::{DecodeError, Field};
use stellar_client::json::Json;
use stellar_client::operation::{ListError, ListPolicy, Operation, OperationDetail, SetOptions};

fn s(text: &str) -> Json {
    Json::Str(text.to_string())
}

fn obj(entries: Vec<(&str, Json)>) -> Json {
    Json::Object(entries.into_iter().map(|(k, v)| (k.to_string(), v)).collect())
}

fn set_options_fields() -> Vec<(&'static str, Json)> {
    vec![
        ("id", s("12884905985")),
        ("paging_token", s("12884905985")),
        ("source_account", s("GA5WBPYA5Y4WAEHXWR2UKO2UO4BUGHUQ74EUPKON2QHV4WRHOIRNKKH2")),
        ("type", s("set_options")),
        ("type_i", Json::Number(5)),
        ("signer_key", s("GA5WBPYA5Y4WAEHXWR2UKO2UO4BUGHUQ74EUPKON2QHV4WRHOIRNKKH2")),
        ("signer_weight", Json::Number(1)),
        ("master_key_weight", Json::Number(2)),
        ("low_threshold", Json::Number(0)),
        ("med_threshold", Json::Number(3)),
        ("high_threshold", Json::Number(3)),
        ("home_domain", s("stellar.org")),
    ]
}

fn flags(required: bool, revocable: bool) -> Json {
    obj(vec![
        ("auth_required", Json::Bool(required)),
        ("auth_revocable", Json::Bool(revocable)),
    ])
}

fn without(field: &str) -> Json {
    obj(set_options_fields()
        .into_iter()
        .filter(|(k, _)| *k != field)
        .collect())
}

#[test]
fn it_parses_a_set_options_from_json() {
    let mut fields = set_options_fields();
    fields.push(("set_flags", flags(true, false)));
    let operation: Operation = Operation::from_json(obj(fields)).unwrap();
    assert!(operation.is_set_options());
    assert_eq!(operation.type_i(), 5);
    if let &OperationDetail::SetOptions(ref account_details) = operation.detail() {
        assert_eq!(
            account_details.signer_key(),
            "GA5WBPYA5Y4WAEHXWR2UKO2UO4BUGHUQ74EUPKON2QHV4WRHOIRNKKH2"
        );
        assert_eq!(account_details.signer_weight(), 1);
        assert_eq!(account_details.master_key_weight(), 2);
        assert_eq!(account_details.low_threshold(), 0);
        assert_eq!(account_details.med_threshold(), 3);
        assert_eq!(account_details.high_threshold(), 3);
        assert_eq!(account_details.home_domain(), "stellar.org");
        assert!(account_details.clear_flags().is_none());
        assert_eq!(account_details.set_flags().unwrap(), Flag::new(true, false));
    } else {
        panic!("expected set options");
    }
}

#[test]
fn set_options_without_flags_has_both_absent() {
    let operation = Operation::from_json(obj(set_options_fields())).unwrap();
    assert!(operation.is_set_options());
    assert!(!operation.is_unknown());
    match operation.detail() {
        OperationDetail::SetOptions(so) => {
            assert!(so.set_flags().is_none());
            assert!(so.clear_flags().is_none());
            assert_eq!(so.signer_weight(), 1);
            assert_eq!(so.master_key_weight(), 2);
            assert_eq!(so.home_domain(), "stellar.org");
        }
        _ => panic!("expected set options"),
    }
}

#[test]
fn null_flags_are_absent() {
    let mut fields = set_options_fields();
    fields.push(("set_flags", Json::Null));
    fields.push(("clear_flags", Json::Null));
    let operation = Operation::from_json(obj(fields)).unwrap();
    match operation.detail() {
        OperationDetail::SetOptions(so) => {
            assert!(so.set_flags().is_none());
            assert!(so.clear_flags().is_none());
        }
        _ => panic!("expected set options"),
    }
}

#[test]
fn set_and_clear_flags_are_read() {
    let mut fields = set_options_fields();
    fields.push(("set_flags", flags(true, false)));
    fields.push(("clear_flags", flags(false, true)));
    let operation = Operation::from_json(obj(fields)).unwrap();
    match operation.detail() {
        OperationDetail::SetOptions(so) => {
            let set = so.set_flags().unwrap();
            assert!(set.is_auth_required());
            assert!(!set.is_auth_revocable());
            assert_eq!(so.clear_flags(), Some(Flag::new(false, true)));
        }
        _ => panic!("expected set options"),
    }
}

#[test]
fn unknown_discriminator_is_kept_as_unknown_variant() {
    let fields = vec![("type_i", Json::Number(9999)), ("amount", s("10.0"))];
    let operation = Operation::from_json(obj(fields)).unwrap();
    assert!(operation.is_unknown());
    assert!(!operation.is_set_options());
    assert_eq!(operation.type_i(), 9999);
    match operation.detail() {
        OperationDetail::Unknown(u) => {
            assert_eq!(u.type_i(), 9999);
            assert_eq!(u.fields().len(), 2);
            assert_eq!(u.fields()[1].0, "amount");
        }
        _ => panic!("expected the unknown variant"),
    }
}

#[test]
fn missing_required_field_is_named() {
    let err = Operation::from_json(without("home_domain")).unwrap_err();
    assert_eq!(err, DecodeError::Missing(Field::HomeDomain));
    let err = Operation::from_json(without("signer_key")).unwrap_err();
    assert_eq!(err, DecodeError::Missing(Field::SignerKey));
    let err = Operation::from_json(without("high_threshold")).unwrap_err();
    assert_eq!(err, DecodeError::Missing(Field::HighThreshold));
    let err = Operation::from_json(without("type_i")).unwrap_err();
    assert_eq!(err, DecodeError::Missing(Field::TypeI));
}

#[test]
fn out_of_range_and_mistyped_fields_are_invalid() {
    let mut fields = set_options_fields();
    fields[6] = ("signer_weight", Json::Number(256));
    let err = Operation::from_json(obj(fields)).unwrap_err();
    assert_eq!(err, DecodeError::Invalid(Field::SignerWeight));

    let mut fields = set_options_fields();
    fields[8] = ("low_threshold", Json::Number(-1));
    let err = Operation::from_json(obj(fields)).unwrap_err();
    assert_eq!(err, DecodeError::Invalid(Field::LowThreshold));

    let mut fields = set_options_fields();
    fields[11] = ("home_domain", Json::Number(3));
    let err = Operation::from_json(obj(fields)).unwrap_err();
    assert_eq!(err, DecodeError::Invalid(Field::HomeDomain));

    let mut fields = set_options_fields();
    fields.push(("set_flags", Json::Number(1)));
    let err = Operation::from_json(obj(fields)).unwrap_err();
    assert_eq!(err, DecodeError::Invalid(Field::SetFlags));

    let mut fields = set_options_fields();
    fields.push(("clear_flags", obj(vec![("auth_required", Json::Bool(true))])));
    let err = Operation::from_json(obj(fields)).unwrap_err();
    assert_eq!(err, DecodeError::Missing(Field::AuthRevocable));

    let fields = vec![("type_i", Json::Number(1 << 40))];
    let err = Operation::from_json(obj(fields)).unwrap_err();
    assert_eq!(err, DecodeError::Invalid(Field::TypeI));
}

#[test]
fn largest_weights_and_thresholds_are_accepted() {
    let mut fields = set_options_fields();
    fields[6] = ("signer_weight", Json::Number(255));
    fields[10] = ("high_threshold", Json::Number(4294967295));
    let operation = Operation::from_json(obj(fields)).unwrap();
    match operation.detail() {
        OperationDetail::SetOptions(so) => {
            assert_eq!(so.signer_weight(), 255);
            assert_eq!(so.high_threshold(), u32::MAX);
        }
        _ => panic!("expected set options"),
    }
}

#[test]
fn non_object_is_not_an_operation() {
    assert_eq!(
        Operation::from_json(Json::Array(vec![])).unwrap_err(),
        DecodeError::NotAnObject
    );
    assert_eq!(
        Operation::from_json(s("set_options")).unwrap_err(),
        DecodeError::NotAnObject
    );
}

#[test]
fn first_entry_with_a_key_wins() {
    let mut fields = set_options_fields();
    fields.insert(0, ("signer_weight", Json::Number(7)));
    let operation = Operation::from_json(obj(fields)).unwrap();
    match operation.detail() {
        OperationDetail::SetOptions(so) => assert_eq!(so.signer_weight(), 7),
        _ => panic!("expected set options"),
    }
}

#[test]
fn tolerant_list_reports_each_entry() {
    let records = vec![
        obj(set_options_fields()),
        without("signer_key"),
        obj(vec![("type_i", Json::Number(1))]),
    ];
    let results = Operation::from_json_list(records, ListPolicy::Tolerant).unwrap();
    assert_eq!(results.len(), 3);
    assert!(results[0].as_ref().unwrap().is_set_options());
    assert_eq!(
        results[1].as_ref().unwrap_err(),
        &DecodeError::Missing(Field::SignerKey)
    );
    assert_eq!(results[2].as_ref().unwrap().type_i(), 1);
}

#[test]
fn fail_fast_list_names_the_first_bad_entry() {
    let records = vec![
        obj(set_options_fields()),
        without("signer_key"),
        without("home_domain"),
    ];
    let err = Operation::from_json_list(records, ListPolicy::FailFast).unwrap_err();
    assert_eq!(
        err,
        ListError {
            index: 1,
            error: DecodeError::Missing(Field::SignerKey)
        }
    );
    let records = vec![obj(set_options_fields()), obj(set_options_fields())];
    let results = Operation::from_json_list(records, ListPolicy::FailFast).unwrap();
    assert_eq!(results.len(), 2);
    assert!(results.iter().all(|r| r.is_ok()));
    let empty = Operation::from_json_list(vec![], ListPolicy::FailFast).unwrap();
    assert!(empty.is_empty());
}

#[test]
fn set_options_built_directly_reads_back() {
    let so = SetOptions::new(
        "GKEY".to_string(),
        4,
        9,
        1,
        2,
        3,
        "example.org".to_string(),
        None,
        Some(Flag::new(true, true)),
    );
    assert_eq!(so.signer_key(), "GKEY");
    assert_eq!(so.signer_weight(), 4);
    assert_eq!(so.master_key_weight(), 9);
    assert_eq!(so.low_threshold(), 1);
    assert_eq!(so.med_threshold(), 2);
    assert_eq!(so.high_threshold(), 3);
    assert_eq!(so.home_domain(), "example.org");
    assert_eq!(so.set_flags(), None);
    assert_eq!(so.clear_flags(), Some(Flag::new(true, true)));
}

#[test]
fn field_keys_are_the_wire_names() {
    assert_eq!(Field::TypeI.key(), "type_i");
    assert_eq!(Field::MasterKeyWeight.key(), "master_key_weight");
    assert_eq!(Field::ClearFlags.key(), "clear_flags");
    assert_eq!(Field::AuthRevocable.key(), "auth_revocable");
}
