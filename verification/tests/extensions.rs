use parachain_spec::{ExtensionSchemaError, Extensions, Field, FieldValue};

fn text(name: &str, value: &str) -> Field {
    Field { name: name.to_string(), value: FieldValue::Text(value.to_string()) }
}

fn number(name: &str, value: u64) -> Field {
    Field { name: name.to_string(), value: FieldValue::Unsigned(value) }
}

fn other(name: &str) -> Field {
    Field { name: name.to_string(), value: FieldValue::Other }
}

#[test]
fn extensions_round_trip() {
    let value = Extensions { relay_chain: "local_testnet".to_string(), para_id: 1000 };
    let fields = value.to_fields();
    assert_eq!(fields, vec![text("relay_chain", "local_testnet"), number("para_id", 1000)]);
    assert_eq!(Extensions::from_fields(&fields), Ok(value));
}

#[test]
fn extensions_round_trip_at_the_edges() {
    for para_id in [0u32, 1, 2000, u32::MAX] {
        for relay_chain in ["", "rococo_local_testnet", "relay chain \u{e9}"] {
            let value = Extensions { relay_chain: relay_chain.to_string(), para_id };
            assert_eq!(Extensions::from_fields(&value.to_fields()), Ok(value));
        }
    }
}

#[test]
fn extra_field_is_refused() {
    let fields =
        vec![text("relay_chain", "local_testnet"), number("para_id", 1000), number("extra", 1)];
    assert_eq!(
        Extensions::from_fields(&fields),
        Err(ExtensionSchemaError::UnknownField { index: 2 })
    );
}

#[test]
fn extra_field_is_refused_wherever_it_stands() {
    let first = vec![other("extra"), text("relay_chain", "x"), number("para_id", 1)];
    assert_eq!(
        Extensions::from_fields(&first),
        Err(ExtensionSchemaError::UnknownField { index: 0 })
    );
    let middle = vec![text("relay_chain", "x"), text("Relay_chain", "y"), number("para_id", 1)];
    assert_eq!(
        Extensions::from_fields(&middle),
        Err(ExtensionSchemaError::UnknownField { index: 1 })
    );
    let alone = vec![text("", "x")];
    assert_eq!(
        Extensions::from_fields(&alone),
        Err(ExtensionSchemaError::UnknownField { index: 0 })
    );
}

#[test]
fn field_order_is_free() {
    let fields = vec![number("para_id", 7), text("relay_chain", "kusama")];
    assert_eq!(
        Extensions::from_fields(&fields),
        Ok(Extensions { relay_chain: "kusama".to_string(), para_id: 7 })
    );
}

#[test]
fn missing_fields_are_reported() {
    assert_eq!(Extensions::from_fields(&vec![]), Err(ExtensionSchemaError::MissingRelayChain));
    assert_eq!(
        Extensions::from_fields(&vec![number("para_id", 7)]),
        Err(ExtensionSchemaError::MissingRelayChain)
    );
    assert_eq!(
        Extensions::from_fields(&vec![text("relay_chain", "kusama")]),
        Err(ExtensionSchemaError::MissingParaId)
    );
}

#[test]
fn duplicate_fields_are_reported() {
    let twice_relay =
        vec![text("relay_chain", "a"), number("para_id", 7), text("relay_chain", "a")];
    assert_eq!(
        Extensions::from_fields(&twice_relay),
        Err(ExtensionSchemaError::DuplicateField { index: 2 })
    );
    let twice_id = vec![number("para_id", 7), number("para_id", 8)];
    assert_eq!(
        Extensions::from_fields(&twice_id),
        Err(ExtensionSchemaError::DuplicateField { index: 1 })
    );
    let twice_with_bad_value = vec![number("para_id", 7), other("para_id")];
    assert_eq!(
        Extensions::from_fields(&twice_with_bad_value),
        Err(ExtensionSchemaError::DuplicateField { index: 1 })
    );
}

#[test]
fn values_of_the_wrong_kind_are_reported() {
    let relay_is_number = vec![number("relay_chain", 1), number("para_id", 7)];
    assert_eq!(
        Extensions::from_fields(&relay_is_number),
        Err(ExtensionSchemaError::InvalidValue { index: 0 })
    );
    let id_is_text = vec![text("relay_chain", "a"), text("para_id", "7")];
    assert_eq!(
        Extensions::from_fields(&id_is_text),
        Err(ExtensionSchemaError::InvalidValue { index: 1 })
    );
    let id_is_other = vec![other("para_id")];
    assert_eq!(
        Extensions::from_fields(&id_is_other),
        Err(ExtensionSchemaError::InvalidValue { index: 0 })
    );
}

#[test]
fn parachain_id_must_fit_in_32_bits() {
    let fits = vec![text("relay_chain", "a"), number("para_id", 4_294_967_295)];
    assert_eq!(
        Extensions::from_fields(&fits),
        Ok(Extensions { relay_chain: "a".to_string(), para_id: u32::MAX })
    );
    let too_large = vec![text("relay_chain", "a"), number("para_id", 4_294_967_296)];
    assert_eq!(
        Extensions::from_fields(&too_large),
        Err(ExtensionSchemaError::InvalidValue { index: 1 })
    );
}

#[test]
fn first_fault_wins() {
    let fields = vec![number("relay_chain", 1), other("extra"), number("para_id", u64::MAX)];
    assert_eq!(
        Extensions::from_fields(&fields),
        Err(ExtensionSchemaError::InvalidValue { index: 0 })
    );
    let fault_before_missing = vec![other("extra")];
    assert_eq!(
        Extensions::from_fields(&fault_before_missing),
        Err(ExtensionSchemaError::UnknownField { index: 0 })
    );
}
