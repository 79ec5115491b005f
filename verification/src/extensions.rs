//! Relay-chain linkage carried beside the genesis state, and its closed
//! schema.

use vstd::prelude::*;

verus! {

/// The extensions of a parachain's chain specification.
#[derive(Clone, Debug, PartialEq, Eq)]
pub struct Extensions {
    /// The relay chain of the parachain.
    pub relay_chain: String,
    /// The id of the parachain.
    pub para_id: u32,
}

/// What an `Extensions` value holds.
pub ghost struct ExtensionsView {
    pub relay_chain: Seq<char>,
    pub para_id: u32,
}

impl View for Extensions {
    type V = ExtensionsView;

    open spec fn view(&self) -> ExtensionsView {
        ExtensionsView { relay_chain: self.relay_chain@, para_id: self.para_id }
    }
}

/// The value of one field of a decoded payload.
#[derive(Clone, Debug, PartialEq, Eq)]
pub enum FieldValue {
    /// A string.
    Text(String),
    /// A whole number that is not negative.
    Unsigned(u64),
    /// Anything else: null, a boolean, another kind of number, a list, a
    /// nested object.
    Other,
}

/// One named field of a decoded payload.
#[derive(Clone, Debug, PartialEq, Eq)]
pub struct Field {
    pub name: String,
    pub value: FieldValue,
}

/// What a field value holds.
pub ghost enum FieldValueView {
    Text(Seq<char>),
    Unsigned(u64),
    Other,
}

/// What a field holds.
pub ghost struct FieldView {
    pub name: Seq<char>,
    pub value: FieldValueView,
}

impl View for FieldValue {
    type V = FieldValueView;

    open spec fn view(&self) -> FieldValueView {
        match self {
            FieldValue::Text(text) => FieldValueView::Text(text@),
            FieldValue::Unsigned(number) => FieldValueView::Unsigned(*number),
            FieldValue::Other => FieldValueView::Other,
        }
    }
}

impl View for Field {
    type V = FieldView;

    open spec fn view(&self) -> FieldView {
        FieldView { name: self.name@, value: self.value@ }
    }
}

/// The fields of a payload, each by its view, in order.
pub open spec fn payload_view(fields: Seq<Field>) -> Seq<FieldView> {
    Seq::new(fields.len(), |i: int| fields[i]@)
}

/// Why a payload is not an `Extensions` value. An index is the position
/// of the offending field in the payload.
#[derive(Clone, Copy, Debug, PartialEq, Eq)]
pub enum ExtensionSchemaError {
    /// A field that the schema does not have.
    UnknownField { index: usize },
    /// A field of the schema, for the second time.
    DuplicateField { index: usize },
    /// A field of the schema with a value of the wrong kind or size.
    InvalidValue { index: usize },
    /// No `relay_chain` field.
    MissingRelayChain,
    /// No `para_id` field.
    MissingParaId,
}

/// The name of the field that holds the relay chain.
pub open spec fn relay_chain_key() -> Seq<char> {
    "relay_chain"@
}

/// The name of the field that holds the parachain id.
pub open spec fn para_id_key() -> Seq<char> {
    "para_id"@
}

/// Whether a field before position `i` has the name of the field at `i`.
pub open spec fn named_before(fields: Seq<FieldView>, i: int) -> bool {
    exists|j: int| 0 <= j < i && (#[trigger] fields[j]).name == fields[i].name
}

/// Whether some field has the given name.
pub open spec fn has_field(fields: Seq<FieldView>, name: Seq<char>) -> bool {
    exists|j: int| 0 <= j < fields.len() && (#[trigger] fields[j]).name == name
}

/// What is wrong with the field at position `i`, if anything: a name
/// outside the schema, a name seen before, or a value that does not fit.
pub open spec fn field_fault(fields: Seq<FieldView>, i: int) -> Option<ExtensionSchemaError> {
    let field = fields[i];
    if field.name == relay_chain_key() {
        if named_before(fields, i) {
            Some(ExtensionSchemaError::DuplicateField { index: i as usize })
        } else if field.value is Text {
            None
        } else {
            Some(ExtensionSchemaError::InvalidValue { index: i as usize })
        }
    } else if field.name == para_id_key() {
        if named_before(fields, i) {
            Some(ExtensionSchemaError::DuplicateField { index: i as usize })
        } else if field.value matches FieldValueView::Unsigned(number) && number <= u32::MAX {
            None
        } else {
            Some(ExtensionSchemaError::InvalidValue { index: i as usize })
        }
    } else {
        Some(ExtensionSchemaError::UnknownField { index: i as usize })
    }
}

/// No field before position `end` has a fault.
pub open spec fn faultless_before(fields: Seq<FieldView>, end: int) -> bool {
    forall|j: int| 0 <= j < end ==> (#[trigger] field_fault(fields, j)) is None
}

/// Whether `outcome` is what decoding `fields` gives.
///
/// The fields are read in order and the first fault is the error. A
/// payload without fault lacks a field of the schema, which is the error,
/// `relay_chain` before `para_id`, or holds each exactly once, and they
/// are the value.
pub open spec fn decodes_to(
    fields: Seq<FieldView>,
    outcome: Result<ExtensionsView, ExtensionSchemaError>,
) -> bool {
    match outcome {
        Ok(value) => {
            &&& faultless_before(fields, fields.len() as int)
            &&& exists|i: int|
                0 <= i < fields.len() && #[trigger] fields[i] == (FieldView {
                    name: relay_chain_key(),
                    value: FieldValueView::Text(value.relay_chain),
                })
            &&& exists|i: int|
                0 <= i < fields.len() && #[trigger] fields[i] == (FieldView {
                    name: para_id_key(),
                    value: FieldValueView::Unsigned(value.para_id as u64),
                })
        },
        Err(ExtensionSchemaError::MissingRelayChain) => {
            &&& faultless_before(fields, fields.len() as int)
            &&& !has_field(fields, relay_chain_key())
        },
        Err(ExtensionSchemaError::MissingParaId) => {
            &&& faultless_before(fields, fields.len() as int)
            &&& has_field(fields, relay_chain_key())
            &&& !has_field(fields, para_id_key())
        },
        Err(error) => exists|i: int|
            0 <= i < fields.len() && faultless_before(fields, i) && #[trigger] field_fault(
                fields,
                i,
            ) == Some(error),
    }
}

/// The payload that an `Extensions` value is written as.
pub open spec fn spec_to_fields(value: ExtensionsView) -> Seq<FieldView> {
    seq![
        FieldView { name: relay_chain_key(), value: FieldValueView::Text(value.relay_chain) },
        FieldView { name: para_id_key(), value: FieldValueView::Unsigned(value.para_id as u64) },
    ]
}

/// The view of a decoding result.
pub open spec fn outcome_view(
    outcome: Result<Extensions, ExtensionSchemaError>,
) -> Result<ExtensionsView, ExtensionSchemaError> {
    match outcome {
        Ok(value) => Ok(value@),
        Err(error) => Err(error),
    }
}

/// The two field names differ.
pub proof fn lemma_keys_differ()
    ensures
        relay_chain_key() != para_id_key(),
        relay_chain_key().len() == 11,
        para_id_key().len() == 7,
{
    reveal_strlit("relay_chain");
    reveal_strlit("para_id");
    assert("relay_chain"@.len() == 11);
    assert("para_id"@.len() == 7);
}

impl Extensions {
    /// Writes the value as a payload: `relay_chain`, then `para_id`.
    pub fn to_fields(&self) -> (fields: Vec<Field>)
        ensures
            payload_view(fields@) == spec_to_fields(self@),
    {
        let mut fields: Vec<Field> = Vec::new();
        fields.push(
            Field {
                name: "relay_chain".to_owned(),
                value: FieldValue::Text(self.relay_chain.clone()),
            },
        );
        fields.push(
            Field { name: "para_id".to_owned(), value: FieldValue::Unsigned(self.para_id as u64) },
        );
        assert(payload_view(fields@) =~= spec_to_fields(self@));
        fields
    }

    /// Reads a value from a payload. The schema is closed: a field beyond
    /// `relay_chain` and `para_id` is an error, wherever it stands.
    pub fn from_fields(fields: &Vec<Field>) -> (decoded: Result<Extensions, ExtensionSchemaError>)
        ensures
            decodes_to(payload_view(fields@), outcome_view(decoded)),
    {
        let ghost view = payload_view(fields@);
        let relay_key: String = "relay_chain".to_owned();
        let para_key: String = "para_id".to_owned();
        proof {
            lemma_keys_differ();
        }
        let mut relay_chain: Option<String> = None;
        let mut para_id: Option<u32> = None;
        let mut i: usize = 0;
        while i < fields.len()
            invariant
                i <= fields.len(),
                view == payload_view(fields@),
                relay_key@ == relay_chain_key(),
                para_key@ == para_id_key(),
                relay_chain_key() != para_id_key(),
                faultless_before(view, i as int),
                relay_chain is Some <==> exists|j: int|
                    0 <= j < i && (#[trigger] view[j]).name == relay_chain_key(),
                para_id is Some <==> exists|j: int|
                    0 <= j < i && (#[trigger] view[j]).name == para_id_key(),
                relay_chain matches Some(text) ==> exists|j: int|
                    0 <= j < i && #[trigger] view[j] == (FieldView {
                        name: relay_chain_key(),
                        value: FieldValueView::Text(text@),
                    }),
                para_id matches Some(number) ==> exists|j: int|
                    0 <= j < i && #[trigger] view[j] == (FieldView {
                        name: para_id_key(),
                        value: FieldValueView::Unsigned(number as u64),
                    }),
            decreases fields.len() - i,
        {
            let field = &fields[i];
            assert(view[i as int] == field@);
            if field.name == relay_key {
                if relay_chain.is_some() {
                    return Err(ExtensionSchemaError::DuplicateField { index: i });
                }
                match &field.value {
                    FieldValue::Text(text) => {
                        relay_chain = Some(text.clone());
                    },
                    _ => {
                        return Err(ExtensionSchemaError::InvalidValue { index: i });
                    },
                }
            } else if field.name == para_key {
                if para_id.is_some() {
                    return Err(ExtensionSchemaError::DuplicateField { index: i });
                }
                match &field.value {
                    FieldValue::Unsigned(number) => {
                        if *number > 0xffff_ffff {
                            return Err(ExtensionSchemaError::InvalidValue { index: i });
                        }
                        para_id = Some(*number as u32);
                    },
                    _ => {
                        return Err(ExtensionSchemaError::InvalidValue { index: i });
                    },
                }
            } else {
                return Err(ExtensionSchemaError::UnknownField { index: i });
            }
            assert(field_fault(view, i as int) is None);
            i += 1;
        }
        match relay_chain {
            None => Err(ExtensionSchemaError::MissingRelayChain),
            Some(relay_chain) => match para_id {
                None => Err(ExtensionSchemaError::MissingParaId),
                Some(para_id) => Ok(Extensions { relay_chain, para_id }),
            },
        }
    }
}

/// Writing a value and reading the payload back gives the value.
pub proof fn lemma_round_trip(value: ExtensionsView)
    ensures
        decodes_to(spec_to_fields(value), Ok(value)),
{
    lemma_keys_differ();
    let fields = spec_to_fields(value);
    assert(field_fault(fields, 0) is None);
    assert(fields[0].name != fields[1].name);
    assert(!named_before(fields, 1));
    assert(field_fault(fields, 1) is None);
    assert(fields[0] == (FieldView {
        name: relay_chain_key(),
        value: FieldValueView::Text(value.relay_chain),
    }));
    assert(fields[1] == (FieldView {
        name: para_id_key(),
        value: FieldValueView::Unsigned(value.para_id as u64),
    }));
}

/// A payload with a field outside the schema does not decode, whatever
/// else it holds.
pub proof fn lemma_unknown_field_rejected(
    fields: Seq<FieldView>,
    outcome: Result<ExtensionsView, ExtensionSchemaError>,
    i: int,
)
    requires
        0 <= i < fields.len(),
        fields[i].name != relay_chain_key(),
        fields[i].name != para_id_key(),
        decodes_to(fields, outcome),
    ensures
        outcome is Err,
        outcome != Err::<ExtensionsView, ExtensionSchemaError>(
            ExtensionSchemaError::MissingRelayChain,
        ),
        outcome != Err::<ExtensionsView, ExtensionSchemaError>(ExtensionSchemaError::MissingParaId),
{
    assert(field_fault(fields, i) is Some);
}

/// A payload decodes to one outcome only.
pub proof fn lemma_decoding_unique(
    fields: Seq<FieldView>,
    first: Result<ExtensionsView, ExtensionSchemaError>,
    second: Result<ExtensionsView, ExtensionSchemaError>,
)
    requires
        fields.len() <= usize::MAX,
        decodes_to(fields, first),
        decodes_to(fields, second),
    ensures
        first == second,
{
    lemma_keys_differ();
    if faultless_before(fields, fields.len() as int) {
        assert(first is Ok || first == Err::<ExtensionsView, ExtensionSchemaError>(
            ExtensionSchemaError::MissingRelayChain,
        ) || first == Err::<ExtensionsView, ExtensionSchemaError>(
            ExtensionSchemaError::MissingParaId,
        ));
        assert(second is Ok || second == Err::<ExtensionsView, ExtensionSchemaError>(
            ExtensionSchemaError::MissingRelayChain,
        ) || second == Err::<ExtensionsView, ExtensionSchemaError>(
            ExtensionSchemaError::MissingParaId,
        ));
        if first is Ok && second is Ok {
            let a = first->Ok_0;
            let b = second->Ok_0;
            lemma_schema_field_once(fields, relay_chain_key());
            lemma_schema_field_once(fields, para_id_key());
            assert(a.relay_chain == b.relay_chain);
            assert(a.para_id == b.para_id);
        }
    } else {
        let k = choose|k: int| 0 <= k < fields.len() && field_fault(fields, k) is Some;
        assert(first is Err && second is Err);
        let i = choose|i: int|
            0 <= i < fields.len() && faultless_before(fields, i) && #[trigger] field_fault(
                fields,
                i,
            ) == Some(first->Err_0);
        let j = choose|j: int|
            0 <= j < fields.len() && faultless_before(fields, j) && #[trigger] field_fault(
                fields,
                j,
            ) == Some(second->Err_0);
        assert(i == j);
    }
}

/// In a payload without fault, a name of the schema stands at one
/// position at most.
proof fn lemma_schema_field_once(fields: Seq<FieldView>, name: Seq<char>)
    requires
        faultless_before(fields, fields.len() as int),
        name == relay_chain_key() || name == para_id_key(),
    ensures
        forall|i: int, j: int|
            0 <= i < fields.len() && 0 <= j < fields.len() && (#[trigger] fields[i]).name == name
                && (#[trigger] fields[j]).name == name ==> i == j,
{
    lemma_keys_differ();
    assert forall|i: int, j: int|
        0 <= i < fields.len() && 0 <= j < fields.len() && (#[trigger] fields[i]).name == name
            && (#[trigger] fields[j]).name == name implies i == j by {
        if i < j {
            assert(named_before(fields, j));
            assert(field_fault(fields, j) is None);
        }
        if j < i {
            assert(named_before(fields, i));
            assert(field_fault(fields, i) is None);
        }
    }
}

} // verus!
