//! The plugin's inbound HTTP surface: the decisions behind the
//! describe, install-callback and execute endpoints.
//!
//! Each endpoint's handler in the surrounding binary parses the body to
//! a [`JsonValue`], calls the decision function here, and turns the
//! result into an HTTP response. Validation is schema-driven: no field
//! is read before its presence and type are checked.

use vstd::prelude::*;

use crate::json::{spec_as_str, spec_get, spec_get_str, spec_obj_fields, view_of, JsonData, JsonValue};
use crate::service::{Credentials, CredentialsData};

verus! {

/// One declared interface field: its type, wire name and display label.
/// Only the `string` field type is defined.
#[derive(Debug, PartialEq)]
pub struct FieldSpec {
    pub field_type: String,
    pub name: String,
    pub label: String,
}

/// The mathematical content of a `FieldSpec`.
#[verifier::ext_equal]
pub struct FieldSpecData {
    pub field_type: Seq<char>,
    pub name: Seq<char>,
    pub label: Seq<char>,
}

impl View for FieldSpec {
    type V = FieldSpecData;

    open spec fn view(&self) -> FieldSpecData {
        FieldSpecData { field_type: self.field_type@, name: self.name@, label: self.label@ }
    }
}

/// The declared inputs and outputs of the workflow node. The fields
/// declared here must match what the processing function reads and
/// writes; that correspondence is a deployment obligation, not a
/// runtime-checkable one.
#[derive(Debug, PartialEq)]
pub struct NodeInterfaceSchema {
    pub inputs: Vec<FieldSpec>,
    pub outputs: Vec<FieldSpec>,
}

/// The mathematical content of a `NodeInterfaceSchema`.
#[verifier::ext_equal]
pub struct NodeInterfaceSchemaData {
    pub inputs: Seq<FieldSpecData>,
    pub outputs: Seq<FieldSpecData>,
}

impl View for NodeInterfaceSchema {
    type V = NodeInterfaceSchemaData;

    open spec fn view(&self) -> NodeInterfaceSchemaData {
        NodeInterfaceSchemaData {
            inputs: Seq::new(self.inputs@.len(), |i: int| self.inputs@[i]@),
            outputs: Seq::new(self.outputs@.len(), |i: int| self.outputs@[i]@),
        }
    }
}

/// Why an inbound body was rejected: a declared field was absent, or
/// present with the wrong type. The payload names the offending field.
#[derive(Debug, PartialEq)]
pub enum ValidationError {
    MissingField(String),
    WrongType(String),
}

/// The mathematical content of a `ValidationError`.
pub enum ValidationErrorData {
    MissingField(Seq<char>),
    WrongType(Seq<char>),
}

impl View for ValidationError {
    type V = ValidationErrorData;

    open spec fn view(&self) -> ValidationErrorData {
        match self {
            ValidationError::MissingField(n) => ValidationErrorData::MissingField(n@),
            ValidationError::WrongType(n) => ValidationErrorData::WrongType(n@),
        }
    }
}

/// The position of the first declared input at or after `i` that the
/// body misses or mistypes, if any.
pub open spec fn spec_first_invalid_from(
    inputs: Seq<FieldSpecData>,
    body: JsonData,
    i: int,
) -> Option<int>
    decreases inputs.len() - i,
{
    if i < 0 || i >= inputs.len() {
        None
    } else if spec_get(body, inputs[i].name) is None {
        Some(i)
    } else if spec_as_str(spec_get(body, inputs[i].name).unwrap()) is None {
        Some(i)
    } else {
        spec_first_invalid_from(inputs, body, i + 1)
    }
}

/// The error owed for the offending input at position `k`: absent
/// fields are reported before mistyped ones.
pub open spec fn spec_invalid_error(
    inputs: Seq<FieldSpecData>,
    body: JsonData,
    k: int,
) -> ValidationErrorData {
    if spec_get(body, inputs[k].name) is None {
        ValidationErrorData::MissingField(inputs[k].name)
    } else {
        ValidationErrorData::WrongType(inputs[k].name)
    }
}

/// What the reported position means: the declared input there is
/// missing or mistyped, it is a declared input, and every earlier
/// declared input is present as a string. The endpoint thus rejects a
/// body exactly on its first offence, in declaration order.
pub proof fn lemma_first_invalid_is_earliest(inputs: Seq<FieldSpecData>, body: JsonData, k: int)
    requires
        spec_first_invalid_from(inputs, body, 0) == Some(k),
    ensures
        0 <= k < inputs.len(),
        spec_get_str(body, inputs[k].name) is None,
        forall|j: int| 0 <= j < k ==> spec_get_str(body, (#[trigger] inputs[j]).name) is Some,
{
    lemma_first_invalid_from_props(inputs, body, 0, k);
}

proof fn lemma_first_invalid_from_props(
    inputs: Seq<FieldSpecData>,
    body: JsonData,
    start: int,
    k: int,
)
    requires
        0 <= start,
        spec_first_invalid_from(inputs, body, start) == Some(k),
    ensures
        start <= k < inputs.len(),
        spec_get_str(body, inputs[k].name) is None,
        forall|j: int| start <= j < k ==> spec_get_str(body, (#[trigger] inputs[j]).name) is Some,
    decreases inputs.len() - start,
{
    if start < inputs.len() && (spec_get(body, inputs[start].name) is None || spec_as_str(
        spec_get(body, inputs[start].name).unwrap(),
    ) is None) {
    } else {
        lemma_first_invalid_from_props(inputs, body, start + 1, k);
    }
}

/// Checks the body against the declared inputs, in declaration order:
/// every declared field must be present as a JSON string. On success the
/// values come back in declaration order; otherwise the first offending
/// field is reported and nothing else is read.
pub fn validate_inputs(schema: &NodeInterfaceSchema, body: &JsonValue) -> (r: Result<
    Vec<String>,
    ValidationError,
>)
    ensures
        match r {
            Ok(vals) => {
                &&& spec_first_invalid_from(schema@.inputs, body@, 0) is None
                &&& vals@.len() == schema@.inputs.len()
                &&& forall|k: int|
                    0 <= k < vals@.len() ==> spec_get_str(body@, schema@.inputs[k].name) == Some(
                        vals@[k]@,
                    )
            },
            Err(e) => {
                &&& spec_first_invalid_from(schema@.inputs, body@, 0) matches Some(k)
                &&& e@ == spec_invalid_error(schema@.inputs, body@, k)
            },
        },
{
    let ghost ins = schema@.inputs;
    let n = schema.inputs.len();
    let mut vals: Vec<String> = Vec::new();
    #[verifier::loop_isolation(false)]
    for i in 0..n
        invariant
            vals@.len() == i,
            spec_first_invalid_from(ins, body@, 0) == spec_first_invalid_from(ins, body@, i as int),
            forall|k: int| 0 <= k < i ==> spec_get_str(body@, ins[k].name) == Some(vals@[k]@),
    {
        match body.get(&schema.inputs[i].name) {
            None => {
                return Err(ValidationError::MissingField(schema.inputs[i].name.clone()));
            },
            Some(f) => match f.as_str() {
                None => {
                    return Err(ValidationError::WrongType(schema.inputs[i].name.clone()));
                },
                Some(s) => {
                    vals.push(s.clone());
                },
            },
        }
    }
    Ok(vals)
}

/// The response object owed on success: each declared output name bound
/// to its value, in declaration order.
pub open spec fn spec_output_json(outputs: Seq<FieldSpecData>, values: Seq<Seq<char>>) -> JsonData
    recommends
        values.len() == outputs.len(),
{
    JsonData::Obj(Seq::new(outputs.len(), |k: int| (outputs[k].name, JsonData::Str(values[k]))))
}

/// Wraps the output values into the response object declared by the
/// schema.
pub fn make_output(schema: &NodeInterfaceSchema, values: &Vec<String>) -> (r: JsonValue)
    requires
        values@.len() == schema@.outputs.len(),
    ensures
        r@ == spec_output_json(
            schema@.outputs,
            Seq::new(values@.len(), |k: int| values@[k]@),
        ),
{
    let ghost outs = schema@.outputs;
    let n = schema.outputs.len();
    let mut fields: Vec<(String, JsonValue)> = Vec::new();
    #[verifier::loop_isolation(false)]
    for i in 0..n
        invariant
            fields@.len() == i,
            forall|k: int| 0 <= k < i ==> (#[trigger] fields@[k]).0@ == outs[k].name,
            forall|k: int|
                0 <= k < i ==> (#[trigger] fields@[k]).1 == JsonValue::Str(values@[k]),
    {
        fields.push((schema.outputs[i].name.clone(), JsonValue::Str(values[i].clone())));
    }
    let r = JsonValue::Obj(fields);
    proof {
        reveal_with_fuel(view_of, 2);
        let fs = spec_obj_fields(r@);
        let want = Seq::new(values@.len(), |k: int| values@[k]@);
        assert forall|k: int| 0 <= k < n implies fs[k] == (
            outs[k].name,
            JsonData::Str(want[k]),
        ) by {
            assert(fields@[k].1 == JsonValue::Str(values@[k]));
        }
        assert(fs =~= spec_obj_fields(spec_output_json(outs, want)));
        assert(r@ == JsonData::Obj(fs));
    }
    r
}

/// Concatenates the two input fields; the business logic this node runs.
pub fn process(input_field_1: &String, input_field_2: &String) -> (r: String)
    ensures
        r@ == input_field_1@ + input_field_2@,
{
    input_field_1.clone().concat(input_field_2.as_str())
}

/// The two string inputs the execute endpoint requires.
pub open spec fn spec_do_inputs() -> Seq<FieldSpecData> {
    seq![
        FieldSpecData {
            field_type: "string"@,
            name: "inputField1"@,
            label: "String input field."@,
        },
        FieldSpecData {
            field_type: "string"@,
            name: "inputField2"@,
            label: "String input field."@,
        },
    ]
}

/// The single output field the execute endpoint writes.
pub open spec fn spec_do_outputs() -> Seq<FieldSpecData> {
    seq![FieldSpecData { field_type: "string"@, name: "outputField"@, label: "Output strings"@ }]
}

/// The schema the execute endpoint validates against.
pub fn do_schema() -> (r: NodeInterfaceSchema)
    ensures
        r@.inputs == spec_do_inputs(),
        r@.outputs == spec_do_outputs(),
{
    let mut inputs: Vec<FieldSpec> = Vec::new();
    inputs.push(
        FieldSpec {
            field_type: String::from_str("string"),
            name: String::from_str("inputField1"),
            label: String::from_str("String input field."),
        },
    );
    inputs.push(
        FieldSpec {
            field_type: String::from_str("string"),
            name: String::from_str("inputField2"),
            label: String::from_str("String input field."),
        },
    );
    let mut outputs: Vec<FieldSpec> = Vec::new();
    outputs.push(
        FieldSpec {
            field_type: String::from_str("string"),
            name: String::from_str("outputField"),
            label: String::from_str("Output strings"),
        },
    );
    let r = NodeInterfaceSchema { inputs, outputs };
    proof {
        assert(r@.inputs =~= spec_do_inputs());
        assert(r@.outputs =~= spec_do_outputs());
    }
    r
}

/// The response owed by the execute endpoint on success: the
/// concatenation of the two inputs under the declared output name.
pub open spec fn spec_do_output(v1: Seq<char>, v2: Seq<char>) -> JsonData {
    JsonData::Obj(seq![("outputField"@, JsonData::Str(v1 + v2))])
}

/// The execute endpoint's decision: both declared input fields must be
/// present as JSON strings; their concatenation comes back under the
/// declared output name. The first missing or mistyped field is
/// reported instead, and nothing is processed.
pub fn run(body: &JsonValue) -> (r: Result<JsonValue, ValidationError>)
    ensures
        match r {
            Ok(out) => {
                &&& spec_first_invalid_from(spec_do_inputs(), body@, 0) is None
                &&& out@ == spec_do_output(
                    spec_get_str(body@, "inputField1"@).unwrap(),
                    spec_get_str(body@, "inputField2"@).unwrap(),
                )
            },
            Err(e) => {
                &&& spec_first_invalid_from(spec_do_inputs(), body@, 0) matches Some(k)
                &&& e@ == spec_invalid_error(spec_do_inputs(), body@, k)
            },
        },
{
    let schema = do_schema();
    let vals = match validate_inputs(&schema, body) {
        Ok(vals) => vals,
        Err(e) => {
            return Err(e);
        },
    };
    let result = process(&vals[0], &vals[1]);
    let mut out_vals: Vec<String> = Vec::new();
    out_vals.push(result);
    let out = make_output(&schema, &out_vals);
    proof {
        let v1 = spec_get_str(body@, "inputField1"@).unwrap();
        let v2 = spec_get_str(body@, "inputField2"@).unwrap();
        assert(spec_do_inputs()[0].name == "inputField1"@);
        assert(spec_do_inputs()[1].name == "inputField2"@);
        assert(out_vals@[0]@ == v1 + v2);
        let fs = spec_obj_fields(out@);
        assert(fs.len() == 1);
        assert(fs[0] == ("outputField"@, JsonData::Str(v1 + v2)));
        assert(fs =~= spec_obj_fields(spec_do_output(v1, v2)));
        assert(out@ == JsonData::Obj(fs));
    }
    Ok(out)
}

/// What one string field of the install callback body yields: its
/// content, or the error naming it.
pub open spec fn spec_field_check(body: JsonData, key: Seq<char>) -> Result<
    Seq<char>,
    ValidationErrorData,
> {
    match spec_get(body, key) {
        None => Err(ValidationErrorData::MissingField(key)),
        Some(f) => match spec_as_str(f) {
            Some(s) => Ok(s),
            None => Err(ValidationErrorData::WrongType(key)),
        },
    }
}

/// What the install callback body yields: the delivered credentials,
/// shaped as string fields `name` and `password`, checked in that
/// order.
pub open spec fn spec_parse_credentials(body: JsonData) -> Result<
    CredentialsData,
    ValidationErrorData,
> {
    match spec_field_check(body, "name"@) {
        Err(e) => Err(e),
        Ok(nm) => match spec_field_check(body, "password"@) {
            Err(e) => Err(e),
            Ok(pw) => Ok(CredentialsData { name: nm, password: pw }),
        },
    }
}

/// Reads the credentials out of an install callback body.
pub fn parse_credentials(body: &JsonValue) -> (r: Result<Credentials, ValidationError>)
    ensures
        match r {
            Ok(c) => spec_parse_credentials(body@) == Ok::<CredentialsData, ValidationErrorData>(
                c@,
            ),
            Err(e) => spec_parse_credentials(body@) == Err::<CredentialsData, ValidationErrorData>(
                e@,
            ),
        },
{
    let name = match body.get_str(&String::from_str("name")) {
        Some(n) => n.clone(),
        None => {
            return Err(
                match body.get(&String::from_str("name")) {
                    None => ValidationError::MissingField(String::from_str("name")),
                    Some(_) => ValidationError::WrongType(String::from_str("name")),
                },
            );
        },
    };
    let password = match body.get_str(&String::from_str("password")) {
        Some(p) => p.clone(),
        None => {
            return Err(
                match body.get(&String::from_str("password")) {
                    None => ValidationError::MissingField(String::from_str("password")),
                    Some(_) => ValidationError::WrongType(String::from_str("password")),
                },
            );
        },
    };
    Ok(Credentials { name, password })
}

/// The install callback's whole effect on the stored credentials: a
/// valid body replaces them (last write wins) and is acknowledged; an
/// invalid body leaves them exactly as they were and reports the first
/// offending field.
pub fn install_post_transition(stored: Credentials, body: &JsonValue) -> (r: (
    Credentials,
    Result<(), ValidationError>,
))
    ensures
        match spec_parse_credentials(body@) {
            Ok(c) => {
                &&& r.0@ == c
                &&& r.1 is Ok
            },
            Err(e) => {
                &&& r.0@ == stored@
                &&& r.1 matches Err(e2)
                &&& e2@ == e
            },
        },
{
    match parse_credentials(body) {
        Ok(c) => (c, Ok(())),
        Err(e) => (stored, Err(e)),
    }
}

} // verus!
