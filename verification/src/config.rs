//! The static configuration: the plugin's descriptor, the orchestrator
//! endpoint map, and the node interface document served by the describe
//! endpoint. All of it is fixed for the process lifetime.

use vstd::prelude::*;

use crate::herp_proxy::Herp;
use crate::json::{spec_obj_fields, view_of, JsonData, JsonValue};
use crate::server::{spec_do_outputs, FieldSpec, FieldSpecData};
use crate::service::{Service, ServiceData};
use crate::text::{spec_json_text, spec_writable, to_json_text};

verus! {

/// Everything loaded at startup: who this plugin is, how the
/// orchestrator is reached, and the interface document to describe.
#[derive(Debug, PartialEq)]
pub struct Config {
    pub service: Service,
    pub herp: Herp,
    pub service_interface: JsonValue,
}

impl Config {
    pub fn new(service: Service, herp: Herp, service_interface: JsonValue) -> (r: Config)
        ensures
            r.service@ == service@,
            r.herp@ == herp@,
            r.service_interface@ == service_interface@,
    {
        Config { service, herp, service_interface }
    }

    /// The built-in configuration this deployment runs with.
    pub fn load_config() -> (r: Config)
        ensures
            r.service@ == spec_default_service(),
            r.herp@.host == "127.0.0.1:5050"@,
            r.herp@.endpoints == spec_default_endpoints(),
            r.service_interface@ == spec_node_definition(),
    {
        let service = Service {
            name: String::from_str("skeleton.herp.app"),
            title: String::from_str("Rust Skeleton Service"),
            description: String::from_str(
                "A skeleton service with all necessary functionality to talk with herp but without any logic. Feel free to integrate your ideas!",
            ),
            version: String::from_str("1.0.0"),
            host: String::from_str("127.0.0.1:6100"),
        };
        let mut endpoint_fields: Vec<(String, JsonValue)> = Vec::new();
        endpoint_fields.push(
            (String::from_str("register"), JsonValue::Str(String::from_str("/services/register"))),
        );
        let endpoints = JsonValue::Obj(endpoint_fields);
        proof {
            reveal_with_fuel(view_of, 2);
            let fs = spec_obj_fields(endpoints@);
            assert(fs[0] == ("register"@, JsonData::Str("/services/register"@)));
            assert(fs =~= spec_obj_fields(spec_default_endpoints()));
            assert(endpoints@ == JsonData::Obj(fs));
        }
        let herp = Herp { host: String::from_str("127.0.0.1:5050"), endpoints };
        Config { service, herp, service_interface: node_definition() }
    }
}

/// The built-in service descriptor.
pub open spec fn spec_default_service() -> ServiceData {
    ServiceData {
        name: "skeleton.herp.app"@,
        title: "Rust Skeleton Service"@,
        description: "A skeleton service with all necessary functionality to talk with herp but without any logic. Feel free to integrate your ideas!"@,
        version: "1.0.0"@,
        host: "127.0.0.1:6100"@,
    }
}

/// The built-in endpoint map: only registration is configured.
pub open spec fn spec_default_endpoints() -> JsonData {
    JsonData::Obj(seq![("register"@, JsonData::Str("/services/register"@))])
}

/// A field descriptor as it appears in the interface document.
pub open spec fn spec_field_json(f: FieldSpecData) -> JsonData {
    JsonData::Obj(
        seq![
            ("fieldType"@, JsonData::Str(f.field_type)),
            ("name"@, JsonData::Str(f.name)),
            ("label"@, JsonData::Str(f.label)),
        ],
    )
}

/// The single input field the interface document declares.
pub open spec fn spec_interface_inputs() -> Seq<FieldSpecData> {
    seq![
        FieldSpecData {
            field_type: "string"@,
            name: "inputField1"@,
            label: "String input field."@,
        },
    ]
}

/// The node entry of the interface document.
pub open spec fn spec_node_entry() -> JsonData {
    JsonData::Obj(
        seq![
            ("name"@, JsonData::Str("myService"@)),
            ("label"@, JsonData::Str("My Service Node"@)),
            ("inputs"@, JsonData::Arr(seq![spec_field_json(spec_interface_inputs()[0])])),
            ("outputs"@, JsonData::Arr(seq![spec_field_json(spec_do_outputs()[0])])),
        ],
    )
}

/// The whole interface document: one node definition.
pub open spec fn spec_node_definition() -> JsonData {
    JsonData::Obj(seq![("nodeDefinitions"@, JsonData::Arr(seq![spec_node_entry()]))])
}

/// A field descriptor rendered into the interface document.
fn field_json(f: &FieldSpec) -> (r: JsonValue)
    ensures
        r@ == spec_field_json(f@),
{
    let mut fields: Vec<(String, JsonValue)> = Vec::new();
    fields.push((String::from_str("fieldType"), JsonValue::Str(f.field_type.clone())));
    fields.push((String::from_str("name"), JsonValue::Str(f.name.clone())));
    fields.push((String::from_str("label"), JsonValue::Str(f.label.clone())));
    let r = JsonValue::Obj(fields);
    proof {
        reveal_with_fuel(view_of, 2);
        let fs = spec_obj_fields(r@);
        assert(fs[0] == ("fieldType"@, JsonData::Str(f.field_type@)));
        assert(fs[1] == ("name"@, JsonData::Str(f.name@)));
        assert(fs[2] == ("label"@, JsonData::Str(f.label@)));
        assert(fs =~= spec_obj_fields(spec_field_json(f@)));
        assert(r@ == JsonData::Obj(fs));
    }
    r
}

/// The static interface document the describe endpoint serves. A pure
/// constant: every call returns the same value.
pub fn node_definition() -> (r: JsonValue)
    ensures
        r@ == spec_node_definition(),
{
    let input = FieldSpec {
        field_type: String::from_str("string"),
        name: String::from_str("inputField1"),
        label: String::from_str("String input field."),
    };
    let output = FieldSpec {
        field_type: String::from_str("string"),
        name: String::from_str("outputField"),
        label: String::from_str("Output strings"),
    };
    let input_json = field_json(&input);
    let output_json = field_json(&output);
    proof {
        assert(input@ =~= spec_interface_inputs()[0]);
        assert(output@ =~= spec_do_outputs()[0]);
    }
    let mut inputs_items: Vec<JsonValue> = Vec::new();
    inputs_items.push(input_json);
    let inputs_arr = JsonValue::Arr(inputs_items);
    let mut outputs_items: Vec<JsonValue> = Vec::new();
    outputs_items.push(output_json);
    let outputs_arr = JsonValue::Arr(outputs_items);
    proof {
        assert(inputs_arr@->Arr_0[0] == view_of(inputs_items@[0]));
        assert(inputs_arr@->Arr_0 =~= seq![spec_field_json(spec_interface_inputs()[0])]);
        assert(inputs_arr@ == JsonData::Arr(inputs_arr@->Arr_0));
        assert(outputs_arr@->Arr_0[0] == view_of(outputs_items@[0]));
        assert(outputs_arr@->Arr_0 =~= seq![spec_field_json(spec_do_outputs()[0])]);
        assert(outputs_arr@ == JsonData::Arr(outputs_arr@->Arr_0));
    }
    let mut entry_fields: Vec<(String, JsonValue)> = Vec::new();
    entry_fields.push((String::from_str("name"), JsonValue::Str(String::from_str("myService"))));
    entry_fields.push(
        (String::from_str("label"), JsonValue::Str(String::from_str("My Service Node"))),
    );
    entry_fields.push((String::from_str("inputs"), inputs_arr));
    entry_fields.push((String::from_str("outputs"), outputs_arr));
    let entry = JsonValue::Obj(entry_fields);
    proof {
        reveal_with_fuel(view_of, 2);
        let fs = spec_obj_fields(entry@);
        assert(fs[0] == ("name"@, JsonData::Str("myService"@)));
        assert(fs[1] == ("label"@, JsonData::Str("My Service Node"@)));
        assert(fs[2] == ("inputs"@, view_of(entry_fields@[2].1)));
        assert(fs[3] == ("outputs"@, view_of(entry_fields@[3].1)));
        assert(fs =~= spec_obj_fields(spec_node_entry()));
        assert(entry@ == JsonData::Obj(fs));
    }
    let mut def_items: Vec<JsonValue> = Vec::new();
    def_items.push(entry);
    let defs = JsonValue::Arr(def_items);
    proof {
        assert(defs@->Arr_0[0] == view_of(def_items@[0]));
        assert(defs@->Arr_0 =~= seq![spec_node_entry()]);
        assert(defs@ == JsonData::Arr(defs@->Arr_0));
    }
    let mut top_fields: Vec<(String, JsonValue)> = Vec::new();
    top_fields.push((String::from_str("nodeDefinitions"), defs));
    let r = JsonValue::Obj(top_fields);
    proof {
        let fs = spec_obj_fields(r@);
        assert(fs[0] == ("nodeDefinitions"@, view_of(top_fields@[0].1)));
        assert(fs =~= spec_obj_fields(spec_node_definition()));
        assert(r@ == JsonData::Obj(fs));
    }
    r
}

/// The interface document holds no number anywhere, so it can be
/// rendered.
pub proof fn lemma_node_definition_writable()
    ensures
        spec_writable(spec_node_definition()),
{
    reveal_with_fuel(spec_writable, 3);
    let inp = spec_field_json(spec_interface_inputs()[0]);
    let outp = spec_field_json(spec_do_outputs()[0]);
    let fi = spec_obj_fields(inp);
    assert(fi.len() == 3 && fi[0].1 is Str && fi[1].1 is Str && fi[2].1 is Str);
    assert(spec_writable(inp));
    let fo = spec_obj_fields(outp);
    assert(fo.len() == 3 && fo[0].1 is Str && fo[1].1 is Str && fo[2].1 is Str);
    assert(spec_writable(outp));
    assert(seq![inp][0] == inp && seq![inp].len() == 1);
    assert(spec_writable(JsonData::Arr(seq![inp])));
    assert(seq![outp][0] == outp && seq![outp].len() == 1);
    assert(spec_writable(JsonData::Arr(seq![outp])));
    let fe = spec_obj_fields(spec_node_entry());
    assert(fe.len() == 4 && fe[0].1 is Str && fe[1].1 is Str);
    assert(fe[2].1 == JsonData::Arr(seq![inp]) && fe[3].1 == JsonData::Arr(seq![outp]));
    assert(spec_writable(spec_node_entry()));
    assert(seq![spec_node_entry()][0] == spec_node_entry());
    assert(spec_writable(JsonData::Arr(seq![spec_node_entry()])));
    let ft = spec_obj_fields(spec_node_definition());
    assert(ft.len() == 1 && ft[0].1 == JsonData::Arr(seq![spec_node_entry()]));
    assert(spec_writable(spec_node_definition()));
}

/// The describe endpoint's whole response body: the interface document
/// rendered to text.
pub fn install_get_body() -> (r: String)
    ensures
        r@ == spec_json_text(spec_node_definition()),
{
    let doc = node_definition();
    proof {
        lemma_node_definition_writable();
    }
    to_json_text(&doc)
}

/// The describe endpoint is idempotent and effect-free: every response
/// body is the one fixed document rendered the one fixed way, so any
/// two response bodies are byte-identical.
pub proof fn lemma_describe_idempotent(a: Seq<char>, b: Seq<char>)
    requires
        a == spec_json_text(spec_node_definition()),
        b == spec_json_text(spec_node_definition()),
    ensures
        a == b,
{
}

} // verus!
