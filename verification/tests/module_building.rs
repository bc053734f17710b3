use sumi::errors::GenerationError;
use sumi::generate;
use sumi::jsonval::JsonNode;
use sumi::model::build_module;

fn s(text: &str) -> String {
    String::from(text)
}

fn entry(ty: &str, mutability: &str, name: &str, inputs: Vec<(&str, &str)>, outputs: Vec<&str>) -> JsonNode {
    let input_nodes: Vec<JsonNode> = inputs
        .into_iter()
        .map(|(n, t)| {
            JsonNode::Object(vec![(s("name"), JsonNode::Str(s(n))), (s("type"), JsonNode::Str(s(t)))])
        })
        .collect();
    let output_nodes: Vec<JsonNode> = outputs
        .into_iter()
        .map(|t| JsonNode::Object(vec![(s("type"), JsonNode::Str(s(t)))]))
        .collect();
    JsonNode::Object(vec![
        (s("type"), JsonNode::Str(s(ty))),
        (s("stateMutability"), JsonNode::Str(s(mutability))),
        (s("name"), JsonNode::Str(s(name))),
        (s("inputs"), JsonNode::Array(input_nodes)),
        (s("outputs"), JsonNode::Array(output_nodes)),
    ])
}

#[test]
fn excludes_view_and_non_bool_entries() {
    let doc = JsonNode::Array(vec![
        entry("function", "view", "balanceOf", vec![("owner", "address")], vec!["bool"]),
        entry("function", "nonpayable", "totalSupply", vec![], vec!["uint256"]),
    ]);
    let module = build_module(&doc, "erc20", "0x0F").unwrap();
    assert_eq!(module.functions.len(), 0);
}

#[test]
fn keeps_qualifying_entries_only() {
    let doc = JsonNode::Array(vec![
        entry("event", "nonpayable", "Transfer", vec![], vec![]),
        entry("function", "view", "symbol", vec![], vec!["bool"]),
        entry("function", "nonpayable", "transfer", vec![("to", "address"), ("amount", "uint256")], vec!["bool"]),
    ]);
    let module = build_module(&doc, "erc20", "0x0F").unwrap();
    assert_eq!(module.functions.len(), 1);
    assert_eq!(module.functions[0].name, "transfer");
}

#[test]
fn entry_without_outputs_qualifies() {
    let doc = JsonNode::Array(vec![entry("function", "nonpayable", "pause", vec![], vec![])]);
    let module = build_module(&doc, "m", "0x0F").unwrap();
    assert_eq!(module.functions.len(), 1);
    assert_eq!(module.functions[0].selector, "pause()");
}

#[test]
fn preserves_first_pass_order() {
    let doc = JsonNode::Array(vec![
        entry("function", "nonpayable", "zebra", vec![], vec!["bool"]),
        entry("function", "view", "skipped", vec![], vec!["bool"]),
        entry("function", "nonpayable", "apple", vec![], vec!["bool"]),
        entry("function", "payable", "mango", vec![], vec!["bool"]),
    ]);
    let module = build_module(&doc, "m", "0x0F").unwrap();
    let names: Vec<&str> = module.functions.iter().map(|f| f.name.as_str()).collect();
    assert_eq!(names, vec!["zebra", "apple", "mango"]);
}

#[test]
fn resolves_input_types_and_selector() {
    let doc = JsonNode::Array(vec![entry(
        "function",
        "nonpayable",
        "transfer",
        vec![("to", "address"), ("amount", "uint256")],
        vec!["bool"],
    )]);
    let module = build_module(&doc, "erc20", "0x0F").unwrap();
    let f = &module.functions[0];
    assert_eq!(f.inputs.len(), 2);
    assert_eq!(f.inputs[0].name, "to");
    assert_eq!(f.inputs[0].evm_type, "address");
    assert_eq!(f.inputs[0].mapped_type, "H160");
    assert_eq!(f.inputs[1].name, "amount");
    assert_eq!(f.inputs[1].evm_type, "uint256");
    assert_eq!(f.inputs[1].mapped_type, "U256");
    assert_eq!(f.output, "bool");
    assert_eq!(f.selector, "transfer(address,uint256)");
    assert_eq!(f.selector_hash, "a9059cbb");
    assert_eq!(module.name, "erc20");
    assert_eq!(module.evm_id, "0x0F");
}

#[test]
fn malformed_type_fails_with_the_offending_string() {
    let doc = JsonNode::Array(vec![entry(
        "function",
        "nonpayable",
        "transfer",
        vec![("to", "uint7")],
        vec!["bool"],
    )]);
    let err = build_module(&doc, "m", "0x0F").unwrap_err();
    assert_eq!(err, GenerationError::MalformedType(s("uint7")));
}

#[test]
fn unbalanced_brackets_fail_as_malformed() {
    let doc = JsonNode::Array(vec![entry(
        "function",
        "nonpayable",
        "transfer",
        vec![("to", "uint256[")],
        vec!["bool"],
    )]);
    let err = build_module(&doc, "m", "0x0F").unwrap_err();
    assert_eq!(err, GenerationError::MalformedType(s("uint256[")));
}

#[test]
fn non_array_top_level_is_invalid() {
    let doc = JsonNode::Object(vec![]);
    let err = build_module(&doc, "m", "0x0F").unwrap_err();
    assert_eq!(err, GenerationError::InvalidInterface);
}

#[test]
fn non_object_entry_is_invalid() {
    let doc = JsonNode::Array(vec![JsonNode::Str(s("stray"))]);
    let err = build_module(&doc, "m", "0x0F").unwrap_err();
    assert_eq!(err, GenerationError::InvalidInterface);
}

#[test]
fn qualifying_entry_without_name_is_invalid() {
    let doc = JsonNode::Array(vec![JsonNode::Object(vec![
        (s("type"), JsonNode::Str(s("function"))),
        (s("stateMutability"), JsonNode::Str(s("nonpayable"))),
    ])]);
    let err = build_module(&doc, "m", "0x0F").unwrap_err();
    assert_eq!(err, GenerationError::InvalidInterface);
}

#[test]
fn input_without_type_is_invalid() {
    let doc = JsonNode::Array(vec![JsonNode::Object(vec![
        (s("type"), JsonNode::Str(s("function"))),
        (s("stateMutability"), JsonNode::Str(s("nonpayable"))),
        (s("name"), JsonNode::Str(s("f"))),
        (
            s("inputs"),
            JsonNode::Array(vec![JsonNode::Object(vec![(s("name"), JsonNode::Str(s("x")))])]),
        ),
    ])]);
    let err = build_module(&doc, "m", "0x0F").unwrap_err();
    assert_eq!(err, GenerationError::InvalidInterface);
}

#[test]
fn non_json_text_is_invalid() {
    let err = generate("not json at all", "m", "0x0F").unwrap_err();
    assert_eq!(err, GenerationError::InvalidInterface);
}

#[test]
fn json_object_top_level_is_invalid() {
    let err = generate("{\"type\": \"function\"}", "m", "0x0F").unwrap_err();
    assert_eq!(err, GenerationError::InvalidInterface);
}

#[test]
fn empty_interface_generates_empty_module() {
    let out = generate("[]", "erc20", "0x0F").unwrap();
    assert!(out.contains("mod erc20 {"));
    assert!(out.contains("pub struct Erc20 {"));
    assert!(!out.contains("_SELECTOR"));
    assert!(out.ends_with("\n"));
}

#[test]
fn missing_state_mutability_passes_the_filter() {
    let doc = JsonNode::Array(vec![JsonNode::Object(vec![
        (s("type"), JsonNode::Str(s("function"))),
        (s("name"), JsonNode::Str(s("poke"))),
    ])]);
    let module = build_module(&doc, "m", "0x0F").unwrap();
    assert_eq!(module.functions.len(), 1);
    assert_eq!(module.functions[0].selector, "poke()");
}

#[test]
fn non_array_outputs_field_passes_the_filter() {
    let doc = JsonNode::Array(vec![JsonNode::Object(vec![
        (s("type"), JsonNode::Str(s("function"))),
        (s("stateMutability"), JsonNode::Str(s("nonpayable"))),
        (s("name"), JsonNode::Str(s("poke"))),
        (s("outputs"), JsonNode::Null),
    ])]);
    let module = build_module(&doc, "m", "0x0F").unwrap();
    assert_eq!(module.functions.len(), 1);
}

#[test]
fn numeric_and_boolean_extras_are_tolerated() {
    let text = "[{\"type\":\"function\",\"name\":\"poke\",\"stateMutability\":\"nonpayable\",\"inputs\":[],\"outputs\":[{\"type\":\"bool\"}],\"gas\":21000,\"constant\":false,\"doc\":null}]";
    let out = generate(text, "m", "0x0F").unwrap();
    assert!(out.contains("const POKE_SELECTOR"));
}

#[test]
fn tuple_input_maps_to_a_product_type() {
    let doc = JsonNode::Array(vec![entry(
        "function",
        "nonpayable",
        "swap",
        vec![("pair", "(address,uint256)")],
        vec!["bool"],
    )]);
    let module = build_module(&doc, "m", "0x0F").unwrap();
    let f = &module.functions[0];
    assert_eq!(f.inputs[0].mapped_type, "(H160, U256)");
    assert_eq!(f.selector, "swap((address,uint256))");
}
