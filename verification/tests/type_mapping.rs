use sumi::abi::{map_type, parse_type_str, usize_to_string, ParamType, ParamTypeList};

#[test]
fn maps_every_base_variant() {
    assert_eq!(map_type(&ParamType::Bool), "bool");
    assert_eq!(map_type(&ParamType::Address), "H160");
    assert_eq!(map_type(&ParamType::Bytes), "Vec<u8>");
    assert_eq!(map_type(&ParamType::Str), "String");
    assert_eq!(map_type(&ParamType::FixedBytes(32)), "FixedBytes<32>");
}

#[test]
fn maps_explicit_integer_widths_exactly() {
    assert_eq!(map_type(&ParamType::Int(8)), "i8");
    assert_eq!(map_type(&ParamType::Int(16)), "i16");
    assert_eq!(map_type(&ParamType::Int(32)), "i32");
    assert_eq!(map_type(&ParamType::Int(64)), "i64");
    assert_eq!(map_type(&ParamType::Int(128)), "i128");
    assert_eq!(map_type(&ParamType::Uint(8)), "u8");
    assert_eq!(map_type(&ParamType::Uint(16)), "u16");
    assert_eq!(map_type(&ParamType::Uint(32)), "u32");
    assert_eq!(map_type(&ParamType::Uint(64)), "u64");
    assert_eq!(map_type(&ParamType::Uint(128)), "u128");
}

#[test]
fn maps_word_width_to_big_integers() {
    assert_eq!(map_type(&ParamType::Int(256)), "I256");
    assert_eq!(map_type(&ParamType::Uint(256)), "U256");
}

#[test]
fn maps_containers_recursively() {
    let inner = ParamType::Array(Box::new(ParamType::Uint(256)));
    assert_eq!(map_type(&inner), "Vec<U256>");
    let nested = ParamType::Array(Box::new(ParamType::Array(Box::new(ParamType::Bool))));
    assert_eq!(map_type(&nested), "Vec<Vec<bool>>");
    let fixed = ParamType::FixedArray(Box::new(ParamType::Address), 3);
    assert_eq!(map_type(&fixed), "[H160; 3]");
    let deep = ParamType::FixedArray(Box::new(ParamType::Array(Box::new(ParamType::Uint(8)))), 12);
    assert_eq!(map_type(&deep), "[Vec<u8>; 12]");
}

#[test]
fn maps_tuples_as_products() {
    let ts = ParamTypeList::Cons(
        ParamType::Address,
        Box::new(ParamTypeList::Cons(ParamType::Uint(256), Box::new(ParamTypeList::Nil))),
    );
    assert_eq!(map_type(&ParamType::Tuple(Box::new(ts))), "(H160, U256)");
    assert_eq!(map_type(&ParamType::Tuple(Box::new(ParamTypeList::Nil))), "()");
}

#[test]
fn map_type_is_deterministic() {
    let t = ParamType::Array(Box::new(ParamType::Uint(256)));
    assert_eq!(map_type(&t), map_type(&t));
}

#[test]
fn parses_base_types() {
    assert_eq!(parse_type_str("bool"), Some(ParamType::Bool));
    assert_eq!(parse_type_str("address"), Some(ParamType::Address));
    assert_eq!(parse_type_str("bytes"), Some(ParamType::Bytes));
    assert_eq!(parse_type_str("string"), Some(ParamType::Str));
    assert_eq!(parse_type_str("int"), Some(ParamType::Int(256)));
    assert_eq!(parse_type_str("uint"), Some(ParamType::Uint(256)));
    assert_eq!(parse_type_str("uint128"), Some(ParamType::Uint(128)));
    assert_eq!(parse_type_str("int64"), Some(ParamType::Int(64)));
    assert_eq!(parse_type_str("bytes32"), Some(ParamType::FixedBytes(32)));
}

#[test]
fn parses_array_suffixes() {
    assert_eq!(
        parse_type_str("uint256[]"),
        Some(ParamType::Array(Box::new(ParamType::Uint(256))))
    );
    assert_eq!(
        parse_type_str("bool[17]"),
        Some(ParamType::FixedArray(Box::new(ParamType::Bool), 17))
    );
    assert_eq!(
        parse_type_str("uint256[3][]"),
        Some(ParamType::Array(Box::new(ParamType::FixedArray(
            Box::new(ParamType::Uint(256)),
            3
        ))))
    );
}

#[test]
fn parses_tuple_syntax() {
    let ts = ParamTypeList::Cons(
        ParamType::Address,
        Box::new(ParamTypeList::Cons(ParamType::Uint(256), Box::new(ParamTypeList::Nil))),
    );
    assert_eq!(parse_type_str("(address,uint256)"), Some(ParamType::Tuple(Box::new(ts))));
    assert_eq!(
        parse_type_str("tuple"),
        Some(ParamType::Tuple(Box::new(ParamTypeList::Nil)))
    );
}

#[test]
fn rejects_malformed_type_strings() {
    assert_eq!(parse_type_str("uint7"), None);
    assert_eq!(parse_type_str("uint0"), None);
    assert_eq!(parse_type_str("int12"), None);
    assert_eq!(parse_type_str("uint256["), None);
    assert_eq!(parse_type_str("uint256]"), None);
    assert_eq!(parse_type_str("[]"), None);
    assert_eq!(parse_type_str(""), None);
    assert_eq!(parse_type_str("u256"), None);
    assert_eq!(parse_type_str("bool[x]"), None);
    assert_eq!(parse_type_str("(address,uint256"), None);
    assert_eq!(parse_type_str("(,address)"), None);
}

#[test]
fn renders_decimal_sizes() {
    assert_eq!(usize_to_string(0), "0");
    assert_eq!(usize_to_string(9), "9");
    assert_eq!(usize_to_string(120), "120");
    assert_eq!(usize_to_string(65536), "65536");
}
