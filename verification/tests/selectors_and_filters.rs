use sumi::casing::capitalize;
use sumi::generate;
use sumi::selector::encode_selector;

#[test]
fn transfer_selector_matches_known_value() {
    let types = vec![String::from("address"), String::from("uint256")];
    let (sig, hash) = encode_selector("transfer", &types);
    assert_eq!(sig, "transfer(address,uint256)");
    assert_eq!(hash, "a9059cbb");
}

#[test]
fn selector_is_deterministic_across_invocations() {
    let types = vec![String::from("address"), String::from("uint256")];
    let first = encode_selector("transfer", &types);
    let second = encode_selector("transfer", &types);
    assert_eq!(first, second);
}

#[test]
fn changing_name_or_types_changes_selector() {
    let types = vec![String::from("address"), String::from("uint256")];
    let (transfer_sig, transfer_hash) = encode_selector("transfer", &types);
    let (approve_sig, approve_hash) = encode_selector("approve", &types);
    assert_ne!(transfer_sig, approve_sig);
    assert_ne!(transfer_hash, approve_hash);
    assert_eq!(approve_hash, "095ea7b3");

    let more = vec![
        String::from("address"),
        String::from("address"),
        String::from("uint256"),
    ];
    let (from_sig, from_hash) = encode_selector("transferFrom", &more);
    assert_eq!(from_sig, "transferFrom(address,address,uint256)");
    assert_eq!(from_hash, "23b872dd");
}

#[test]
fn selector_of_no_inputs() {
    let types: Vec<String> = vec![];
    let (sig, hash) = encode_selector("pause", &types);
    assert_eq!(sig, "pause()");
    assert_eq!(hash.len(), 8);
}

#[test]
fn snake_filter_matches_expected_form() {
    let text = "[{\"type\":\"function\",\"name\":\"setApprovalForAll\",\"stateMutability\":\"nonpayable\",\"inputs\":[],\"outputs\":[{\"type\":\"bool\"}]}]";
    let out = generate(text, "m", "0x0F").unwrap();
    assert!(out.contains("pub fn set_approval_for_all(&mut self, ) -> bool {"));
    assert!(out.contains("Self::set_approval_for_all_encode();"));
}

#[test]
fn upper_snake_filter_matches_expected_form() {
    let text = "[{\"type\":\"function\",\"name\":\"transferFrom\",\"stateMutability\":\"nonpayable\",\"inputs\":[],\"outputs\":[{\"type\":\"bool\"}]}]";
    let out = generate(text, "m", "0x0F").unwrap();
    assert!(out.contains("const TRANSFER_FROM_SELECTOR"));
}

#[test]
fn capitalize_uppercases_first_character_only() {
    assert_eq!(capitalize("transfer"), "Transfer");
    assert_eq!(capitalize("erc20"), "Erc20");
    assert_eq!(capitalize("alreadyCapital"), "AlreadyCapital");
    assert_eq!(capitalize(""), "");
}
