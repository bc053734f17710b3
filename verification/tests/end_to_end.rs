use sumi::generate;

const TRANSFER_INTERFACE: &str = "[{\"type\":\"function\",\"name\":\"transfer\",\"stateMutability\":\"nonpayable\",\"inputs\":[{\"name\":\"to\",\"type\":\"address\"},{\"name\":\"amount\",\"type\":\"uint256\"}],\"outputs\":[{\"type\":\"bool\"}]}]";

#[test]
fn single_function_interface_generates_expected_module() {
    let out = generate(TRANSFER_INTERFACE, "erc20", "0x0F").unwrap();
    assert!(out.contains("// Selector for `transfer(address,uint256)`"));
    assert!(out.contains("const TRANSFER_SELECTOR: [u8; 4] = hex![\"a9059cbb\"];"));
    assert!(out.contains("pub fn transfer(&mut self, to: H160, amount: U256) -> bool {"));
    assert!(out.contains("fn transfer_encode(to: H160, amount: U256) -> Vec<u8> {"));
    assert!(out.contains("let mut encoded = TRANSFER_SELECTOR.to_vec();"));
    assert!(out.contains("to.tokenize(),\n                amount.tokenize()"));
    assert!(out.contains("mod erc20 {"));
    assert!(out.contains("pub struct Erc20 {"));
    assert!(out.contains("Erc20Ref,"));
    assert!(out.contains("const EVM_ID: u8 = 0x0F;"));
    assert!(out.ends_with("\n"));
}

#[test]
fn camel_case_names_pass_through_the_filters() {
    let text = "[{\"type\":\"function\",\"name\":\"transferFrom\",\"stateMutability\":\"nonpayable\",\"inputs\":[{\"name\":\"from\",\"type\":\"address\"},{\"name\":\"to\",\"type\":\"address\"},{\"name\":\"amount\",\"type\":\"uint256\"}],\"outputs\":[{\"type\":\"bool\"}]}]";
    let out = generate(text, "erc20", "0x2A").unwrap();
    assert!(out.contains("const TRANSFER_FROM_SELECTOR: [u8; 4] = hex![\"23b872dd\"];"));
    assert!(out.contains("pub fn transfer_from(&mut self, from: H160, to: H160, amount: U256) -> bool {"));
    assert!(out.contains("Self::transfer_from_encode(from, to, amount);"));
    assert!(out.contains("const EVM_ID: u8 = 0x2A;"));
}

#[test]
fn generation_is_deterministic() {
    let a = generate(TRANSFER_INTERFACE, "erc20", "0x0F").unwrap();
    let b = generate(TRANSFER_INTERFACE, "erc20", "0x0F").unwrap();
    assert_eq!(a, b);
}

#[test]
fn view_functions_are_left_out_of_the_output() {
    let text = "[{\"type\":\"function\",\"name\":\"balanceOf\",\"stateMutability\":\"view\",\"inputs\":[{\"name\":\"owner\",\"type\":\"address\"}],\"outputs\":[{\"type\":\"bool\"}]},{\"type\":\"function\",\"name\":\"pause\",\"stateMutability\":\"nonpayable\",\"inputs\":[],\"outputs\":[{\"type\":\"bool\"}]}]";
    let out = generate(text, "pausable", "0x0F").unwrap();
    assert!(!out.contains("balance_of"));
    assert!(out.contains("pub fn pause(&mut self, ) -> bool {"));
    assert!(out.contains("const PAUSE_SELECTOR"));
}
