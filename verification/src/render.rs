//! The typed template expansion: renders the module model into the wrapper
//! module's source text. The fixed template is expanded against the model
//! tree directly, dispatching on its structure; the named filters (snake,
//! upper_snake, capitalize) are applied where the template names them, and
//! nothing substituted is escaped, since the output is source code.

use vstd::prelude::*;
use vstd::string::StringExecFns;
use crate::casing::{capitalize, capitalize_spec, snake, snake_of, upper_snake, upper_snake_of};
use crate::model::{function_views, input_views, Function, FunctionView, Module, ModuleView, Input, InputView};

verus! {

/// One parameter as it stands in a generated signature: name, colon, mapped
/// type.
pub open spec fn param_spec(iv: InputView) -> Seq<char> {
    iv.name + ": "@ + iv.mapped_type
}

/// The parameter list, joined with ", ".
pub open spec fn params_spec(ivs: Seq<InputView>) -> Seq<char>
    decreases ivs.len(),
{
    if ivs.len() == 0 {
        Seq::<char>::empty()
    } else if ivs.len() == 1 {
        param_spec(ivs[0])
    } else {
        params_spec(ivs.drop_last()) + ", "@ + param_spec(ivs.last())
    }
}

/// The argument name list, joined with ", ".
pub open spec fn argnames_spec(ivs: Seq<InputView>) -> Seq<char>
    decreases ivs.len(),
{
    if ivs.len() == 0 {
        Seq::<char>::empty()
    } else if ivs.len() == 1 {
        ivs[0].name
    } else {
        argnames_spec(ivs.drop_last()) + ", "@ + ivs.last().name
    }
}

/// One tokenize call per input, joined with the template's line separator.
pub open spec fn tokenizes_spec(ivs: Seq<InputView>) -> Seq<char>
    decreases ivs.len(),
{
    if ivs.len() == 0 {
        Seq::<char>::empty()
    } else if ivs.len() == 1 {
        ivs[0].name + ".tokenize()"@
    } else {
        tokenizes_spec(ivs.drop_last()) + ",\n                "@ + (ivs.last().name
            + ".tokenize()"@)
    }
}

/// One selector constant line.
pub open spec fn sel_const_spec(f: FunctionView) -> Seq<char> {
    "\n    // Selector for `"@ + f.selector + "`\n    const "@ + upper_snake_of(f.name) + "_SELECTOR: [u8; 4] = hex![\""@ + f.selector_hash + "\"];\n"@
}

/// The selector constants of all functions, in order.
pub open spec fn sel_consts_spec(fs: Seq<FunctionView>) -> Seq<char>
    decreases fs.len(),
{
    if fs.len() == 0 {
        Seq::<char>::empty()
    } else {
        sel_consts_spec(fs.drop_last()) + sel_const_spec(fs.last())
    }
}

/// One function's message method and its encoding helper.
pub open spec fn method_spec(f: FunctionView) -> Seq<char> {
    "\n        /// Send `"@ + f.name + "` call to contract\n        #[ink(message)]\n        pub fn "@ + snake_of(f.name) + "(&mut self, "@ + params_spec(f.inputs) + ") -> "@
        + f.output + " {\n            let encoded_input = Self::"@ + snake_of(f.name) + "_encode("@ + argnames_spec(f.inputs) + ");\n            self.env()\n                .extension()\n                .xvm_call(\n                    super::EVM_ID,\n                    Vec::from(self.evm_address.0.as_ref()),\n                    encoded_input,\n                )\n                .is_ok()\n        }\n\n        fn "@
        + snake_of(f.name) + "_encode("@ + params_spec(f.inputs) + ") -> Vec<u8> {\n            let mut encoded = "@ + upper_snake_of(f.name)
        + "_SELECTOR.to_vec();\n            let input = [\n                "@ + tokenizes_spec(f.inputs) + "\n            ];\n\n            encoded.extend(&ethabi::encode(&input));\n            encoded\n        }\n"@
}

/// The methods of all functions, in order.
pub open spec fn methods_spec(fs: Seq<FunctionView>) -> Seq<char>
    decreases fs.len(),
{
    if fs.len() == 0 {
        Seq::<char>::empty()
    } else {
        methods_spec(fs.drop_last()) + method_spec(fs.last())
    }
}

/// The text before the selector constants: file header, re-exports, the
/// runtime identifier constant and the module head.
pub open spec fn header_spec(name: Seq<char>, evm_id: Seq<char>) -> Seq<char> {
    "\n//! This file was autogenerated by Sumi\n#![cfg_attr(not(feature = \"std\"), no_std)]\n\nuse ink_lang as ink;\npub use self::"@ + name + "::{\n    "@ + capitalize_spec(name) + ",\n    "@ + capitalize_spec(name) + "Ref,\n    FixedBytes,\n    H160,\n    U256,\n};\n\n/// EVM ID from runtime\nconst EVM_ID: u8 = "@
        + evm_id + ";\n\n/// The EVM ERC20 delegation contract.\n#[ink::contract(env = xvm_environment::XvmDefaultEnvironment)]\nmod "@ + name + " {\n"@
}

/// The text between the selector constants and the methods: imports, the
/// storage struct and the constructor.
pub open spec fn mid_spec(name: Seq<char>) -> Seq<char> {
    "\n\n    use ethabi::Token;\n    use hex_literal::hex;\n    use ink_prelude::vec::Vec;\n    use ink_storage::traits::{StorageLayout, SpreadLayout};\n    use scale::{Encode, Decode};\n    use scale_info::TypeInfo;\n\n    #[ink(storage)]\n    pub struct "@ + capitalize_spec(name) + " {\n        evm_address: H160,\n    }\n\n    impl "@ + capitalize_spec(name) + " {\n        /// Create new abstraction from given contract address.\n        #[ink(constructor)]\n        pub fn new(evm_address: H160) -> Self {\n            Self { evm_address }\n        }\n\n"@
}

/// The fixed text after the methods: the wrapper types and their tokenize
/// impls, closing the module.
pub open spec fn tail_spec() -> Seq<char> {
    "\n    }\n\n    /// Custom wrapper to make `H160` scale-encodable\n    #[derive(Debug, Encode, Decode, TypeInfo, StorageLayout, SpreadLayout)]\n    pub struct H160([u8; 20]);\n\n    /// Custom wrapper to make `U256` scale-encodable\n    #[derive(Debug, Encode, Decode, TypeInfo)]\n    pub struct U256([u8; 32]);\n\n    impl From<[u8; 20]> for H160 {\n        fn from(other: [u8; 20]) -> Self {\n            H160(other)\n        }\n    }\n\n    impl From<ethabi::ethereum_types::H160> for H160 {\n        fn from(other: ethabi::ethereum_types::H160) -> Self {\n            H160(other.to_fixed_bytes())\n        }\n    }\n\n    impl Into<ethabi::ethereum_types::H160> for H160 {\n        fn into(self) -> ethabi::ethereum_types::H160 {\n            ethabi::ethereum_types::H160::from(self.0)\n        }\n    }\n\n    impl From<[u8; 32]> for U256 {\n        fn from(other: [u8; 32]) -> Self {\n            U256(other)\n        }\n    }\n\n    impl From<ethabi::ethereum_types::U256> for U256 {\n        fn from(other: ethabi::ethereum_types::U256) -> Self {\n            U256(other.into())\n        }\n    }\n\n    impl Into<ethabi::ethereum_types::U256> for U256 {\n        fn into(self) -> ethabi::ethereum_types::U256 {\n            ethabi::ethereum_types::U256::from(self.0)\n        }\n    }\n\n    /// Helper trait used to convert Rust types to their serializable `Token` counterparts.\n    /// Should be 100% inlined and therefore should not negatively affect smart contract size.\n    trait Tokenize {\n        fn tokenize(self) -> Token;\n    }\n\n    impl<T: Tokenize, const N: usize> Tokenize for [T; N] {\n        fn tokenize(self) -> Token {\n            Token::FixedArray(self.into_iter().map(Tokenize::tokenize).collect())\n        }\n    }\n\n    impl<T: Tokenize> Tokenize for Vec<T> {\n        fn tokenize(self) -> Token {\n            Token::Array(self.into_iter().map(Tokenize::tokenize).collect())\n        }\n    }\n\n    /// Rust currently lacks specialization, thus overlapping trait implementations are forbidden.\n    /// We use this newtype wrapper to provide custom tokenize implementation for byte arrays.\n    pub struct FixedBytes<const N: usize>(pub [u8; N]);\n\n    impl<const N: usize> From<[u8; N]> for FixedBytes<N> {\n        fn from(other: [u8; N]) -> Self {\n            FixedBytes(other)\n        }\n    }\n\n    impl<const N: usize> Into<[u8; N]> for FixedBytes<N> {\n        fn into(self) -> [u8; N] {\n            self.0\n        }\n    }\n\n    impl<const N: usize> Tokenize for FixedBytes<N> {\n        fn tokenize(self) -> Token {\n            Token::FixedBytes(Vec::from(self.0))\n        }\n    }\n\n    macro_rules! tokenize_tuple {\n        ($($i:ident),+) => {\n            impl<$($i: Tokenize,)+> Tokenize for ($($i,)+) {\n                fn tokenize(self) -> Token {\n                    #[allow(non_snake_case)]\n                    let ($($i,)+) = self;\n\n                    Token::Tuple(vec![$($i.tokenize(),)+])\n                }\n            }\n        };\n    }\n\n    tokenize_tuple!(A);\n    tokenize_tuple!(A, B);\n    tokenize_tuple!(A, B, C);\n    tokenize_tuple!(A, B, C, D);\n    tokenize_tuple!(A, B, C, D, E);\n    tokenize_tuple!(A, B, C, D, E, F);\n    tokenize_tuple!(A, B, C, D, E, F, G);\n    tokenize_tuple!(A, B, C, D, E, F, G, H);\n\n    macro_rules! tokenize_ints {\n        (unsigned: $($t:ty),+) => {\n            $(\n                impl Tokenize for $t {\n                    fn tokenize(self) -> Token {\n                        Token::Uint(self.into())\n                    }\n                }\n            )+\n        };\n\n        (signed: $($t:ty),+) => {\n            $(\n                impl Tokenize for $t {\n                    fn tokenize(self) -> Token {\n                        Token::Int(self.into())\n                    }\n                }\n            )+\n        };\n    }\n\n    tokenize_ints!(signed: i8, i16, i32, i64, i128);\n    tokenize_ints!(unsigned: u8, u16, u32, u64, u128);\n\n    impl Tokenize for H160 {\n        fn tokenize(self) -> Token {\n            Token::Address(self.0.into())\n        }\n    }\n\n    impl Tokenize for bool {\n        fn tokenize(self) -> Token {\n            Token::Bool(self)\n        }\n    }\n\n    impl Tokenize for String {\n        fn tokenize(self) -> Token {\n            Token::String(self)\n        }\n    }\n\n    impl Tokenize for U256 {\n        fn tokenize(self) -> Token {\n            Token::Uint(ethabi::ethereum_types::U256::from(self.0))\n        }\n    }\n}\n"@
}

/// The whole module text: header, selector constants, mid section, methods
/// and the fixed tail, in that order.
pub open spec fn render_module_spec(m: ModuleView) -> Seq<char> {
    header_spec(m.name, m.evm_id) + sel_consts_spec(m.functions) + mid_spec(m.name)
        + methods_spec(m.functions) + tail_spec()
}

fn params_exec(inputs: &Vec<Input>) -> (r: String)
    ensures
        r@ == params_spec(input_views(inputs@)),
{
    let ghost ivs = input_views(inputs@);
    let mut s = String::new();
    let mut i: usize = 0;
    while i < inputs.len()
        invariant
            0 <= i <= inputs@.len(),
            ivs == input_views(inputs@),
            ivs.len() == inputs@.len(),
            forall|k: int| 0 <= k < inputs@.len() ==> ivs[k] == inputs@[k]@,
            s@ == params_spec(ivs.subrange(0, i as int)),
        decreases inputs@.len() - i,
    {
        if i > 0 {
            s.append(", ");
        }
        s.append(inputs[i].name.as_str());
        s.append(": ");
        s.append(inputs[i].mapped_type.as_str());
        proof {
            let post = ivs.subrange(0, i as int + 1);
            assert(post.drop_last() =~= ivs.subrange(0, i as int));
            assert(post.last() == ivs[i as int]);
            assert(s@ =~= params_spec(post));
        }
        i = i + 1;
    }
    proof {
        assert(ivs.subrange(0, ivs.len() as int) =~= ivs);
    }
    s
}

fn argnames_exec(inputs: &Vec<Input>) -> (r: String)
    ensures
        r@ == argnames_spec(input_views(inputs@)),
{
    let ghost ivs = input_views(inputs@);
    let mut s = String::new();
    let mut i: usize = 0;
    while i < inputs.len()
        invariant
            0 <= i <= inputs@.len(),
            ivs == input_views(inputs@),
            ivs.len() == inputs@.len(),
            forall|k: int| 0 <= k < inputs@.len() ==> ivs[k] == inputs@[k]@,
            s@ == argnames_spec(ivs.subrange(0, i as int)),
        decreases inputs@.len() - i,
    {
        if i > 0 {
            s.append(", ");
        }
        s.append(inputs[i].name.as_str());
        proof {
            let post = ivs.subrange(0, i as int + 1);
            assert(post.drop_last() =~= ivs.subrange(0, i as int));
            assert(post.last() == ivs[i as int]);
            assert(s@ =~= argnames_spec(post));
        }
        i = i + 1;
    }
    proof {
        assert(ivs.subrange(0, ivs.len() as int) =~= ivs);
    }
    s
}

fn tokenizes_exec(inputs: &Vec<Input>) -> (r: String)
    ensures
        r@ == tokenizes_spec(input_views(inputs@)),
{
    let ghost ivs = input_views(inputs@);
    let mut s = String::new();
    let mut i: usize = 0;
    while i < inputs.len()
        invariant
            0 <= i <= inputs@.len(),
            ivs == input_views(inputs@),
            ivs.len() == inputs@.len(),
            forall|k: int| 0 <= k < inputs@.len() ==> ivs[k] == inputs@[k]@,
            s@ == tokenizes_spec(ivs.subrange(0, i as int)),
        decreases inputs@.len() - i,
    {
        if i > 0 {
            s.append(",\n                ");
        }
        s.append(inputs[i].name.as_str());
        s.append(".tokenize()");
        proof {
            let post = ivs.subrange(0, i as int + 1);
            assert(post.drop_last() =~= ivs.subrange(0, i as int));
            assert(post.last() == ivs[i as int]);
            assert(s@ =~= tokenizes_spec(post));
        }
        i = i + 1;
    }
    proof {
        assert(ivs.subrange(0, ivs.len() as int) =~= ivs);
    }
    s
}

fn sel_const_exec(f: &Function) -> (r: String)
    ensures
        r@ == sel_const_spec(f@),
{
    let us = upper_snake(f.name.as_str());
    let mut s = String::from_str("\n    // Selector for `");
    s.append(f.selector.as_str());
    s.append("`\n    const ");
    s.append(us.as_str());
    s.append("_SELECTOR: [u8; 4] = hex![\"");
    s.append(f.selector_hash.as_str());
    s.append("\"];\n");
    proof {
        assert(s@ =~= sel_const_spec(f@));
    }
    s
}

fn method_exec(f: &Function) -> (r: String)
    ensures
        r@ == method_spec(f@),
{
    let sn = snake(f.name.as_str());
    let us = upper_snake(f.name.as_str());
    let ps = params_exec(&f.inputs);
    let ags = argnames_exec(&f.inputs);
    let tks = tokenizes_exec(&f.inputs);
    let mut s = String::from_str("\n        /// Send `");
    s.append(f.name.as_str());
    s.append("` call to contract\n        #[ink(message)]\n        pub fn ");
    s.append(sn.as_str());
    s.append("(&mut self, ");
    s.append(ps.as_str());
    s.append(") -> ");
    s.append(f.output.as_str());
    s.append(" {\n            let encoded_input = Self::");
    s.append(sn.as_str());
    s.append("_encode(");
    s.append(ags.as_str());
    s.append(");\n            self.env()\n                .extension()\n                .xvm_call(\n                    super::EVM_ID,\n                    Vec::from(self.evm_address.0.as_ref()),\n                    encoded_input,\n                )\n                .is_ok()\n        }\n\n        fn ");
    s.append(sn.as_str());
    s.append("_encode(");
    s.append(ps.as_str());
    s.append(") -> Vec<u8> {\n            let mut encoded = ");
    s.append(us.as_str());
    s.append("_SELECTOR.to_vec();\n            let input = [\n                ");
    s.append(tks.as_str());
    s.append("\n            ];\n\n            encoded.extend(&ethabi::encode(&input));\n            encoded\n        }\n");
    proof {
        assert(s@ =~= method_spec(f@));
    }
    s
}

/// Expands the whole module model to its source text.
pub fn render_module(m: &Module) -> (r: String)
    ensures
        r@ == render_module_spec(m@),
{
    let cap = capitalize(m.name.as_str());
    let mut s = String::from_str("\n//! This file was autogenerated by Sumi\n#![cfg_attr(not(feature = \"std\"), no_std)]\n\nuse ink_lang as ink;\npub use self::");
    s.append(m.name.as_str());
    s.append("::{\n    ");
    s.append(cap.as_str());
    s.append(",\n    ");
    s.append(cap.as_str());
    s.append("Ref,\n    FixedBytes,\n    H160,\n    U256,\n};\n\n/// EVM ID from runtime\nconst EVM_ID: u8 = ");
    s.append(m.evm_id.as_str());
    s.append(";\n\n/// The EVM ERC20 delegation contract.\n#[ink::contract(env = xvm_environment::XvmDefaultEnvironment)]\nmod ");
    s.append(m.name.as_str());
    s.append(" {\n");
    proof {
        assert(s@ =~= header_spec(m@.name, m@.evm_id));
    }
    let ghost fvs = function_views(m.functions@);
    let ghost head = header_spec(m@.name, m@.evm_id);
    let mut i: usize = 0;
    while i < m.functions.len()
        invariant
            0 <= i <= m.functions@.len(),
            fvs == function_views(m.functions@),
            fvs.len() == m.functions@.len(),
            forall|k: int| 0 <= k < m.functions@.len() ==> fvs[k] == m.functions@[k]@,
            s@ == head + sel_consts_spec(fvs.subrange(0, i as int)),
        decreases m.functions@.len() - i,
    {
        let c = sel_const_exec(&m.functions[i]);
        s.append(c.as_str());
        proof {
            let post = fvs.subrange(0, i as int + 1);
            assert(post.drop_last() =~= fvs.subrange(0, i as int));
            assert(post.last() == fvs[i as int]);
            assert(s@ =~= head + sel_consts_spec(post));
        }
        i = i + 1;
    }
    proof {
        assert(fvs.subrange(0, fvs.len() as int) =~= fvs);
    }
    s.append("\n\n    use ethabi::Token;\n    use hex_literal::hex;\n    use ink_prelude::vec::Vec;\n    use ink_storage::traits::{StorageLayout, SpreadLayout};\n    use scale::{Encode, Decode};\n    use scale_info::TypeInfo;\n\n    #[ink(storage)]\n    pub struct ");
    s.append(cap.as_str());
    s.append(" {\n        evm_address: H160,\n    }\n\n    impl ");
    s.append(cap.as_str());
    s.append(" {\n        /// Create new abstraction from given contract address.\n        #[ink(constructor)]\n        pub fn new(evm_address: H160) -> Self {\n            Self { evm_address }\n        }\n\n");
    let ghost upto_mid = head + sel_consts_spec(fvs) + mid_spec(m@.name);
    proof {
        assert(s@ =~= upto_mid);
    }
    let mut j: usize = 0;
    while j < m.functions.len()
        invariant
            0 <= j <= m.functions@.len(),
            fvs == function_views(m.functions@),
            fvs.len() == m.functions@.len(),
            forall|k: int| 0 <= k < m.functions@.len() ==> fvs[k] == m.functions@[k]@,
            s@ == upto_mid + methods_spec(fvs.subrange(0, j as int)),
        decreases m.functions@.len() - j,
    {
        let t = method_exec(&m.functions[j]);
        s.append(t.as_str());
        proof {
            let post = fvs.subrange(0, j as int + 1);
            assert(post.drop_last() =~= fvs.subrange(0, j as int));
            assert(post.last() == fvs[j as int]);
            assert(s@ =~= upto_mid + methods_spec(post));
        }
        j = j + 1;
    }
    proof {
        assert(fvs.subrange(0, fvs.len() as int) =~= fvs);
    }
    s.append("\n    }\n\n    /// Custom wrapper to make `H160` scale-encodable\n    #[derive(Debug, Encode, Decode, TypeInfo, StorageLayout, SpreadLayout)]\n    pub struct H160([u8; 20]);\n\n    /// Custom wrapper to make `U256` scale-encodable\n    #[derive(Debug, Encode, Decode, TypeInfo)]\n    pub struct U256([u8; 32]);\n\n    impl From<[u8; 20]> for H160 {\n        fn from(other: [u8; 20]) -> Self {\n            H160(other)\n        }\n    }\n\n    impl From<ethabi::ethereum_types::H160> for H160 {\n        fn from(other: ethabi::ethereum_types::H160) -> Self {\n            H160(other.to_fixed_bytes())\n        }\n    }\n\n    impl Into<ethabi::ethereum_types::H160> for H160 {\n        fn into(self) -> ethabi::ethereum_types::H160 {\n            ethabi::ethereum_types::H160::from(self.0)\n        }\n    }\n\n    impl From<[u8; 32]> for U256 {\n        fn from(other: [u8; 32]) -> Self {\n            U256(other)\n        }\n    }\n\n    impl From<ethabi::ethereum_types::U256> for U256 {\n        fn from(other: ethabi::ethereum_types::U256) -> Self {\n            U256(other.into())\n        }\n    }\n\n    impl Into<ethabi::ethereum_types::U256> for U256 {\n        fn into(self) -> ethabi::ethereum_types::U256 {\n            ethabi::ethereum_types::U256::from(self.0)\n        }\n    }\n\n    /// Helper trait used to convert Rust types to their serializable `Token` counterparts.\n    /// Should be 100% inlined and therefore should not negatively affect smart contract size.\n    trait Tokenize {\n        fn tokenize(self) -> Token;\n    }\n\n    impl<T: Tokenize, const N: usize> Tokenize for [T; N] {\n        fn tokenize(self) -> Token {\n            Token::FixedArray(self.into_iter().map(Tokenize::tokenize).collect())\n        }\n    }\n\n    impl<T: Tokenize> Tokenize for Vec<T> {\n        fn tokenize(self) -> Token {\n            Token::Array(self.into_iter().map(Tokenize::tokenize).collect())\n        }\n    }\n\n    /// Rust currently lacks specialization, thus overlapping trait implementations are forbidden.\n    /// We use this newtype wrapper to provide custom tokenize implementation for byte arrays.\n    pub struct FixedBytes<const N: usize>(pub [u8; N]);\n\n    impl<const N: usize> From<[u8; N]> for FixedBytes<N> {\n        fn from(other: [u8; N]) -> Self {\n            FixedBytes(other)\n        }\n    }\n\n    impl<const N: usize> Into<[u8; N]> for FixedBytes<N> {\n        fn into(self) -> [u8; N] {\n            self.0\n        }\n    }\n\n    impl<const N: usize> Tokenize for FixedBytes<N> {\n        fn tokenize(self) -> Token {\n            Token::FixedBytes(Vec::from(self.0))\n        }\n    }\n\n    macro_rules! tokenize_tuple {\n        ($($i:ident),+) => {\n            impl<$($i: Tokenize,)+> Tokenize for ($($i,)+) {\n                fn tokenize(self) -> Token {\n                    #[allow(non_snake_case)]\n                    let ($($i,)+) = self;\n\n                    Token::Tuple(vec![$($i.tokenize(),)+])\n                }\n            }\n        };\n    }\n\n    tokenize_tuple!(A);\n    tokenize_tuple!(A, B);\n    tokenize_tuple!(A, B, C);\n    tokenize_tuple!(A, B, C, D);\n    tokenize_tuple!(A, B, C, D, E);\n    tokenize_tuple!(A, B, C, D, E, F);\n    tokenize_tuple!(A, B, C, D, E, F, G);\n    tokenize_tuple!(A, B, C, D, E, F, G, H);\n\n    macro_rules! tokenize_ints {\n        (unsigned: $($t:ty),+) => {\n            $(\n                impl Tokenize for $t {\n                    fn tokenize(self) -> Token {\n                        Token::Uint(self.into())\n                    }\n                }\n            )+\n        };\n\n        (signed: $($t:ty),+) => {\n            $(\n                impl Tokenize for $t {\n                    fn tokenize(self) -> Token {\n                        Token::Int(self.into())\n                    }\n                }\n            )+\n        };\n    }\n\n    tokenize_ints!(signed: i8, i16, i32, i64, i128);\n    tokenize_ints!(unsigned: u8, u16, u32, u64, u128);\n\n    impl Tokenize for H160 {\n        fn tokenize(self) -> Token {\n            Token::Address(self.0.into())\n        }\n    }\n\n    impl Tokenize for bool {\n        fn tokenize(self) -> Token {\n            Token::Bool(self)\n        }\n    }\n\n    impl Tokenize for String {\n        fn tokenize(self) -> Token {\n            Token::String(self)\n        }\n    }\n\n    impl Tokenize for U256 {\n        fn tokenize(self) -> Token {\n            Token::Uint(ethabi::ethereum_types::U256::from(self.0))\n        }\n    }\n}\n");
    proof {
        assert(s@ =~= render_module_spec(m@));
    }
    s
}

} // verus!
