//! The typed module model and its construction from an interface
//! description: inclusion filtering, type resolution and selector derivation.

use vstd::prelude::*;
use vstd::string::StringExecFns;
use crate::abi::{map_type, map_type_spec, parse_type_spec, parse_type_str};
use crate::errors::{ErrView, GenerationError};
use crate::jsonval::{field_spec, get_field, str_eq, JsonNode};
use crate::selector::{encode_selector, selector_hash_spec, signature_spec};

verus! {

/// One function input: its name, the raw textual type as given by the
/// interface description, and the target-language spelling derived from it.
/// The two type fields never diverge: the mapped one is always the image of
/// the raw one under the type mapper.
#[derive(Debug)]
pub struct Input {
    pub name: String,
    pub evm_type: String,
    pub mapped_type: String,
}

/// One wrapped function: name, inputs in declaration order, the fixed
/// boolean result type, the canonical signature and its hex-encoded 4-byte
/// selector.
#[derive(Debug)]
pub struct Function {
    pub name: String,
    pub inputs: Vec<Input>,
    pub output: String,
    pub selector: String,
    pub selector_hash: String,
}

/// The root value the renderer consumes: module name, runtime identifier
/// and the functions in source order.
#[derive(Debug)]
pub struct Module {
    pub name: String,
    pub evm_id: String,
    pub functions: Vec<Function>,
}

pub ghost struct InputView {
    pub name: Seq<char>,
    pub evm_type: Seq<char>,
    pub mapped_type: Seq<char>,
}

pub ghost struct FunctionView {
    pub name: Seq<char>,
    pub inputs: Seq<InputView>,
    pub output: Seq<char>,
    pub selector: Seq<char>,
    pub selector_hash: Seq<char>,
}

pub ghost struct ModuleView {
    pub name: Seq<char>,
    pub evm_id: Seq<char>,
    pub functions: Seq<FunctionView>,
}

impl View for Input {
    type V = InputView;

    open spec fn view(&self) -> InputView {
        InputView { name: self.name@, evm_type: self.evm_type@, mapped_type: self.mapped_type@ }
    }
}

pub open spec fn input_views(s: Seq<Input>) -> Seq<InputView> {
    s.map_values(|x: Input| x@)
}

impl View for Function {
    type V = FunctionView;

    open spec fn view(&self) -> FunctionView {
        FunctionView {
            name: self.name@,
            inputs: input_views(self.inputs@),
            output: self.output@,
            selector: self.selector@,
            selector_hash: self.selector_hash@,
        }
    }
}

pub open spec fn function_views(s: Seq<Function>) -> Seq<FunctionView> {
    s.map_values(|x: Function| x@)
}

impl View for Module {
    type V = ModuleView;

    open spec fn view(&self) -> ModuleView {
        ModuleView {
            name: self.name@,
            evm_id: self.evm_id@,
            functions: function_views(self.functions@),
        }
    }
}

/// True when the entry's field `key` is the string `val`.
pub open spec fn is_str_field(v: JsonNode, key: Seq<char>, val: Seq<char>) -> bool {
    match field_spec(v, key) {
        Some(JsonNode::Str(s)) => s@ == val,
        _ => false,
    }
}

/// Every declared output's type is "bool"; an absent or non-array outputs
/// field declares none, which holds vacuously.
pub open spec fn outputs_all_bool(v: JsonNode) -> bool {
    match field_spec(v, "outputs"@) {
        Some(JsonNode::Array(items)) => forall|i: int|
            0 <= i < items@.len() ==> is_str_field(#[trigger] items@[i], "type"@, "bool"@),
        _ => true,
    }
}

/// The inclusion filter: a "function" entry whose state mutability is not
/// "view" and whose declared outputs are all boolean. Entries failing any
/// part are silently excluded.
pub open spec fn qualifies(v: JsonNode) -> bool {
    is_str_field(v, "type"@, "function"@) && !is_str_field(v, "stateMutability"@, "view"@)
        && outputs_all_bool(v)
}

/// The entry's declared inputs; an absent or non-array inputs field
/// declares none.
pub open spec fn entry_inputs(v: JsonNode) -> Seq<JsonNode> {
    match field_spec(v, "inputs"@) {
        Some(JsonNode::Array(items)) => items@,
        _ => Seq::empty(),
    }
}

/// What one input object yields: its name and raw type (both required
/// strings), and the mapped type resolved through the grammar. A raw type
/// outside the grammar is malformed; a missing field is an interface-shape
/// error.
pub open spec fn make_input_view(v: JsonNode) -> Result<InputView, ErrView> {
    match (field_spec(v, "name"@), field_spec(v, "type"@)) {
        (Some(JsonNode::Str(nm)), Some(JsonNode::Str(ty))) => match parse_type_spec(ty@) {
            Some(t) => Ok(
                InputView { name: nm@, evm_type: ty@, mapped_type: map_type_spec(t) },
            ),
            None => Err(ErrView::MalformedType(ty@)),
        },
        _ => Err(ErrView::InvalidInterface),
    }
}

/// The inputs of an entry in declaration order; the first failure wins.
pub open spec fn make_inputs_view(items: Seq<JsonNode>) -> Result<Seq<InputView>, ErrView>
    decreases items.len(),
{
    if items.len() == 0 {
        Ok(Seq::<InputView>::empty())
    } else {
        match make_input_view(items[0]) {
            Err(e) => Err(e),
            Ok(iv) => match make_inputs_view(items.drop_first()) {
                Err(e) => Err(e),
                Ok(rest) => Ok(seq![iv] + rest),
            },
        }
    }
}

/// The raw types of a sequence of inputs, in order.
pub open spec fn evm_types_of(ivs: Seq<InputView>) -> Seq<Seq<char>> {
    ivs.map_values(|iv: InputView| iv.evm_type)
}

/// What one qualifying entry yields: the function with its inputs, the fixed
/// boolean output, and the selector derived from the raw types in order.
pub open spec fn make_function_view(v: JsonNode) -> Result<FunctionView, ErrView> {
    match field_spec(v, "name"@) {
        Some(JsonNode::Str(nm)) => match make_inputs_view(entry_inputs(v)) {
            Err(e) => Err(e),
            Ok(ivs) => Ok(
                FunctionView {
                    name: nm@,
                    inputs: ivs,
                    output: "bool"@,
                    selector: signature_spec(nm@, evm_types_of(ivs)),
                    selector_hash: selector_hash_spec(signature_spec(nm@, evm_types_of(ivs))),
                },
            ),
        },
        _ => Err(ErrView::InvalidInterface),
    }
}

/// The functions of the module: the qualifying entries in first-pass source
/// order, each converted; the first failure wins.
pub open spec fn build_functions_view(entries: Seq<JsonNode>) -> Result<Seq<FunctionView>, ErrView>
    decreases entries.len(),
{
    if entries.len() == 0 {
        Ok(Seq::<FunctionView>::empty())
    } else if qualifies(entries[0]) {
        match make_function_view(entries[0]) {
            Err(e) => Err(e),
            Ok(f) => match build_functions_view(entries.drop_first()) {
                Err(e) => Err(e),
                Ok(fs) => Ok(seq![f] + fs),
            },
        }
    } else {
        build_functions_view(entries.drop_first())
    }
}

/// The top-level shape the builder demands: a sequence of object entries.
pub open spec fn entries_ok(v: JsonNode) -> bool {
    match v {
        JsonNode::Array(es) => forall|i: int| 0 <= i < es@.len() ==> (#[trigger] es@[i]) is Object,
        _ => false,
    }
}

pub open spec fn entries_of(v: JsonNode) -> Seq<JsonNode> {
    match v {
        JsonNode::Array(es) => es@,
        _ => Seq::<JsonNode>::empty(),
    }
}

/// What building a module from a parsed interface description yields.
pub open spec fn build_module_view(v: JsonNode, name: Seq<char>, evm_id: Seq<char>) -> Result<
    ModuleView,
    ErrView,
> {
    if !entries_ok(v) {
        Err(ErrView::InvalidInterface)
    } else {
        match build_functions_view(entries_of(v)) {
            Err(e) => Err(e),
            Ok(fs) => Ok(ModuleView { name: name, evm_id: evm_id, functions: fs }),
        }
    }
}

fn is_str_field_exec(v: &JsonNode, key: &str, val: &str) -> (r: bool)
    ensures
        r == is_str_field(*v, key@, val@),
{
    match get_field(v, key) {
        Some(JsonNode::Str(s)) => str_eq(s.as_str(), val),
        _ => false,
    }
}

fn outputs_all_bool_exec(v: &JsonNode) -> (r: bool)
    ensures
        r == outputs_all_bool(*v),
{
    match get_field(v, "outputs") {
        Some(node) => match node {
            JsonNode::Array(items) => {
                let ghost all = items@;
                let mut i: usize = 0;
                while i < items.len()
                    invariant
                        0 <= i <= items@.len(),
                        items@ == all,
                        field_spec(*v, "outputs"@) == Some(JsonNode::Array(*items)),
                        outputs_all_bool(*v) == (forall|k: int|
                            0 <= k < all.len() ==> is_str_field(#[trigger] all[k], "type"@, "bool"@)),
                        forall|k: int|
                            0 <= k < i ==> is_str_field(#[trigger] all[k], "type"@, "bool"@),
                    decreases items@.len() - i,
                {
                    if !is_str_field_exec(&items[i], "type", "bool") {
                        proof {
                            assert(!is_str_field(all[i as int], "type"@, "bool"@));
                            assert(exists|k: int|
                                0 <= k < all.len() && !is_str_field(
                                    #[trigger] all[k],
                                    "type"@,
                                    "bool"@,
                                ));
                            assert(!outputs_all_bool(*v));
                        }
                        return false;
                    }
                    i = i + 1;
                }
                true
            },
            _ => true,
        },
        None => true,
    }
}

/// Decides the inclusion filter for one entry.
pub fn qualifies_exec(v: &JsonNode) -> (r: bool)
    ensures
        r == qualifies(*v),
{
    is_str_field_exec(v, "type", "function") && !is_str_field_exec(v, "stateMutability", "view")
        && outputs_all_bool_exec(v)
}

fn make_input(item: &JsonNode) -> (r: Result<Input, GenerationError>)
    ensures
        match r {
            Ok(inp) => make_input_view(*item) == Ok::<InputView, ErrView>(inp@),
            Err(e) => make_input_view(*item) == Err::<InputView, ErrView>(e@),
        },
{
    let name_field = get_field(item, "name");
    let type_field = get_field(item, "type");
    match (name_field, type_field) {
        (Some(JsonNode::Str(nm)), Some(JsonNode::Str(ty))) => match parse_type_str(
            ty.as_str(),
        ) {
            Some(t) => {
                let mapped = map_type(&t);
                Ok(Input { name: nm.clone(), evm_type: ty.clone(), mapped_type: mapped })
            },
            None => Err(GenerationError::MalformedType(ty.clone())),
        },
        _ => Err(GenerationError::InvalidInterface),
    }
}

fn make_function(entry: &JsonNode) -> (r: Result<Function, GenerationError>)
    ensures
        match r {
            Ok(f) => make_function_view(*entry) == Ok::<FunctionView, ErrView>(f@),
            Err(e) => make_function_view(*entry) == Err::<FunctionView, ErrView>(e@),
        },
{
    let nm: String = match get_field(entry, "name") {
        Some(JsonNode::Str(s)) => s.clone(),
        _ => {
            return Err(GenerationError::InvalidInterface);
        },
    };
    let ghost items_spec = entry_inputs(*entry);
    let mut inputs: Vec<Input> = Vec::new();
    let mut types: Vec<String> = Vec::new();
    match get_field(entry, "inputs") {
        Some(node) => match node {
            JsonNode::Array(items) => {
                proof {
                    assert(items_spec == items@);
                    assert(items_spec.skip(0) =~= items_spec);
                }
                let mut i: usize = 0;
                while i < items.len()
                    invariant
                        0 <= i <= items@.len(),
                        items@ == items_spec,
                        field_spec(*entry, "name"@) == Some(JsonNode::Str(nm)),
                        items_spec == entry_inputs(*entry),
                        types.deep_view() =~= evm_types_of(input_views(inputs@)),
                        match make_inputs_view(items_spec.skip(i as int)) {
                            Ok(rest) => make_inputs_view(items_spec) == Ok::<
                                Seq<InputView>,
                                ErrView,
                            >(input_views(inputs@) + rest),
                            Err(e) => make_inputs_view(items_spec) == Err::<
                                Seq<InputView>,
                                ErrView,
                            >(e),
                        },
                    decreases items@.len() - i,
                {
                    proof {
                        assert(items_spec.skip(i as int)[0] == items_spec[i as int]);
                        assert(items_spec.skip(i as int).drop_first() =~= items_spec.skip(
                            i as int + 1,
                        ));
                    }
                    match make_input(&items[i]) {
                        Err(e) => {
                            return Err(e);
                        },
                        Ok(inp) => {
                            let ghost old_inputs = inputs@;
                            let ghost old_types = types.deep_view();
                            types.push(inp.evm_type.clone());
                            inputs.push(inp);
                            proof {
                                assert(input_views(inputs@) =~= input_views(old_inputs).push(
                                    inputs@.last()@,
                                ));
                                assert(types.deep_view() =~= old_types.push(
                                    inputs@.last()@.evm_type,
                                ));
                                assert(types.deep_view() =~= evm_types_of(input_views(inputs@)));
                                if make_inputs_view(items_spec.skip(i as int + 1)) is Ok {
                                    let rest = make_inputs_view(
                                        items_spec.skip(i as int + 1),
                                    )->Ok_0;
                                    assert(input_views(old_inputs) + (seq![inputs@.last()@]
                                        + rest) =~= input_views(inputs@) + rest);
                                }
                            }
                            i = i + 1;
                        },
                    }
                }
                proof {
                    assert(items_spec.skip(items_spec.len() as int).len() == 0);
                    assert(make_inputs_view(items_spec.skip(items_spec.len() as int)) == Ok::<
                        Seq<InputView>,
                        ErrView,
                    >(Seq::<InputView>::empty()));
                    assert(make_inputs_view(items_spec) == Ok::<Seq<InputView>, ErrView>(
                        input_views(inputs@) + Seq::<InputView>::empty(),
                    ));
                    assert(input_views(inputs@) + Seq::<InputView>::empty() =~= input_views(
                        inputs@,
                    ));
                }
            },
            _ => {
                proof {
                    assert(items_spec.len() == 0);
                    assert(input_views(inputs@) =~= Seq::<InputView>::empty());
                    assert(types.deep_view() =~= evm_types_of(input_views(inputs@)));
                    assert(make_inputs_view(items_spec) == Ok::<Seq<InputView>, ErrView>(
                        input_views(inputs@),
                    ));
                }
            },
        },
        None => {
            proof {
                assert(items_spec.len() == 0);
                assert(input_views(inputs@) =~= Seq::<InputView>::empty());
                assert(types.deep_view() =~= evm_types_of(input_views(inputs@)));
                assert(make_inputs_view(items_spec) == Ok::<Seq<InputView>, ErrView>(
                    input_views(inputs@),
                ));
            }
        },
    }
    let (selector, selector_hash) = encode_selector(nm.as_str(), &types);
    let f = Function {
        name: nm,
        inputs: inputs,
        output: String::from_str("bool"),
        selector: selector,
        selector_hash: selector_hash,
    };
    proof {
        assert(make_inputs_view(items_spec) == Ok::<Seq<InputView>, ErrView>(
            input_views(f.inputs@),
        ));
    }
    Ok(f)
}

/// Builds the module model from a parsed interface description: checks the
/// top-level shape, keeps the qualifying entries in source order, resolves
/// every input type and derives every selector. Succeeds exactly when the
/// shape is a sequence of objects and every qualifying entry converts.
pub fn build_module(v: &JsonNode, module_name: &str, evm_id: &str) -> (r: Result<
    Module,
    GenerationError,
>)
    ensures
        match r {
            Ok(m) => build_module_view(*v, module_name@, evm_id@) == Ok::<ModuleView, ErrView>(
                m@,
            ),
            Err(e) => build_module_view(*v, module_name@, evm_id@) == Err::<ModuleView, ErrView>(
                e@,
            ),
        },
{
    let es: &Vec<JsonNode> = match v {
        JsonNode::Array(es) => es,
        _ => {
            return Err(GenerationError::InvalidInterface);
        },
    };
    let mut i: usize = 0;
    while i < es.len()
        invariant
            0 <= i <= es@.len(),
            *v is Array,
            (*v)->Array_0 == *es,
            forall|k: int| 0 <= k < i ==> (#[trigger] es@[k]) is Object,
        decreases es@.len() - i,
    {
        match &es[i] {
            JsonNode::Object(_) => {
                i = i + 1;
            },
            _ => {
                return Err(GenerationError::InvalidInterface);
            },
        }
    }
    proof {
        assert(entries_ok(*v));
        assert(entries_of(*v) == es@);
        assert(es@.skip(0) =~= es@);
    }
    let ghost entries = es@;
    let mut funcs: Vec<Function> = Vec::new();
    let mut j: usize = 0;
    while j < es.len()
        invariant
            0 <= j <= es@.len(),
            *v is Array,
            (*v)->Array_0 == *es,
            es@ == entries,
            entries_ok(*v),
            entries_of(*v) == entries,
            match build_functions_view(entries.skip(j as int)) {
                Ok(rest) => build_functions_view(entries) == Ok::<Seq<FunctionView>, ErrView>(
                    function_views(funcs@) + rest,
                ),
                Err(e) => build_functions_view(entries) == Err::<Seq<FunctionView>, ErrView>(e),
            },
        decreases es@.len() - j,
    {
        proof {
            assert(entries.skip(j as int)[0] == entries[j as int]);
            assert(entries.skip(j as int).drop_first() =~= entries.skip(j as int + 1));
        }
        if qualifies_exec(&es[j]) {
            match make_function(&es[j]) {
                Err(e) => {
                    return Err(e);
                },
                Ok(f) => {
                    let ghost old_funcs = funcs@;
                    funcs.push(f);
                    proof {
                        assert(function_views(funcs@) =~= function_views(old_funcs).push(
                            funcs@.last()@,
                        ));
                        if build_functions_view(entries.skip(j as int + 1)) is Ok {
                            let rest = build_functions_view(entries.skip(j as int + 1))->Ok_0;
                            assert(function_views(old_funcs) + (seq![funcs@.last()@] + rest)
                                =~= function_views(funcs@) + rest);
                        }
                    }
                },
            }
        }
        j = j + 1;
    }
    proof {
        assert(entries.skip(entries.len() as int).len() == 0);
        assert(build_functions_view(entries.skip(entries.len() as int)) == Ok::<
            Seq<FunctionView>,
            ErrView,
        >(Seq::<FunctionView>::empty()));
        assert(build_functions_view(entries) == Ok::<Seq<FunctionView>, ErrView>(
            function_views(funcs@) + Seq::<FunctionView>::empty(),
        ));
        assert(function_views(funcs@) + Seq::<FunctionView>::empty() =~= function_views(funcs@));
    }
    let m = Module {
        name: String::from_str(module_name),
        evm_id: String::from_str(evm_id),
        functions: funcs,
    };
    Ok(m)
}

} // verus!
