//! Generator core for wrapping an EVM contract interface as an ink! module:
//! maps ABI parameter types to target-language types, derives 4-byte call
//! selectors from canonical signatures, builds a typed module model from an
//! interface description, and renders the module source text.

pub mod abi;
pub mod casing;
pub mod errors;
pub mod jsonval;
pub mod laws;
pub mod model;
pub mod render;
pub mod selector;

use vstd::prelude::*;
use vstd::string::StringExecFns;
use crate::errors::{ErrView, GenerationError};
use crate::jsonval::{parse_json, parsed_json};
use crate::model::{build_module, build_module_view};
use crate::render::{render_module, render_module_spec};

verus! {

/// The one entry point: parses the interface description, builds the module
/// model under the inclusion filters, and renders it, with a single trailing
/// newline. Fails with `InvalidInterface` when the text is not JSON or its
/// top-level shape is wrong, and with `MalformedType` when a raw input type
/// falls outside the grammar; the whole output is produced or nothing is.
pub fn generate(json_text: &str, module_name: &str, evm_id: &str) -> (r: Result<
    String,
    GenerationError,
>)
    ensures
        match parsed_json(json_text@) {
            None => r matches Err(e) && e@ == ErrView::InvalidInterface,
            Some(v) => match build_module_view(v, module_name@, evm_id@) {
                Err(ev) => r matches Err(e) && e@ == ev,
                Ok(mv) => r matches Ok(t) && t@ == render_module_spec(mv) + "\n"@,
            },
        },
{
    let parsed = match parse_json(json_text) {
        Some(v) => v,
        None => {
            return Err(GenerationError::InvalidInterface);
        },
    };
    let module = match build_module(&parsed, module_name, evm_id) {
        Ok(m) => m,
        Err(e) => {
            return Err(e);
        },
    };
    let mut out = render_module(&module);
    out.append("\n");
    Ok(out)
}

} // verus!
