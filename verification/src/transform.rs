//! The one display-transform accessor that needs no host arithmetic.
//!
//! The other transform accessors read and write the host's display
//! objects through its property system and convert floating-point
//! matrices and colour transforms; that marshalling lives outside the
//! verified core.

use vstd::prelude::*;

use crate::avm_value::{AvmTypeError, Value};

verus! {

/// The `concatenatedColorTransform` accessor is a capability stub: the
/// host records an unimplemented-getter diagnostic and the accessor
/// yields `undefined` for every receiver.
pub fn get_concatenated_color_transform(_this: &Option<Value>, _args: &[Value]) -> (r: Result<
    Value,
    AvmTypeError,
>)
    ensures
        r == Ok::<Value, AvmTypeError>(Value::Undefined),
{
    Ok(Value::Undefined)
}

} // verus!
