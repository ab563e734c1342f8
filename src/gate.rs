use vstd::prelude::*;

use crate::cart::{Attribute, Cart};

verus! {

/// Whether a customization is to be applied to a cart.
#[derive(Clone, Copy, Debug, PartialEq, Eq, Structural)]
pub enum GateState {
    Apply,
    DoNotApply,
}

/// Why a cart's attribute gate says not to apply.
#[derive(Clone, Copy, Debug, PartialEq, Eq, Structural)]
pub enum SkipReason {
    /// The cart does not carry the attribute.
    AttributeMissing,
    /// The attribute is there without a value.
    ValueMissing,
    /// The value is exactly `false`.
    ExplicitFalse,
}

/// The value that turns the customization off.
pub open spec fn off_value() -> Seq<char> {
    "false"@
}

/// Why a cart with this attribute is skipped, or `None` when it is not.
pub open spec fn skip_reason_spec(attribute: Option<Attribute>) -> Option<SkipReason> {
    match attribute {
        None => Some(SkipReason::AttributeMissing),
        Some(a) => match a.value {
            None => Some(SkipReason::ValueMissing),
            Some(v) => if v@ == off_value() {
                Some(SkipReason::ExplicitFalse)
            } else {
                None
            },
        },
    }
}

/// The attribute gate of a cart with this attribute: apply exactly when it is not skipped.
pub open spec fn gate_spec(attribute: Option<Attribute>) -> GateState {
    if skip_reason_spec(attribute) is None {
        GateState::Apply
    } else {
        GateState::DoNotApply
    }
}

/// Tells why the cart is to be left alone, or `None` when the customization applies.
pub fn skip_reason(cart: &Cart) -> (r: Option<SkipReason>)
    ensures
        r == skip_reason_spec(cart.attribute),
{
    match &cart.attribute {
        None => Some(SkipReason::AttributeMissing),
        Some(a) => match &a.value {
            None => Some(SkipReason::ValueMissing),
            Some(v) => {
                let off = "false".to_owned();
                if *v == off {
                    Some(SkipReason::ExplicitFalse)
                } else {
                    None
                }
            },
        },
    }
}

/// Decides from the cart's `straight_payments` attribute whether to customize.
pub fn evaluate_gate(cart: &Cart) -> (r: GateState)
    ensures
        r == gate_spec(cart.attribute),
        r == GateState::DoNotApply <==> (cart.attribute is None
            || cart.attribute->0.value is None
            || cart.attribute->0.value->0@ == off_value()),
{
    match skip_reason(cart) {
        None => GateState::Apply,
        Some(_) => GateState::DoNotApply,
    }
}

/// Any value of the attribute other than exactly `false` opens its attribute gate,
/// `true`, a word or the empty string alike.
pub proof fn lemma_other_values_apply(cart: Cart)
    requires
        cart.attribute is Some,
        cart.attribute->0.value is Some,
        cart.attribute->0.value->0@ != off_value(),
    ensures
        gate_spec(cart.attribute) == GateState::Apply,
{
}

} // verus!
