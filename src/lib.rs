//! Checkout customization rules: a cart attribute gate, a payment-method
//! filter and a line-item discount mapper, each a pure function of its input.
pub mod cart;
pub mod discount;
pub mod gate;
pub mod payment;

use vstd::prelude::*;

use crate::cart::Cart;
use crate::discount::{discount_spec, DiscountApplicationStrategy, DiscountResult};
use crate::gate::{gate_spec, off_value};
use crate::payment::{payment_customization_spec, PaymentCustomizationInput, PaymentCustomizationResult};

verus! {

/// When the cart's attribute is missing, has no value, or is exactly `false`,
/// the payment customization returns no operation, and the discount
/// customization returns no discount, hence no target, with strategy First.
pub proof fn lemma_closed_gate_changes_nothing(input: PaymentCustomizationInput)
    requires
        input.cart.attribute is None
            || input.cart.attribute->0.value is None
            || input.cart.attribute->0.value->0@ == off_value(),
    ensures
        payment_customization_spec(input).len() == 0,
        discount_spec(input.cart, gate_spec(input.cart.attribute)).discounts.len() == 0,
        discount_spec(input.cart, gate_spec(input.cart.attribute)).strategy
            == DiscountApplicationStrategy::First,
{
}

/// Two runs of the payment customization on the same input give the same
/// operations: its result depends on the input alone.
pub proof fn lemma_payment_customization_repeatable(
    a: PaymentCustomizationInput,
    b: PaymentCustomizationInput,
    ra: PaymentCustomizationResult,
    rb: PaymentCustomizationResult,
)
    requires
        a == b,
        ra@ == payment_customization_spec(a),
        rb@ == payment_customization_spec(b),
    ensures
        ra@ == rb@,
{
}

/// Two runs of the discount customization on the same cart give the same
/// discounts and strategy: its result depends on the cart alone.
pub proof fn lemma_straight_discount_repeatable(
    a: Cart,
    b: Cart,
    ra: DiscountResult,
    rb: DiscountResult,
)
    requires
        a == b,
        ra@ == discount_spec(a, gate_spec(a.attribute)),
        rb@ == discount_spec(b, gate_spec(b.attribute)),
    ensures
        ra@ == rb@,
{
}

} // verus!
