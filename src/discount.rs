use vstd::prelude::*;

use crate::cart::{Cart, CartLine, Merchandise};
use crate::gate::{evaluate_gate, gate_spec, GateState};

verus! {

/// A product variant that a discount applies to; no quantity means the whole line.
#[derive(Clone, Debug)]
pub struct ProductVariantTarget {
    pub id: String,
    pub quantity: Option<i64>,
}

/// What a discount applies to.
#[derive(Clone, Debug)]
pub enum Target {
    ProductVariant(ProductVariantTarget),
}

/// A percentage off, as a decimal number written out.
#[derive(Clone, Debug)]
pub struct Percentage {
    pub value: String,
}

/// An amount off, as a decimal number written out.
#[derive(Clone, Debug)]
pub struct FixedAmount {
    pub amount: String,
}

/// How much a discount takes off.
#[derive(Clone, Debug)]
pub enum Value {
    FixedAmount(FixedAmount),
    Percentage(Percentage),
}

/// One discount: what it applies to and how much it takes off.
#[derive(Clone, Debug)]
pub struct Discount {
    pub message: Option<String>,
    pub targets: Vec<Target>,
    pub value: Value,
}

/// How the host picks among several discounts.
#[derive(Clone, Copy, Debug, PartialEq, Eq, Structural)]
pub enum DiscountApplicationStrategy {
    /// Only the first discount applies.
    First,
    /// Only the discount that takes off most applies.
    Maximum,
}

/// The discounts that the discount customization hands back.
#[derive(Clone, Debug)]
pub struct DiscountResult {
    pub discounts: Vec<Discount>,
    pub discount_application_strategy: DiscountApplicationStrategy,
}

/// A target as a value.
pub enum TargetModel {
    ProductVariant { id: Seq<char>, quantity: Option<i64> },
}

/// A discount value as a value.
pub enum ValueModel {
    FixedAmount(Seq<char>),
    Percentage(Seq<char>),
}

/// A discount as a value.
pub struct DiscountModel {
    pub message: Option<Seq<char>>,
    pub targets: Seq<TargetModel>,
    pub value: ValueModel,
}

/// A discount result as a value.
pub struct DiscountResultModel {
    pub discounts: Seq<DiscountModel>,
    pub strategy: DiscountApplicationStrategy,
}

impl View for Target {
    type V = TargetModel;

    open spec fn view(&self) -> TargetModel {
        match self {
            Target::ProductVariant(t) => TargetModel::ProductVariant { id: t.id@, quantity: t.quantity },
        }
    }
}

impl View for Value {
    type V = ValueModel;

    open spec fn view(&self) -> ValueModel {
        match self {
            Value::FixedAmount(f) => ValueModel::FixedAmount(f.amount@),
            Value::Percentage(p) => ValueModel::Percentage(p.value@),
        }
    }
}

impl View for Discount {
    type V = DiscountModel;

    open spec fn view(&self) -> DiscountModel {
        DiscountModel {
            message: match self.message {
                Some(m) => Some(m@),
                None => None,
            },
            targets: self.targets@.map_values(|t: Target| t@),
            value: self.value@,
        }
    }
}

impl View for DiscountResult {
    type V = DiscountResultModel;

    open spec fn view(&self) -> DiscountResultModel {
        DiscountResultModel {
            discounts: self.discounts@.map_values(|d: Discount| d@),
            strategy: self.discount_application_strategy,
        }
    }
}

/// The percentage taken off, as the decimal the host reads.
pub open spec fn discount_percentage() -> Seq<char> {
    "10.0"@
}

/// The target of a line, if its merchandise is a product variant.
pub open spec fn line_target(line: CartLine) -> Option<TargetModel> {
    match line.merchandise {
        Merchandise::ProductVariant(v) => Some(TargetModel::ProductVariant { id: v.id@, quantity: None }),
        Merchandise::CustomProduct => None,
    }
}

/// The targets of `lines`, in order: one per product-variant line, whatever its quantity.
pub open spec fn targets_of(lines: Seq<CartLine>) -> Seq<TargetModel>
    decreases lines.len(),
{
    if lines.len() == 0 {
        Seq::empty()
    } else {
        let rest = targets_of(lines.drop_last());
        match line_target(lines.last()) {
            Some(t) => rest.push(t),
            None => rest,
        }
    }
}

/// The result of the discount customization on `cart` under `gate`.
pub open spec fn discount_spec(cart: Cart, gate: GateState) -> DiscountResultModel {
    DiscountResultModel {
        discounts: if gate == GateState::Apply {
            seq![
                DiscountModel {
                    message: None,
                    targets: targets_of(cart.lines@),
                    value: ValueModel::Percentage(discount_percentage()),
                },
            ]
        } else {
            Seq::empty()
        },
        strategy: DiscountApplicationStrategy::First,
    }
}

/// The targets for the product-variant lines of `lines`, in cart order.
pub fn collect_targets(lines: &Vec<CartLine>) -> (r: Vec<Target>)
    ensures
        r@.map_values(|t: Target| t@) == targets_of(lines@),
{
    let n = lines.len();
    let mut targets: Vec<Target> = Vec::new();
    let mut i: usize = 0;
    while i < n
        invariant
            n == lines@.len(),
            i <= n,
            targets@.map_values(|t: Target| t@) == targets_of(lines@.subrange(0, i as int)),
        decreases n - i,
    {
        let line = &lines[i];
        proof {
            let pre = lines@.subrange(0, i + 1);
            assert(pre.drop_last() =~= lines@.subrange(0, i as int));
            assert(pre.last() == lines@[i as int]);
        }
        match &line.merchandise {
            Merchandise::ProductVariant(v) => {
                let t = Target::ProductVariant(ProductVariantTarget { id: v.id.clone(), quantity: None });
                targets.push(t);
                assert(targets@.map_values(|t: Target| t@) =~= targets_of(lines@.subrange(0, i + 1)));
            },
            Merchandise::CustomProduct => {},
        }
        i = i + 1;
    }
    assert(lines@.subrange(0, n as int) =~= lines@);
    targets
}

/// One 10% discount on every product-variant line of the cart when `gate`
/// says to apply, none otherwise; the host applies the first discount.
pub fn build_discount(cart: &Cart, gate: GateState) -> (r: DiscountResult)
    ensures
        r@ == discount_spec(*cart, gate),
{
    let mut discounts: Vec<Discount> = Vec::new();
    if let GateState::Apply = gate {
        let targets = collect_targets(&cart.lines);
        let value = Value::Percentage(Percentage { value: "10.0".to_owned() });
        discounts.push(Discount { message: None, targets, value });
    }
    let r = DiscountResult { discounts, discount_application_strategy: DiscountApplicationStrategy::First };
    assert(r@.discounts =~= discount_spec(*cart, gate).discounts);
    r
}

/// Applies the discount of `build_discount` under the cart's own gate.
pub fn straight_discount(cart: &Cart) -> (r: DiscountResult)
    ensures
        r@ == discount_spec(*cart, gate_spec(cart.attribute)),
{
    let gate = evaluate_gate(cart);
    build_discount(cart, gate)
}

} // verus!
