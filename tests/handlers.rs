use straight_payments::cart::{Attribute, Cart, CartLine, Merchandise, ProductVariant};
use straight_payments::discount::{
    build_discount, collect_targets, straight_discount, DiscountApplicationStrategy, Target, Value,
};
use straight_payments::gate::{evaluate_gate, skip_reason, GateState, SkipReason};
use straight_payments::payment::{
    filter_hidden_method, is_installments_method, payment_customization, Operation,
    PaymentCustomizationInput, PaymentMethod,
};

fn cart_with(value: Option<Option<&str>>, lines: Vec<CartLine>) -> Cart {
    Cart {
        attribute: value.map(|v| Attribute {
            key: "straight_payments".to_string(),
            value: v.map(|s| s.to_string()),
        }),
        lines,
    }
}

fn method(id: &str, name: &str) -> PaymentMethod {
    PaymentMethod { id: id.to_string(), name: name.to_string() }
}

fn variant_line(id: &str, quantity: i64) -> CartLine {
    CartLine {
        quantity,
        merchandise: Merchandise::ProductVariant(ProductVariant { id: id.to_string() }),
    }
}

fn custom_line() -> CartLine {
    CartLine { quantity: 1, merchandise: Merchandise::CustomProduct }
}

fn three_methods() -> Vec<PaymentMethod> {
    vec![
        method("A", "Credit Card"),
        method("B", "Pay by Installments Plan"),
        method("C", "Pay by Installments Extra"),
    ]
}

fn target_ids(targets: &[Target]) -> Vec<(String, Option<i64>)> {
    targets
        .iter()
        .map(|t| match t {
            Target::ProductVariant(v) => (v.id.clone(), v.quantity),
        })
        .collect()
}

fn hidden_ids(ops: &[Operation]) -> Vec<String> {
    ops.iter()
        .map(|o| match o {
            Operation::Hide(h) => h.payment_method_id.clone(),
            other => panic!("unexpected operation {:?}", other),
        })
        .collect()
}

#[test]
fn closed_gate_leaves_payments_and_discounts_alone() {
    for value in [None, Some(None), Some(Some("false"))] {
        let input = PaymentCustomizationInput {
            cart: cart_with(value, vec![variant_line("V1", 3)]),
            payment_methods: three_methods(),
        };
        assert_eq!(evaluate_gate(&input.cart), GateState::DoNotApply);
        assert!(payment_customization(&input).operations.is_empty());
        let d = straight_discount(&input.cart);
        assert!(d.discounts.is_empty());
        assert_eq!(d.discount_application_strategy, DiscountApplicationStrategy::First);
    }
}

#[test]
fn skip_reason_names_each_closed_state() {
    assert_eq!(skip_reason(&cart_with(None, vec![])), Some(SkipReason::AttributeMissing));
    assert_eq!(skip_reason(&cart_with(Some(None), vec![])), Some(SkipReason::ValueMissing));
    assert_eq!(skip_reason(&cart_with(Some(Some("false")), vec![])), Some(SkipReason::ExplicitFalse));
    assert_eq!(skip_reason(&cart_with(Some(Some("true")), vec![])), None);
}

#[test]
fn any_other_value_opens_gate() {
    for v in ["true", "yes", "", "False", "FALSE", "false ", " false", "0"] {
        assert_eq!(evaluate_gate(&cart_with(Some(Some(v)), vec![])), GateState::Apply, "value {:?}", v);
    }
}

#[test]
fn hides_first_installments_method_only() {
    let r = filter_hidden_method(&three_methods(), GateState::Apply);
    assert_eq!(r.map(|h| h.payment_method_id), Some("B".to_string()));
    let input = PaymentCustomizationInput {
        cart: cart_with(Some(Some("true")), vec![]),
        payment_methods: three_methods(),
    };
    let out = payment_customization(&input);
    assert_eq!(hidden_ids(&out.operations), vec!["B".to_string()]);
}

#[test]
fn no_matching_method_gives_no_operation() {
    let methods = vec![method("A", "Credit Card"), method("D", "pay by installments"), method("E", "Installments")];
    assert!(filter_hidden_method(&methods, GateState::Apply).is_none());
    let input = PaymentCustomizationInput { cart: cart_with(Some(Some("true")), vec![]), payment_methods: methods };
    assert!(payment_customization(&input).operations.is_empty());
}

#[test]
fn closed_gate_hides_nothing_even_with_a_match() {
    assert!(filter_hidden_method(&three_methods(), GateState::DoNotApply).is_none());
}

#[test]
fn marker_may_stand_anywhere_in_the_name() {
    assert!(is_installments_method(&method("X", "Pay by Installments")));
    assert!(is_installments_method(&method("X", "Klarna: Pay by Installments (4x)")));
    assert!(!is_installments_method(&method("X", "Pay by Installment")));
    assert!(!is_installments_method(&method("X", "Credit Card")));
    let r = filter_hidden_method(&vec![method("A", "Card"), method("Z", "Klarna: Pay by Installments")], GateState::Apply);
    assert_eq!(r.map(|h| h.payment_method_id), Some("Z".to_string()));
}

#[test]
fn discount_targets_product_variants_in_order() {
    let cart = cart_with(Some(Some("true")), vec![variant_line("V1", 1), custom_line(), variant_line("V2", 5)]);
    let d = straight_discount(&cart);
    assert_eq!(d.discount_application_strategy, DiscountApplicationStrategy::First);
    assert_eq!(d.discounts.len(), 1);
    let disc = &d.discounts[0];
    assert!(disc.message.is_none());
    assert_eq!(target_ids(&disc.targets), vec![("V1".to_string(), None), ("V2".to_string(), None)]);
    match &disc.value {
        Value::Percentage(p) => assert_eq!(p.value, "10.0"),
        other => panic!("unexpected value {:?}", other),
    }
}

#[test]
fn empty_cart_still_gets_one_discount() {
    let d = build_discount(&cart_with(None, vec![]), GateState::Apply);
    assert_eq!(d.discounts.len(), 1);
    assert!(d.discounts[0].targets.is_empty());
    assert_eq!(d.discount_application_strategy, DiscountApplicationStrategy::First);
}

#[test]
fn only_custom_products_give_empty_targets() {
    let d = straight_discount(&cart_with(Some(Some("yes")), vec![custom_line(), custom_line()]));
    assert_eq!(d.discounts.len(), 1);
    assert!(d.discounts[0].targets.is_empty());
}

#[test]
fn quantity_does_not_filter_lines() {
    let t = collect_targets(&vec![variant_line("V1", 0), variant_line("V2", 1), variant_line("V3", 2)]);
    assert_eq!(
        target_ids(&t),
        vec![("V1".to_string(), None), ("V2".to_string(), None), ("V3".to_string(), None)]
    );
}

#[test]
fn closed_gate_discount_is_empty() {
    let cart = cart_with(Some(Some("false")), vec![variant_line("V1", 2)]);
    let d = build_discount(&cart, GateState::DoNotApply);
    assert!(d.discounts.is_empty());
    assert_eq!(d.discount_application_strategy, DiscountApplicationStrategy::First);
}

#[test]
fn handlers_are_repeatable() {
    let input = PaymentCustomizationInput {
        cart: cart_with(Some(Some("true")), vec![variant_line("V1", 1), custom_line(), variant_line("V2", 2)]),
        payment_methods: three_methods(),
    };
    let a = format!("{:?}", payment_customization(&input));
    let b = format!("{:?}", payment_customization(&input));
    assert_eq!(a, b);
    let c = format!("{:?}", straight_discount(&input.cart));
    let d = format!("{:?}", straight_discount(&input.cart));
    assert_eq!(c, d);
}
