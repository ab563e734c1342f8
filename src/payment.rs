use vstd::prelude::*;

use crate::cart::Cart;
use crate::gate::{evaluate_gate, gate_spec, GateState};

verus! {

/// A payment method offered at checkout.
#[derive(Clone, Debug)]
pub struct PaymentMethod {
    pub id: String,
    pub name: String,
}

/// What the payment customization reads.
#[derive(Clone, Debug)]
pub struct PaymentCustomizationInput {
    pub cart: Cart,
    pub payment_methods: Vec<PaymentMethod>,
}

/// Hides one payment method.
#[derive(Clone, Debug)]
pub struct HideOperation {
    pub payment_method_id: String,
}

/// Moves one payment method to a position in the list.
#[derive(Clone, Debug)]
pub struct MoveOperation {
    pub payment_method_id: String,
    pub index: u64,
}

/// Gives one payment method another display name.
#[derive(Clone, Debug)]
pub struct RenameOperation {
    pub payment_method_id: String,
    pub name: String,
}

/// One instruction for the host.
#[derive(Clone, Debug)]
pub enum Operation {
    Hide(HideOperation),
    Move(MoveOperation),
    Rename(RenameOperation),
}

/// The instructions that the payment customization hands back.
#[derive(Clone, Debug)]
pub struct PaymentCustomizationResult {
    pub operations: Vec<Operation>,
}

/// An operation as a value: the method it names and what is done to it.
pub enum OperationModel {
    Hide(Seq<char>),
    Move(Seq<char>, u64),
    Rename(Seq<char>, Seq<char>),
}

impl View for Operation {
    type V = OperationModel;

    open spec fn view(&self) -> OperationModel {
        match self {
            Operation::Hide(h) => OperationModel::Hide(h.payment_method_id@),
            Operation::Move(m) => OperationModel::Move(m.payment_method_id@, m.index),
            Operation::Rename(r) => OperationModel::Rename(r.payment_method_id@, r.name@),
        }
    }
}

impl View for PaymentCustomizationResult {
    type V = Seq<OperationModel>;

    open spec fn view(&self) -> Seq<OperationModel> {
        self.operations@.map_values(|o: Operation| o@)
    }
}

/// Whether `p` occurs in `s` as a run of consecutive characters.
pub open spec fn has_substring(s: Seq<char>, p: Seq<char>) -> bool {
    exists|i: int| 0 <= i && i + p.len() <= s.len() && #[trigger] s.subrange(i, i + p.len()) == p
}

/// The text in a display name that marks the method to hide.
pub open spec fn installments_marker() -> Seq<char> {
    "Pay by Installments"@
}

/// Whether a method is one that the customization hides.
pub open spec fn is_installments(m: PaymentMethod) -> bool {
    has_substring(m.name@, installments_marker())
}

/// The identifier of the first method in `ms` that is to be hidden.
pub open spec fn first_installments_id(ms: Seq<PaymentMethod>) -> Option<Seq<char>>
    decreases ms.len(),
{
    if ms.len() == 0 {
        None
    } else if is_installments(ms[0]) {
        Some(ms[0].id@)
    } else {
        first_installments_id(ms.drop_first())
    }
}

/// The method picked is the first one, in the given order, whose name holds
/// the marker: every method before it lacks the marker, and when none is
/// picked no method holds it.
pub proof fn lemma_first_installments_is_first_match(ms: Seq<PaymentMethod>)
    ensures
        match first_installments_id(ms) {
            Some(id) => exists|i: int|
                0 <= i < ms.len() && #[trigger] is_installments(ms[i]) && ms[i].id@ == id
                    && forall|j: int| 0 <= j < i ==> !is_installments(#[trigger] ms[j]),
            None => forall|j: int| 0 <= j < ms.len() ==> !is_installments(#[trigger] ms[j]),
        },
    decreases ms.len(),
{
    if ms.len() > 0 && !is_installments(ms[0]) {
        let rest = ms.drop_first();
        lemma_first_installments_is_first_match(rest);
        match first_installments_id(rest) {
            Some(id) => {
                let k = choose|k: int|
                    0 <= k < rest.len() && #[trigger] is_installments(rest[k]) && rest[k].id@ == id
                        && forall|j: int| 0 <= j < k ==> !is_installments(#[trigger] rest[j]);
                assert(ms[k + 1] == rest[k]);
                assert forall|j: int| 0 <= j < k + 1 implies !is_installments(#[trigger] ms[j]) by {
                    if j > 0 {
                        assert(ms[j] == rest[j - 1]);
                    }
                }
            },
            None => {
                assert forall|j: int| 0 <= j < ms.len() implies !is_installments(#[trigger] ms[j]) by {
                    if j > 0 {
                        assert(ms[j] == rest[j - 1]);
                    }
                }
            },
        }
    }
}

/// The identifier of the method hidden under `gate`.
pub open spec fn hidden_id_spec(ms: Seq<PaymentMethod>, gate: GateState) -> Option<Seq<char>> {
    if gate == GateState::Apply {
        first_installments_id(ms)
    } else {
        None
    }
}

/// The operations that the payment customization returns for `input`.
pub open spec fn payment_customization_spec(input: PaymentCustomizationInput) -> Seq<OperationModel> {
    match hidden_id_spec(input.payment_methods@, gate_spec(input.cart.attribute)) {
        Some(id) => seq![OperationModel::Hide(id)],
        None => Seq::empty(),
    }
}

/// Relies on `str::contains` with a `&str` pattern: true exactly when the
/// pattern occurs in the string as a contiguous part of it.
#[verifier::external_body]
fn str_contains(s: &str, pat: &str) -> (r: bool)
    ensures
        r == has_substring(s@, pat@),
{
    s.contains(pat)
}

/// Whether the method's display name holds `Pay by Installments`.
pub fn is_installments_method(m: &PaymentMethod) -> (r: bool)
    ensures
        r == is_installments(*m),
{
    str_contains(m.name.as_str(), "Pay by Installments")
}

/// The hide operation for the first method, in the given order, whose name
/// holds `Pay by Installments`; none when `gate` says not to apply or no name holds it.
pub fn filter_hidden_method(methods: &Vec<PaymentMethod>, gate: GateState) -> (r: Option<
    HideOperation,
>)
    ensures
        match r {
            Some(h) => hidden_id_spec(methods@, gate) == Some(h.payment_method_id@),
            None => hidden_id_spec(methods@, gate) is None,
        },
{
    if let GateState::DoNotApply = gate {
        return None;
    }
    let n = methods.len();
    let mut i: usize = 0;
    assert(methods@.subrange(0, n as int) =~= methods@);
    while i < n
        invariant
            gate == GateState::Apply,
            n == methods@.len(),
            i <= n,
            first_installments_id(methods@) == first_installments_id(methods@.subrange(i as int, n as int)),
        decreases n - i,
    {
        let m = &methods[i];
        proof {
            let rest = methods@.subrange(i as int, n as int);
            assert(rest[0] == methods@[i as int]);
            assert(rest.drop_first() =~= methods@.subrange(i + 1, n as int));
        }
        if is_installments_method(m) {
            assert(first_installments_id(methods@.subrange(i as int, n as int)) == Some(m.id@));
            let id = m.id.clone();
            return Some(HideOperation { payment_method_id: id });
        }
        i = i + 1;
    }
    proof {
        assert(methods@.subrange(n as int, n as int).len() == 0);
    }
    None
}

/// Hides the first `Pay by Installments` method unless the cart's gate is closed.
pub fn payment_customization(input: &PaymentCustomizationInput) -> (r: PaymentCustomizationResult)
    ensures
        r@ == payment_customization_spec(*input),
{
    let gate = evaluate_gate(&input.cart);
    let mut operations: Vec<Operation> = Vec::new();
    match filter_hidden_method(&input.payment_methods, gate) {
        Some(h) => {
            operations.push(Operation::Hide(h));
        },
        None => {},
    }
    let r = PaymentCustomizationResult { operations };
    assert(r@ =~= payment_customization_spec(*input));
    r
}

} // verus!
