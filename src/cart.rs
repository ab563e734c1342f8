use vstd::prelude::*;

verus! {

/// A cart attribute as the host hands it over: its key, and a value that may be absent.
#[derive(Clone, Debug)]
pub struct Attribute {
    pub key: String,
    pub value: Option<String>,
}

/// A product variant that a cart line can point at.
#[derive(Clone, Debug)]
pub struct ProductVariant {
    pub id: String,
}

/// What a cart line sells.
#[derive(Clone, Debug)]
pub enum Merchandise {
    ProductVariant(ProductVariant),
    /// An item that is not a variant of the catalog and cannot be targeted.
    CustomProduct,
}

/// One line of a cart.
#[derive(Clone, Debug)]
pub struct CartLine {
    pub quantity: i64,
    pub merchandise: Merchandise,
}

/// The snapshot of a cart that a rule is evaluated on.
#[derive(Clone, Debug)]
pub struct Cart {
    /// The `straight_payments` attribute, if the cart carries it.
    pub attribute: Option<Attribute>,
    pub lines: Vec<CartLine>,
}

} // verus!
