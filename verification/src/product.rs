use vstd::prelude::*;

verus! {

/// The closed set of product categories.
#[derive(Clone, Copy, PartialEq, Eq, Structural, Debug)]
pub enum Category {
    Bakery,
    Cake,
    Cookies,
}

impl Default for Category {
    /// The default category, used when a payload omits the field.
    fn default() -> (r: Self)
        ensures
            r == Category::Bakery,
    {
        Category::Bakery
    }
}

/// A single inventory record.
///
/// The `id` is unique across all live records and never reused; `created_at`
/// is set once at creation, and `updated_at` is absent until the first
/// mutation and refreshed on every one.
#[derive(Debug)]
pub struct Product {
    pub id: u64,
    pub name: String,
    pub category: Category,
    pub quantity: u32,
    pub created_at: u64,
    pub updated_at: Option<u64>,
}

impl Clone for Product {
    fn clone(&self) -> (r: Self)
        ensures
            r == *self,
    {
        Product {
            id: self.id,
            name: self.name.clone(),
            category: self.category,
            quantity: self.quantity,
            created_at: self.created_at,
            updated_at: self.updated_at,
        }
    }
}

impl PartialEq for Product {
    fn eq(&self, other: &Self) -> (r: bool) {
        let updated_at_eq: bool = match (self.updated_at, other.updated_at) {
            (None, None) => true,
            (Some(a), Some(b)) => a == b,
            _ => false,
        };
        self.id == other.id && self.name == other.name && self.category == other.category
            && self.quantity == other.quantity && self.created_at == other.created_at
            && updated_at_eq
    }
}

impl vstd::std_specs::cmp::PartialEqSpecImpl for Product {
    open spec fn obeys_eq_spec() -> bool {
        true
    }

    open spec fn eq_spec(&self, other: &Self) -> bool {
        &&& self.id == other.id
        &&& self.name@ == other.name@
        &&& self.category == other.category
        &&& self.quantity == other.quantity
        &&& self.created_at == other.created_at
        &&& self.updated_at == other.updated_at
    }
}

/// The payload used to create or update a product.
pub struct ProductPayload {
    pub name: String,
    pub quantity: u32,
    pub category: Category,
}

/// The payload used to add or remove stock.
pub struct StockPayload {
    pub amount: u32,
}

} // verus!
