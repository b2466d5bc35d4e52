use inventory_store::errors::Error;
use inventory_store::product::Category;
use inventory_store::product::ProductPayload;
use inventory_store::product::StockPayload;
use inventory_store::store::Store;
use inventory_store::validation::validate_product_payload;
use inventory_store::validation::validate_stock_payload;

fn payload(name: &str, quantity: u32, category: Category) -> ProductPayload {
    ProductPayload { name: name.to_string(), quantity, category }
}

fn invalid_operation_msg(e: Error) -> String {
    match e {
        Error::InvalidOperation { msg } => msg,
        Error::NotFound { msg } => panic!("expected InvalidOperation, got NotFound: {}", msg),
    }
}

fn not_found_msg(e: Error) -> String {
    match e {
        Error::NotFound { msg } => msg,
        Error::InvalidOperation { msg } => {
            panic!("expected NotFound, got InvalidOperation: {}", msg)
        }
    }
}

#[test]
fn add_then_get_round_trip() {
    let mut s = Store::new();
    let p = s.add_product(payload("Bread", 10, Category::Bakery), 111).unwrap();
    assert_eq!(p.id, 1);
    assert_eq!(p.name, "Bread");
    assert_eq!(p.quantity, 10);
    assert_eq!(p.created_at, 111);
    assert_eq!(p.updated_at, None);
    let fetched = s.get_product(p.id).unwrap();
    assert_eq!(fetched, p);
}

#[test]
fn ids_strictly_increase_even_after_removal() {
    let mut s = Store::new();
    let a = s.add_product(payload("Bread", 1, Category::Bakery), 1).unwrap();
    let b = s.add_product(payload("Tart", 2, Category::Cake), 2).unwrap();
    let c = s.add_product(payload("Biscuit", 3, Category::Cookies), 3).unwrap();
    assert_eq!((a.id, b.id, c.id), (1, 2, 3));
    s.remove_product(b.id).unwrap();
    let d = s.add_product(payload("Scone", 4, Category::Bakery), 4).unwrap();
    assert_eq!(d.id, 4);
}

#[test]
fn offload_scenario() {
    let mut s = Store::new();
    let p = s.add_product(payload("Bread", 10, Category::Bakery), 5).unwrap();
    assert_eq!(p.id, 1);
    assert_eq!(p.quantity, 10);

    let e = s.offload_quantity(1, StockPayload { amount: 15 }, 6).unwrap_err();
    assert_eq!(
        invalid_operation_msg(e),
        "Cannot offload more than available quantity. Available: 10, Trying to offload: 15"
    );
    assert_eq!(s.get_stock(1).unwrap(), 10);

    let p = s.offload_quantity(1, StockPayload { amount: 10 }, 7).unwrap();
    assert_eq!(p.quantity, 0);
    assert_eq!(s.get_stock(1).unwrap(), 0);

    let e = s.offload_quantity(1, StockPayload { amount: 1 }, 8).unwrap_err();
    assert_eq!(
        invalid_operation_msg(e),
        "Product with id=1 cannot be offloaded because the quantity is 0"
    );
    assert_eq!(s.get_stock(1).unwrap(), 0);
}

#[test]
fn empty_name_rejected_and_counter_untouched() {
    let mut s = Store::new();
    let e = s.add_product(payload("", 5, Category::Cake), 1).unwrap_err();
    assert_eq!(invalid_operation_msg(e), "Product name cannot be empty.");
    let p = s.add_product(payload("Roll", 5, Category::Cake), 2).unwrap();
    assert_eq!(p.id, 1);
}

#[test]
fn whitespace_only_name_rejected() {
    let mut s = Store::new();
    let e = s.add_product(payload(" \t  ", 5, Category::Bakery), 1).unwrap_err();
    assert_eq!(invalid_operation_msg(e), "Product name cannot be empty.");
}

#[test]
fn zero_quantity_payload_rejected() {
    let mut s = Store::new();
    let e = s.add_product(payload("Bread", 0, Category::Bakery), 1).unwrap_err();
    assert_eq!(invalid_operation_msg(e), "Product quantity must be greater than zero.");
}

#[test]
fn missing_product_not_found() {
    let s = Store::new();
    let e = s.get_product(999).unwrap_err();
    assert_eq!(not_found_msg(e), "A product with id=999 was not found");
}

#[test]
fn largest_id_rendered_in_message() {
    let s = Store::new();
    let e = s.get_product(u64::MAX).unwrap_err();
    assert_eq!(
        not_found_msg(e),
        "A product with id=18446744073709551615 was not found"
    );
}

#[test]
fn remove_is_idempotent() {
    let mut s = Store::new();
    let p = s.add_product(payload("Bread", 10, Category::Bakery), 1).unwrap();
    let removed = s.remove_product(p.id).unwrap();
    assert_eq!(removed, p);
    let e = s.remove_product(p.id).unwrap_err();
    assert_eq!(not_found_msg(e), "Couldn't delete a product with id=1. Product not found");
    let e = s.get_product(p.id).unwrap_err();
    assert_eq!(not_found_msg(e), "A product with id=1 was not found");
}

#[test]
fn offload_then_add_restores_quantity() {
    let mut s = Store::new();
    let p = s.add_product(payload("Bread", 10, Category::Bakery), 1).unwrap();
    let p = s.offload_quantity(p.id, StockPayload { amount: 4 }, 2).unwrap();
    assert_eq!(p.quantity, 6);
    let p = s.add_quantity(p.id, StockPayload { amount: 4 }, 3).unwrap();
    assert_eq!(p.quantity, 10);
    assert_eq!(p.updated_at, Some(3));
}

#[test]
fn update_overwrites_and_preserves_created_at() {
    let mut s = Store::new();
    let p = s.add_product(payload("Bread", 10, Category::Bakery), 111).unwrap();
    let u = s.update_product(p.id, payload("Baguette", 3, Category::Cookies), 222).unwrap();
    assert_eq!(u.id, p.id);
    assert_eq!(u.name, "Baguette");
    assert_eq!(u.quantity, 3);
    assert_eq!(u.created_at, 111);
    assert_eq!(u.updated_at, Some(222));
    let fetched = s.get_product(p.id).unwrap();
    assert_eq!(fetched, u);
}

#[test]
fn update_missing_product_not_found() {
    let mut s = Store::new();
    let e = s.update_product(7, payload("Baguette", 3, Category::Bakery), 1).unwrap_err();
    assert_eq!(not_found_msg(e), "Couldn't update a product with id=7. Product not found");
}

#[test]
fn update_with_invalid_payload_rejected() {
    let mut s = Store::new();
    let p = s.add_product(payload("Bread", 10, Category::Bakery), 1).unwrap();
    let e = s.update_product(p.id, payload("Bread", 0, Category::Bakery), 2).unwrap_err();
    assert_eq!(invalid_operation_msg(e), "Product quantity must be greater than zero.");
    assert_eq!(s.get_stock(p.id).unwrap(), 10);
}

#[test]
fn add_quantity_increases_stock() {
    let mut s = Store::new();
    let p = s.add_product(payload("Bread", 5, Category::Bakery), 1).unwrap();
    let p = s.add_quantity(p.id, StockPayload { amount: 7 }, 9).unwrap();
    assert_eq!(p.quantity, 12);
    assert_eq!(p.updated_at, Some(9));
    assert_eq!(s.get_stock(p.id).unwrap(), 12);
}

#[test]
fn add_quantity_zero_amount_rejected() {
    let mut s = Store::new();
    let p = s.add_product(payload("Bread", 5, Category::Bakery), 1).unwrap();
    let e = s.add_quantity(p.id, StockPayload { amount: 0 }, 2).unwrap_err();
    assert_eq!(invalid_operation_msg(e), "Stock amount must be greater than zero.");
    assert_eq!(s.get_stock(p.id).unwrap(), 5);
}

#[test]
fn add_quantity_missing_product_not_found() {
    let mut s = Store::new();
    let e = s.add_quantity(42, StockPayload { amount: 1 }, 1).unwrap_err();
    assert_eq!(not_found_msg(e), "Couldn't add quantity to product with id=42. Product not found");
}

#[test]
fn offload_missing_product_not_found() {
    let mut s = Store::new();
    let e = s.offload_quantity(3, StockPayload { amount: 1 }, 1).unwrap_err();
    assert_eq!(not_found_msg(e), "Couldn't offload a product with id=3. Product not found");
}

#[test]
fn offload_zero_amount_rejected() {
    let mut s = Store::new();
    let p = s.add_product(payload("Bread", 5, Category::Bakery), 1).unwrap();
    let e = s.offload_quantity(p.id, StockPayload { amount: 0 }, 2).unwrap_err();
    assert_eq!(invalid_operation_msg(e), "Stock amount must be greater than zero.");
}

#[test]
fn get_stock_missing_product_not_found() {
    let s = Store::new();
    let e = s.get_stock(2).unwrap_err();
    assert_eq!(not_found_msg(e), "A product with id=2 was not found");
}

#[test]
fn validate_product_payload_reports_exact_errors() {
    let e = validate_product_payload(&payload("", 5, Category::Bakery)).unwrap_err();
    assert_eq!(invalid_operation_msg(e), "Product name cannot be empty.");
    let e = validate_product_payload(&payload("Bread", 0, Category::Bakery)).unwrap_err();
    assert_eq!(invalid_operation_msg(e), "Product quantity must be greater than zero.");
    assert!(validate_product_payload(&payload("Bread", 1, Category::Bakery)).is_ok());
}

#[test]
fn validate_stock_payload_reports_exact_error() {
    let e = validate_stock_payload(&StockPayload { amount: 0 }).unwrap_err();
    assert_eq!(invalid_operation_msg(e), "Stock amount must be greater than zero.");
    assert!(validate_stock_payload(&StockPayload { amount: 1 }).is_ok());
}

#[test]
fn do_insert_is_idempotent_by_key() {
    let mut s = Store::new();
    let first = s.add_product(payload("Bread", 2, Category::Bakery), 1).unwrap();
    let mut replacement = first.clone();
    replacement.quantity = 9;
    s.do_insert(&replacement);
    let fetched = s._get_product(first.id).unwrap();
    assert_eq!(fetched.quantity, 9);
    s.do_insert(&replacement);
    let fetched = s._get_product(first.id).unwrap();
    assert_eq!(fetched, replacement);
}

#[test]
fn next_id_counts_up_by_one() {
    let mut s = Store::new();
    assert_eq!(s.next_id(), 1);
    assert_eq!(s.next_id(), 2);
    assert_eq!(s.next_id(), 3);
}

#[test]
fn restore_resumes_the_counter() {
    let mut s = Store::restore(41);
    let p = s.add_product(payload("Bread", 1, Category::Bakery), 1).unwrap();
    assert_eq!(p.id, 42);
}

#[test]
fn category_defaults_to_bakery() {
    assert_eq!(Category::default(), Category::Bakery);
}
