use vstd::prelude::*;
use crate::errors::Error;
use crate::product::ProductPayload;
use crate::product::StockPayload;

verus! {

/// Whether a string is empty once surrounding whitespace is removed.
pub uninterp spec fn is_blank(s: Seq<char>) -> bool;

/// Relies on `str::trim`: whether a string consists of nothing but leading
/// and trailing whitespace depends on its characters alone, and an empty
/// string trims to an empty string.
#[verifier::external_body]
fn str_is_blank(s: &str) -> (r: bool)
    ensures
        r == is_blank(s@),
        s@.len() == 0 ==> r,
{
    s.trim().is_empty()
}

/// A creation or update payload is valid when its name is non-empty after
/// trimming and its quantity is strictly positive.
pub open spec fn valid_product_payload(payload: ProductPayload) -> bool {
    &&& !is_blank(payload.name@)
    &&& payload.quantity > 0
}

/// A stock-adjustment payload is valid when its amount is strictly positive.
pub open spec fn valid_stock_payload(payload: StockPayload) -> bool {
    payload.amount > 0
}

pub open spec fn name_empty_msg() -> Seq<char> {
    "Product name cannot be empty."@
}

pub open spec fn quantity_zero_msg() -> Seq<char> {
    "Product quantity must be greater than zero."@
}

pub open spec fn amount_zero_msg() -> Seq<char> {
    "Stock amount must be greater than zero."@
}

/// The exact error an invalid creation or update payload produces.
pub open spec fn product_payload_error(e: Error, payload: ProductPayload) -> bool {
    e matches Error::InvalidOperation { msg } && (if is_blank(payload.name@) {
        msg@ == name_empty_msg()
    } else {
        msg@ == quantity_zero_msg()
    })
}

/// The exact error an invalid stock-adjustment payload produces.
pub open spec fn stock_payload_error(e: Error) -> bool {
    e matches Error::InvalidOperation { msg } && msg@ == amount_zero_msg()
}

/// Checks a creation or update payload, returning `InvalidOperation` with a
/// fixed message when the name trims to nothing or the quantity is zero.
pub fn validate_product_payload(payload: &ProductPayload) -> (r: Result<(), Error>)
    ensures
        r is Ok <==> valid_product_payload(*payload),
        r matches Err(e) ==> product_payload_error(e, *payload),
{
    if str_is_blank(payload.name.as_str()) {
        Err(Error::InvalidOperation { msg: "Product name cannot be empty.".to_owned() })
    } else if payload.quantity == 0 {
        Err(
            Error::InvalidOperation {
                msg: "Product quantity must be greater than zero.".to_owned(),
            },
        )
    } else {
        Ok(())
    }
}

/// Checks a stock-adjustment payload, returning `InvalidOperation` with a
/// fixed message when the amount is zero.
pub fn validate_stock_payload(payload: &StockPayload) -> (r: Result<(), Error>)
    ensures
        r is Ok <==> valid_stock_payload(*payload),
        r matches Err(e) ==> stock_payload_error(e),
{
    if payload.amount == 0 {
        Err(Error::InvalidOperation { msg: "Stock amount must be greater than zero.".to_owned() })
    } else {
        Ok(())
    }
}

} // verus!
