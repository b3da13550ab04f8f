//! Handlers for the item endpoints.

use vstd::prelude::*;
use crate::errors::AppError;
use crate::models::{BodyItem, Page};
use crate::text::{push_dec_i32, push_dec_u64, spec_dec_int};

verus! {

/// The success body of the item-lookup endpoint.
pub open spec fn spec_item_detail(id: int, number: int) -> Seq<char> {
    "Item ID: "@ + spec_dec_int(id) + ", Page Number: "@ + spec_dec_int(number)
}

/// Placeholder existence check for items: the id `1` is treated as absent,
/// every other id as present.
pub fn find_item(id: i32) -> (r: Result<(), String>)
    ensures
        id == 1 <==> r is Err,
        r matches Err(m) ==> m@ == "Item Not Found"@,
{
    if id == 1 {
        Err(String::from_str("Item Not Found"))
    } else {
        Ok(())
    }
}

/// Handler for item lookup: the absent id is rejected as invalid input,
/// every other id yields the formatted item detail line.
pub fn show_item(id: i32, params: Page) -> (r: Result<String, AppError>)
    ensures
        id == 1 <==> r is Err,
        r matches Ok(body) ==> body@ == spec_item_detail(id as int, params.number as int),
        r matches Err(e) ==> (e matches AppError::InvalidInput(eid, m) && eid == id && m@
            == "Item Not Found"@),
{
    match find_item(id) {
        Ok(_) => {
            let mut body = String::from_str("Item ID: ");
            push_dec_i32(&mut body, id);
            body.append(", Page Number: ");
            push_dec_u64(&mut body, params.number as u64);
            proof {
                assert(body@ =~= spec_item_detail(id as int, params.number as int));
            }
            Ok(body)
        },
        Err(e) => Err(AppError::InvalidInput(id, e)),
    }
}

/// Handler for item creation: items are not persisted, the handler echoes
/// the submitted title in a confirmation line.
pub fn add_item(item: BodyItem) -> (r: String)
    ensures
        r@ == "Item added: "@ + item.title@,
{
    let mut body = String::from_str("Item added: ");
    body.append(item.title.as_str());
    body
}

} // verus!
