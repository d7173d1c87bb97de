//! Cart items, their total and the basket lines sent to the gateway.
//!
//! Prices are held in minor currency units (kuruş, cents), so a total is
//! exact. A quantity of zero or less is billed as one unit.

use vstd::prelude::*;
use vstd::string::StringExecFns;
use crate::text::{signed_decimal, signed_decimal_text};

verus! {

pub struct CartItem {
    pub id: i32,
    pub name: String,
    /// Unit price in minor currency units.
    pub price: u64,
    pub description: String,
    pub image: String,
    pub quantity: i32,
}

/// One line of the gateway's basket: quantity one, price already
/// multiplied by the cart quantity.
pub struct BasketLine {
    pub id: String,
    pub name: String,
    pub price: u64,
    pub quantity: u32,
    pub category1: String,
    pub item_type: String,
}

/// Units billed for a quantity: at least one.
pub open spec fn billed_units(quantity: i32) -> nat {
    if quantity <= 0 {
        1
    } else {
        quantity as nat
    }
}

pub open spec fn line_total(item: CartItem) -> nat {
    item.price as nat * billed_units(item.quantity)
}

/// Sum of `price × max(quantity, 1)` over the items.
pub open spec fn cart_total(items: Seq<CartItem>) -> nat
    decreases items.len(),
{
    if items.len() == 0 {
        0
    } else {
        cart_total(items.drop_last()) + line_total(items.last())
    }
}

/// Sum of the unit prices, each counted once.
pub open spec fn unit_price_total(items: Seq<CartItem>) -> nat
    decreases items.len(),
{
    if items.len() == 0 {
        0
    } else {
        unit_price_total(items.drop_last()) + items.last().price as nat
    }
}

/// Sum of the prices of basket lines.
pub open spec fn basket_total(lines: Seq<BasketLine>) -> nat
    decreases lines.len(),
{
    if lines.len() == 0 {
        0
    } else {
        basket_total(lines.drop_last()) + lines.last().price as nat
    }
}

pub open spec fn is_basket_line_for(line: BasketLine, item: CartItem) -> bool {
    &&& line.id@ == signed_decimal(item.id as int)
    &&& line.name@ == item.name@
    &&& line.price as nat == line_total(item)
    &&& line.quantity == 1
    &&& line.category1@ == "Electronics"@
    &&& line.item_type@ == "PHYSICAL"@
}

pub open spec fn is_basket_for(lines: Seq<BasketLine>, items: Seq<CartItem>) -> bool {
    &&& lines.len() == items.len()
    &&& forall|i: int| 0 <= i < items.len() ==> is_basket_line_for(#[trigger] lines[i], items[i])
}

pub proof fn lemma_cart_total_step(items: Seq<CartItem>, j: int)
    requires
        0 <= j < items.len(),
    ensures
        cart_total(items.take(j + 1)) == cart_total(items.take(j)) + line_total(items[j]),
{
    assert(items.take(j + 1).drop_last() =~= items.take(j));
}

pub proof fn lemma_cart_total_prefix(items: Seq<CartItem>, j: int)
    requires
        0 <= j <= items.len(),
    ensures
        cart_total(items.take(j)) <= cart_total(items),
    decreases items.len(),
{
    if j == items.len() {
        assert(items.take(j) =~= items);
    } else {
        lemma_cart_total_prefix(items.drop_last(), j);
        assert(items.drop_last().take(j) =~= items.take(j));
    }
}

/// A line's total never exceeds the cart's.
pub proof fn lemma_line_within_total(items: Seq<CartItem>, j: int)
    requires
        0 <= j < items.len(),
    ensures
        line_total(items[j]) <= cart_total(items),
{
    lemma_cart_total_step(items, j);
    lemma_cart_total_prefix(items, j + 1);
}

/// A quantity of zero or less never bills less than the unit price, so the
/// total is at least the sum of the unit prices.
pub proof fn lemma_total_covers_unit_prices(items: Seq<CartItem>)
    ensures
        cart_total(items) >= unit_price_total(items),
    decreases items.len(),
{
    if items.len() > 0 {
        lemma_total_covers_unit_prices(items.drop_last());
        let it = items.last();
        assert(it.price as nat * billed_units(it.quantity) >= it.price) by (nonlinear_arith)
            requires
                billed_units(it.quantity) >= 1,
        ;
    }
}

/// The basket built from a cart carries the cart's total: summing the basket
/// lines gives the same amount as summing the cart.
pub proof fn lemma_basket_total_matches_cart(lines: Seq<BasketLine>, items: Seq<CartItem>)
    requires
        is_basket_for(lines, items),
    ensures
        basket_total(lines) == cart_total(items),
    decreases items.len(),
{
    if items.len() > 0 {
        let n = items.len() - 1;
        assert(is_basket_line_for(lines[n], items[n]));
        assert forall|i: int| 0 <= i < n implies is_basket_line_for(
            #[trigger] lines.drop_last()[i],
            items.drop_last()[i],
        ) by {
            assert(is_basket_line_for(lines[i], items[i]));
        }
        lemma_basket_total_matches_cart(lines.drop_last(), items.drop_last());
    }
}

/// `price × max(quantity, 1)` of one item.
pub fn line_price(item: &CartItem) -> (r: u128)
    ensures
        r == line_total(*item),
        r <= 0xffff_ffff_ffff_ffff * 0x7fff_ffff,
{
    let units: u128 = if item.quantity <= 0 {
        1
    } else {
        item.quantity as u128
    };
    let price: u128 = item.price as u128;
    assert(price * units <= 0xffff_ffff_ffff_ffff * 0x7fff_ffff) by (nonlinear_arith)
        requires
            price <= 0xffff_ffff_ffff_ffff,
            1 <= units <= 0x7fff_ffff,
    ;
    price * units
}

/// The cart's total, or `None` when it does not fit in a `u64`.
pub fn calculate_total(cart: &Vec<CartItem>) -> (r: Option<u64>)
    ensures
        r == (if cart_total(cart@) <= u64::MAX {
            Some(cart_total(cart@) as u64)
        } else {
            None::<u64>
        }),
{
    let mut acc: u64 = 0;
    let mut i: usize = 0;
    while i < cart.len()
        invariant
            0 <= i <= cart.len(),
            acc as nat == cart_total(cart@.take(i as int)),
        decreases cart.len() - i,
    {
        let line = line_price(&cart[i]);
        proof {
            lemma_cart_total_step(cart@, i as int);
        }
        let sum: u128 = acc as u128 + line;
        if sum > u64::MAX as u128 {
            proof {
                lemma_cart_total_prefix(cart@, i as int + 1);
            }
            return None;
        }
        acc = sum as u64;
        i = i + 1;
    }
    assert(cart@.take(i as int) =~= cart@);
    Some(acc)
}

/// The basket line for one item.
pub fn basket_line(item: &CartItem) -> (r: BasketLine)
    requires
        line_total(*item) <= u64::MAX,
    ensures
        is_basket_line_for(r, *item),
{
    let price = line_price(item);
    BasketLine {
        id: signed_decimal_text(item.id as i64),
        name: item.name.clone(),
        price: price as u64,
        quantity: 1,
        category1: String::from_str("Electronics"),
        item_type: String::from_str("PHYSICAL"),
    }
}

/// One basket line per cart item, in cart order.
pub fn build_basket(cart: &Vec<CartItem>) -> (r: Vec<BasketLine>)
    requires
        cart_total(cart@) <= u64::MAX,
    ensures
        is_basket_for(r@, cart@),
{
    let mut lines: Vec<BasketLine> = Vec::new();
    let mut i: usize = 0;
    while i < cart.len()
        invariant
            0 <= i <= cart.len(),
            cart_total(cart@) <= u64::MAX,
            lines@.len() == i,
            forall|k: int| 0 <= k < i ==> is_basket_line_for(#[trigger] lines@[k], cart@[k]),
        decreases cart.len() - i,
    {
        proof {
            lemma_line_within_total(cart@, i as int);
        }
        let line = basket_line(&cart[i]);
        lines.push(line);
        i = i + 1;
    }
    lines
}

} // verus!
