//! The purchase order and the values derived from it.
//!
//! Every decimal quantity (prices, totals, the tax rate) is a fixed-point
//! `i64` holding the value times `AMOUNT_SCALE` (four fractional digits).
use vstd::prelude::*;

verus! {

/// One line of a purchase order.
#[derive(Debug, Clone)]
pub struct PurchaseOrderItem {
    pub item_code: String,
    pub description: String,
    pub quantity: u32,
    /// Price of one unit, times `AMOUNT_SCALE`.
    pub unit_price: i64,
    /// Declared total of the line, times `AMOUNT_SCALE`.
    pub line_total: i64,
}

/// A submitted purchase order.
#[derive(Debug, Clone)]
pub struct PurchaseOrder {
    pub supplier_name: String,
    pub supplier_address_line1: String,
    pub supplier_address_line2: Option<String>,
    pub supplier_city: String,
    pub supplier_state: String,
    pub supplier_postal_code: String,
    pub supplier_country: String,
    pub items: Vec<PurchaseOrderItem>,
    pub po_number: String,
    pub created_by: String,
    pub buyer_department: String,
    pub notes: Option<String>,
    /// Tax rate as a fraction, times `AMOUNT_SCALE` (0.07 is 700).
    pub tax_rate: i64,
    pub sub_total: i64,
    pub tax: i64,
    pub grand_total: i64,
    pub is_approved: bool,
    pub approval_reason: Option<String>,
}

/// The wrapped form in which a purchase order may be submitted.
#[derive(Debug, Clone)]
pub struct PurchaseOrderWrapper {
    pub purchase_order: PurchaseOrder,
}

/// Aggregate view of a purchase order.
#[derive(Debug, Clone)]
pub struct PurchaseOrderSummary {
    pub total_items: usize,
    pub total_quantity: u128,
    pub sub_total: i64,
    pub tax: i64,
    pub grand_total: i64,
    pub supplier: String,
    pub department: String,
    pub is_approved: bool,
}

/// Sum of the quantities of the first `n` items.
pub open spec fn quantity_sum(items: Seq<PurchaseOrderItem>, n: nat) -> int
    decreases n,
{
    if n == 0 || n > items.len() {
        0
    } else {
        quantity_sum(items, (n - 1) as nat) + items[n - 1].quantity
    }
}

pub open spec fn total_quantity(items: Seq<PurchaseOrderItem>) -> int {
    quantity_sum(items, items.len())
}

/// Sum of the declared line totals of the first `n` items.
pub open spec fn line_total_sum(items: Seq<PurchaseOrderItem>, n: nat) -> int
    decreases n,
{
    if n == 0 || n > items.len() {
        0
    } else {
        line_total_sum(items, (n - 1) as nat) + items[n - 1].line_total
    }
}

pub open spec fn total_of_lines(items: Seq<PurchaseOrderItem>) -> int {
    line_total_sum(items, items.len())
}

pub proof fn lemma_quantity_sum_bounds(items: Seq<PurchaseOrderItem>, n: nat)
    requires
        n <= items.len(),
    ensures
        0 <= quantity_sum(items, n) <= n * 0xffff_ffff,
    decreases n,
{
    if n > 0 {
        lemma_quantity_sum_bounds(items, (n - 1) as nat);
    }
}

pub proof fn lemma_line_total_sum_bounds(items: Seq<PurchaseOrderItem>, n: nat)
    requires
        n <= items.len(),
    ensures
        -(n * 0x8000_0000_0000_0000) <= line_total_sum(items, n) <= n * 0x8000_0000_0000_0000,
    decreases n,
{
    if n > 0 {
        lemma_line_total_sum_bounds(items, (n - 1) as nat);
    }
}

/// Builds the aggregate view: item count, summed quantity, and the echoed
/// totals, supplier, department and approval flag.
pub fn create_summary(po: &PurchaseOrder) -> (r: PurchaseOrderSummary)
    ensures
        r.total_items == po.items@.len(),
        r.total_quantity == total_quantity(po.items@),
        r.sub_total == po.sub_total,
        r.tax == po.tax,
        r.grand_total == po.grand_total,
        r.supplier@ == po.supplier_name@,
        r.department@ == po.buyer_department@,
        r.is_approved == po.is_approved,
{
    let mut total: u128 = 0;
    let mut i: usize = 0;
    while i < po.items.len()
        invariant
            i <= po.items@.len(),
            total == quantity_sum(po.items@, i as nat),
        decreases po.items@.len() - i,
    {
        proof {
            lemma_quantity_sum_bounds(po.items@, (i + 1) as nat);
        }
        total = total + po.items[i].quantity as u128;
        i = i + 1;
    }
    PurchaseOrderSummary {
        total_items: po.items.len(),
        total_quantity: total,
        sub_total: po.sub_total,
        tax: po.tax,
        grand_total: po.grand_total,
        supplier: po.supplier_name.clone(),
        department: po.buyer_department.clone(),
        is_approved: po.is_approved,
    }
}

} // verus!
