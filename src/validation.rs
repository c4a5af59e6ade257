//! Structural and financial rules on a purchase order.
//!
//! Validation yields two ordered lists of messages: errors, which block the
//! order, and warnings, which are advisory.
use vstd::prelude::*;
use crate::model::{PurchaseOrder, PurchaseOrderItem, line_total_sum, total_of_lines,
    lemma_line_total_sum_bounds, total_quantity};
use crate::text::{texts, abs, cents_text, digit_text, nat_text, rounded_div, push_cents, push_nat, round_div};

verus! {

/// Absolute tolerance of every reconciliation: 0.01, times `AMOUNT_SCALE`.
pub const TOLERANCE: i128 = 100;

/// Grand totals above this amount (10000, times `AMOUNT_SCALE`) are flagged.
pub const HIGH_VALUE_THRESHOLD: i64 = 100_000_000;

/// Highest usual tax rate (0.2, times `AMOUNT_SCALE`).
pub const MAX_USUAL_TAX_RATE: i64 = 2000;

/// The characters that `char::is_whitespace` accepts (Unicode White_Space).
pub open spec fn is_space(c: char) -> bool {
    ('\u{9}' <= c && c <= '\u{d}') || c == ' ' || c == '\u{85}' || c == '\u{a0}'
        || c == '\u{1680}' || ('\u{2000}' <= c && c <= '\u{200a}') || c == '\u{2028}'
        || c == '\u{2029}' || c == '\u{202f}' || c == '\u{205f}' || c == '\u{3000}'
}

/// Empty once surrounding whitespace is trimmed.
pub open spec fn blank(s: Seq<char>) -> bool {
    forall|i: int| 0 <= i < s.len() ==> is_space(#[trigger] s[i])
}

pub open spec fn authorized_department(d: Seq<char>) -> bool {
    d == "Marketing"@ || d == "Sales"@ || d == "IT"@ || d == "Finance"@ || d == "Operations"@
        || d == "HR"@
}

/// A one-element list if `b` holds, else the empty list.
pub open spec fn when(b: bool, m: Seq<char>) -> Seq<Seq<char>> {
    if b {
        seq![m]
    } else {
        Seq::empty()
    }
}

pub open spec fn item_text(position: nat, tail: Seq<char>) -> Seq<char> {
    "Item "@ + nat_text(position) + tail
}

pub open spec fn no_items_text() -> Seq<char> {
    "Purchase order must contain at least one item"@
}

pub open spec fn field_errors(po: PurchaseOrder) -> Seq<Seq<char>> {
    when(blank(po.supplier_name@), "Supplier name is required"@) + when(
        blank(po.po_number@),
        "PO number is required"@,
    ) + when(blank(po.created_by@), "Created by field is required"@) + when(
        blank(po.buyer_department@),
        "Buyer department is required"@,
    )
}

pub open spec fn item_errors(item: PurchaseOrderItem, position: nat) -> Seq<Seq<char>> {
    when(blank(item.item_code@), item_text(position, " is missing item code"@)) + when(
        blank(item.description@),
        item_text(position, " is missing description"@),
    ) + when(item.quantity == 0, item_text(position, " has zero quantity"@)) + when(
        item.unit_price <= 0,
        item_text(position, " has invalid unit price"@),
    )
}

/// Errors of the first `n` items, in order.
pub open spec fn items_errors(items: Seq<PurchaseOrderItem>, n: nat) -> Seq<Seq<char>>
    decreases n,
{
    if n == 0 || n > items.len() {
        Seq::empty()
    } else {
        items_errors(items, (n - 1) as nat) + item_errors(items[n - 1], n)
    }
}

/// Every error of `po`, in the order in which the rules are evaluated.
pub open spec fn error_texts(po: PurchaseOrder) -> Seq<Seq<char>> {
    field_errors(po) + if po.items@.len() == 0 {
        seq![no_items_text()]
    } else {
        items_errors(po.items@, po.items@.len())
    }
}

/// The exact product of quantity and unit price.
pub open spec fn expected_line_total(item: PurchaseOrderItem) -> int {
    item.quantity * item.unit_price
}

pub open spec fn line_mismatch(item: PurchaseOrderItem) -> bool {
    abs(item.line_total - expected_line_total(item)) > TOLERANCE
}

/// Text of an amount rounded to two fractional digits.
pub open spec fn amount_2dp(v: int) -> Seq<char> {
    cents_text(rounded_div(v, 100))
}

pub open spec fn mismatch_tail(expected: Seq<char>, got: Seq<char>) -> Seq<char> {
    "expected "@ + expected + ", got "@ + got
}

pub open spec fn line_warning(item: PurchaseOrderItem, position: nat) -> Seq<Seq<char>> {
    when(
        line_mismatch(item),
        item_text(
            position,
            " line total mismatch: "@ + mismatch_tail(
                amount_2dp(expected_line_total(item)),
                amount_2dp(item.line_total as int),
            ),
        ),
    )
}

/// Line-total warnings of the first `n` items, in order.
pub open spec fn line_warnings(items: Seq<PurchaseOrderItem>, n: nat) -> Seq<Seq<char>>
    decreases n,
{
    if n == 0 || n > items.len() {
        Seq::empty()
    } else {
        line_warnings(items, (n - 1) as nat) + line_warning(items[n - 1], n)
    }
}

/// The tax that the rate gives on the subtotal, times `AMOUNT_SCALE` squared.
pub open spec fn expected_tax_scaled(po: PurchaseOrder) -> int {
    po.sub_total * po.tax_rate
}

pub open spec fn subtotal_mismatch(po: PurchaseOrder) -> bool {
    abs(po.sub_total - total_of_lines(po.items@)) > TOLERANCE
}

pub open spec fn tax_mismatch(po: PurchaseOrder) -> bool {
    abs(po.tax * 10000 - expected_tax_scaled(po)) > TOLERANCE * 10000
}

pub open spec fn grand_total_mismatch(po: PurchaseOrder) -> bool {
    abs(po.grand_total - (po.sub_total + po.tax)) > TOLERANCE
}

pub open spec fn department_text(d: Seq<char>) -> Seq<char> {
    "Department '"@ + d + "' may not be authorized for purchases"@
}

pub open spec fn subtotal_text(po: PurchaseOrder) -> Seq<char> {
    "Subtotal mismatch: "@ + mismatch_tail(
        amount_2dp(total_of_lines(po.items@)),
        amount_2dp(po.sub_total as int),
    )
}

pub open spec fn tax_text(po: PurchaseOrder) -> Seq<char> {
    "Tax calculation mismatch: "@ + mismatch_tail(
        cents_text(rounded_div(expected_tax_scaled(po), 1_000_000)),
        amount_2dp(po.tax as int),
    )
}

pub open spec fn grand_total_text(po: PurchaseOrder) -> Seq<char> {
    "Grand total mismatch: "@ + mismatch_tail(
        amount_2dp(po.sub_total + po.tax),
        amount_2dp(po.grand_total as int),
    )
}

/// Every warning on the order as a whole, after the line-total warnings.
pub open spec fn order_warnings(po: PurchaseOrder) -> Seq<Seq<char>> {
    when(subtotal_mismatch(po), subtotal_text(po)) + when(tax_mismatch(po), tax_text(po)) + when(
        grand_total_mismatch(po),
        grand_total_text(po),
    ) + when(
        po.grand_total > HIGH_VALUE_THRESHOLD,
        "High value purchase order - may require additional approval"@,
    ) + when(
        po.tax_rate < 0 || po.tax_rate > MAX_USUAL_TAX_RATE,
        "Unusual tax rate detected"@,
    ) + when(
        !authorized_department(po.buyer_department@),
        department_text(po.buyer_department@),
    )
}

/// Every warning of `po`, in the order in which the rules are evaluated.
pub open spec fn warning_texts(po: PurchaseOrder) -> Seq<Seq<char>> {
    line_warnings(po.items@, po.items@.len()) + order_warnings(po)
}

/// Whether `s` is empty after trimming whitespace.
pub fn is_blank(s: &String) -> (r: bool)
    ensures
        r == blank(s@),
{
    let t = s.as_str();
    let n = t.unicode_len();
    let mut i: usize = 0;
    while i < n
        invariant
            n == s@.len(),
            t@ == s@,
            i <= n,
            forall|j: int| 0 <= j < i ==> is_space(#[trigger] s@[j]),
        decreases n - i,
    {
        let c = t.get_char(i);
        let space = ('\u{9}' <= c && c <= '\u{d}') || c == ' ' || c == '\u{85}' || c == '\u{a0}'
            || c == '\u{1680}' || ('\u{2000}' <= c && c <= '\u{200a}') || c == '\u{2028}'
            || c == '\u{2029}' || c == '\u{202f}' || c == '\u{205f}' || c == '\u{3000}';
        if !space {
            return false;
        }
        i = i + 1;
    }
    true
}

/// Whether `d` names one of the departments allowed to purchase (exact match).
pub fn is_authorized_department(d: &String) -> (r: bool)
    ensures
        r == authorized_department(d@),
{
    let names = ["Marketing", "Sales", "IT", "Finance", "Operations", "HR"];
    let mut k: usize = 0;
    while k < 6
        invariant
            k <= 6,
            names@ == seq!["Marketing", "Sales", "IT", "Finance", "Operations", "HR"],
            forall|j: int| 0 <= j < k ==> d@ != (#[trigger] names@[j])@,
        decreases 6 - k,
    {
        let candidate = String::from_str(names[k]);
        if *d == candidate {
            return true;
        }
        k = k + 1;
    }
    assert(!authorized_department(d@)) by {
        assert(d@ != names@[0]@);
        assert(d@ != names@[1]@);
        assert(d@ != names@[2]@);
        assert(d@ != names@[3]@);
        assert(d@ != names@[4]@);
        assert(d@ != names@[5]@);
    }
    false
}

fn push_when(v: &mut Vec<String>, b: bool, m: String)
    ensures
        texts(final(v)@) == texts(old(v)@) + when(b, m@),
{
    if b {
        v.push(m);
        assert(texts(final(v)@) =~= texts(old(v)@) + when(b, m@));
    } else {
        assert(texts(final(v)@) =~= texts(old(v)@) + when(b, m@));
    }
}

fn message(text: &str) -> (r: String)
    ensures
        r@ == text@,
{
    String::from_str(text)
}

fn item_message(position: usize, tail: &str) -> (r: String)
    ensures
        r@ == item_text(position as nat, tail@),
{
    let mut s = String::from_str("Item ");
    push_nat(&mut s, position as u128);
    s.append(tail);
    s
}

fn mul_wide(a: i64, b: i64) -> (r: i128)
    ensures
        r == a * b,
        -0x4000_0000_0000_0000_0000_0000_0000_0000 <= r <= 0x4000_0000_0000_0000_0000_0000_0000_0000,
{
    proof {
        assert(-0x4000_0000_0000_0000_0000_0000_0000_0000 <= a * b
            <= 0x4000_0000_0000_0000_0000_0000_0000_0000) by (nonlinear_arith)
            requires
                -0x8000_0000_0000_0000 <= a <= 0x7fff_ffff_ffff_ffff,
                -0x8000_0000_0000_0000 <= b <= 0x7fff_ffff_ffff_ffff,
        ;
    }
    (a as i128) * (b as i128)
}

/// Renders the expected and declared amounts rounded to hundredths;
/// `expected` is counted in units of `1 / expected_unit` hundredths.
fn mismatch_text(head: &str, expected: i128, expected_unit: u64, got: i64) -> (r: String)
    requires
        expected_unit > 0,
        expected > i128::MIN,
    ensures
        r@ == head@ + mismatch_tail(
            cents_text(rounded_div(expected as int, expected_unit as nat)),
            amount_2dp(got as int),
        ),
{
    let e = round_div(expected, expected_unit);
    let g = round_div(got as i128, 100);
    let mut s = String::from_str(head);
    s.append("expected ");
    push_cents(&mut s, e);
    s.append(", got ");
    push_cents(&mut s, g);
    assert(s@ =~= head@ + mismatch_tail(cents_text(e as int), cents_text(g as int)));
    s
}

/// Sum of the declared line totals.
fn sum_line_totals(items: &Vec<PurchaseOrderItem>) -> (r: i128)
    ensures
        r == total_of_lines(items@),
        -0x7fff_ffff_ffff_ffff_8000_0000_0000_0000 <= r <= 0x7fff_ffff_ffff_ffff_8000_0000_0000_0000,
{
    let mut acc: i128 = 0;
    let mut i: usize = 0;
    while i < items.len()
        invariant
            i <= items@.len(),
            acc == line_total_sum(items@, i as nat),
        decreases items@.len() - i,
    {
        proof {
            lemma_line_total_sum_bounds(items@, (i + 1) as nat);
        }
        acc = acc + items[i].line_total as i128;
        i = i + 1;
    }
    proof {
        lemma_line_total_sum_bounds(items@, items@.len());
    }
    acc
}

fn check_item(errors: &mut Vec<String>, item: &PurchaseOrderItem, position: usize)
    ensures
        texts(final(errors)@) == texts(old(errors)@) + item_errors(*item, position as nat),
{
    let b = is_blank(&item.item_code);
    push_when(errors, b, item_message(position, " is missing item code"));
    let b = is_blank(&item.description);
    push_when(errors, b, item_message(position, " is missing description"));
    push_when(errors, item.quantity == 0, item_message(position, " has zero quantity"));
    push_when(errors, item.unit_price <= 0, item_message(position, " has invalid unit price"));
    assert(texts(final(errors)@) =~= texts(old(errors)@) + item_errors(*item, position as nat));
}

fn check_line_total(warnings: &mut Vec<String>, item: &PurchaseOrderItem, position: usize)
    ensures
        texts(final(warnings)@) == texts(old(warnings)@) + line_warning(*item, position as nat),
{
    let expected = mul_wide(item.quantity as i64, item.unit_price);
    let diff = item.line_total as i128 - expected;
    let b = diff > TOLERANCE || diff < -TOLERANCE;
    let m = if b {
        let mut m = item_message(position, "");
        let tail = mismatch_text(" line total mismatch: ", expected, 100, item.line_total);
        m.append(tail.as_str());
        assert(m@ =~= item_text(
            position as nat,
            " line total mismatch: "@ + mismatch_tail(
                amount_2dp(expected_line_total(*item)),
                amount_2dp(item.line_total as int),
            ),
        )) by {
            reveal_strlit("");
        }
        m
    } else {
        String::new()
    };
    push_when(warnings, b, m);
}

fn check_fields(errors: &mut Vec<String>, po: &PurchaseOrder)
    ensures
        texts(final(errors)@) == texts(old(errors)@) + field_errors(*po),
{
    let b = is_blank(&po.supplier_name);
    push_when(errors, b, message("Supplier name is required"));
    let b = is_blank(&po.po_number);
    push_when(errors, b, message("PO number is required"));
    let b = is_blank(&po.created_by);
    push_when(errors, b, message("Created by field is required"));
    let b = is_blank(&po.buyer_department);
    push_when(errors, b, message("Buyer department is required"));
    assert(texts(final(errors)@) =~= texts(old(errors)@) + field_errors(*po));
}

fn check_items(errors: &mut Vec<String>, warnings: &mut Vec<String>, items: &Vec<PurchaseOrderItem>)
    ensures
        texts(final(errors)@) == texts(old(errors)@) + items_errors(items@, items@.len()),
        texts(final(warnings)@) == texts(old(warnings)@) + line_warnings(items@, items@.len()),
{
    let ghost e0 = texts(errors@);
    let ghost w0 = texts(warnings@);
    assert(texts(errors@) =~= e0 + items_errors(items@, 0));
    assert(texts(warnings@) =~= w0 + line_warnings(items@, 0));
    let mut i: usize = 0;
    while i < items.len()
        invariant
            i <= items@.len(),
            texts(errors@) == e0 + items_errors(items@, i as nat),
            texts(warnings@) == w0 + line_warnings(items@, i as nat),
        decreases items@.len() - i,
    {
        let item = &items[i];
        let position = i + 1;
        check_item(errors, item, position);
        check_line_total(warnings, item, position);
        proof {
            assert(items_errors(items@, position as nat) == items_errors(items@, i as nat)
                + item_errors(items@[i as int], position as nat));
            assert(line_warnings(items@, position as nat) == line_warnings(items@, i as nat)
                + line_warning(items@[i as int], position as nat));
            assert(texts(errors@) =~= e0 + items_errors(items@, position as nat));
            assert(texts(warnings@) =~= w0 + line_warnings(items@, position as nat));
        }
        i = i + 1;
    }
}

fn check_totals(warnings: &mut Vec<String>, po: &PurchaseOrder)
    ensures
        texts(final(warnings)@) == texts(old(warnings)@) + when(subtotal_mismatch(*po), subtotal_text(*po))
            + when(tax_mismatch(*po), tax_text(*po)) + when(
            grand_total_mismatch(*po),
            grand_total_text(*po),
        ),
{
    let ghost w0 = texts(warnings@);
    let calculated_subtotal = sum_line_totals(&po.items);
    let diff = po.sub_total as i128 - calculated_subtotal;
    let b = diff > TOLERANCE || diff < -TOLERANCE;
    let m = if b {
        mismatch_text("Subtotal mismatch: ", calculated_subtotal, 100, po.sub_total)
    } else {
        String::new()
    };
    push_when(warnings, b, m);
    let ghost w1 = texts(warnings@);
    assert(w1 == w0 + when(subtotal_mismatch(*po), subtotal_text(*po)));

    let calculated_tax = mul_wide(po.sub_total, po.tax_rate);
    let diff = (po.tax as i128) * 10000 - calculated_tax;
    let b = diff > TOLERANCE * 10000 || diff < -TOLERANCE * 10000;
    let m = if b {
        mismatch_text("Tax calculation mismatch: ", calculated_tax, 1_000_000, po.tax)
    } else {
        String::new()
    };
    push_when(warnings, b, m);
    let ghost w2 = texts(warnings@);
    assert(w2 == w1 + when(tax_mismatch(*po), tax_text(*po)));

    let calculated_grand_total = po.sub_total as i128 + po.tax as i128;
    let diff = po.grand_total as i128 - calculated_grand_total;
    let b = diff > TOLERANCE || diff < -TOLERANCE;
    let m = if b {
        mismatch_text("Grand total mismatch: ", calculated_grand_total, 100, po.grand_total)
    } else {
        String::new()
    };
    push_when(warnings, b, m);
}

fn check_policy(warnings: &mut Vec<String>, po: &PurchaseOrder)
    ensures
        texts(final(warnings)@) == texts(old(warnings)@) + when(
            po.grand_total > HIGH_VALUE_THRESHOLD,
            "High value purchase order - may require additional approval"@,
        ) + when(po.tax_rate < 0 || po.tax_rate > MAX_USUAL_TAX_RATE, "Unusual tax rate detected"@)
            + when(!authorized_department(po.buyer_department@), department_text(po.buyer_department@)),
{
    let b = po.grand_total > HIGH_VALUE_THRESHOLD;
    push_when(warnings, b, message("High value purchase order - may require additional approval"));
    let b = po.tax_rate < 0 || po.tax_rate > MAX_USUAL_TAX_RATE;
    push_when(warnings, b, message("Unusual tax rate detected"));
    let b = !is_authorized_department(&po.buyer_department);
    let m = if b {
        let mut m = String::from_str("Department '");
        m.append(po.buyer_department.as_str());
        m.append("' may not be authorized for purchases");
        m
    } else {
        String::new()
    };
    push_when(warnings, b, m);
}

/// Checks `po` against every rule and returns `(errors, warnings)`.
///
/// Errors: blank supplier name, PO number, creator or department; no items;
/// and, per item (numbered from 1), a blank code or description, a zero
/// quantity or a price that is not positive. Warnings: a line total, subtotal,
/// tax or grand total off by more than 0.01; a grand total above 10000; a tax
/// rate outside [0, 0.2]; a department outside the allow-list.
pub fn validate_purchase_order(po: &PurchaseOrder) -> (r: (Vec<String>, Vec<String>))
    ensures
        texts(r.0@) == error_texts(*po),
        texts(r.1@) == warning_texts(*po),
{
    let mut errors: Vec<String> = Vec::new();
    let mut warnings: Vec<String> = Vec::new();
    assert(texts(errors@) =~= Seq::empty());
    assert(texts(warnings@) =~= Seq::empty());
    check_fields(&mut errors, po);
    if po.items.len() == 0 {
        push_when(&mut errors, true, message("Purchase order must contain at least one item"));
        assert(line_warnings(po.items@, 0) =~= Seq::empty());
    } else {
        check_items(&mut errors, &mut warnings, &po.items);
    }
    check_totals(&mut warnings, po);
    check_policy(&mut warnings, po);
    assert(texts(errors@) =~= error_texts(*po));
    assert(texts(warnings@) =~= warning_texts(*po));
    (errors, warnings)
}

/// An order without items is always rejected with the "at least one item"
/// error, and its summed quantity is zero.
pub proof fn lemma_empty_order_rejected(po: PurchaseOrder)
    requires
        po.items@.len() == 0,
    ensures
        error_texts(po).contains(no_items_text()),
        total_quantity(po.items@) == 0,
{
    let e = error_texts(po);
    assert(e[field_errors(po).len() as int] == no_items_text());
}

pub open spec fn starts_with(m: Seq<char>, q: Seq<char>) -> bool {
    q.len() <= m.len() && m.subrange(0, q.len() as int) == q
}

/// Number of messages in `ws` that satisfy `f`.
pub open spec fn count_where(ws: Seq<Seq<char>>, f: spec_fn(Seq<char>) -> bool) -> nat
    decreases ws.len(),
{
    if ws.len() == 0 {
        0
    } else {
        count_where(ws.drop_last(), f) + if f(ws.last()) {
            1nat
        } else {
            0nat
        }
    }
}

/// Messages that report the line total of the item at `position`.
pub open spec fn names_line(position: nat) -> spec_fn(Seq<char>) -> bool {
    |m: Seq<char>| starts_with(m, item_text(position, " line total mismatch: "@))
}

/// Messages that question the department.
pub open spec fn names_department() -> spec_fn(Seq<char>) -> bool {
    |m: Seq<char>| starts_with(m, "Department '"@)
}

pub open spec fn is_digit(c: char) -> bool {
    '0' <= c && c <= '9'
}

proof fn lemma_count_concat(a: Seq<Seq<char>>, b: Seq<Seq<char>>, f: spec_fn(Seq<char>) -> bool)
    ensures
        count_where(a + b, f) == count_where(a, f) + count_where(b, f),
    decreases b.len(),
{
    if b.len() == 0 {
        assert(a + b =~= a);
    } else {
        lemma_count_concat(a, b.drop_last(), f);
        assert((a + b).drop_last() =~= a + b.drop_last());
    }
}

proof fn lemma_count_when(b: bool, m: Seq<char>, f: spec_fn(Seq<char>) -> bool)
    ensures
        count_where(when(b, m), f) == if b && f(m) {
            1nat
        } else {
            0nat
        },
{
    let e = Seq::<Seq<char>>::empty();
    assert(count_where(e, f) == 0);
    if b {
        assert(when(b, m).drop_last() =~= e);
        assert(when(b, m).last() == m);
    } else {
        assert(when(b, m) =~= e);
    }
}

proof fn lemma_digit_text(d: nat)
    requires
        d < 10,
    ensures
        digit_text(d).len() == 1,
        is_digit(digit_text(d)[0]),
        forall|e: nat| e < 10 && e != d ==> #[trigger] digit_text(e) != digit_text(d),
{
    reveal_strlit("0");
    reveal_strlit("1");
    reveal_strlit("2");
    reveal_strlit("3");
    reveal_strlit("4");
    reveal_strlit("5");
    reveal_strlit("6");
    reveal_strlit("7");
    reveal_strlit("8");
    reveal_strlit("9");
    assert forall|e: nat| e < 10 && e != d implies #[trigger] digit_text(e) != digit_text(d) by {
        assert(digit_text(e)[0] != digit_text(d)[0]);
    }
}

proof fn lemma_nat_text_digits(n: nat)
    ensures
        nat_text(n).len() >= 1,
        n >= 10 ==> nat_text(n).len() >= 2,
        forall|i: int| 0 <= i < nat_text(n).len() ==> is_digit(#[trigger] nat_text(n)[i]),
    decreases n,
{
    lemma_digit_text(n % 10);
    if n < 10 {
        lemma_digit_text(n);
    } else {
        lemma_nat_text_digits(n / 10);
        let a = nat_text(n / 10);
        assert forall|i: int| 0 <= i < nat_text(n).len() implies is_digit(#[trigger] nat_text(n)[i]) by {
            if i < a.len() {
                assert(nat_text(n)[i] == a[i]);
            } else {
                assert(nat_text(n)[i] == digit_text(n % 10)[0]);
            }
        }
    }
}

proof fn lemma_nat_text_injective(a: nat, b: nat)
    requires
        nat_text(a) == nat_text(b),
    ensures
        a == b,
    decreases a,
{
    lemma_nat_text_digits(a);
    lemma_nat_text_digits(b);
    if a < 10 && b < 10 {
        lemma_digit_text(a);
        lemma_digit_text(b);
    } else if a >= 10 && b >= 10 {
        let ta = nat_text(a);
        lemma_digit_text(a % 10);
        lemma_digit_text(b % 10);
        assert(nat_text(a / 10) =~= ta.drop_last());
        assert(nat_text(b / 10) =~= ta.drop_last());
        assert(digit_text(a % 10) =~= seq![ta.last()]);
        assert(digit_text(b % 10) =~= seq![ta.last()]);
        lemma_nat_text_injective(a / 10, b / 10);
    } else if a < 10 {
        lemma_digit_text(a);
    } else {
        lemma_digit_text(b);
    }
}

/// A line-total message for the item at `n` names position `p` exactly when
/// `n` is `p`.
proof fn lemma_line_notice(n: nat, p: nat, tail: Seq<char>)
    ensures
        names_line(p)(item_text(n, " line total mismatch: "@ + tail)) <==> n == p,
{
    reveal_strlit("Item ");
    reveal_strlit(" line total mismatch: ");
    let lit = " line total mismatch: "@;
    let m = item_text(n, lit + tail);
    let q = item_text(p, lit);
    assert(m =~= "Item "@ + nat_text(n) + lit + tail);
    if n == p {
        assert(m.subrange(0, q.len() as int) =~= q);
    } else if starts_with(m, q) {
        lemma_nat_text_digits(n);
        lemma_nat_text_digits(p);
        let ln = nat_text(n).len() as int;
        let lp = nat_text(p).len() as int;
        assert(m.subrange(0, q.len() as int) == q);
        if ln == lp {
            assert forall|i: int| 0 <= i < ln implies nat_text(n)[i] == nat_text(p)[i] by {
                assert(m[5 + i] == q[5 + i]);
            }
            assert(nat_text(n) =~= nat_text(p));
            lemma_nat_text_injective(n, p);
        } else if ln < lp {
            assert(m[5 + ln] == q[5 + ln]);
            assert(is_digit(nat_text(p)[ln]));
        } else {
            assert(m[5 + lp] == q[5 + lp]);
            assert(is_digit(nat_text(n)[lp]));
        }
    }
}

proof fn lemma_count_lines(items: Seq<PurchaseOrderItem>, n: nat, k: nat)
    requires
        n <= items.len(),
        k < items.len(),
    ensures
        count_where(line_warnings(items, n), names_line(k + 1)) == if k < n && line_mismatch(
            items[k as int],
        ) {
            1nat
        } else {
            0nat
        },
    decreases n,
{
    if n == 0 {
        assert(line_warnings(items, 0) =~= Seq::<Seq<char>>::empty());
    } else {
        lemma_count_lines(items, (n - 1) as nat, k);
        let item = items[n - 1];
        lemma_count_concat(line_warnings(items, (n - 1) as nat), line_warning(item, n), names_line(k + 1));
        let tail = mismatch_tail(
            amount_2dp(expected_line_total(item)),
            amount_2dp(item.line_total as int),
        );
        lemma_line_notice(n, k + 1, tail);
        lemma_count_when(line_mismatch(item), item_text(n, " line total mismatch: "@ + tail), names_line(k + 1));
    }
}

proof fn lemma_lines_not_department(items: Seq<PurchaseOrderItem>, n: nat)
    requires
        n <= items.len(),
    ensures
        count_where(line_warnings(items, n), names_department()) == 0,
    decreases n,
{
    reveal_strlit("Item ");
    reveal_strlit("Department '");
    if n == 0 {
        assert(line_warnings(items, 0) =~= Seq::<Seq<char>>::empty());
    } else {
        lemma_lines_not_department(items, (n - 1) as nat);
        let item = items[n - 1];
        lemma_count_concat(line_warnings(items, (n - 1) as nat), line_warning(item, n), names_department());
        let m = item_text(
            n,
            " line total mismatch: "@ + mismatch_tail(
                amount_2dp(expected_line_total(item)),
                amount_2dp(item.line_total as int),
            ),
        );
        assert(m[0] == 'I');
        if starts_with(m, "Department '"@) {
            assert(m.subrange(0, 12)[0] == m[0]);
        }
        lemma_count_when(line_mismatch(item), m, names_department());
    }
}

/// Counts of `f` over the warnings on the order as a whole, one rule at a time.
proof fn lemma_count_order(po: PurchaseOrder, f: spec_fn(Seq<char>) -> bool)
    ensures
        count_where(order_warnings(po), f) == (if subtotal_mismatch(po) && f(subtotal_text(po)) {
            1nat
        } else {
            0nat
        }) + (if tax_mismatch(po) && f(tax_text(po)) {
            1nat
        } else {
            0nat
        }) + (if grand_total_mismatch(po) && f(grand_total_text(po)) {
            1nat
        } else {
            0nat
        }) + (if po.grand_total > HIGH_VALUE_THRESHOLD && f(
            "High value purchase order - may require additional approval"@,
        ) {
            1nat
        } else {
            0nat
        }) + (if (po.tax_rate < 0 || po.tax_rate > MAX_USUAL_TAX_RATE) && f(
            "Unusual tax rate detected"@,
        ) {
            1nat
        } else {
            0nat
        }) + (if !authorized_department(po.buyer_department@) && f(
            department_text(po.buyer_department@),
        ) {
            1nat
        } else {
            0nat
        }),
{
    let w1 = when(subtotal_mismatch(po), subtotal_text(po));
    let w2 = when(tax_mismatch(po), tax_text(po));
    let w3 = when(grand_total_mismatch(po), grand_total_text(po));
    let w4 = when(
        po.grand_total > HIGH_VALUE_THRESHOLD,
        "High value purchase order - may require additional approval"@,
    );
    let w5 = when(po.tax_rate < 0 || po.tax_rate > MAX_USUAL_TAX_RATE, "Unusual tax rate detected"@);
    let w6 = when(!authorized_department(po.buyer_department@), department_text(po.buyer_department@));
    lemma_count_concat(w1, w2, f);
    lemma_count_concat(w1 + w2, w3, f);
    lemma_count_concat(w1 + w2 + w3, w4, f);
    lemma_count_concat(w1 + w2 + w3 + w4, w5, f);
    lemma_count_concat(w1 + w2 + w3 + w4 + w5, w6, f);
    lemma_count_when(subtotal_mismatch(po), subtotal_text(po), f);
    lemma_count_when(tax_mismatch(po), tax_text(po), f);
    lemma_count_when(grand_total_mismatch(po), grand_total_text(po), f);
    lemma_count_when(
        po.grand_total > HIGH_VALUE_THRESHOLD,
        "High value purchase order - may require additional approval"@,
        f,
    );
    lemma_count_when(po.tax_rate < 0 || po.tax_rate > MAX_USUAL_TAX_RATE, "Unusual tax rate detected"@, f);
    lemma_count_when(
        !authorized_department(po.buyer_department@),
        department_text(po.buyer_department@),
        f,
    );
}

/// A message starting with the character `c` is not selected by a prefix
/// test whose prefix starts with another character.
proof fn lemma_first_char_differs(m: Seq<char>, q: Seq<char>)
    requires
        m.len() > 0,
        q.len() > 0,
        m[0] != q[0],
    ensures
        !starts_with(m, q),
{
    if starts_with(m, q) {
        assert(m.subrange(0, q.len() as int)[0] == m[0]);
    }
}

/// The item at 1-based position `k + 1` gets exactly one warning naming it
/// when its line total is off by more than 0.01, and none otherwise.
pub proof fn lemma_line_warning_per_item(po: PurchaseOrder, k: nat)
    requires
        k < po.items@.len(),
    ensures
        count_where(warning_texts(po), names_line(k + 1)) == if line_mismatch(po.items@[k as int]) {
            1nat
        } else {
            0nat
        },
{
    let f = names_line(k + 1);
    let items = po.items@;
    lemma_count_concat(line_warnings(items, items.len()), order_warnings(po), f);
    lemma_count_lines(items, items.len(), k);
    lemma_count_order(po, f);
    reveal_strlit("Item ");
    reveal_strlit("Subtotal mismatch: ");
    reveal_strlit("Tax calculation mismatch: ");
    reveal_strlit("Grand total mismatch: ");
    reveal_strlit("High value purchase order - may require additional approval");
    reveal_strlit("Unusual tax rate detected");
    reveal_strlit("Department '");
    let q = item_text(k + 1, " line total mismatch: "@);
    assert(q[0] == 'I');
    lemma_first_char_differs(subtotal_text(po), q);
    lemma_first_char_differs(tax_text(po), q);
    lemma_first_char_differs(grand_total_text(po), q);
    lemma_first_char_differs("High value purchase order - may require additional approval"@, q);
    lemma_first_char_differs("Unusual tax rate detected"@, q);
    lemma_first_char_differs(department_text(po.buyer_department@), q);
}

/// A department that exactly matches an allowed name gets no department
/// warning; any other gets exactly one.
pub proof fn lemma_department_warning(po: PurchaseOrder)
    ensures
        count_where(warning_texts(po), names_department()) == if authorized_department(
            po.buyer_department@,
        ) {
            0nat
        } else {
            1nat
        },
{
    let f = names_department();
    let items = po.items@;
    lemma_count_concat(line_warnings(items, items.len()), order_warnings(po), f);
    lemma_lines_not_department(items, items.len());
    lemma_count_order(po, f);
    reveal_strlit("Subtotal mismatch: ");
    reveal_strlit("Tax calculation mismatch: ");
    reveal_strlit("Grand total mismatch: ");
    reveal_strlit("High value purchase order - may require additional approval");
    reveal_strlit("Unusual tax rate detected");
    reveal_strlit("Department '");
    let q = "Department '"@;
    lemma_first_char_differs(subtotal_text(po), q);
    lemma_first_char_differs(tax_text(po), q);
    lemma_first_char_differs(grand_total_text(po), q);
    lemma_first_char_differs("High value purchase order - may require additional approval"@, q);
    lemma_first_char_differs("Unusual tax rate detected"@, q);
    let d = department_text(po.buyer_department@);
    assert(d.subrange(0, q.len() as int) =~= q);
}

} // verus!
