//! Exact money arithmetic for invoices.
//!
//! An hourly rate is held in cents and hours in hundredths of an hour, so
//! the amount of one line item — hours times rate — is an integer count of
//! myriadths (ten-thousandths) of a currency unit, and an invoice total is
//! the plain sum of those products.  Nothing is rounded until an amount is
//! written out, and then only the fraction beyond whole cents is dropped.

use vstd::prelude::*;

use crate::models::{InvoiceLineItem, InvoiceLineItemV, HOURS_CENTI_MAX, RATE_CENTS_MAX};
use crate::text::{push_char, push_two_digits, push_u128_dec, push_u64_dec, spec_dec_digits, spec_two_digits};

verus! {

/// What one line item bills, in myriadths: hours (hundredths) times rate
/// (cents).
pub open spec fn spec_line_amount(hours_centi: int, rate_cents: int) -> int {
    hours_centi * rate_cents
}

/// Executable twin of [`spec_line_amount`].
pub fn line_amount_myriadths(hours_centi: u64, rate_cents: u64) -> (r: u64)
    requires
        hours_centi <= HOURS_CENTI_MAX,
        rate_cents <= RATE_CENTS_MAX,
    ensures
        r as int == spec_line_amount(hours_centi as int, rate_cents as int),
        r <= 10_000_000_000_000_000,
{
    proof {
        assert((hours_centi as int) * (rate_cents as int) <= 10_000_000_000_000_000int)
            by (nonlinear_arith)
            requires
                hours_centi <= 100_000_000,
                rate_cents <= 100_000_000,
        ;
        assert((hours_centi as int) * (rate_cents as int) >= 0) by (nonlinear_arith)
            requires
                hours_centi >= 0,
                rate_cents >= 0,
        ;
    }
    hours_centi * rate_cents
}

/// The invoice total in myriadths: the sum of every line item's hours
/// times the invoice's rate.
pub open spec fn spec_invoice_total(items: Seq<InvoiceLineItemV>, rate_cents: int) -> int
    decreases items.len(),
{
    if items.len() == 0 {
        0
    } else {
        spec_invoice_total(items.drop_last(), rate_cents) + spec_line_amount(
            items.last().hours_centi,
            rate_cents,
        )
    }
}

/// A total of bounded line items is bounded by count times the largest
/// line amount.
pub proof fn lemma_invoice_total_bound(items: Seq<InvoiceLineItemV>, rate_cents: int)
    requires
        0 <= rate_cents <= RATE_CENTS_MAX,
        forall|i: int| 0 <= i < items.len() ==> (#[trigger] items[i]).hours_centi
            <= HOURS_CENTI_MAX,
        forall|i: int| 0 <= i < items.len() ==> (#[trigger] items[i]).hours_centi >= 0,
    ensures
        0 <= spec_invoice_total(items, rate_cents) <= items.len()
            * 10_000_000_000_000_000,
    decreases items.len(),
{
    if items.len() > 0 {
        lemma_invoice_total_bound(items.drop_last(), rate_cents);
        let h = items.last().hours_centi;
        assert(items[items.len() - 1] == items.last());
        assert(0 <= h * rate_cents <= 10_000_000_000_000_000) by (nonlinear_arith)
            requires
                0 <= h <= 100_000_000,
                0 <= rate_cents <= 100_000_000,
        ;
        assert((items.len() - 1) * 10_000_000_000_000_000 + 10_000_000_000_000_000
            == items.len() * 10_000_000_000_000_000) by (nonlinear_arith);
    }
}

/// Sums the line items of an invoice; exact, in myriadths.
pub fn invoice_total_myriadths(items: &Vec<InvoiceLineItem>, rate_cents: u64) -> (t: u128)
    requires
        rate_cents <= RATE_CENTS_MAX,
        forall|i: int| 0 <= i < items@.len() ==> (#[trigger] items@[i])@.hours_centi
            <= HOURS_CENTI_MAX,
    ensures
        t as int == spec_invoice_total(items.deep_view(), rate_cents as int),
{
    let mut total: u128 = 0;
    let mut i: usize = 0;
    let ghost itemsv = items.deep_view();
    proof {
        assert(itemsv.subrange(0, 0) =~= Seq::<InvoiceLineItemV>::empty());
        assert forall|j: int| 0 <= j < itemsv.len() implies 0 <= (
        #[trigger] itemsv[j]).hours_centi <= HOURS_CENTI_MAX by {
            assert(itemsv[j] == items@[j]@);
        }
    }
    while i < items.len()
        invariant
            i <= items@.len(),
            rate_cents <= RATE_CENTS_MAX,
            itemsv == items.deep_view(),
            itemsv.len() == items@.len(),
            forall|j: int| 0 <= j < itemsv.len() ==> 0 <= (#[trigger] itemsv[j]).hours_centi
                <= HOURS_CENTI_MAX,
            total as int == spec_invoice_total(itemsv.subrange(0, i as int), rate_cents as int),
        decreases items@.len() - i,
    {
        proof {
            lemma_invoice_total_bound(itemsv.subrange(0, i as int), rate_cents as int);
            assert((i as int) * 10_000_000_000_000_000 <= 0xffff_ffff_ffff_ffff
                * 10_000_000_000_000_000int) by (nonlinear_arith)
                requires
                    0 <= i as int <= 0xffff_ffff_ffff_ffff,
            ;
            assert(itemsv.subrange(0, i + 1).drop_last() =~= itemsv.subrange(0, i as int));
            assert(itemsv.subrange(0, i + 1).last() == itemsv[i as int]);
            assert(itemsv[i as int] == items@[i as int]@);
        }
        let amount = line_amount_myriadths(items[i].hours_centi, rate_cents);
        total = total + (amount as u128);
        i = i + 1;
    }
    proof {
        assert(itemsv.subrange(0, itemsv.len() as int) =~= itemsv);
    }
    total
}

/// The law behind adding a position to an invoice: the total grows by
/// exactly the new item's hours times the rate.
pub proof fn lemma_total_after_add(
    items: Seq<InvoiceLineItemV>,
    item: InvoiceLineItemV,
    rate_cents: int,
)
    ensures
        spec_invoice_total(items.push(item), rate_cents) == spec_invoice_total(
            items,
            rate_cents,
        ) + spec_line_amount(item.hours_centi, rate_cents),
{
    assert(items.push(item).drop_last() =~= items);
    assert(items.push(item).last() == item);
}

/// An amount in myriadths written as whole units, a dot and two cent
/// digits; fraction beyond cents is dropped.
pub open spec fn spec_money_string(t: int) -> Seq<char> {
    spec_dec_digits(t / 10000) + seq!['.'] + spec_two_digits((t / 100) % 100)
}

/// Writes an amount of myriadths as money text; see [`spec_money_string`].
pub fn format_money_myriadths(t: u128) -> (s: String)
    ensures
        s@ == spec_money_string(t as int),
{
    let mut s = String::new();
    push_u128_dec(&mut s, t / 10000);
    push_char(&mut s, '.');
    push_two_digits(&mut s, ((t / 100) % 100) as u32);
    proof {
        assert(s@ =~= spec_money_string(t as int));
    }
    s
}

/// An amount in whole cents written as money text.
pub open spec fn spec_cents_string(c: int) -> Seq<char> {
    spec_dec_digits(c / 100) + seq!['.'] + spec_two_digits(c % 100)
}

/// Writes an amount of cents as money text; see [`spec_cents_string`].
pub fn format_cents(c: u64) -> (s: String)
    ensures
        s@ == spec_cents_string(c as int),
{
    let mut s = String::new();
    push_u64_dec(&mut s, c / 100);
    push_char(&mut s, '.');
    push_two_digits(&mut s, (c % 100) as u32);
    proof {
        assert(s@ =~= spec_cents_string(c as int));
    }
    s
}

} // verus!
