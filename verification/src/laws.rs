//! General laws of the engine, stated over the functional model in
//! [`crate::model`] and proved for every input. Since every executable
//! function is proved equal to its model, each law carries over to the
//! executable engine.

use vstd::prelude::*;
use crate::model::{
    bracket_items, bracket_lo, bracket_tax, calculate_tax_model, individual_result_model, partnership_marker,
    partnership_result_model, state_items_model, state_tax_model, sum_amounts,
    total_economic_income, TaxInputView, TaxItemView,
};
use crate::tax_calculator::EntityType;

verus! {

/// The total tax of every result is exactly the sum of the per-category
/// totals, the categories that do not apply to the entity type are exactly
/// zero (present, never absent), and net income is total economic income
/// minus the total tax.
pub proof fn lemma_total_tax_is_sum_of_categories(i: TaxInputView)
    ensures
        ({
            let r = calculate_tax_model(i);
            r.total_tax == r.municipal_tax + r.county_tax + r.church_tax + r.state_tax
                + r.corporate_tax + r.national_insurance + r.investment_tax + r.wealth_tax
        }),
        ({
            let r = calculate_tax_model(i);
            r.net_income == r.gross_income - r.total_tax
        }),
        i.entity_type != EntityType::Corporation ==> calculate_tax_model(i).corporate_tax == 0,
        i.entity_type == EntityType::Corporation ==> ({
            let r = calculate_tax_model(i);
            &&& r.personal_allowance == 0
            &&& r.municipal_tax == 0
            &&& r.county_tax == 0
            &&& r.church_tax == 0
            &&& r.state_tax == 0
            &&& r.national_insurance == 0
            &&& r.wealth_tax == 0
        }),
        !i.is_church_member ==> calculate_tax_model(i).church_tax == 0,
{
}

/// Whenever the total economic income (gross income plus dividend income
/// plus capital gains) is zero, the reported effective tax rate is zero.
pub proof fn lemma_zero_income_zero_rate(i: TaxInputView)
    requires
        total_economic_income(i) == 0,
    ensures
        calculate_tax_model(i).effective_tax_rate == 0,
{
}

/// Concatenation splits an amount sum.
proof fn lemma_sum_amounts_concat(a: Seq<TaxItemView>, b: Seq<TaxItemView>)
    ensures
        sum_amounts(a + b) == sum_amounts(a) + sum_amounts(b),
    decreases a.len(),
{
    if a.len() == 0 {
        assert(a + b =~= b);
    } else {
        assert((a + b).drop_first() =~= a.drop_first() + b);
        lemma_sum_amounts_concat(a.drop_first(), b);
    }
}

/// A single bracket's line amounts sum to that bracket's tax.
proof fn lemma_sum_amounts_bracket(income: int, k: int)
    ensures
        sum_amounts(bracket_items(income, k)) == bracket_tax(income, k),
{
    if income > bracket_lo(k) {
        let s = bracket_items(income, k);
        assert(s.drop_first() =~= Seq::<TaxItemView>::empty());
        assert(sum_amounts(s) == s[0].amount + sum_amounts(s.drop_first()));
    }
}

/// The state-tax total is exactly the sum of the amounts on the state-tax
/// breakdown lines, and a bracket contributes a line if and only if the
/// income exceeds its threshold.
pub proof fn lemma_state_tax_matches_items(income: int)
    ensures
        state_tax_model(income) == sum_amounts(state_items_model(income)),
        forall|k: int|
            0 <= k < 5 ==> ((income > bracket_lo(k)) == (bracket_items(income, k).len() == 1)),
{
    let b0 = bracket_items(income, 0);
    let b1 = bracket_items(income, 1);
    let b2 = bracket_items(income, 2);
    let b3 = bracket_items(income, 3);
    let b4 = bracket_items(income, 4);
    lemma_sum_amounts_concat(b0 + b1 + b2 + b3, b4);
    lemma_sum_amounts_concat(b0 + b1 + b2, b3);
    lemma_sum_amounts_concat(b0 + b1, b2);
    lemma_sum_amounts_concat(b0, b1);
    lemma_sum_amounts_bracket(income, 0);
    lemma_sum_amounts_bracket(income, 1);
    lemma_sum_amounts_bracket(income, 2);
    lemma_sum_amounts_bracket(income, 3);
    lemma_sum_amounts_bracket(income, 4);
}

/// A partnership is taxed exactly as an individual: its breakdown is the
/// individual breakdown with the informational pass-through marker as
/// element 0, and every total of the two results is identical.
pub proof fn lemma_partnership_matches_individual(i: TaxInputView)
    ensures
        ({
            let p = partnership_result_model(i);
            let ind = individual_result_model(i);
            &&& p.breakdown.len() == ind.breakdown.len() + 1
            &&& p.breakdown[0] == partnership_marker()
            &&& p.breakdown.skip(1) == ind.breakdown
            &&& p.gross_income == ind.gross_income
            &&& p.personal_allowance == ind.personal_allowance
            &&& p.taxable_income == ind.taxable_income
            &&& p.municipal_tax == ind.municipal_tax
            &&& p.county_tax == ind.county_tax
            &&& p.church_tax == ind.church_tax
            &&& p.state_tax == ind.state_tax
            &&& p.corporate_tax == ind.corporate_tax
            &&& p.national_insurance == ind.national_insurance
            &&& p.investment_tax == ind.investment_tax
            &&& p.wealth_tax == ind.wealth_tax
            &&& p.total_tax == ind.total_tax
            &&& p.net_income == ind.net_income
            &&& p.effective_tax_rate == ind.effective_tax_rate
        }),
{
    assert(partnership_result_model(i).breakdown.skip(1) =~= individual_result_model(i).breakdown);
}

} // verus!
