//! The functional model of the tax computation.
//!
//! Everything here is specification code: ghost mirror images of the input,
//! breakdown-item and result records with mathematical integers in place of
//! the fixed-point i64 fields, and one spec function per computation step.
//! The executable engine in [`crate::tax_calculator`] is proved to return
//! exactly these values.
//!
//! Units are the fixed-point units of [`crate::arith`]: amounts in 1/100
//! krone, rates in 1/100 percent.

use vstd::prelude::*;
use crate::arith::{clamp0, scaled, effective_rate, AMOUNT_LIMIT, RATE_LIMIT};
use crate::tax_calculator::EntityType;
use vstd::math::min;

verus! {

// 2024 Norwegian tax rates and constants.
pub const PERSONAL_ALLOWANCE_2024: i64 = 6_910_000;  // 69 100 kr
pub const CORPORATE_TAX_RATE_2024: i64 = 2_200;  // 22 %
pub const NATIONAL_INSURANCE_RATE_2024: i64 = 770;  // 7.7 % for employees
pub const NATIONAL_INSURANCE_RATE_ENK_2024: i64 = 1_090;  // 10.9 % for sole proprietors
pub const INVESTMENT_TAX_RATE_2024: i64 = 3_784;  // 37.84 % effective rate on investments
pub const WEALTH_TAX_RATE_2024: i64 = 100;  // 1 % wealth tax
pub const WEALTH_TAX_THRESHOLD_2024: i64 = 200_000_000;  // 2 000 000 kr threshold
pub const RISK_FREE_RATE_2024: i64 = 172;  // 1.72 % risk-free return allowance
pub const EQUITY_VALUATION_RATE_2024: i64 = 8_000;  // 80 % valuation after the 20 % rebate
pub const CORPORATE_INCLUSION_RATE_2024: i64 = 300;  // 3 % of investment income is taxable
pub const CORPORATE_INVESTMENT_DISCLOSURE_RATE: i64 = 66;  // disclosed as 0.66 on the line item

// State-tax (statsskatt) brackets for 2024: ascending thresholds, marginal
// rates on the slice above each threshold.
pub const STATE_TAX_THRESHOLD_1: i64 = 20_805_000;  // 208 050 kr
pub const STATE_TAX_THRESHOLD_2: i64 = 29_285_000;  // 292 850 kr
pub const STATE_TAX_THRESHOLD_3: i64 = 67_000_000;  // 670 000 kr
pub const STATE_TAX_THRESHOLD_4: i64 = 93_790_000;  // 937 900 kr
pub const STATE_TAX_THRESHOLD_5: i64 = 135_000_000;  // 1 350 000 kr
pub const STATE_TAX_RATE_1: i64 = 170;  // 1.7 %
pub const STATE_TAX_RATE_2: i64 = 400;  // 4.0 %
pub const STATE_TAX_RATE_3: i64 = 1_360;  // 13.6 %
pub const STATE_TAX_RATE_4: i64 = 1_660;  // 16.6 %
pub const STATE_TAX_RATE_5: i64 = 1_760;  // 17.6 %

/// Ghost image of one breakdown line.
#[verifier::ext_equal]
pub struct TaxItemView {
    pub description: Seq<char>,
    pub amount: int,
    pub rate: Option<int>,
}

/// Ghost image of the input record.
#[verifier::ext_equal]
pub struct TaxInputView {
    pub gross_income: int,
    pub entity_type: EntityType,
    pub municipal_tax_rate: int,
    pub county_tax_rate: int,
    pub church_tax_rate: int,
    pub is_church_member: bool,
    pub allowable_deductions: int,
    pub dividend_income: int,
    pub capital_gains: int,
    pub investment_wealth: int,
    pub business_expenses: int,
}

/// Ghost image of the result record.
#[verifier::ext_equal]
pub struct TaxResultView {
    pub gross_income: int,
    pub personal_allowance: int,
    pub taxable_income: int,
    pub municipal_tax: int,
    pub county_tax: int,
    pub church_tax: int,
    pub state_tax: int,
    pub corporate_tax: int,
    pub national_insurance: int,
    pub investment_tax: int,
    pub wealth_tax: int,
    pub total_tax: int,
    pub net_income: int,
    pub effective_tax_rate: int,
    pub breakdown: Seq<TaxItemView>,
}

/// One breakdown line.
pub open spec fn line(description: Seq<char>, amount: int, rate: Option<int>) -> TaxItemView {
    TaxItemView { description: description, amount: amount, rate: rate }
}

/// The bounds under which every intermediate value of the engine fits in an
/// i64 (and every product of the fixed-point arithmetic in a u128).
pub open spec fn input_in_bounds(i: TaxInputView) -> bool {
    &&& -(AMOUNT_LIMIT as int) <= i.gross_income <= AMOUNT_LIMIT as int
    &&& -(AMOUNT_LIMIT as int) <= i.allowable_deductions <= AMOUNT_LIMIT as int
    &&& -(AMOUNT_LIMIT as int) <= i.dividend_income <= AMOUNT_LIMIT as int
    &&& -(AMOUNT_LIMIT as int) <= i.capital_gains <= AMOUNT_LIMIT as int
    &&& -(AMOUNT_LIMIT as int) <= i.investment_wealth <= AMOUNT_LIMIT as int
    &&& -(AMOUNT_LIMIT as int) <= i.business_expenses <= AMOUNT_LIMIT as int
    &&& -(RATE_LIMIT as int) <= i.municipal_tax_rate <= RATE_LIMIT as int
    &&& -(RATE_LIMIT as int) <= i.county_tax_rate <= RATE_LIMIT as int
    &&& -(RATE_LIMIT as int) <= i.church_tax_rate <= RATE_LIMIT as int
}

/// The sum of the amounts of a sequence of breakdown lines.
pub open spec fn sum_amounts(s: Seq<TaxItemView>) -> int
    decreases s.len(),
{
    if s.len() == 0 {
        0
    } else {
        s[0].amount + sum_amounts(s.drop_first())
    }
}

/// Nominal gross income plus dividend income plus capital gains: the "total
/// economic income" the result echoes and the effective rate divides by.
pub open spec fn total_economic_income(i: TaxInputView) -> int {
    i.gross_income + i.dividend_income + i.capital_gains
}

// ---------------------------------------------------------------------------
// Progressive state tax
// ---------------------------------------------------------------------------

/// Threshold of bracket `k` (0-based).
pub open spec fn bracket_lo(k: int) -> int {
    if k == 0 {
        STATE_TAX_THRESHOLD_1 as int
    } else if k == 1 {
        STATE_TAX_THRESHOLD_2 as int
    } else if k == 2 {
        STATE_TAX_THRESHOLD_3 as int
    } else if k == 3 {
        STATE_TAX_THRESHOLD_4 as int
    } else {
        STATE_TAX_THRESHOLD_5 as int
    }
}

/// Marginal rate of bracket `k`.
pub open spec fn bracket_rate(k: int) -> int {
    if k == 0 {
        STATE_TAX_RATE_1 as int
    } else if k == 1 {
        STATE_TAX_RATE_2 as int
    } else if k == 2 {
        STATE_TAX_RATE_3 as int
    } else if k == 3 {
        STATE_TAX_RATE_4 as int
    } else {
        STATE_TAX_RATE_5 as int
    }
}

/// Label of bracket `k`'s breakdown line: the threshold in whole kroner with
/// thousands separators.
pub open spec fn bracket_label(k: int) -> Seq<char> {
    if k == 0 {
        "Statsskatt (over 208 050 NOK)"@
    } else if k == 1 {
        "Statsskatt (over 292 850 NOK)"@
    } else if k == 2 {
        "Statsskatt (over 670 000 NOK)"@
    } else if k == 3 {
        "Statsskatt (over 937 900 NOK)"@
    } else {
        "Statsskatt (over 1 350 000 NOK)"@
    }
}

/// The income slice taxed in bracket `k`: capped by the next threshold,
/// unbounded in the last bracket.
pub open spec fn bracket_slice(income: int, k: int) -> int {
    if k < 4 {
        min(income - bracket_lo(k), bracket_lo(k + 1) - bracket_lo(k))
    } else {
        income - bracket_lo(k)
    }
}

/// Tax contributed by bracket `k`: zero unless the income exceeds the
/// bracket's threshold.
pub open spec fn bracket_tax(income: int, k: int) -> int {
    if income > bracket_lo(k) {
        scaled(bracket_slice(income, k), bracket_rate(k))
    } else {
        0
    }
}

/// Breakdown lines contributed by bracket `k`: one line if and only if the
/// income exceeds the bracket's threshold.
pub open spec fn bracket_items(income: int, k: int) -> Seq<TaxItemView> {
    if income > bracket_lo(k) {
        seq![line(bracket_label(k), bracket_tax(income, k), Some(bracket_rate(k)))]
    } else {
        Seq::empty()
    }
}

/// Total progressive state tax: the marginal-bracket sweep over all five
/// brackets.
pub open spec fn state_tax_model(income: int) -> int {
    bracket_tax(income, 0) + bracket_tax(income, 1) + bracket_tax(income, 2) + bracket_tax(
        income,
        3,
    ) + bracket_tax(income, 4)
}

/// Breakdown lines of the state-tax sweep, in bracket order.
pub open spec fn state_items_model(income: int) -> Seq<TaxItemView> {
    bracket_items(income, 0) + bracket_items(income, 1) + bracket_items(income, 2) + bracket_items(
        income,
        3,
    ) + bracket_items(income, 4)
}

// ---------------------------------------------------------------------------
// Investment tax
// ---------------------------------------------------------------------------

/// Dividend income plus capital gains.
pub open spec fn investment_income(i: TaxInputView) -> int {
    i.dividend_income + i.capital_gains
}

/// Risk-free return allowance: a share of the invested wealth.
pub open spec fn risk_free_allowance_model(i: TaxInputView) -> int {
    scaled(i.investment_wealth, RISK_FREE_RATE_2024 as int)
}

/// Investment income above the risk-free allowance, clamped at zero.
pub open spec fn taxable_investment_income(i: TaxInputView) -> int {
    clamp0(investment_income(i) - risk_free_allowance_model(i))
}

/// Personal investment tax: nothing is owed (and nothing reported) unless the
/// investment income is positive.
pub open spec fn investment_tax_model(i: TaxInputView) -> int {
    if investment_income(i) <= 0 {
        0
    } else {
        scaled(taxable_investment_income(i), INVESTMENT_TAX_RATE_2024 as int)
    }
}

/// Breakdown lines of the personal investment tax: the allowance deduction
/// when the allowance is positive, then the tax when it is positive.
pub open spec fn investment_items_model(i: TaxInputView) -> Seq<TaxItemView> {
    if investment_income(i) <= 0 {
        Seq::empty()
    } else {
        (if risk_free_allowance_model(i) > 0 {
            seq![
                line(
                    "Risikofritt fradrag"@,
                    -risk_free_allowance_model(i),
                    Some(RISK_FREE_RATE_2024 as int),
                ),
            ]
        } else {
            Seq::empty()
        }) + (if investment_tax_model(i) > 0 {
            seq![
                line(
                    "Skatt på aksjeutbytte og gevinst"@,
                    investment_tax_model(i),
                    Some(INVESTMENT_TAX_RATE_2024 as int),
                ),
            ]
        } else {
            Seq::empty()
        })
    }
}

/// The 3 % of investment income a corporation must include.
pub open spec fn corporate_taxable_portion(i: TaxInputView) -> int {
    scaled(investment_income(i), CORPORATE_INCLUSION_RATE_2024 as int)
}

/// Corporate investment tax: the included portion at the corporate rate.
pub open spec fn corporate_investment_tax_model(i: TaxInputView) -> int {
    if investment_income(i) <= 0 {
        0
    } else {
        scaled(corporate_taxable_portion(i), CORPORATE_TAX_RATE_2024 as int)
    }
}

/// Breakdown line of the corporate investment tax, when positive.
pub open spec fn corporate_investment_items_model(i: TaxInputView) -> Seq<TaxItemView> {
    if investment_income(i) <= 0 {
        Seq::empty()
    } else if corporate_investment_tax_model(i) > 0 {
        seq![
            line(
                "Deltakermodellen - 3% skattepliktig"@,
                corporate_investment_tax_model(i),
                Some(CORPORATE_INVESTMENT_DISCLOSURE_RATE as int),
            ),
        ]
    } else {
        Seq::empty()
    }
}

// ---------------------------------------------------------------------------
// Wealth tax
// ---------------------------------------------------------------------------

/// Wealth tax: only wealth above the threshold is taxed, at 80 % valuation,
/// at the wealth-tax rate.
pub open spec fn wealth_tax_model(i: TaxInputView) -> int {
    if i.investment_wealth <= WEALTH_TAX_THRESHOLD_2024 as int {
        0
    } else {
        scaled(
            scaled(
                i.investment_wealth - WEALTH_TAX_THRESHOLD_2024 as int,
                EQUITY_VALUATION_RATE_2024 as int,
            ),
            WEALTH_TAX_RATE_2024 as int,
        )
    }
}

/// Breakdown line of the wealth tax, when positive.
pub open spec fn wealth_items_model(i: TaxInputView) -> Seq<TaxItemView> {
    if i.investment_wealth <= WEALTH_TAX_THRESHOLD_2024 as int {
        Seq::empty()
    } else if wealth_tax_model(i) > 0 {
        seq![
            line(
                "Formueskatt (20% rabatt på aksjer)"@,
                wealth_tax_model(i),
                Some(WEALTH_TAX_RATE_2024 as int),
            ),
        ]
    } else {
        Seq::empty()
    }
}

// ---------------------------------------------------------------------------
// Individual strategy
// ---------------------------------------------------------------------------

/// Taxable income of an individual: gross income less the personal allowance
/// and the deductions, clamped at zero.
pub open spec fn individual_taxable_income(i: TaxInputView) -> int {
    clamp0(i.gross_income - PERSONAL_ALLOWANCE_2024 as int - i.allowable_deductions)
}

/// Breakdown of the individual strategy, in emission order.
pub open spec fn individual_items_model(i: TaxInputView) -> Seq<TaxItemView> {
    let taxable = individual_taxable_income(i);
    seq![line("Personfradrag"@, -(PERSONAL_ALLOWANCE_2024 as int), None)] + (
    if i.allowable_deductions > 0 {
        seq![line("Fradrag"@, -i.allowable_deductions, None)]
    } else {
        Seq::empty()
    }) + seq![
        line(
            "Kommuneskatt"@,
            scaled(taxable, i.municipal_tax_rate),
            Some(i.municipal_tax_rate),
        ),
    ] + seq![
        line("Fylkeskatt"@, scaled(taxable, i.county_tax_rate), Some(i.county_tax_rate)),
    ] + (if i.is_church_member {
        seq![
            line(
                "Kirkeskatt"@,
                scaled(taxable, i.church_tax_rate),
                Some(i.church_tax_rate),
            ),
        ]
    } else {
        Seq::empty()
    }) + state_items_model(i.gross_income) + seq![
        line(
            "Trygdeavgift"@,
            scaled(i.gross_income, NATIONAL_INSURANCE_RATE_2024 as int),
            Some(NATIONAL_INSURANCE_RATE_2024 as int),
        ),
    ] + investment_items_model(i) + wealth_items_model(i)
}

/// Result of the individual strategy.
pub open spec fn individual_result_model(i: TaxInputView) -> TaxResultView {
    let taxable = individual_taxable_income(i);
    let municipal = scaled(taxable, i.municipal_tax_rate);
    let county = scaled(taxable, i.county_tax_rate);
    let church = if i.is_church_member {
        scaled(taxable, i.church_tax_rate)
    } else {
        0
    };
    let state = state_tax_model(i.gross_income);
    let insurance = scaled(i.gross_income, NATIONAL_INSURANCE_RATE_2024 as int);
    let investment = investment_tax_model(i);
    let wealth = wealth_tax_model(i);
    let total = municipal + county + church + state + insurance + investment + wealth;
    let income = total_economic_income(i);
    TaxResultView {
        gross_income: income,
        personal_allowance: PERSONAL_ALLOWANCE_2024 as int,
        taxable_income: taxable,
        municipal_tax: municipal,
        county_tax: county,
        church_tax: church,
        state_tax: state,
        corporate_tax: 0,
        national_insurance: insurance,
        investment_tax: investment,
        wealth_tax: wealth,
        total_tax: total,
        net_income: income - total,
        effective_tax_rate: effective_rate(total, income),
        breakdown: individual_items_model(i),
    }
}

// ---------------------------------------------------------------------------
// Corporate strategy
// ---------------------------------------------------------------------------

/// Taxable income of a corporation: gross income less deductions, clamped at
/// zero (no personal allowance).
pub open spec fn corporate_taxable_income(i: TaxInputView) -> int {
    clamp0(i.gross_income - i.allowable_deductions)
}

/// Breakdown of the corporate strategy, in emission order.
pub open spec fn corporate_items_model(i: TaxInputView) -> Seq<TaxItemView> {
    (if i.allowable_deductions > 0 {
        seq![line("Fradrag"@, -i.allowable_deductions, None)]
    } else {
        Seq::empty()
    }) + seq![
        line(
            "Selskapsskatt"@,
            scaled(corporate_taxable_income(i), CORPORATE_TAX_RATE_2024 as int),
            Some(CORPORATE_TAX_RATE_2024 as int),
        ),
    ] + corporate_investment_items_model(i)
}

/// Result of the corporate strategy: only the corporate tax and the corporate
/// investment tax apply; every other category is zero.
pub open spec fn corporate_result_model(i: TaxInputView) -> TaxResultView {
    let taxable = corporate_taxable_income(i);
    let corporate = scaled(taxable, CORPORATE_TAX_RATE_2024 as int);
    let investment = corporate_investment_tax_model(i);
    let total = corporate + investment;
    let income = total_economic_income(i);
    TaxResultView {
        gross_income: income,
        personal_allowance: 0,
        taxable_income: taxable,
        municipal_tax: 0,
        county_tax: 0,
        church_tax: 0,
        state_tax: 0,
        corporate_tax: corporate,
        national_insurance: 0,
        investment_tax: investment,
        wealth_tax: 0,
        total_tax: total,
        net_income: income - total,
        effective_tax_rate: effective_rate(total, income),
        breakdown: corporate_items_model(i),
    }
}

// ---------------------------------------------------------------------------
// Sole-proprietorship (ENK) strategy
// ---------------------------------------------------------------------------

/// Business profit: gross income less business expenses, clamped at zero.
pub open spec fn business_profit(i: TaxInputView) -> int {
    clamp0(i.gross_income - i.business_expenses)
}

/// Taxable income of a sole proprietorship: business profit less deductions,
/// clamped at zero independently.
pub open spec fn enk_taxable_income(i: TaxInputView) -> int {
    clamp0(business_profit(i) - i.allowable_deductions)
}

/// The informational marker line every sole-proprietorship breakdown starts
/// with.
pub open spec fn enk_marker() -> TaxItemView {
    line("ENK - Enkeltpersonforetak"@, 0, None)
}

/// Breakdown of the sole-proprietorship strategy, in emission order.
pub open spec fn enk_items_model(i: TaxInputView) -> Seq<TaxItemView> {
    let taxable = enk_taxable_income(i);
    seq![enk_marker()] + (if i.business_expenses > 0 {
        seq![line("Driftskostnader"@, -i.business_expenses, None)]
    } else {
        Seq::empty()
    }) + (if i.allowable_deductions > 0 {
        seq![line("Fradrag"@, -i.allowable_deductions, None)]
    } else {
        Seq::empty()
    }) + seq![
        line(
            "Kommuneskatt"@,
            scaled(taxable, i.municipal_tax_rate),
            Some(i.municipal_tax_rate),
        ),
    ] + seq![
        line("Fylkeskatt"@, scaled(taxable, i.county_tax_rate), Some(i.county_tax_rate)),
    ] + (if i.is_church_member {
        seq![
            line(
                "Kirkeskatt"@,
                scaled(taxable, i.church_tax_rate),
                Some(i.church_tax_rate),
            ),
        ]
    } else {
        Seq::empty()
    }) + state_items_model(i.gross_income) + seq![
        line(
            "Trygdeavgift (ENK)"@,
            scaled(i.gross_income, NATIONAL_INSURANCE_RATE_ENK_2024 as int),
            Some(NATIONAL_INSURANCE_RATE_ENK_2024 as int),
        ),
    ] + investment_items_model(i) + wealth_items_model(i)
}

/// Result of the sole-proprietorship strategy.
pub open spec fn enk_result_model(i: TaxInputView) -> TaxResultView {
    let taxable = enk_taxable_income(i);
    let municipal = scaled(taxable, i.municipal_tax_rate);
    let county = scaled(taxable, i.county_tax_rate);
    let church = if i.is_church_member {
        scaled(taxable, i.church_tax_rate)
    } else {
        0
    };
    let state = state_tax_model(i.gross_income);
    let insurance = scaled(i.gross_income, NATIONAL_INSURANCE_RATE_ENK_2024 as int);
    let investment = investment_tax_model(i);
    let wealth = wealth_tax_model(i);
    let total = municipal + county + church + state + insurance + investment + wealth;
    let income = total_economic_income(i);
    TaxResultView {
        gross_income: income,
        personal_allowance: 0,
        taxable_income: taxable,
        municipal_tax: municipal,
        county_tax: county,
        church_tax: church,
        state_tax: state,
        corporate_tax: 0,
        national_insurance: insurance,
        investment_tax: investment,
        wealth_tax: wealth,
        total_tax: total,
        net_income: income - total,
        effective_tax_rate: effective_rate(total, income),
        breakdown: enk_items_model(i),
    }
}

// ---------------------------------------------------------------------------
// Partnership strategy and dispatch
// ---------------------------------------------------------------------------

/// The informational marker line a partnership breakdown is prefixed with.
pub open spec fn partnership_marker() -> TaxItemView {
    line("Deltakerlignet selskap - beskattes som personinntekt"@, 0, None)
}

/// Result of the partnership strategy: the individual result with the
/// pass-through marker prepended to the breakdown.
pub open spec fn partnership_result_model(i: TaxInputView) -> TaxResultView {
    let r = individual_result_model(i);
    TaxResultView { breakdown: seq![partnership_marker()] + r.breakdown, ..r }
}

/// The whole engine: dispatch on the entity type.
pub open spec fn calculate_tax_model(i: TaxInputView) -> TaxResultView {
    match i.entity_type {
        EntityType::Individual => individual_result_model(i),
        EntityType::Corporation => corporate_result_model(i),
        EntityType::Partnership => partnership_result_model(i),
        EntityType::SoleProprietorship => enk_result_model(i),
    }
}

} // verus!
