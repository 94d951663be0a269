//! The executable tax engine: input, breakdown-item and result records, and
//! the calculator with one strategy per legal entity type.
//!
//! Monetary fields are i64 counts of 1/100 krone; rate fields are i64 counts
//! of 1/100 percent (so 10.0 percent is stored as 1_000). The effective tax
//! rate is an i128 in the same 1/100-percent unit, since a tiny income under a
//! huge tax can push the ratio past the i64 range.
//!
//! Every function is proved to return exactly the value of its counterpart in
//! [`crate::model`].

use vstd::prelude::*;
use vstd::math::abs;
use crate::arith::{
    apply_rate, clamp_to_zero, compute_effective_rate, lemma_scaled_bound, lemma_scaled_nonneg,
    scaled, AMOUNT_LIMIT, RATE_LIMIT, TAX_LIMIT,
};
use crate::currency::{currency_display, format_magnitude};
use crate::model::{
    bracket_items, bracket_tax, business_profit, calculate_tax_model,
    corporate_investment_items_model, corporate_investment_tax_model, corporate_items_model,
    corporate_result_model, corporate_taxable_income, enk_items_model, enk_marker,
    enk_result_model, enk_taxable_income, individual_items_model, individual_result_model,
    individual_taxable_income, input_in_bounds, investment_items_model, investment_tax_model,
    line, partnership_marker, partnership_result_model, state_items_model, state_tax_model,
    wealth_items_model, wealth_tax_model, TaxInputView, TaxItemView, TaxResultView,
    CORPORATE_INCLUSION_RATE_2024, CORPORATE_INVESTMENT_DISCLOSURE_RATE, CORPORATE_TAX_RATE_2024,
    EQUITY_VALUATION_RATE_2024, INVESTMENT_TAX_RATE_2024, NATIONAL_INSURANCE_RATE_2024,
    NATIONAL_INSURANCE_RATE_ENK_2024, PERSONAL_ALLOWANCE_2024, RISK_FREE_RATE_2024,
    STATE_TAX_RATE_1, STATE_TAX_RATE_2, STATE_TAX_RATE_3, STATE_TAX_RATE_4, STATE_TAX_RATE_5,
    STATE_TAX_THRESHOLD_1, STATE_TAX_THRESHOLD_2, STATE_TAX_THRESHOLD_3, STATE_TAX_THRESHOLD_4,
    STATE_TAX_THRESHOLD_5, WEALTH_TAX_RATE_2024, WEALTH_TAX_THRESHOLD_2024,
};

verus! {

/// Legal/tax status of the filer; selects the computation strategy.
#[derive(Clone, Copy, Debug, PartialEq, Eq, Structural)]
pub enum EntityType {
    Individual,
    Corporation,
    Partnership,
    SoleProprietorship,
}

/// Immutable input record. A fresh instance is built per computation.
#[derive(Clone, Debug)]
pub struct TaxCalculationInput {
    pub gross_income: i64,
    pub entity_type: EntityType,
    pub municipal_tax_rate: i64,
    pub county_tax_rate: i64,
    pub church_tax_rate: i64,
    pub is_church_member: bool,
    pub allowable_deductions: i64,
    pub dividend_income: i64,
    pub capital_gains: i64,
    pub investment_wealth: i64,
    pub business_expenses: i64,
}

impl View for TaxCalculationInput {
    type V = TaxInputView;

    open spec fn view(&self) -> TaxInputView {
        TaxInputView {
            gross_income: self.gross_income as int,
            entity_type: self.entity_type,
            municipal_tax_rate: self.municipal_tax_rate as int,
            county_tax_rate: self.county_tax_rate as int,
            church_tax_rate: self.church_tax_rate as int,
            is_church_member: self.is_church_member,
            allowable_deductions: self.allowable_deductions as int,
            dividend_income: self.dividend_income as int,
            capital_gains: self.capital_gains as int,
            investment_wealth: self.investment_wealth as int,
            business_expenses: self.business_expenses as int,
        }
    }
}

/// One ordered line of the result breakdown: a label, a signed amount
/// (negative = deduction, positive = tax owed, zero = informational marker)
/// and an optional disclosure rate.
#[derive(Clone, Debug, PartialEq)]
pub struct TaxBreakdownItem {
    pub description: String,
    pub amount: i64,
    pub rate: Option<i64>,
}

impl View for TaxBreakdownItem {
    type V = TaxItemView;

    open spec fn view(&self) -> TaxItemView {
        TaxItemView {
            description: self.description@,
            amount: self.amount as int,
            rate: match self.rate {
                Some(r) => Some(r as int),
                None => None,
            },
        }
    }
}

/// Immutable result record: aggregate totals per tax category plus the
/// ordered breakdown. Categories that do not apply to the entity type are
/// zero, never absent.
#[derive(Clone, Debug, PartialEq)]
pub struct TaxCalculationResult {
    pub gross_income: i64,
    pub personal_allowance: i64,
    pub taxable_income: i64,
    pub municipal_tax: i64,
    pub county_tax: i64,
    pub church_tax: i64,
    pub state_tax: i64,
    pub corporate_tax: i64,
    pub national_insurance: i64,
    pub investment_tax: i64,
    pub wealth_tax: i64,
    pub total_tax: i64,
    pub net_income: i64,
    pub effective_tax_rate: i128,
    pub breakdown: Vec<TaxBreakdownItem>,
}

/// The ghost image of a sequence of breakdown items.
pub open spec fn items_view(s: Seq<TaxBreakdownItem>) -> Seq<TaxItemView> {
    s.map_values(|b: TaxBreakdownItem| b@)
}

impl View for TaxCalculationResult {
    type V = TaxResultView;

    open spec fn view(&self) -> TaxResultView {
        TaxResultView {
            gross_income: self.gross_income as int,
            personal_allowance: self.personal_allowance as int,
            taxable_income: self.taxable_income as int,
            municipal_tax: self.municipal_tax as int,
            county_tax: self.county_tax as int,
            church_tax: self.church_tax as int,
            state_tax: self.state_tax as int,
            corporate_tax: self.corporate_tax as int,
            national_insurance: self.national_insurance as int,
            investment_tax: self.investment_tax as int,
            wealth_tax: self.wealth_tax as int,
            total_tax: self.total_tax as int,
            net_income: self.net_income as int,
            effective_tax_rate: self.effective_tax_rate as int,
            breakdown: items_view(self.breakdown@),
        }
    }
}

/// The stateless calculator; every computation is an associated function.
pub struct NorwegianTaxCalculator;

impl NorwegianTaxCalculator {
    /// Wealth tax on investment wealth above the threshold, with a 20 %
    /// valuation rebate; appends its breakdown line when the tax is positive.
    pub fn calculate_wealth_tax(
        input: &TaxCalculationInput,
        breakdown: &mut Vec<TaxBreakdownItem>,
    ) -> (tax: i64)
        requires
            -AMOUNT_LIMIT <= input.investment_wealth <= AMOUNT_LIMIT,
        ensures
            tax == wealth_tax_model(input@),
            0 <= tax <= TAX_LIMIT,
            items_view(final(breakdown)@) == items_view(old(breakdown)@) + wealth_items_model(
                input@,
            ),
    {
        let total_wealth = input.investment_wealth;
        if total_wealth <= WEALTH_TAX_THRESHOLD_2024 {
            proof {
                assert(items_view(breakdown@) =~= items_view(breakdown@) + wealth_items_model(
                    input@,
                ));
            }
            return 0;
        }
        let taxable_wealth = total_wealth - WEALTH_TAX_THRESHOLD_2024;
        let discounted_wealth = apply_rate(taxable_wealth, EQUITY_VALUATION_RATE_2024);
        proof {
            lemma_scaled_bound(
                taxable_wealth as int,
                EQUITY_VALUATION_RATE_2024 as int,
                AMOUNT_LIMIT as int,
                EQUITY_VALUATION_RATE_2024 as int,
            );
            lemma_scaled_nonneg(taxable_wealth as int, EQUITY_VALUATION_RATE_2024 as int);
        }
        let wealth_tax = apply_rate(discounted_wealth, WEALTH_TAX_RATE_2024);
        proof {
            lemma_scaled_nonneg(discounted_wealth as int, WEALTH_TAX_RATE_2024 as int);
            assert(wealth_tax == wealth_tax_model(input@));
        }
        if wealth_tax > 0 {
            breakdown.push(
                TaxBreakdownItem {
                    description: "Formueskatt (20% rabatt på aksjer)".to_owned(),
                    amount: wealth_tax,
                    rate: Some(WEALTH_TAX_RATE_2024),
                },
            );
        }
        proof {
            assert(items_view(breakdown@) =~= items_view(old(breakdown)@) + wealth_items_model(
                input@,
            ));
        }
        wealth_tax
    }

    /// Corporate investment tax: 3 % of the investment income is taxable at
    /// the corporate rate; appends its breakdown line when the tax is
    /// positive.
    pub fn calculate_corporate_investment_tax(
        input: &TaxCalculationInput,
        breakdown: &mut Vec<TaxBreakdownItem>,
    ) -> (tax: i64)
        requires
            -AMOUNT_LIMIT <= input.dividend_income <= AMOUNT_LIMIT,
            -AMOUNT_LIMIT <= input.capital_gains <= AMOUNT_LIMIT,
        ensures
            tax == corporate_investment_tax_model(input@),
            0 <= tax <= TAX_LIMIT,
            items_view(final(breakdown)@) == items_view(old(breakdown)@)
                + corporate_investment_items_model(input@),
    {
        let total_investment_income = input.dividend_income + input.capital_gains;
        if total_investment_income <= 0 {
            proof {
                assert(items_view(breakdown@) =~= items_view(breakdown@)
                    + corporate_investment_items_model(input@));
            }
            return 0;
        }
        let taxable_portion = apply_rate(total_investment_income, CORPORATE_INCLUSION_RATE_2024);
        proof {
            lemma_scaled_bound(
                total_investment_income as int,
                CORPORATE_INCLUSION_RATE_2024 as int,
                2 * AMOUNT_LIMIT as int,
                CORPORATE_INCLUSION_RATE_2024 as int,
            );
            lemma_scaled_nonneg(total_investment_income as int, CORPORATE_INCLUSION_RATE_2024 as int);
        }
        let investment_tax = apply_rate(taxable_portion, CORPORATE_TAX_RATE_2024);
        proof {
            lemma_scaled_nonneg(taxable_portion as int, CORPORATE_TAX_RATE_2024 as int);
            assert(investment_tax == corporate_investment_tax_model(input@));
        }
        if investment_tax > 0 {
            breakdown.push(
                TaxBreakdownItem {
                    description: "Deltakermodellen - 3% skattepliktig".to_owned(),
                    amount: investment_tax,
                    rate: Some(CORPORATE_INVESTMENT_DISCLOSURE_RATE),
                },
            );
        }
        proof {
            assert(items_view(breakdown@) =~= items_view(old(breakdown)@)
                + corporate_investment_items_model(input@));
        }
        investment_tax
    }

    /// Entry point: dispatches on the entity type to one of the four
    /// strategies.
    pub fn calculate_tax(input: &TaxCalculationInput) -> (result: TaxCalculationResult)
        requires
            input_in_bounds(input@),
        ensures
            result@ == calculate_tax_model(input@),
    {
        match input.entity_type {
            EntityType::Individual => Self::calculate_individual_tax(input),
            EntityType::Corporation => Self::calculate_corporate_tax(input),
            EntityType::Partnership => Self::calculate_partnership_tax(input),
            EntityType::SoleProprietorship => Self::calculate_enk_tax(input),
        }
    }

    /// Corporate strategy: deductions shape the taxable income, taxed at the
    /// flat corporate rate; only 3 % of investment income is taxable; no
    /// other category applies.
    pub fn calculate_corporate_tax(input: &TaxCalculationInput) -> (result: TaxCalculationResult)
        requires
            input_in_bounds(input@),
        ensures
            result@ == corporate_result_model(input@),
    {
        let ghost iv = input@;
        let mut breakdown: Vec<TaxBreakdownItem> = Vec::new();

        let taxable_income = clamp_to_zero(input.gross_income - input.allowable_deductions);
        proof {
            assert(taxable_income == corporate_taxable_income(iv));
        }

        if input.allowable_deductions > 0 {
            breakdown.push(
                TaxBreakdownItem {
                    description: "Fradrag".to_owned(),
                    amount: -input.allowable_deductions,
                    rate: None,
                },
            );
        }
        let corporate_tax = apply_rate(taxable_income, CORPORATE_TAX_RATE_2024);
        breakdown.push(
            TaxBreakdownItem {
                description: "Selskapsskatt".to_owned(),
                amount: corporate_tax,
                rate: Some(CORPORATE_TAX_RATE_2024),
            },
        );
        let ghost prefix_corporate = (if iv.allowable_deductions > 0 {
            seq![line("Fradrag"@, -iv.allowable_deductions, None)]
        } else {
            Seq::<TaxItemView>::empty()
        }) + seq![
            line(
                "Selskapsskatt"@,
                scaled(corporate_taxable_income(iv), CORPORATE_TAX_RATE_2024 as int),
                Some(CORPORATE_TAX_RATE_2024 as int),
            ),
        ];
        proof {
            assert(items_view(breakdown@) =~= prefix_corporate);
        }

        let investment_tax = Self::calculate_corporate_investment_tax(input, &mut breakdown);
        proof {
            assert(items_view(breakdown@) =~= prefix_corporate
                + corporate_investment_items_model(iv));
            assert(items_view(breakdown@) =~= corporate_items_model(iv));
        }

        let total_tax = corporate_tax + investment_tax;
        let total_gross_income = input.gross_income + input.dividend_income + input.capital_gains;
        let net_income = total_gross_income - total_tax;
        let effective_tax_rate = compute_effective_rate(total_tax, total_gross_income);

        let result = TaxCalculationResult {
            gross_income: total_gross_income,
            personal_allowance: 0,
            taxable_income,
            municipal_tax: 0,
            county_tax: 0,
            church_tax: 0,
            state_tax: 0,
            corporate_tax,
            national_insurance: 0,
            investment_tax,
            wealth_tax: 0,
            total_tax,
            net_income,
            effective_tax_rate,
            breakdown,
        };
        proof {
            assert(result@ =~= corporate_result_model(iv));
        }
        result
    }

    /// Partnership strategy: taxed as personal income; the individual result
    /// with the pass-through marker prepended to the breakdown.
    pub fn calculate_partnership_tax(input: &TaxCalculationInput) -> (result: TaxCalculationResult)
        requires
            input_in_bounds(input@),
        ensures
            result@ == partnership_result_model(input@),
    {
        let mut result = Self::calculate_individual_tax(input);
        result.breakdown.insert(
            0,
            TaxBreakdownItem {
                description: "Deltakerlignet selskap - beskattes som personinntekt".to_owned(),
                amount: 0,
                rate: None,
            },
        );
        proof {
            assert(items_view(result.breakdown@) =~= seq![partnership_marker()]
                + individual_result_model(input@).breakdown);
            assert(result@ =~= partnership_result_model(input@));
        }
        result
    }

    /// Sole-proprietorship (ENK) strategy: like the individual strategy, but
    /// business expenses come off gross income first (no personal allowance)
    /// and national insurance uses the higher self-employed rate. The
    /// breakdown always starts with the informational ENK marker.
    pub fn calculate_enk_tax(input: &TaxCalculationInput) -> (result: TaxCalculationResult)
        requires
            input_in_bounds(input@),
        ensures
            result@ == enk_result_model(input@),
    {
        let ghost iv = input@;
        let mut breakdown: Vec<TaxBreakdownItem> = Vec::new();

        let profit = clamp_to_zero(input.gross_income - input.business_expenses);
        let taxable_income = clamp_to_zero(profit - input.allowable_deductions);
        proof {
            assert(profit == business_profit(iv));
            assert(taxable_income == enk_taxable_income(iv));
        }

        breakdown.push(
            TaxBreakdownItem {
                description: "ENK - Enkeltpersonforetak".to_owned(),
                amount: 0,
                rate: None,
            },
        );
        if input.business_expenses > 0 {
            breakdown.push(
                TaxBreakdownItem {
                    description: "Driftskostnader".to_owned(),
                    amount: -input.business_expenses,
                    rate: None,
                },
            );
        }
        if input.allowable_deductions > 0 {
            breakdown.push(
                TaxBreakdownItem {
                    description: "Fradrag".to_owned(),
                    amount: -input.allowable_deductions,
                    rate: None,
                },
            );
        }
        let ghost prefix_deductions = seq![enk_marker()] + (if iv.business_expenses > 0 {
            seq![line("Driftskostnader"@, -iv.business_expenses, None)]
        } else {
            Seq::<TaxItemView>::empty()
        }) + (if iv.allowable_deductions > 0 {
            seq![line("Fradrag"@, -iv.allowable_deductions, None)]
        } else {
            Seq::<TaxItemView>::empty()
        });
        proof {
            assert(items_view(breakdown@) =~= prefix_deductions);
        }

        let municipal_tax = apply_rate(taxable_income, input.municipal_tax_rate);
        breakdown.push(
            TaxBreakdownItem {
                description: "Kommuneskatt".to_owned(),
                amount: municipal_tax,
                rate: Some(input.municipal_tax_rate),
            },
        );
        let county_tax = apply_rate(taxable_income, input.county_tax_rate);
        breakdown.push(
            TaxBreakdownItem {
                description: "Fylkeskatt".to_owned(),
                amount: county_tax,
                rate: Some(input.county_tax_rate),
            },
        );
        let church_tax = if input.is_church_member {
            let tax = apply_rate(taxable_income, input.church_tax_rate);
            breakdown.push(
                TaxBreakdownItem {
                    description: "Kirkeskatt".to_owned(),
                    amount: tax,
                    rate: Some(input.church_tax_rate),
                },
            );
            tax
        } else {
            0
        };
        let ghost prefix_local = prefix_deductions + seq![
            line(
                "Kommuneskatt"@,
                scaled(enk_taxable_income(iv), iv.municipal_tax_rate),
                Some(iv.municipal_tax_rate),
            ),
        ] + seq![
            line(
                "Fylkeskatt"@,
                scaled(enk_taxable_income(iv), iv.county_tax_rate),
                Some(iv.county_tax_rate),
            ),
        ] + (if iv.is_church_member {
            seq![
                line(
                    "Kirkeskatt"@,
                    scaled(enk_taxable_income(iv), iv.church_tax_rate),
                    Some(iv.church_tax_rate),
                ),
            ]
        } else {
            Seq::<TaxItemView>::empty()
        });
        proof {
            assert(items_view(breakdown@) =~= prefix_local);
        }

        let state_tax = Self::calculate_state_tax(input.gross_income, &mut breakdown);
        let ghost prefix_state = prefix_local + state_items_model(iv.gross_income);
        proof {
            assert(items_view(breakdown@) =~= prefix_state);
        }

        let national_insurance = apply_rate(input.gross_income, NATIONAL_INSURANCE_RATE_ENK_2024);
        breakdown.push(
            TaxBreakdownItem {
                description: "Trygdeavgift (ENK)".to_owned(),
                amount: national_insurance,
                rate: Some(NATIONAL_INSURANCE_RATE_ENK_2024),
            },
        );
        let ghost prefix_insurance = prefix_state + seq![
            line(
                "Trygdeavgift (ENK)"@,
                scaled(iv.gross_income, NATIONAL_INSURANCE_RATE_ENK_2024 as int),
                Some(NATIONAL_INSURANCE_RATE_ENK_2024 as int),
            ),
        ];
        proof {
            assert(items_view(breakdown@) =~= prefix_insurance);
        }

        let investment_tax = Self::calculate_investment_tax(input, &mut breakdown);
        let wealth_tax = Self::calculate_wealth_tax(input, &mut breakdown);
        proof {
            assert(items_view(breakdown@) =~= prefix_insurance + investment_items_model(iv)
                + wealth_items_model(iv));
            assert(items_view(breakdown@) =~= enk_items_model(iv));
        }

        let total_tax = municipal_tax + county_tax + church_tax + state_tax + national_insurance
            + investment_tax + wealth_tax;
        let total_gross_income = input.gross_income + input.dividend_income + input.capital_gains;
        let net_income = total_gross_income - total_tax;
        let effective_tax_rate = compute_effective_rate(total_tax, total_gross_income);

        let result = TaxCalculationResult {
            gross_income: total_gross_income,
            personal_allowance: 0,
            taxable_income,
            municipal_tax,
            county_tax,
            church_tax,
            state_tax,
            corporate_tax: 0,
            national_insurance,
            investment_tax,
            wealth_tax,
            total_tax,
            net_income,
            effective_tax_rate,
            breakdown,
        };
        proof {
            assert(result@ =~= enk_result_model(iv));
        }
        result
    }

    /// Individual strategy: personal allowance and deductions shape the
    /// taxable income; municipal, county and (for members) church tax apply
    /// to it; state tax and national insurance apply to gross income; then
    /// investment and wealth tax.
    pub fn calculate_individual_tax(input: &TaxCalculationInput) -> (result: TaxCalculationResult)
        requires
            input_in_bounds(input@),
        ensures
            result@ == individual_result_model(input@),
    {
        let ghost iv = input@;
        let mut breakdown: Vec<TaxBreakdownItem> = Vec::new();

        let personal_allowance = PERSONAL_ALLOWANCE_2024;
        let taxable_income = clamp_to_zero(
            input.gross_income - personal_allowance - input.allowable_deductions,
        );
        proof {
            assert(taxable_income == individual_taxable_income(iv));
        }

        breakdown.push(
            TaxBreakdownItem {
                description: "Personfradrag".to_owned(),
                amount: -personal_allowance,
                rate: None,
            },
        );
        if input.allowable_deductions > 0 {
            breakdown.push(
                TaxBreakdownItem {
                    description: "Fradrag".to_owned(),
                    amount: -input.allowable_deductions,
                    rate: None,
                },
            );
        }
        let ghost prefix_deductions = seq![
            line("Personfradrag"@, -(PERSONAL_ALLOWANCE_2024 as int), None),
        ] + (if iv.allowable_deductions > 0 {
            seq![line("Fradrag"@, -iv.allowable_deductions, None)]
        } else {
            Seq::<TaxItemView>::empty()
        });
        proof {
            assert(items_view(breakdown@) =~= prefix_deductions);
        }

        let municipal_tax = apply_rate(taxable_income, input.municipal_tax_rate);
        breakdown.push(
            TaxBreakdownItem {
                description: "Kommuneskatt".to_owned(),
                amount: municipal_tax,
                rate: Some(input.municipal_tax_rate),
            },
        );
        let county_tax = apply_rate(taxable_income, input.county_tax_rate);
        breakdown.push(
            TaxBreakdownItem {
                description: "Fylkeskatt".to_owned(),
                amount: county_tax,
                rate: Some(input.county_tax_rate),
            },
        );
        let church_tax = if input.is_church_member {
            let tax = apply_rate(taxable_income, input.church_tax_rate);
            breakdown.push(
                TaxBreakdownItem {
                    description: "Kirkeskatt".to_owned(),
                    amount: tax,
                    rate: Some(input.church_tax_rate),
                },
            );
            tax
        } else {
            0
        };
        let ghost prefix_local = prefix_deductions + seq![
            line(
                "Kommuneskatt"@,
                scaled(individual_taxable_income(iv), iv.municipal_tax_rate),
                Some(iv.municipal_tax_rate),
            ),
        ] + seq![
            line(
                "Fylkeskatt"@,
                scaled(individual_taxable_income(iv), iv.county_tax_rate),
                Some(iv.county_tax_rate),
            ),
        ] + (if iv.is_church_member {
            seq![
                line(
                    "Kirkeskatt"@,
                    scaled(individual_taxable_income(iv), iv.church_tax_rate),
                    Some(iv.church_tax_rate),
                ),
            ]
        } else {
            Seq::<TaxItemView>::empty()
        });
        proof {
            assert(items_view(breakdown@) =~= prefix_local);
        }

        let state_tax = Self::calculate_state_tax(input.gross_income, &mut breakdown);
        let ghost prefix_state = prefix_local + state_items_model(iv.gross_income);
        proof {
            assert(items_view(breakdown@) =~= prefix_state);
        }

        let national_insurance = apply_rate(input.gross_income, NATIONAL_INSURANCE_RATE_2024);
        breakdown.push(
            TaxBreakdownItem {
                description: "Trygdeavgift".to_owned(),
                amount: national_insurance,
                rate: Some(NATIONAL_INSURANCE_RATE_2024),
            },
        );
        let ghost prefix_insurance = prefix_state + seq![
            line(
                "Trygdeavgift"@,
                scaled(iv.gross_income, NATIONAL_INSURANCE_RATE_2024 as int),
                Some(NATIONAL_INSURANCE_RATE_2024 as int),
            ),
        ];
        proof {
            assert(items_view(breakdown@) =~= prefix_insurance);
        }

        let investment_tax = Self::calculate_investment_tax(input, &mut breakdown);
        let wealth_tax = Self::calculate_wealth_tax(input, &mut breakdown);
        proof {
            assert(items_view(breakdown@) =~= prefix_insurance + investment_items_model(iv)
                + wealth_items_model(iv));
            assert(items_view(breakdown@) =~= individual_items_model(iv));
        }

        let total_tax = municipal_tax + county_tax + church_tax + state_tax + national_insurance
            + investment_tax + wealth_tax;
        let total_gross_income = input.gross_income + input.dividend_income + input.capital_gains;
        let net_income = total_gross_income - total_tax;
        let effective_tax_rate = compute_effective_rate(total_tax, total_gross_income);

        let result = TaxCalculationResult {
            gross_income: total_gross_income,
            personal_allowance,
            taxable_income,
            municipal_tax,
            county_tax,
            church_tax,
            state_tax,
            corporate_tax: 0,
            national_insurance,
            investment_tax,
            wealth_tax,
            total_tax,
            net_income,
            effective_tax_rate,
            breakdown,
        };
        proof {
            assert(result@ =~= individual_result_model(iv));
        }
        result
    }

    /// Progressive state tax (statsskatt): a marginal-bracket sweep over the
    /// five fixed brackets, applied to gross income. Each bracket whose
    /// threshold the income exceeds contributes tax on its slice and appends
    /// one breakdown line.
    pub fn calculate_state_tax(
        gross_income: i64,
        breakdown: &mut Vec<TaxBreakdownItem>,
    ) -> (tax: i64)
        requires
            -AMOUNT_LIMIT <= gross_income <= AMOUNT_LIMIT,
        ensures
            tax == state_tax_model(gross_income as int),
            0 <= tax <= 5 * (TAX_LIMIT as int),
            items_view(final(breakdown)@) == items_view(old(breakdown)@) + state_items_model(
                gross_income as int,
            ),
    {
        let ghost income: int = gross_income as int;
        let mut state_tax: i64 = 0;
        if gross_income > STATE_TAX_THRESHOLD_1 {
            let mut slice = gross_income - STATE_TAX_THRESHOLD_1;
            if slice > STATE_TAX_THRESHOLD_2 - STATE_TAX_THRESHOLD_1 {
                slice = STATE_TAX_THRESHOLD_2 - STATE_TAX_THRESHOLD_1;
            }
            let tax_in_bracket = apply_rate(slice, STATE_TAX_RATE_1);
            proof {
                lemma_scaled_nonneg(slice as int, STATE_TAX_RATE_1 as int);
            }
            state_tax = state_tax + tax_in_bracket;
            breakdown.push(
                TaxBreakdownItem {
                    description: "Statsskatt (over 208 050 NOK)".to_owned(),
                    amount: tax_in_bracket,
                    rate: Some(STATE_TAX_RATE_1),
                },
            );
        }
        proof {
            assert(state_tax == bracket_tax(income, 0));
            assert(items_view(breakdown@) =~= items_view(old(breakdown)@) + bracket_items(
                income,
                0,
            ));
        }
        if gross_income > STATE_TAX_THRESHOLD_2 {
            let mut slice = gross_income - STATE_TAX_THRESHOLD_2;
            if slice > STATE_TAX_THRESHOLD_3 - STATE_TAX_THRESHOLD_2 {
                slice = STATE_TAX_THRESHOLD_3 - STATE_TAX_THRESHOLD_2;
            }
            let tax_in_bracket = apply_rate(slice, STATE_TAX_RATE_2);
            proof {
                lemma_scaled_nonneg(slice as int, STATE_TAX_RATE_2 as int);
            }
            state_tax = state_tax + tax_in_bracket;
            breakdown.push(
                TaxBreakdownItem {
                    description: "Statsskatt (over 292 850 NOK)".to_owned(),
                    amount: tax_in_bracket,
                    rate: Some(STATE_TAX_RATE_2),
                },
            );
        }
        proof {
            assert(state_tax == bracket_tax(income, 0) + bracket_tax(income, 1));
            assert(items_view(breakdown@) =~= items_view(old(breakdown)@) + bracket_items(
                income,
                0,
            ) + bracket_items(income, 1));
        }
        if gross_income > STATE_TAX_THRESHOLD_3 {
            let mut slice = gross_income - STATE_TAX_THRESHOLD_3;
            if slice > STATE_TAX_THRESHOLD_4 - STATE_TAX_THRESHOLD_3 {
                slice = STATE_TAX_THRESHOLD_4 - STATE_TAX_THRESHOLD_3;
            }
            let tax_in_bracket = apply_rate(slice, STATE_TAX_RATE_3);
            proof {
                lemma_scaled_nonneg(slice as int, STATE_TAX_RATE_3 as int);
            }
            state_tax = state_tax + tax_in_bracket;
            breakdown.push(
                TaxBreakdownItem {
                    description: "Statsskatt (over 670 000 NOK)".to_owned(),
                    amount: tax_in_bracket,
                    rate: Some(STATE_TAX_RATE_3),
                },
            );
        }
        proof {
            assert(state_tax == bracket_tax(income, 0) + bracket_tax(income, 1) + bracket_tax(
                income,
                2,
            ));
            assert(items_view(breakdown@) =~= items_view(old(breakdown)@) + bracket_items(
                income,
                0,
            ) + bracket_items(income, 1) + bracket_items(income, 2));
        }
        if gross_income > STATE_TAX_THRESHOLD_4 {
            let mut slice = gross_income - STATE_TAX_THRESHOLD_4;
            if slice > STATE_TAX_THRESHOLD_5 - STATE_TAX_THRESHOLD_4 {
                slice = STATE_TAX_THRESHOLD_5 - STATE_TAX_THRESHOLD_4;
            }
            let tax_in_bracket = apply_rate(slice, STATE_TAX_RATE_4);
            proof {
                lemma_scaled_nonneg(slice as int, STATE_TAX_RATE_4 as int);
            }
            state_tax = state_tax + tax_in_bracket;
            breakdown.push(
                TaxBreakdownItem {
                    description: "Statsskatt (over 937 900 NOK)".to_owned(),
                    amount: tax_in_bracket,
                    rate: Some(STATE_TAX_RATE_4),
                },
            );
        }
        proof {
            assert(state_tax == bracket_tax(income, 0) + bracket_tax(income, 1) + bracket_tax(
                income,
                2,
            ) + bracket_tax(income, 3));
            assert(items_view(breakdown@) =~= items_view(old(breakdown)@) + bracket_items(
                income,
                0,
            ) + bracket_items(income, 1) + bracket_items(income, 2) + bracket_items(income, 3));
        }
        if gross_income > STATE_TAX_THRESHOLD_5 {
            let slice = gross_income - STATE_TAX_THRESHOLD_5;
            let tax_in_bracket = apply_rate(slice, STATE_TAX_RATE_5);
            proof {
                lemma_scaled_nonneg(slice as int, STATE_TAX_RATE_5 as int);
            }
            state_tax = state_tax + tax_in_bracket;
            breakdown.push(
                TaxBreakdownItem {
                    description: "Statsskatt (over 1 350 000 NOK)".to_owned(),
                    amount: tax_in_bracket,
                    rate: Some(STATE_TAX_RATE_5),
                },
            );
        }
        proof {
            assert(state_tax == state_tax_model(income));
            assert(items_view(breakdown@) =~= items_view(old(breakdown)@) + state_items_model(
                income,
            ));
        }
        state_tax
    }

    /// Format a whole-krone amount as digits grouped in threes by single
    /// spaces (600000 becomes "600 000"). The magnitude is formatted; a
    /// caller that wants a sign on a negative amount prefixes it itself.
    pub fn format_currency(amount: i64) -> (s: String)
        ensures
            s@ == currency_display(amount as int),
    {
        format_magnitude(amount)
    }

    /// The default municipal (10 %), county (11.4 %) and church (1.3 %) tax
    /// rates, in 1/100 percent.
    pub fn get_default_rates() -> (rates: (i64, i64, i64))
        ensures
            rates.0 == 1_000,
            rates.1 == 1_140,
            rates.2 == 130,
    {
        (1_000, 1_140, 130)
    }

    /// Whether every field of the input lies inside the fixed-point working
    /// range: exactly the precondition of [`Self::calculate_tax`]. An
    /// unverified caller can test this before computing.
    pub fn input_within_limits(input: &TaxCalculationInput) -> (ok: bool)
        ensures
            ok == input_in_bounds(input@),
    {
        -AMOUNT_LIMIT <= input.gross_income && input.gross_income <= AMOUNT_LIMIT
            && -AMOUNT_LIMIT <= input.allowable_deductions && input.allowable_deductions
            <= AMOUNT_LIMIT && -AMOUNT_LIMIT <= input.dividend_income && input.dividend_income
            <= AMOUNT_LIMIT && -AMOUNT_LIMIT <= input.capital_gains && input.capital_gains
            <= AMOUNT_LIMIT && -AMOUNT_LIMIT <= input.investment_wealth && input.investment_wealth
            <= AMOUNT_LIMIT && -AMOUNT_LIMIT <= input.business_expenses && input.business_expenses
            <= AMOUNT_LIMIT && -RATE_LIMIT <= input.municipal_tax_rate && input.municipal_tax_rate
            <= RATE_LIMIT && -RATE_LIMIT <= input.county_tax_rate && input.county_tax_rate
            <= RATE_LIMIT && -RATE_LIMIT <= input.church_tax_rate && input.church_tax_rate
            <= RATE_LIMIT
    }

    /// Personal investment tax: investment income above the risk-free
    /// allowance is taxed at the investment rate; appends the allowance
    /// deduction and the tax line when each is positive.
    pub fn calculate_investment_tax(
        input: &TaxCalculationInput,
        breakdown: &mut Vec<TaxBreakdownItem>,
    ) -> (tax: i64)
        requires
            -AMOUNT_LIMIT <= input.dividend_income <= AMOUNT_LIMIT,
            -AMOUNT_LIMIT <= input.capital_gains <= AMOUNT_LIMIT,
            -AMOUNT_LIMIT <= input.investment_wealth <= AMOUNT_LIMIT,
        ensures
            tax == investment_tax_model(input@),
            0 <= tax <= TAX_LIMIT,
            items_view(final(breakdown)@) == items_view(old(breakdown)@) + investment_items_model(
                input@,
            ),
    {
        let total_investment_income = input.dividend_income + input.capital_gains;
        if total_investment_income <= 0 {
            proof {
                assert(items_view(breakdown@) =~= items_view(breakdown@) + investment_items_model(
                    input@,
                ));
            }
            return 0;
        }
        let risk_free_allowance = apply_rate(input.investment_wealth, RISK_FREE_RATE_2024);
        proof {
            lemma_scaled_bound(
                input.investment_wealth as int,
                RISK_FREE_RATE_2024 as int,
                AMOUNT_LIMIT as int,
                RISK_FREE_RATE_2024 as int,
            );
            assert(abs(risk_free_allowance as int) <= (AMOUNT_LIMIT as int) * (
            RISK_FREE_RATE_2024 as int) / 10_000);
        }
        let taxable_investment_base = clamp_to_zero(total_investment_income - risk_free_allowance);
        if risk_free_allowance > 0 {
            breakdown.push(
                TaxBreakdownItem {
                    description: "Risikofritt fradrag".to_owned(),
                    amount: -risk_free_allowance,
                    rate: Some(RISK_FREE_RATE_2024),
                },
            );
        }
        let investment_tax = apply_rate(taxable_investment_base, INVESTMENT_TAX_RATE_2024);
        proof {
            lemma_scaled_nonneg(taxable_investment_base as int, INVESTMENT_TAX_RATE_2024 as int);
            assert(investment_tax == investment_tax_model(input@));
        }
        if investment_tax > 0 {
            breakdown.push(
                TaxBreakdownItem {
                    description: "Skatt på aksjeutbytte og gevinst".to_owned(),
                    amount: investment_tax,
                    rate: Some(INVESTMENT_TAX_RATE_2024),
                },
            );
        }
        proof {
            assert(items_view(breakdown@) =~= items_view(old(breakdown)@) + investment_items_model(
                input@,
            ));
        }
        investment_tax
    }
}

} // verus!
