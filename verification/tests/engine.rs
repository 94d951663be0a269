// End-to-end and helper-level tests of the tax engine. All monetary values
// are in 1/100 krone and all rates in 1/100 percent.

use norwegian_tax_calculator::tax_calculator::{
    EntityType, NorwegianTaxCalculator, TaxBreakdownItem, TaxCalculationInput,
};

fn base_input(entity_type: EntityType) -> TaxCalculationInput {
    TaxCalculationInput {
        gross_income: 0,
        entity_type,
        municipal_tax_rate: 1_000,
        county_tax_rate: 1_140,
        church_tax_rate: 130,
        is_church_member: true,
        allowable_deductions: 0,
        dividend_income: 0,
        capital_gains: 0,
        investment_wealth: 0,
        business_expenses: 0,
    }
}

fn descriptions(items: &[TaxBreakdownItem]) -> Vec<&str> {
    items.iter().map(|i| i.description.as_str()).collect()
}

#[test]
fn individual_end_to_end_at_default_rates() {
    let mut input = base_input(EntityType::Individual);
    input.gross_income = 60_000_000; // 600 000 kr
    let result = NorwegianTaxCalculator::calculate_tax(&input);

    assert_eq!(result.personal_allowance, 6_910_000);
    assert_eq!(result.taxable_income, 53_090_000);
    assert_eq!(result.municipal_tax, 5_309_000);
    assert_eq!(result.county_tax, 6_052_260);
    assert_eq!(result.church_tax, 690_170);
    // Bracket sweep on 600 000 kr crosses the first two brackets only.
    assert_eq!(result.state_tax, 144_160 + 1_228_600);
    assert_eq!(result.national_insurance, 4_620_000);
    assert_eq!(result.investment_tax, 0);
    assert_eq!(result.wealth_tax, 0);
    assert_eq!(result.corporate_tax, 0);
    assert_eq!(result.total_tax, 18_044_190);
    assert_eq!(result.gross_income, 60_000_000);
    assert_eq!(result.net_income, 41_955_810);
    // 30.07 percent, truncated, in 1/100 percent.
    assert_eq!(result.effective_tax_rate, 3_007);

    assert_eq!(
        descriptions(&result.breakdown),
        vec![
            "Personfradrag",
            "Kommuneskatt",
            "Fylkeskatt",
            "Kirkeskatt",
            "Statsskatt (over 208 050 NOK)",
            "Statsskatt (over 292 850 NOK)",
            "Trygdeavgift",
        ]
    );
    assert_eq!(result.breakdown[0].amount, -6_910_000);
    assert_eq!(result.breakdown[0].rate, None);
    assert_eq!(result.breakdown[1].amount, 5_309_000);
    assert_eq!(result.breakdown[1].rate, Some(1_000));
    assert_eq!(result.breakdown[4].amount, 144_160);
    assert_eq!(result.breakdown[4].rate, Some(170));
    assert_eq!(result.breakdown[5].amount, 1_228_600);
    assert_eq!(result.breakdown[5].rate, Some(400));
    assert_eq!(result.breakdown[6].rate, Some(770));
}

#[test]
fn state_tax_zero_income_no_items() {
    let mut breakdown = Vec::new();
    let tax = NorwegianTaxCalculator::calculate_state_tax(0, &mut breakdown);
    assert_eq!(tax, 0);
    assert!(breakdown.is_empty());
}

#[test]
fn state_tax_all_five_brackets_contribute() {
    let mut breakdown = Vec::new();
    // 1 350 001 kr: one krone above the last threshold.
    let tax = NorwegianTaxCalculator::calculate_state_tax(135_000_100, &mut breakdown);
    let amounts: Vec<i64> = breakdown.iter().map(|i| i.amount).collect();
    assert_eq!(amounts, vec![144_160, 1_508_600, 3_643_440, 6_840_860, 17]);
    assert_eq!(tax, amounts.iter().sum::<i64>());
    assert_eq!(tax, 12_137_077);
    assert_eq!(
        descriptions(&breakdown),
        vec![
            "Statsskatt (over 208 050 NOK)",
            "Statsskatt (over 292 850 NOK)",
            "Statsskatt (over 670 000 NOK)",
            "Statsskatt (over 937 900 NOK)",
            "Statsskatt (over 1 350 000 NOK)",
        ]
    );
}

#[test]
fn wealth_tax_threshold_is_exclusive() {
    let mut input = base_input(EntityType::Individual);
    input.investment_wealth = 200_000_000; // exactly 2 000 000 kr
    let mut breakdown = Vec::new();
    let tax = NorwegianTaxCalculator::calculate_wealth_tax(&input, &mut breakdown);
    assert_eq!(tax, 0);
    assert!(breakdown.is_empty());
}

#[test]
fn wealth_tax_above_threshold() {
    let mut input = base_input(EntityType::Individual);
    input.investment_wealth = 300_000_000; // 3 000 000 kr
    let mut breakdown = Vec::new();
    let tax = NorwegianTaxCalculator::calculate_wealth_tax(&input, &mut breakdown);
    // (3 000 000 - 2 000 000) * 0.8 * 0.01 = 8 000 kr
    assert_eq!(tax, 800_000);
    assert_eq!(breakdown.len(), 1);
    assert_eq!(breakdown[0].description, "Formueskatt (20% rabatt på aksjer)");
    assert_eq!(breakdown[0].amount, 800_000);
    assert_eq!(breakdown[0].rate, Some(100));
}

#[test]
fn investment_tax_with_risk_free_allowance() {
    let mut input = base_input(EntityType::Individual);
    input.dividend_income = 5_000_000; // 50 000 kr
    input.investment_wealth = 100_000_000; // 1 000 000 kr
    let mut breakdown = Vec::new();
    let tax = NorwegianTaxCalculator::calculate_investment_tax(&input, &mut breakdown);
    // allowance 17 200 kr; taxable 32 800 kr; tax 32 800 * 0.3784 = 12 411.52 kr
    assert_eq!(tax, 1_241_152);
    assert_eq!(breakdown.len(), 2);
    assert_eq!(breakdown[0].description, "Risikofritt fradrag");
    assert_eq!(breakdown[0].amount, -1_720_000);
    assert_eq!(breakdown[0].rate, Some(172));
    assert_eq!(breakdown[1].description, "Skatt på aksjeutbytte og gevinst");
    assert_eq!(breakdown[1].amount, 1_241_152);
    assert_eq!(breakdown[1].rate, Some(3_784));
}

#[test]
fn investment_tax_no_income_no_items() {
    let mut input = base_input(EntityType::Individual);
    input.investment_wealth = 100_000_000;
    let mut breakdown = Vec::new();
    let tax = NorwegianTaxCalculator::calculate_investment_tax(&input, &mut breakdown);
    assert_eq!(tax, 0);
    assert!(breakdown.is_empty());
}

#[test]
fn corporate_end_to_end() {
    let mut input = base_input(EntityType::Corporation);
    input.gross_income = 100_000_000; // 1 000 000 kr
    input.allowable_deductions = 10_000_000; // 100 000 kr
    input.dividend_income = 10_000_000; // 100 000 kr
    let result = NorwegianTaxCalculator::calculate_tax(&input);

    assert_eq!(result.taxable_income, 90_000_000);
    assert_eq!(result.corporate_tax, 19_800_000);
    // 3 % of 100 000 kr at 22 %: 660 kr.
    assert_eq!(result.investment_tax, 66_000);
    assert_eq!(result.total_tax, 19_866_000);
    assert_eq!(result.gross_income, 110_000_000);
    assert_eq!(result.net_income, 90_134_000);
    assert_eq!(result.effective_tax_rate, 1_806);
    // Categories that do not apply to a corporation are zero, never absent.
    assert_eq!(result.personal_allowance, 0);
    assert_eq!(result.municipal_tax, 0);
    assert_eq!(result.county_tax, 0);
    assert_eq!(result.church_tax, 0);
    assert_eq!(result.state_tax, 0);
    assert_eq!(result.national_insurance, 0);
    assert_eq!(result.wealth_tax, 0);

    assert_eq!(
        descriptions(&result.breakdown),
        vec!["Fradrag", "Selskapsskatt", "Deltakermodellen - 3% skattepliktig"]
    );
    assert_eq!(result.breakdown[0].amount, -10_000_000);
    assert_eq!(result.breakdown[1].rate, Some(2_200));
    assert_eq!(result.breakdown[2].amount, 66_000);
    // The disclosure rate on the corporate investment line is the literal
    // 0.66, i.e. 66 in 1/100 percent.
    assert_eq!(result.breakdown[2].rate, Some(66));
}

#[test]
fn enk_end_to_end() {
    let mut input = base_input(EntityType::SoleProprietorship);
    input.gross_income = 60_000_000; // 600 000 kr
    input.business_expenses = 10_000_000; // 100 000 kr
    input.allowable_deductions = 5_000_000; // 50 000 kr
    input.is_church_member = false;
    let result = NorwegianTaxCalculator::calculate_tax(&input);

    // profit 500 000 kr, taxable 450 000 kr, both clamped independently
    assert_eq!(result.taxable_income, 45_000_000);
    assert_eq!(result.personal_allowance, 0);
    assert_eq!(result.municipal_tax, 4_500_000);
    assert_eq!(result.county_tax, 5_130_000);
    assert_eq!(result.church_tax, 0);
    assert_eq!(result.state_tax, 1_372_760);
    // Self-employed rate 10.9 % on raw gross income.
    assert_eq!(result.national_insurance, 6_540_000);
    assert_eq!(result.total_tax, 17_542_760);
    assert_eq!(result.net_income, 42_457_240);
    assert_eq!(result.effective_tax_rate, 2_923);

    assert_eq!(
        descriptions(&result.breakdown),
        vec![
            "ENK - Enkeltpersonforetak",
            "Driftskostnader",
            "Fradrag",
            "Kommuneskatt",
            "Fylkeskatt",
            "Statsskatt (over 208 050 NOK)",
            "Statsskatt (over 292 850 NOK)",
            "Trygdeavgift (ENK)",
        ]
    );
    assert_eq!(result.breakdown[0].amount, 0);
    assert_eq!(result.breakdown[0].rate, None);
    assert_eq!(result.breakdown[1].amount, -10_000_000);
    assert_eq!(result.breakdown[7].rate, Some(1_090));
}

#[test]
fn enk_marker_always_first_even_without_expenses() {
    let mut input = base_input(EntityType::SoleProprietorship);
    input.gross_income = 10_000_000;
    let result = NorwegianTaxCalculator::calculate_tax(&input);
    assert_eq!(result.breakdown[0].description, "ENK - Enkeltpersonforetak");
    assert!(!descriptions(&result.breakdown).contains(&"Driftskostnader"));
}

#[test]
fn partnership_is_individual_plus_marker() {
    let mut input = base_input(EntityType::Partnership);
    input.gross_income = 60_000_000;
    input.allowable_deductions = 2_000_000;
    input.dividend_income = 5_000_000;
    input.investment_wealth = 100_000_000;
    let partnership = NorwegianTaxCalculator::calculate_tax(&input);

    let mut as_individual = input.clone();
    as_individual.entity_type = EntityType::Individual;
    let individual = NorwegianTaxCalculator::calculate_tax(&as_individual);

    assert_eq!(
        partnership.breakdown[0].description,
        "Deltakerlignet selskap - beskattes som personinntekt"
    );
    assert_eq!(partnership.breakdown[0].amount, 0);
    assert_eq!(partnership.breakdown[0].rate, None);
    assert_eq!(partnership.breakdown.len(), individual.breakdown.len() + 1);
    assert_eq!(&partnership.breakdown[1..], &individual.breakdown[..]);

    assert_eq!(partnership.gross_income, individual.gross_income);
    assert_eq!(partnership.taxable_income, individual.taxable_income);
    assert_eq!(partnership.total_tax, individual.total_tax);
    assert_eq!(partnership.net_income, individual.net_income);
    assert_eq!(partnership.effective_tax_rate, individual.effective_tax_rate);
}

#[test]
fn total_tax_is_sum_of_categories_for_every_entity_type() {
    for entity_type in [
        EntityType::Individual,
        EntityType::Corporation,
        EntityType::Partnership,
        EntityType::SoleProprietorship,
    ] {
        let mut input = base_input(entity_type);
        input.gross_income = 80_000_000;
        input.allowable_deductions = 3_000_000;
        input.dividend_income = 6_000_000;
        input.capital_gains = 1_000_000;
        input.investment_wealth = 250_000_000;
        input.business_expenses = 4_000_000;
        let r = NorwegianTaxCalculator::calculate_tax(&input);
        assert_eq!(
            r.total_tax,
            r.municipal_tax + r.county_tax + r.church_tax + r.state_tax + r.corporate_tax
                + r.national_insurance + r.investment_tax + r.wealth_tax
        );
        assert_eq!(r.net_income, r.gross_income - r.total_tax);
    }
}

#[test]
fn zero_economic_income_gives_zero_effective_rate() {
    // Wealth tax is owed, yet the effective rate is zero because the total
    // economic income is zero.
    let mut input = base_input(EntityType::Individual);
    input.investment_wealth = 300_000_000;
    let result = NorwegianTaxCalculator::calculate_tax(&input);
    assert_eq!(result.gross_income, 0);
    assert_eq!(result.total_tax, 800_000);
    assert_eq!(result.effective_tax_rate, 0);
}

#[test]
fn non_member_gets_no_church_line() {
    let mut input = base_input(EntityType::Individual);
    input.gross_income = 60_000_000;
    input.is_church_member = false;
    let result = NorwegianTaxCalculator::calculate_tax(&input);
    assert_eq!(result.church_tax, 0);
    assert!(!descriptions(&result.breakdown).contains(&"Kirkeskatt"));
}

#[test]
fn negative_deductions_flow_through_without_a_line() {
    let mut input = base_input(EntityType::Individual);
    input.gross_income = 10_000_000; // 100 000 kr
    input.allowable_deductions = -1_000_000; // malformed input, computed through
    let result = NorwegianTaxCalculator::calculate_tax(&input);
    assert_eq!(result.taxable_income, 10_000_000 - 6_910_000 + 1_000_000);
    assert!(!descriptions(&result.breakdown).contains(&"Fradrag"));
}

#[test]
fn negative_rate_flows_through() {
    let mut input = base_input(EntityType::Individual);
    input.gross_income = 10_000_000;
    input.municipal_tax_rate = -1_000;
    let result = NorwegianTaxCalculator::calculate_tax(&input);
    assert_eq!(result.taxable_income, 3_090_000);
    assert_eq!(result.municipal_tax, -309_000);
    assert_eq!(result.breakdown[1].description, "Kommuneskatt");
    assert_eq!(result.breakdown[1].amount, -309_000);
    assert_eq!(result.breakdown[1].rate, Some(-1_000));
}

#[test]
fn deep_negative_base_clamps_to_zero() {
    let mut input = base_input(EntityType::SoleProprietorship);
    input.gross_income = 5_000_000;
    input.business_expenses = 9_000_000;
    input.allowable_deductions = 1_000_000;
    let result = NorwegianTaxCalculator::calculate_tax(&input);
    // profit clamps to 0, then taxable clamps to 0 again
    assert_eq!(result.taxable_income, 0);
    assert_eq!(result.municipal_tax, 0);
    assert_eq!(result.county_tax, 0);
}
