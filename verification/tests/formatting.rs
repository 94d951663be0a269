// Tests of the currency formatter, the default rates and the input-range
// check.

use norwegian_tax_calculator::tax_calculator::{
    EntityType, NorwegianTaxCalculator, TaxCalculationInput,
};

#[test]
fn currency_formatting_groups_thousands() {
    assert_eq!(NorwegianTaxCalculator::format_currency(0), "0");
    assert_eq!(NorwegianTaxCalculator::format_currency(999), "999");
    assert_eq!(NorwegianTaxCalculator::format_currency(1_000), "1 000");
    assert_eq!(NorwegianTaxCalculator::format_currency(600_000), "600 000");
    assert_eq!(NorwegianTaxCalculator::format_currency(1_234_567), "1 234 567");
}

#[test]
fn currency_formatting_uses_the_magnitude_of_a_negative_amount() {
    assert_eq!(NorwegianTaxCalculator::format_currency(-600_000), "600 000");
    assert_eq!(NorwegianTaxCalculator::format_currency(-42), "42");
}

#[test]
fn currency_formatting_keeps_zero_padding_inside_groups() {
    assert_eq!(NorwegianTaxCalculator::format_currency(1_000_000), "1 000 000");
    assert_eq!(NorwegianTaxCalculator::format_currency(20_005), "20 005");
    assert_eq!(NorwegianTaxCalculator::format_currency(100_001), "100 001");
}

#[test]
fn default_rates_are_the_2024_defaults() {
    // municipal 10 %, county 11.4 %, church 1.3 %, in 1/100 percent
    assert_eq!(NorwegianTaxCalculator::get_default_rates(), (1_000, 1_140, 130));
}

#[test]
fn input_range_check_accepts_ordinary_inputs_and_rejects_extremes() {
    let input = TaxCalculationInput {
        gross_income: 60_000_000,
        entity_type: EntityType::Individual,
        municipal_tax_rate: 1_000,
        county_tax_rate: 1_140,
        church_tax_rate: 130,
        is_church_member: true,
        allowable_deductions: 0,
        dividend_income: 0,
        capital_gains: 0,
        investment_wealth: 0,
        business_expenses: 0,
    };
    assert!(NorwegianTaxCalculator::input_within_limits(&input));

    let mut too_large = input.clone();
    too_large.gross_income = 1_000_000_000_000_001;
    assert!(!NorwegianTaxCalculator::input_within_limits(&too_large));

    let mut rate_too_large = input;
    rate_too_large.church_tax_rate = 100_001;
    assert!(!NorwegianTaxCalculator::input_within_limits(&rate_too_large));
}
