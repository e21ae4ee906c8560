use mobile_money_backend::amount::Amount;
use mobile_money_backend::error::{parse_amount_field, BAD_REQUEST};
use mobile_money_backend::ledger::{application_updates, classify, reversal_updates, BalanceUpdate, Flow};

fn amount(s: &str) -> Amount {
    Amount::parse(s).expect("a decimal")
}

fn digits(a: &Amount) -> i128 {
    a.digits_text().parse().expect("signed digits")
}

fn total_for(updates: &[BalanceUpdate], pocket: u128) -> i128 {
    let mut total: i128 = 0;
    let mut scale: Option<i64> = None;
    for u in updates {
        if u.pocket_id == pocket {
            if let Some(s) = scale {
                assert_eq!(u.amount.scale(), s);
            }
            scale = Some(u.amount.scale());
            total += digits(&u.amount);
        }
    }
    total
}

#[test]
fn amount_parses_digits_and_scale() {
    let a = amount("100.50");
    assert_eq!(a.digits_text(), "10050");
    assert_eq!(a.scale(), 2);
    assert_eq!(a.to_text(), "100.50");
}

#[test]
fn amount_prints_negative_and_whole_values() {
    assert_eq!(amount("-7.25").to_text(), "-7.25");
    assert_eq!(Amount::parse("50000").unwrap().to_text(), "50000");
    assert_eq!(Amount::zero().to_text(), "0");
}

#[test]
fn amount_rejects_text_that_is_no_decimal() {
    assert!(Amount::parse("abc").is_err());
    assert!(Amount::parse("").is_err());
}

#[test]
fn amount_holds_digits_beyond_any_machine_integer() {
    let text = "1234567890123456789012345678901234567890123.45";
    let a = amount(text);
    assert_eq!(a.digits_text(), "123456789012345678901234567890123456789012345");
    assert_eq!(a.scale(), 2);
    assert_eq!(a.to_text(), text);
    assert!(a.is_positive());
    assert_eq!(a.neg().to_text(), format!("-{}", text));
    assert!(a.same_value_as(&amount("1234567890123456789012345678901234567890123.450")));
    assert!(!a.same_value_as(&amount("1234567890123456789012345678901234567890123.46")));
}

#[test]
fn amount_equal_values_at_different_scales() {
    assert!(amount("1.50").same_value_as(&amount("1.5")));
    assert!(amount("200").same_value_as(&amount("200.000")));
    assert!(!amount("1.51").same_value_as(&amount("1.5")));
    assert!(!amount("-2").same_value_as(&amount("2")));
}

#[test]
fn amount_negation_and_sign() {
    let a = amount("12.5");
    assert_eq!(a.neg().to_text(), "-12.5");
    assert!(a.is_positive());
    assert!(!a.neg().is_positive());
    assert!(!Amount::zero().is_positive());
    assert_eq!(a.neg().digits_text(), "-125");
    assert_eq!(amount("-0.5").neg().to_text(), "0.5");
}

#[test]
fn amount_field_error_names_the_field() {
    let e = parse_amount_field("twelve", "amount").unwrap_err();
    assert_eq!(e.status, BAD_REQUEST);
    assert!(e.message.starts_with("Invalid amount: "));
    let ok = parse_amount_field("12", "amount").unwrap();
    assert_eq!(ok.to_text(), "12");
}

#[test]
fn transaction_types_classify() {
    assert_eq!(classify("income"), Flow::Income);
    assert_eq!(classify("expense"), Flow::Expense);
    assert_eq!(classify("transfer"), Flow::Transfer);
    assert_eq!(classify("Income"), Flow::Other);
    assert_eq!(classify(""), Flow::Other);
}

#[test]
fn income_adds_and_expense_subtracts() {
    let a = amount("25000");
    let inc = application_updates(1, None, &a, Flow::Income);
    assert_eq!(inc.len(), 1);
    assert_eq!(inc[0].pocket_id, 1);
    assert_eq!(inc[0].amount.to_text(), "25000");
    let exp = application_updates(1, Some(2), &a, Flow::Expense);
    assert_eq!(exp.len(), 1);
    assert_eq!(exp[0].amount.to_text(), "-25000");
    let other = application_updates(1, Some(2), &a, Flow::Other);
    assert_eq!(other.len(), 1);
    assert_eq!(other[0].amount.to_text(), "0");
}

#[test]
fn transfer_moves_money_between_pockets() {
    let a = amount("80.000");
    let t = application_updates(1, Some(2), &a, Flow::Transfer);
    assert_eq!(t.len(), 2);
    assert_eq!((t[0].pocket_id, t[0].amount.to_text()), (1, "-80.000".to_string()));
    assert_eq!((t[1].pocket_id, t[1].amount.to_text()), (2, "80.000".to_string()));
    let sum = digits(&t[0].amount) + digits(&t[1].amount);
    assert_eq!(sum, 0);
    let alone = application_updates(1, None, &a, Flow::Transfer);
    assert_eq!(alone.len(), 1);
}

#[test]
fn reversal_cancels_application_on_every_pocket() {
    let a = amount("123.45");
    for flow in [Flow::Income, Flow::Expense, Flow::Transfer, Flow::Other] {
        let mut all = application_updates(7, Some(9), &a, flow);
        all.extend(reversal_updates(7, Some(9), &a, flow));
        for pocket in [7u128, 9u128, 11u128] {
            assert_eq!(total_for(&all, pocket), 0);
        }
    }
}
