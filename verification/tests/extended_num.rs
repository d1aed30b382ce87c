use extnum::extended_num::ExtendedNum;
use extnum::extended_num::ExtendedNum::{Finite, NegInf, PosInf};
use extnum::extended_num::ExtendedNumError;

#[test]
fn test_finite() {
    let one: ExtendedNum<i64> = Finite(1);
    let two: ExtendedNum<i64> = Finite(2);
    let three: ExtendedNum<i64> = Finite(3);
    let six: ExtendedNum<i64> = Finite(6);
    assert!(one < two);
    assert!(three == Finite(3));
    assert_eq!(one.add(two), Ok(three));
    assert_eq!(three.sub(two), Ok(one));
    assert_eq!(two.mul(three), Ok(six));
    assert_eq!(six.div(three), Ok(two));
    assert_eq!(three.div(two), Ok(one));
}

#[test]
fn test_infinite() {
    let posinf: ExtendedNum<i64> = PosInf;
    let neginf: ExtendedNum<i64> = NegInf;
    let four: ExtendedNum<i64> = Finite(4);
    let m_five: ExtendedNum<i64> = Finite(-5);
    assert!(neginf < four);
    assert!(four < posinf);
    assert_eq!(posinf.add(four), Ok(posinf));
    assert_eq!(posinf.add(posinf), Ok(posinf));
    assert_eq!(four.add(neginf), Ok(neginf));
    assert_eq!(neginf.add(neginf), Ok(neginf));
    assert_eq!(posinf.sub(neginf), Ok(posinf));
    assert_eq!(four.sub(posinf), Ok(neginf));
    assert_eq!(posinf.mul(four), Ok(posinf));
    assert_eq!(four.mul(neginf), Ok(neginf));
    assert_eq!(posinf.mul(m_five), Ok(neginf));
    assert_eq!(m_five.mul(neginf), Ok(posinf));
    assert_eq!(posinf.div(four), Ok(posinf));
    assert_eq!(m_five.div(neginf), Ok(Finite(0)));
}

#[test]
fn test_predicates() {
    let fin: ExtendedNum<i64> = Finite(7);
    let posinf: ExtendedNum<i64> = PosInf;
    let neginf: ExtendedNum<i64> = NegInf;
    assert!(fin.is_finite());
    assert!(!fin.is_infinity());
    assert!(!fin.is_pos_inf());
    assert!(!fin.is_neg_inf());
    assert!(!posinf.is_finite());
    assert!(posinf.is_infinity());
    assert!(posinf.is_pos_inf());
    assert!(!posinf.is_neg_inf());
    assert!(!neginf.is_finite());
    assert!(neginf.is_infinity());
    assert!(!neginf.is_pos_inf());
    assert!(neginf.is_neg_inf());
}

#[test]
fn test_zero() {
    assert_eq!(ExtendedNum::<i64>::zero(), 0);
}

#[test]
fn test_get_finite_value() {
    let fin: ExtendedNum<i64> = Finite(9);
    assert_eq!(fin.get_finite_value(), Ok(&9));
    let posinf: ExtendedNum<i64> = PosInf;
    assert_eq!(posinf.get_finite_value(), Err(ExtendedNumError::InvalidState));
    let neginf: ExtendedNum<i64> = NegInf;
    assert_eq!(neginf.get_finite_value(), Err(ExtendedNumError::InvalidState));
}

#[test]
fn test_order_trichotomy_concrete() {
    let values: [ExtendedNum<i64>; 5] = [NegInf, Finite(-3), Finite(0), Finite(3), PosInf];
    for a in values {
        for b in values {
            let lt = a < b;
            let eq = a == b;
            let gt = a > b;
            assert_eq!(u8::from(lt) + u8::from(eq) + u8::from(gt), 1);
        }
    }
}

#[test]
fn test_ordering_boundary() {
    let neginf: ExtendedNum<i64> = NegInf;
    let posinf: ExtendedNum<i64> = PosInf;
    for x in [i64::MIN, -1, 0, 1, i64::MAX] {
        assert!(neginf < Finite(x));
        assert!(Finite(x) < posinf);
    }
    assert!(neginf < posinf);
    assert!(posinf == PosInf);
    assert!(neginf == NegInf);
    assert!(posinf != neginf);
}

#[test]
fn test_additive_absorption() {
    let posinf: ExtendedNum<i64> = PosInf;
    let neginf: ExtendedNum<i64> = NegInf;
    assert_eq!(posinf.add(Finite(-100)), Ok(posinf));
    assert_eq!(posinf.add(Finite(0)), Ok(posinf));
    assert_eq!(neginf.add(Finite(100)), Ok(neginf));
    assert_eq!(neginf.add(Finite(0)), Ok(neginf));
}

#[test]
fn test_sign_propagation() {
    let posinf: ExtendedNum<i64> = PosInf;
    let neginf: ExtendedNum<i64> = NegInf;
    assert_eq!(posinf.mul(Finite(3)), Ok(posinf));
    assert_eq!(posinf.mul(Finite(-3)), Ok(neginf));
    assert_eq!(neginf.mul(Finite(3)), Ok(neginf));
    assert_eq!(neginf.mul(Finite(-3)), Ok(posinf));
    assert_eq!(Finite(3).mul(posinf), Ok(posinf));
    assert_eq!(Finite(-3).mul(posinf), Ok(neginf));
}

#[test]
fn test_division_collapse() {
    let posinf: ExtendedNum<i64> = PosInf;
    let neginf: ExtendedNum<i64> = NegInf;
    assert_eq!(Finite(7).div(posinf), Ok(Finite(0)));
    assert_eq!(Finite(-7).div(posinf), Ok(Finite(0)));
    assert_eq!(Finite(7).div(neginf), Ok(Finite(0)));
    assert_eq!(Finite(0).div(neginf), Ok(Finite(0)));
}

#[test]
fn test_infinite_division_sign() {
    let posinf: ExtendedNum<i64> = PosInf;
    let neginf: ExtendedNum<i64> = NegInf;
    assert_eq!(posinf.div(Finite(2)), Ok(posinf));
    assert_eq!(posinf.div(Finite(-2)), Ok(neginf));
    assert_eq!(neginf.div(Finite(2)), Ok(neginf));
    assert_eq!(neginf.div(Finite(-2)), Ok(posinf));
}

#[test]
fn test_finite_delegation() {
    assert_eq!(Finite(1i64).add(Finite(2)), Ok(Finite(3)));
    assert_eq!(Finite(3i64).sub(Finite(2)), Ok(Finite(1)));
    assert_eq!(Finite(2i64).mul(Finite(3)), Ok(Finite(6)));
    assert_eq!(Finite(6i64).div(Finite(3)), Ok(Finite(2)));
    assert_eq!(Finite(-4i64).add(Finite(-6)), Ok(Finite(-10)));
    assert_eq!(Finite(-4i64).sub(Finite(6)), Ok(Finite(-10)));
    assert_eq!(Finite(-4i64).mul(Finite(6)), Ok(Finite(-24)));
}

#[test]
fn test_truncating_division() {
    assert_eq!(Finite(7i64).div(Finite(2)), Ok(Finite(3)));
    assert_eq!(Finite(-7i64).div(Finite(2)), Ok(Finite(-3)));
    assert_eq!(Finite(7i64).div(Finite(-2)), Ok(Finite(-3)));
    assert_eq!(Finite(-7i64).div(Finite(-2)), Ok(Finite(3)));
}

#[test]
fn test_indeterminate_forms() {
    let posinf: ExtendedNum<i64> = PosInf;
    let neginf: ExtendedNum<i64> = NegInf;
    let fail = Err(ExtendedNumError::InvalidOperation);
    assert_eq!(posinf.add(neginf), fail);
    assert_eq!(neginf.add(posinf), fail);
    assert_eq!(posinf.sub(posinf), fail);
    assert_eq!(neginf.sub(neginf), fail);
    assert_eq!(posinf.mul(Finite(0)), fail);
    assert_eq!(neginf.mul(Finite(0)), fail);
    assert_eq!(Finite(0).mul(posinf), fail);
    assert_eq!(Finite(0).mul(neginf), fail);
    assert_eq!(posinf.div(posinf), fail);
    assert_eq!(posinf.div(neginf), fail);
    assert_eq!(neginf.div(posinf), fail);
    assert_eq!(neginf.div(neginf), fail);
    assert_eq!(posinf.div(Finite(0)), fail);
    assert_eq!(neginf.div(Finite(0)), fail);
}

#[test]
fn test_extreme_finite_operands() {
    assert_eq!(Finite(i64::MAX).add(Finite(0)), Ok(Finite(i64::MAX)));
    assert_eq!(Finite(i64::MIN).sub(Finite(0)), Ok(Finite(i64::MIN)));
    assert_eq!(Finite(i64::MIN).div(Finite(1)), Ok(Finite(i64::MIN)));
    assert_eq!(Finite(i64::MAX).mul(Finite(1)), Ok(Finite(i64::MAX)));
    let posinf: ExtendedNum<i64> = PosInf;
    assert_eq!(posinf.add(Finite(i64::MAX)), Ok(posinf));
    assert_eq!(posinf.mul(Finite(i64::MIN)), Ok(NegInf));
}
