use lindqvist_ice::rational::rat_add;
use lindqvist_ice::rational::rat_div;
use lindqvist_ice::rational::rat_mul;
use lindqvist_ice::rational::rat_sub;
use lindqvist_ice::rational::Rat;

#[test]
fn addition_is_exact() {
    let a = Rat::new(1, 2);
    let b = Rat::new(1, 3);
    let r = rat_add(&a, &b);
    assert_eq!((r.num, r.den), (5, 6));
}

#[test]
fn subtraction_is_exact() {
    let a = Rat::new(1, 2);
    let b = Rat::new(1, 3);
    let r = rat_sub(&a, &b);
    assert_eq!((r.num, r.den), (1, 6));
}

#[test]
fn multiplication_is_exact() {
    let a = Rat::new(2, 3);
    let b = Rat::new(3, 4);
    let r = rat_mul(&a, &b);
    assert_eq!((r.num, r.den), (6, 12));
}

#[test]
fn division_keeps_the_denominator_positive() {
    let a = Rat::new(1, 2);
    let pos = Rat::new(3, 4);
    let r = rat_div(&a, &pos);
    assert_eq!((r.num, r.den), (4, 6));
    let neg = Rat::new(-3, 4);
    let r = rat_div(&a, &neg);
    assert_eq!((r.num, r.den), (-4, 6));
}

#[test]
fn integers_embed_exactly() {
    let r = Rat::from_int(7);
    assert_eq!((r.num, r.den), (7, 1));
}
