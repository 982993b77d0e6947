use privacy_contracts::commitment::{
    add_commitments, combine, commit, subtract_commitments, zero, Direction,
};

fn pattern(start: u8, step: u8) -> [u8; 32] {
    let mut out = [0u8; 32];
    let mut value = start;
    for byte in out.iter_mut() {
        *byte = value;
        value = value.wrapping_add(step);
    }
    out
}

#[test]
fn addition_is_bytewise_and_wraps() {
    let mut a = [0u8; 32];
    let mut b = [0u8; 32];
    a[0] = 200;
    b[0] = 100;
    a[1] = 1;
    b[1] = 2;
    a[31] = 255;
    b[31] = 255;
    let sum = add_commitments(&a, &b);
    let mut expected = [0u8; 32];
    expected[0] = 44;
    expected[1] = 3;
    expected[31] = 254;
    assert_eq!(sum, expected);
}

#[test]
fn subtraction_is_bytewise_and_wraps() {
    let mut a = [0u8; 32];
    let mut b = [0u8; 32];
    a[0] = 100;
    b[0] = 200;
    a[1] = 5;
    b[1] = 2;
    b[31] = 1;
    let difference = subtract_commitments(&a, &b);
    let mut expected = [0u8; 32];
    expected[0] = 156;
    expected[1] = 3;
    expected[31] = 255;
    assert_eq!(difference, expected);
}

#[test]
fn zero_is_all_zero_bytes() {
    assert_eq!(zero(), [0u8; 32]);
}

#[test]
fn combining_is_associative() {
    let a = pattern(250, 3);
    let b = pattern(17, 91);
    let c = pattern(128, 255);
    assert_eq!(
        add_commitments(&add_commitments(&a, &b), &c),
        add_commitments(&a, &add_commitments(&b, &c))
    );
}

#[test]
fn combining_is_commutative() {
    let a = pattern(250, 3);
    let b = pattern(17, 91);
    assert_eq!(add_commitments(&a, &b), add_commitments(&b, &a));
}

#[test]
fn zero_is_the_identity() {
    let a = pattern(9, 41);
    assert_eq!(add_commitments(&a, &zero()), a);
    assert_eq!(add_commitments(&zero(), &a), a);
    assert_eq!(subtract_commitments(&a, &zero()), a);
}

#[test]
fn a_commitment_less_itself_is_zero() {
    let a = pattern(201, 77);
    assert_eq!(subtract_commitments(&a, &a), zero());
}

#[test]
fn subtraction_undoes_addition() {
    let a = pattern(250, 3);
    let b = pattern(17, 91);
    assert_eq!(subtract_commitments(&add_commitments(&a, &b), &b), a);
    assert_eq!(add_commitments(&subtract_commitments(&a, &b), &b), a);
}

#[test]
fn combine_follows_its_direction() {
    let a = pattern(250, 3);
    let b = pattern(17, 91);
    assert_eq!(combine(&a, &b, Direction::Add), add_commitments(&a, &b));
    assert_eq!(combine(&a, &b, Direction::Subtract), subtract_commitments(&a, &b));
    assert_ne!(combine(&a, &b, Direction::Add), combine(&a, &b, Direction::Subtract));
}

#[test]
fn commit_adds_the_value_to_every_blinding_byte() {
    let mut blinding = [0u8; 32];
    blinding[0] = 1;
    blinding[1] = 250;
    blinding[31] = 255;
    let commitment = commit(5, &blinding);
    let mut expected = [5u8; 32];
    expected[0] = 6;
    expected[1] = 255;
    expected[31] = 4;
    assert_eq!(commitment, expected);
    assert_eq!(commit(256 + 5, &blinding), expected);
    assert_eq!(commit(u64::MAX, &[1; 32]), [0u8; 32]);
}

#[test]
fn combining_mirrors_addition_of_committed_values() {
    let r = pattern(250, 3);
    let s = pattern(17, 91);
    assert_eq!(
        add_commitments(&commit(1_000, &r), &commit(234, &s)),
        commit(1_234, &add_commitments(&r, &s))
    );
    assert_eq!(
        subtract_commitments(&commit(1_000, &r), &commit(234, &s)),
        commit(766, &subtract_commitments(&r, &s))
    );
}

#[test]
fn a_committed_value_less_itself_commits_to_zero() {
    let r = pattern(250, 3);
    assert_eq!(subtract_commitments(&commit(77, &r), &commit(77, &r)), zero());
    assert_eq!(commit(0, &zero()), zero());
}

#[test]
fn a_commitment_opens_to_another_value_under_another_blinding() {
    assert_eq!(commit(3, &[10; 32]), commit(5, &[8; 32]));
}
