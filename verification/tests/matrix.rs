use rustracer::coord::tuple;
use rustracer::matrix::{identity_matrix, Matrix};
use rustracer::rat::{nums_equal, Rat};

fn q(n: i128, d: i128) -> Rat {
    Rat::new(n, d)
}

fn qi(n: i128) -> Rat {
    Rat::from_int(n)
}

fn m_ints(vals: &[i128]) -> Matrix {
    Matrix::new(vals.to_vec(), 1)
}

fn m_frac(vals: &[i128], den: i128) -> Matrix {
    Matrix::new(vals.to_vec(), den)
}

#[test]
fn test_constructing_and_inspecting() {
    let m = m_frac(
        &[10, 20, 30, 40, 55, 65, 75, 85, 90, 100, 110, 120, 135, 145, 155, 165],
        10,
    );
    assert!(nums_equal(&m.get(0, 0), &qi(1)));
    assert!(nums_equal(&m.get(0, 3), &qi(4)));
    assert!(nums_equal(&m.get(1, 0), &q(55, 10)));
    assert!(nums_equal(&m.get(1, 2), &q(75, 10)));
    assert!(nums_equal(&m.get(2, 2), &qi(11)));
    assert!(nums_equal(&m.get(3, 0), &q(135, 10)));
    assert!(nums_equal(&m.get(3, 2), &q(155, 10)));
}

#[test]
fn test_2x2_matrix_representable() {
    let m = m_ints(&[-3, 5, 1, -2]);
    assert!(nums_equal(&m.get(0, 0), &qi(-3)));
    assert!(nums_equal(&m.get(0, 1), &qi(5)));
    assert!(nums_equal(&m.get(1, 0), &qi(1)));
    assert!(nums_equal(&m.get(1, 1), &qi(-2)));
}

#[test]
fn test_3x3_matrix_representable() {
    let m = m_ints(&[-3, 5, 0, 1, -2, -7, 0, 1, 1]);
    assert!(nums_equal(&m.get(0, 0), &qi(-3)));
    assert!(nums_equal(&m.get(1, 1), &qi(-2)));
    assert!(nums_equal(&m.get(2, 2), &qi(1)));
}

#[test]
fn test_matrix_equality_with_identical_matrices() {
    let ma = m_ints(&[1, 2, 3, 4, 5, 6, 7, 8, 9, 8, 7, 6, 5, 4, 3, 2]);
    let mb = m_ints(&[1, 2, 3, 4, 5, 6, 7, 8, 9, 8, 7, 6, 5, 4, 3, 2]);
    assert!(ma.approx_eq(&mb));
}

#[test]
fn test_matrix_equality_with_different_matrices() {
    let ma = m_ints(&[1, 2, 3, 4, 5, 6, 7, 8, 9, 8, 7, 6, 5, 4, 3, 2]);
    let mb = m_ints(&[2, 3, 4, 5, 6, 7, 8, 9, 8, 7, 6, 5, 4, 3, 2, 1]);
    assert!(!ma.approx_eq(&mb));
}

#[test]
fn test_multiplying_two_matrixes() {
    let ma = m_ints(&[1, 2, 3, 4, 5, 6, 7, 8, 9, 8, 7, 6, 5, 4, 3, 2]);
    let mb = m_ints(&[-2, 1, 2, 3, 3, 2, 1, -1, 4, 3, 6, 5, 1, 2, 7, 8]);
    let expect = m_ints(&[20, 22, 50, 48, 44, 54, 114, 108, 40, 58, 110, 102, 16, 26, 46, 42]);
    assert!(ma.mul_matrix(&mb).approx_eq(&expect));
}

#[test]
fn test_multiply_matrix_by_a_tuple() {
    let ma = m_ints(&[1, 2, 3, 4, 2, 4, 4, 2, 8, 6, 4, 1, 0, 0, 0, 1]);
    let b = tuple(qi(1), qi(2), qi(3), qi(1));
    let r = ma.mul_tuple(&b);
    assert!(r.approx_eq(&tuple(qi(18), qi(24), qi(33), qi(1))));
}

#[test]
fn test_multiplying_matrix_by_identity() {
    let m = m_ints(&[0, 1, 2, 4, 1, 2, 4, 8, 2, 4, 8, 16, 4, 8, 16, 32]);
    assert!(m.mul_matrix(&identity_matrix()).approx_eq(&m));
}

#[test]
fn test_transpose_a_matrix() {
    let m = m_ints(&[0, 9, 3, 0, 9, 8, 0, 8, 1, 8, 5, 3, 0, 0, 5, 8]);
    let expect = m_ints(&[0, 9, 1, 0, 9, 8, 8, 0, 3, 0, 5, 5, 0, 8, 3, 8]);
    assert!(m.transpose().approx_eq(&expect));
}

#[test]
fn test_transpose_identity_matrix() {
    assert!(identity_matrix().transpose().approx_eq(&identity_matrix()));
}

#[test]
fn test_determinant_of_2x2_matrix() {
    let m = m_ints(&[1, 5, -3, 2]);
    assert!(nums_equal(&m.determinant(), &qi(17)));
}

#[test]
fn test_submatrix_of_3x3_matrix() {
    let m = m_ints(&[1, 5, 0, -3, 2, 7, 0, 6, -3]);
    let expect = m_ints(&[-3, 2, 0, 6]);
    assert!(m.submatrix(0, 2).approx_eq(&expect));
}

#[test]
fn test_submatrix_of_4x4_matrix() {
    let m = m_ints(&[-6, 1, 1, 6, -8, 5, 8, 6, -1, 0, 8, 2, -7, 1, -1, 1]);
    let expect = m_ints(&[-6, 1, 6, -8, 8, 6, -7, -1, 1]);
    assert!(m.submatrix(2, 1).approx_eq(&expect));
}

#[test]
fn test_calculating_minor_of_3x3_matrix() {
    let a = m_ints(&[3, 5, 0, 2, -1, -7, 6, -1, 5]);
    let b = a.submatrix(1, 0);
    assert!(nums_equal(&b.determinant(), &qi(25)));
    assert!(nums_equal(&a.minor(1, 0), &qi(25)));
}

#[test]
fn test_calculating_cofactor_of_3x3_matrix() {
    let a = m_ints(&[3, 5, 0, 2, -1, -7, 6, -1, 5]);
    assert!(nums_equal(&a.minor(0, 0), &qi(-12)));
    assert!(nums_equal(&a.cofactor(0, 0), &qi(-12)));
    assert!(nums_equal(&a.minor(1, 0), &qi(25)));
    assert!(nums_equal(&a.cofactor(1, 0), &qi(-25)));
}

#[test]
fn test_determinant_of_3x3_matrix() {
    let a = m_ints(&[1, 2, 6, -5, 8, -4, 2, 6, 4]);
    assert!(nums_equal(&a.cofactor(0, 0), &qi(56)));
    assert!(nums_equal(&a.cofactor(0, 1), &qi(12)));
    assert!(nums_equal(&a.cofactor(0, 2), &qi(-46)));
    assert!(nums_equal(&a.determinant(), &qi(-196)));
}

#[test]
fn test_determinant_of_4x4_matrix() {
    let a = m_ints(&[-2, -8, 3, 5, -3, 1, 7, 3, 1, 2, -9, 6, -6, 7, 7, -9]);
    assert!(nums_equal(&a.cofactor(0, 0), &qi(690)));
    assert!(nums_equal(&a.cofactor(0, 1), &qi(447)));
    assert!(nums_equal(&a.cofactor(0, 2), &qi(210)));
    assert!(nums_equal(&a.cofactor(0, 3), &qi(51)));
    assert!(nums_equal(&a.determinant(), &qi(-4071)));
}

#[test]
fn test_an_invertible_matrix_for_invertability() {
    let a = m_ints(&[6, 4, 4, 4, 5, 5, 7, 6, 4, -9, 3, -7, 9, 1, 7, -6]);
    assert!(nums_equal(&a.determinant(), &qi(-2120)));
    assert!(a.invertible());
}

#[test]
fn test_a_noninvertible_matrix_for_invertability() {
    let a = m_ints(&[-4, 2, -2, -3, 9, 6, 2, 6, 0, -5, 1, -5, 0, 0, 0, 0]);
    assert!(nums_equal(&a.determinant(), &qi(0)));
    assert!(!a.invertible());
}

#[test]
fn test_calculate_inverse_of_matrix() {
    let a = m_ints(&[-5, 2, 6, -8, 1, -5, 1, 8, 7, 7, -6, -7, 1, -3, 7, 4]);
    let b = a.inverse();
    assert!(nums_equal(&a.determinant(), &qi(532)));
    assert!(nums_equal(&a.cofactor(2, 3), &qi(-160)));
    assert!(nums_equal(&b.get(3, 2), &q(-160, 532)));
    assert!(nums_equal(&a.cofactor(3, 2), &qi(105)));
    assert!(nums_equal(&b.get(2, 3), &q(105, 532)));
    let expect = m_frac(
        &[
            21805, 45113, 24060, -4511, -80827, -145677, -44361, 52068, -7895, -22368, -5263,
            19737, -52256, -81391, -30075, 30639,
        ],
        100000,
    );
    assert!(b.approx_eq(&expect));
}

#[test]
fn test_calculating_inverse_of_another_matrix() {
    let a = m_ints(&[8, -5, 9, 2, 7, 5, 6, 1, -6, 0, 9, 6, -3, 0, -9, -4]);
    let expect = m_frac(
        &[
            -15385, -15385, -28205, -53846, -7692, 12308, 2564, 3077, 35897, 35897, 43590, 92308,
            -69231, -69231, -76923, -192308,
        ],
        100000,
    );
    assert!(a.inverse().approx_eq(&expect));
}

#[test]
fn test_calculating_inverse_of_a_third_matrix() {
    let a = m_ints(&[9, 3, 0, 9, -5, -2, -6, -3, -4, 9, 6, 4, -7, 6, 6, 2]);
    let expect = m_frac(
        &[
            -4074, -7778, 14444, -22222, -7778, 3333, 36667, -33333, -2901, -14630, -10926, 12963,
            17778, 6667, -26667, 33333,
        ],
        100000,
    );
    assert!(a.inverse().approx_eq(&expect));
}

#[test]
fn test_multiplying_a_product_by_its_inverse() {
    let a = m_ints(&[3, -9, 7, 3, 3, -8, 2, -9, -4, 4, 4, 1, -6, 5, -1, 1]);
    let b = m_ints(&[8, 2, 2, 2, 3, -1, 7, 0, 7, 0, 5, 4, 6, -2, 0, 5]);
    let c = a.mul_matrix(&b);
    assert!(c.mul_matrix(&b.inverse()).approx_eq(&a));
}

#[test]
fn identity_matrix_is_its_own_inverse() {
    let id = identity_matrix();
    assert!(id.inverse().approx_eq(&id));
}
