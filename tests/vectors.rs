use vecthrust::vectors::Vector as ModuleVector;
use vecthrust::{render_coordinates, Vector, VectorError};

fn v(coordinates: &[f64]) -> Vector<f64> {
    Vector::new(coordinates.to_vec()).unwrap()
}

fn close(a: &Vector<f64>, b: &Vector<f64>) -> bool {
    a.dimension() == b.dimension()
        && a
            .coordinates()
            .iter()
            .zip(b.coordinates().iter())
            .all(|(x, y)| (x - y).abs() <= 1e-9)
}

#[test]
fn lib_test_create_with_empty_coordinates() {
    let r = Vector::<f64>::new(vec![]);
    assert_eq!(r, Err(VectorError::EmptyVector));
}

#[test]
fn vectors_test_create_with_empty_coordinates() {
    let r = ModuleVector::<f64>::new(vec![]);
    assert_eq!(r, Err(VectorError::EmptyVector));
}

#[test]
fn new_gives_dimension_of_input() {
    let vector = v(&[1.0, 1.0]);
    assert_eq!(2, vector.dimension());
}

#[test]
fn new_keeps_coordinates_in_order() {
    let c = vec![3.5, -1.0, 0.0, 7.25];
    let vector = Vector::new(c.clone()).unwrap();
    assert_eq!(vector.dimension(), c.len());
    assert_eq!(vector.coordinates(), &c);
}

#[test]
fn new_accepts_single_coordinate() {
    let vector = v(&[4.0]);
    assert_eq!(vector.dimension(), 1);
}

#[test]
fn new_accepts_nan_and_infinity() {
    let vector = v(&[f64::NAN, f64::INFINITY]);
    assert_eq!(vector.dimension(), 2);
    assert!(vector.coordinates()[0].is_nan());
}

#[test]
fn to_string_formats_coordinates() {
    let vector = v(&[1.0, 2.5099]);
    assert_eq!("Vector: [1.0, 2.5099]", vector.to_string());
}

#[test]
fn to_string_single_coordinate() {
    let vector = v(&[-3.0]);
    assert_eq!("Vector: [-3.0]", vector.to_string());
}

#[test]
fn to_string_integer_coordinates() {
    let vector = Vector::new(vec![1i64, 20, -3]).unwrap();
    assert_eq!("Vector: [1, 20, -3]", vector.to_string());
}

#[test]
fn render_coordinates_lays_out_parts() {
    assert_eq!(render_coordinates(&vec![]), "Vector: []");
    assert_eq!(render_coordinates(&vec!["a".to_string()]), "Vector: [a]");
    let parts = vec!["1.0".to_string(), "x".to_string(), "".to_string()];
    assert_eq!(render_coordinates(&parts), "Vector: [1.0, x, ]");
}

#[test]
fn equals_same_coordinates() {
    let vector1 = v(&[1.0, 2.5099]);
    let vector2 = v(&[1.0, 2.5099]);
    assert!(vector1.equals(&vector2));
    assert!(vector1 == vector2);
}

#[test]
fn equals_distinguishes_coordinates() {
    assert!(!v(&[1.0, 2.0]).equals(&v(&[2.0, 2.0])));
    assert!(!(v(&[1.0, 2.5099]) == v(&[2.0, 2.5099])));
}

#[test]
fn equals_distinguishes_order() {
    assert!(!v(&[1.0, 2.0]).equals(&v(&[2.0, 1.0])));
}

#[test]
fn equals_rejects_other_dimension() {
    assert!(!v(&[1.0, 2.0]).equals(&v(&[1.0, 2.0, 0.0])));
    assert!(!v(&[1.0, 2.0, 0.0]).equals(&v(&[1.0, 2.0])));
}

#[test]
fn equals_is_reflexive() {
    let a = v(&[1.0, -2.0, 3.75]);
    assert!(a.equals(&a));
}

#[test]
fn equals_is_symmetric_and_transitive() {
    let a = v(&[0.5, 1.5]);
    let b = v(&[0.5, 1.5]);
    let c = v(&[0.5, 1.5]);
    assert!(a.equals(&b) && b.equals(&a));
    assert!(b.equals(&c) && a.equals(&c));
}

#[test]
fn equals_is_not_reflexive_with_nan() {
    let a = v(&[f64::NAN]);
    assert!(!a.equals(&a));
}

#[test]
fn add_scenario() {
    let vector1 = v(&[1.0, 2.0]);
    let vector2 = v(&[0.0, 4.0]);
    let result1 = v(&[1.0, 6.0]);
    assert_eq!(result1, vector1.add(&vector2).unwrap());
}

#[test]
fn subtract_scenario() {
    let vector1 = v(&[1.0, 2.0]);
    let vector2 = v(&[0.0, 4.0]);
    let result1 = v(&[1.0, -2.0]);
    assert_eq!(result1, vector1.subtract(&vector2).unwrap());
}

#[test]
fn scale_scenario() {
    let vector = v(&[1.0, 2.0]);
    let result = v(&[2.0, 4.0]);
    assert_eq!(result, vector.scale(2.0));
}

#[test]
fn operands_are_left_unchanged() {
    let a = v(&[1.0, 2.0]);
    let b = v(&[3.0, 4.0]);
    let _ = a.add(&b).unwrap();
    let _ = a.subtract(&b).unwrap();
    let _ = a.scale(5.0);
    assert_eq!(a, v(&[1.0, 2.0]));
    assert_eq!(b, v(&[3.0, 4.0]));
}

#[test]
fn add_rejects_dimension_mismatch() {
    let a = v(&[1.0, 2.0, 3.0]);
    let b = v(&[1.0, 2.0]);
    assert_eq!(
        a.add(&b),
        Err(VectorError::DimensionMismatch { left: 3, right: 2 })
    );
    assert_eq!(
        b.add(&a),
        Err(VectorError::DimensionMismatch { left: 2, right: 3 })
    );
}

#[test]
fn subtract_rejects_dimension_mismatch() {
    let a = v(&[1.0]);
    let b = v(&[1.0, 2.0]);
    assert_eq!(
        a.subtract(&b),
        Err(VectorError::DimensionMismatch { left: 1, right: 2 })
    );
    assert_eq!(
        b.subtract(&a),
        Err(VectorError::DimensionMismatch { left: 2, right: 1 })
    );
}

#[test]
fn add_is_commutative() {
    let a = v(&[1.25, -7.5, 3.0e10]);
    let b = v(&[0.1, 2.2, -4.0]);
    assert!(a.add(&b).unwrap().equals(&b.add(&a).unwrap()));
}

#[test]
fn add_zero_is_identity() {
    let a = v(&[1.25, -7.5, 3.0e10]);
    let zero = v(&vec![0.0; a.dimension()]);
    assert!(a.add(&zero).unwrap().equals(&a));
}

#[test]
fn subtract_undoes_add() {
    let a = v(&[1.25, -7.5, 0.3]);
    let b = v(&[0.1, 2.2, -4.0]);
    let back = a.add(&b).unwrap().subtract(&b).unwrap();
    assert!(close(&back, &a));
}

#[test]
fn scale_by_one_is_identity() {
    let a = v(&[1.25, -7.5, 0.3]);
    assert!(a.scale(1.0).equals(&a));
}

#[test]
fn scale_distributes_over_scalar_sum() {
    let a = v(&[1.25, -7.5, 0.3]);
    let (k1, k2) = (0.7, 2.9);
    let left = a.scale(k1 + k2);
    let right = a.scale(k1).add(&a.scale(k2)).unwrap();
    assert!(close(&left, &right));
}

#[test]
fn integer_coordinates_add_exactly() {
    let a = Vector::new(vec![1i64, -2, 3]).unwrap();
    let b = Vector::new(vec![10i64, 20, 30]).unwrap();
    assert_eq!(a.add(&b).unwrap().coordinates(), &vec![11i64, 18, 33]);
    assert_eq!(a.subtract(&b).unwrap().coordinates(), &vec![-9i64, -22, -27]);
    assert_eq!(a.scale(3).coordinates(), &vec![3i64, -6, 9]);
}
