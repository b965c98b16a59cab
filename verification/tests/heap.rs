use rusty_matrix::prelude::{
    Error, HeapMatrix, Matrix, MatrixAlloc, MatrixOp, MatrixRef, MatrixScalarOp,
};

#[test]
fn heap_index_check() {
    let mat1 = HeapMatrix::new_owned_2d([[100, 200], [300, 400]]);

    assert_eq!(mat1.get_at_unchecked(0, 1), 300);
}

#[test]
fn heap_add_check() {
    let mat1 = HeapMatrix::new_owned_2d([[1, 2], [3, 4]]);
    let mat2 = HeapMatrix::new_owned_2d([[1, 2], [3, 4]]);

    assert_eq!(
        mat1.clone() + mat2.clone(),
        Ok(HeapMatrix::new_owned_2d([[2, 4], [6, 8]]))
    );
    assert_ne!(
        mat1 + mat2,
        Ok(HeapMatrix::new_owned_2d([[10, 10], [10, 10]]))
    );
}

#[test]
fn heap_sub_check() {
    let mat1 = HeapMatrix::new_owned_2d([[100; 3]; 3]);
    let mat2 = HeapMatrix::new_owned_2d([[25; 3]; 3]);

    assert_eq!(mat1 - mat2, Ok(HeapMatrix::new_owned_2d([[75; 3]; 3])));
}

#[test]
fn heap_mul_check() {
    let mat1 = HeapMatrix::new_owned_2d([[1, 2], [3, 4], [5, 6]]);
    let mat2 = HeapMatrix::new_owned_2d([[1, 2, 3], [4, 5, 6]]);

    let res = mat1.clone() * mat2.clone();

    assert_eq!(
        res,
        Ok(HeapMatrix::new_owned_2d([[9, 12, 15], [19, 26, 33], [29, 40, 51]]))
    );
}

#[test]
fn heap_insert_row_check() {
    let mut mat = HeapMatrix::new_owned_2d([[1, 2], [3, 4]]);

    mat.insert_row([5, 6]).unwrap();
    assert_eq!(mat, HeapMatrix::new_owned_2d([[1, 2], [3, 4], [5, 6]]));

    let res = mat.insert_row([7, 8, 9]);
    assert_eq!(res, Err(Error::IncorrectLength));
}

#[test]
fn heap_rejected_row_changes_nothing() {
    let mut mat = HeapMatrix::new_owned_2d([[1, 2], [3, 4]]);

    assert_eq!(mat.insert_row([7, 8, 9]), Err(Error::IncorrectLength));
    assert_eq!(mat.insert_row([7]), Err(Error::IncorrectLength));
    assert_eq!(mat.insert_row::<0>([]), Err(Error::IncorrectLength));
    assert_eq!(mat.get_x_len(), 2);
    assert_eq!(mat.get_y_len(), 2);
    assert_eq!(mat.get_data(), &[1, 2, 3, 4]);
}

#[test]
fn heap_inserted_row_is_the_last_row() {
    let mut mat = HeapMatrix::new_owned_2d([[1, 2], [3, 4]]);

    assert_eq!(mat.insert_row([5, 6]), Ok(()));
    assert_eq!(mat.get_x_len(), 2);
    assert_eq!(mat.get_y_len(), 3);
    assert_eq!(mat.get_data().len(), 6);
    assert_eq!(mat.get_at_unchecked(0, 2), 5);
    assert_eq!(mat.get_at_unchecked(1, 2), 6);
    assert_eq!(mat.get_row_at(2), &[5, 6]);
    assert_eq!(mat.get_row_at(0), &[1, 2]);
}

#[test]
fn heap_sub_minds_the_order() {
    let mat1 = HeapMatrix::new_owned_2d([[100; 3]; 3]);
    let mat2 = HeapMatrix::new_owned_2d([[25; 3]; 3]);

    assert_eq!(
        mat2.clone() - mat1.clone(),
        Ok(HeapMatrix::new_owned_2d([[-75; 3]; 3]))
    );
    assert_ne!(mat2.clone() - mat1.clone(), mat1 - mat2);
}

#[test]
fn heap_has_one_cell_for_each_place() {
    let from_rows = HeapMatrix::new_owned_2d([[1, 2, 3], [4, 5, 6]]);
    assert_eq!(from_rows.get_x_len(), 3);
    assert_eq!(from_rows.get_y_len(), 2);
    assert_eq!(from_rows.get_data().len(), 6);

    let from_cells = HeapMatrix::new(&[1, 2, 3, 4, 5, 6], 2, 3).unwrap();
    assert_eq!(from_cells.get_x_len(), 2);
    assert_eq!(from_cells.get_y_len(), 3);
    assert_eq!(from_cells.get_data().len(), 6);

    let from_vecs = HeapMatrix::new_2d(vec![vec![1], vec![2], vec![3]]).unwrap();
    assert_eq!(from_vecs.get_x_len(), 1);
    assert_eq!(from_vecs.get_y_len(), 3);
    assert_eq!(from_vecs.get_data().len(), 3);

    let from_array = HeapMatrix::<i32>::new_owned_1d::<3, 2, 6>([1, 2, 3, 4, 5, 6]);
    assert_eq!(from_array.get_x_len(), 3);
    assert_eq!(from_array.get_y_len(), 2);
    assert_eq!(from_array.get_data().len(), 6);
}

#[test]
fn heap_new_checks_the_length() {
    let cells = [1, 2, 3, 4, 5, 6];

    assert_eq!(
        HeapMatrix::new(&cells, 3, 2),
        Ok(HeapMatrix::new_owned_2d([[1, 2, 3], [4, 5, 6]]))
    );
    assert_eq!(
        HeapMatrix::new(&cells, 2, 3),
        Ok(HeapMatrix::new_owned_2d([[1, 2], [3, 4], [5, 6]]))
    );
    assert_eq!(HeapMatrix::new(&cells, 2, 2), Err(Error::IncorrectLength));
    assert_eq!(HeapMatrix::new(&cells, 4, 2), Err(Error::IncorrectLength));
    assert_eq!(
        HeapMatrix::new(&cells, usize::MAX, 2),
        Err(Error::IncorrectLength)
    );
    assert_eq!(
        HeapMatrix::new(&cells, usize::MAX, usize::MAX),
        Err(Error::IncorrectLength)
    );
}

#[test]
fn heap_new_2d_wants_rows_of_one_length() {
    assert_eq!(
        HeapMatrix::new_2d(vec![vec![1, 2, 3], vec![4, 5, 6]]),
        Ok(HeapMatrix::new_owned_2d([[1, 2, 3], [4, 5, 6]]))
    );
    assert_eq!(
        HeapMatrix::new_2d(vec![vec![1, 2, 3], vec![4, 5]]),
        Err(Error::IncorrectLength)
    );
    assert_eq!(
        HeapMatrix::new_2d(vec![vec![1, 2], vec![4, 5, 6]]),
        Err(Error::IncorrectLength)
    );
}

#[test]
fn heap_without_cells() {
    let none = HeapMatrix::<i32>::new_2d(vec![]).unwrap();
    assert_eq!(none.get_x_len(), 0);
    assert_eq!(none.get_y_len(), 0);
    assert_eq!(none.first(), None);
    assert_eq!(none.last(), None);
    assert_eq!(none.get_at(0, 0), Err(Error::OutOfRange));
    assert_eq!(none.to_printable(), "");

    let mut no_rows = HeapMatrix::<i32>::new(&[], 2, 0).unwrap();
    assert_eq!(no_rows.to_printable(), "");
    assert_eq!(no_rows.insert_row([1, 2]), Ok(()));
    assert_eq!(no_rows, HeapMatrix::new_owned_2d([[1, 2]]));

    let no_columns = HeapMatrix::<i32>::new_2d(vec![vec![], vec![]]).unwrap();
    assert_eq!(no_columns.get_x_len(), 0);
    assert_eq!(no_columns.get_y_len(), 2);
    assert_eq!(no_columns.to_printable(), "\n\n");
}

#[test]
fn heap_mat_new_builds_from_rows() {
    let rows: [&[i32]; 2] = [&[1, 2, 3], &[4, 5, 6]];
    assert_eq!(
        HeapMatrix::mat_new(&rows),
        Ok(HeapMatrix::new_owned_2d([[1, 2, 3], [4, 5, 6]]))
    );

    let ragged: [&[i32]; 2] = [&[1, 2, 3], &[4, 5]];
    assert_eq!(
        HeapMatrix::<i32>::mat_new(&ragged),
        Err(Error::IncorrectLength)
    );

    assert_eq!(
        HeapMatrix::mat_new_vec(vec![vec![1, 2], vec![3, 4]]),
        Ok(HeapMatrix::new_owned_2d([[1, 2], [3, 4]]))
    );
    assert_eq!(
        HeapMatrix::mat_new_1d(&[1, 2, 3, 4], 2, 2),
        Ok(HeapMatrix::new_owned_2d([[1, 2], [3, 4]]))
    );
    assert_eq!(
        HeapMatrix::mat_new_1d(&[1, 2, 3], 2, 2),
        Err(Error::IncorrectLength)
    );
}

#[test]
fn heap_data_is_row_major() {
    let mat = HeapMatrix::new_owned_2d([[1, 2, 3], [4, 5, 6]]);

    assert_eq!(mat.get_data(), &[1, 2, 3, 4, 5, 6]);
    assert_eq!(mat.first(), Some(&1));
    assert_eq!(mat.last(), Some(&6));
    assert_eq!(mat.get_row_at(0), &[1, 2, 3]);
    assert_eq!(mat.get_row_at(1), &[4, 5, 6]);
    assert_eq!(mat.get_at(2, 0), Ok(3));
    assert_eq!(mat.get_at(0, 1), Ok(4));
    assert_eq!(mat.get_at(0, 2), Err(Error::OutOfRange));
    assert_eq!(mat.get_at(usize::MAX, 1), Err(Error::OutOfRange));
}

#[test]
fn heap_checked_access_goes_by_the_extents() {
    let mut mat = HeapMatrix::new_owned_2d([[100, 200], [300, 400]]);

    assert_eq!(mat.get_at(1, 0), Ok(200));
    assert_eq!(mat.get_at(0, 1), Ok(300));
    assert_eq!(mat.get_at(2, 0), Err(Error::OutOfRange));
    assert_eq!(mat.get_at(3, 0), Err(Error::OutOfRange));
    assert_eq!(mat.get_at(0, 2), Err(Error::OutOfRange));

    mat.insert_row([500, 600]).unwrap();
    assert_eq!(mat.get_at(0, 2), Ok(500));
    assert_eq!(mat.get_at(1, 2), Ok(600));
    assert_eq!(mat.get_at(2, 1), Err(Error::OutOfRange));
    assert_eq!(mat.get_at(4, 0), Err(Error::OutOfRange));

    let no_columns = HeapMatrix::<i32>::new(&[], 0, 3).unwrap();
    assert_eq!(no_columns.get_at(0, 0), Err(Error::OutOfRange));
}

#[test]
fn heap_wrong_row_is_refused_whatever_the_row_count() {
    let mut full = HeapMatrix::<i32>::new(&[], 0, usize::MAX).unwrap();

    assert_eq!(full.insert_row([1]), Err(Error::IncorrectLength));
    assert_eq!(full.insert_row([1, 2, 3]), Err(Error::IncorrectLength));
    assert_eq!(full.get_x_len(), 0);
    assert_eq!(full.get_y_len(), usize::MAX);
    assert_eq!(full.get_data().len(), 0);
}

#[test]
fn heap_writes_reach_the_cells() {
    let mut mat = HeapMatrix::new_owned_2d([[1, 2, 3], [4, 5, 6]]);

    mat.get_data_mut()[4] = 50;
    *mat.first_mut().unwrap() = 10;
    *mat.last_mut().unwrap() = 60;
    mat.get_row_at_mut(1)[0] = 40;
    assert_eq!(mat, HeapMatrix::new_owned_2d([[10, 2, 3], [40, 50, 60]]));
}

#[test]
fn heap_scalar_operations() {
    let mat = HeapMatrix::new_owned_2d([[1, 2], [3, 4]]);

    assert_eq!(
        mat.scalar_add(10),
        HeapMatrix::new_owned_2d([[11, 12], [13, 14]])
    );
    assert_eq!(mat.scalar_sub(1), HeapMatrix::new_owned_2d([[0, 1], [2, 3]]));
    assert_eq!(mat.scalar_mul(3), HeapMatrix::new_owned_2d([[3, 6], [9, 12]]));
    assert_eq!(
        mat.clone() + 10,
        HeapMatrix::new_owned_2d([[11, 12], [13, 14]])
    );
    assert_eq!(mat.clone() - 1, HeapMatrix::new_owned_2d([[0, 1], [2, 3]]));
    assert_eq!(mat * 3, HeapMatrix::new_owned_2d([[3, 6], [9, 12]]));
}

#[test]
fn heap_cell_by_cell_product() {
    let mat1 = HeapMatrix::new_owned_2d([[1, 2], [3, 4]]);
    let mat2 = HeapMatrix::new_owned_2d([[5, 6], [7, 8]]);

    assert_eq!(
        mat1.mat_mul_elementwise(&mat2),
        Ok(HeapMatrix::new_owned_2d([[5, 12], [21, 32]]))
    );
}

#[test]
fn heap_sum_with_differing_shapes() {
    let mat1 = HeapMatrix::new_owned_2d([[1, 2], [3, 4], [5, 6]]);
    let mat2 = HeapMatrix::new_owned_2d([[1, 2, 3], [4, 5, 6]]);
    let mat3 = HeapMatrix::new_owned_2d([[1, 2], [3, 4]]);

    assert_eq!(
        mat1.mat_add(&mat2),
        Err(Error::NotEq(String::from("2x3 != 3x2")))
    );
    assert_eq!(
        mat1.mat_sub(&mat3),
        Err(Error::NotEq(String::from("2x3 != 2x2")))
    );
    assert_eq!(
        mat3.clone() + mat1.clone(),
        Err(Error::NotEq(String::from("2x2 != 2x3")))
    );
    assert_eq!(
        mat3 - mat1,
        Err(Error::NotEq(String::from("2x2 != 2x3")))
    );
}

#[test]
fn heap_product_with_differing_extents() {
    let mat1 = HeapMatrix::new_owned_2d([[1, 2], [3, 4], [5, 6]]);
    let wide = HeapMatrix::new_owned_2d([[0; 12]; 10]);

    assert_eq!(
        mat1.dot_prod(&mat1),
        Err(Error::NotEq(String::from("2 != 3")))
    );
    assert_eq!(
        wide.clone() * mat1.clone(),
        Err(Error::NotEq(String::from("12 != 3")))
    );
    assert_eq!(mat1 * wide, Err(Error::NotEq(String::from("2 != 10"))));
}

#[test]
fn heap_product_of_no_rows() {
    let no_rows = HeapMatrix::<i32>::new(&[], 2, 0).unwrap();
    let mat = HeapMatrix::new_owned_2d([[1, 2, 3], [4, 5, 6]]);

    let res = no_rows.dot_prod(&mat).unwrap();
    assert_eq!(res.get_x_len(), 3);
    assert_eq!(res.get_y_len(), 0);
    assert_eq!(res.get_data().len(), 0);
}

#[test]
fn heap_product_sums_from_zero() {
    let row = HeapMatrix::new_owned_2d([[1, 2, 3]]);
    let column = HeapMatrix::new_owned_2d([[4], [5], [6]]);

    assert_eq!(row.dot_prod(&column), Ok(HeapMatrix::new_owned_2d([[32]])));
    assert_eq!(
        column.dot_prod(&row),
        Ok(HeapMatrix::new_owned_2d([[4, 8, 12], [5, 10, 15], [6, 12, 18]]))
    );

    let no_columns = HeapMatrix::<i32>::new(&[], 0, 2).unwrap();
    let no_rows = HeapMatrix::<i32>::new(&[], 2, 0).unwrap();
    assert_eq!(
        no_columns.dot_prod(&no_rows),
        Ok(HeapMatrix::new_owned_2d([[0, 0], [0, 0]]))
    );
}

#[test]
fn heap_printable() {
    let mat = HeapMatrix::new_owned_2d([[1, 2, 3], [40, 50, 60]]);

    assert_eq!(mat.to_printable(), "1\t2\t3\t\n40\t50\t60\t\n");
}

#[test]
fn heap_clones_are_independent() {
    let mat = HeapMatrix::new_owned_2d([[1, 2], [3, 4]]);
    let mut copy = mat.clone();

    assert_eq!(mat, copy);
    copy.insert_row([5, 6]).unwrap();
    assert_eq!(mat, HeapMatrix::new_owned_2d([[1, 2], [3, 4]]));
    assert_ne!(mat, copy);
}

#[test]
fn heap_equality_minds_the_shape() {
    let wide = HeapMatrix::new(&[1, 2, 3, 4, 5, 6], 3, 2).unwrap();
    let tall = HeapMatrix::new(&[1, 2, 3, 4, 5, 6], 2, 3).unwrap();

    assert_ne!(wide, tall);
    assert_eq!(wide, HeapMatrix::new_owned_2d([[1, 2, 3], [4, 5, 6]]));
}

#[test]
fn heap_of_floats() {
    let mat1 = HeapMatrix::new_owned_2d([[0.5, 1.5], [2.5, 3.5]]);
    let mat2 = HeapMatrix::new_owned_2d([[0.25, 0.25], [0.25, 0.25]]);

    assert_eq!(
        mat1.clone() + mat2.clone(),
        Ok(HeapMatrix::new_owned_2d([[0.75, 1.75], [2.75, 3.75]]))
    );
    assert_eq!(
        mat1 * mat2,
        Ok(HeapMatrix::new_owned_2d([[0.5, 0.5], [1.5, 1.5]]))
    );
}
