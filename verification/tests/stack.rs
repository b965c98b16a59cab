use rusty_matrix::prelude::{
    Error, Matrix, MatrixAlloc, MatrixOp, MatrixRef, MatrixScalarOp, StackMatrix,
};

#[test]
fn stack_index_check() {
    let mat1 = StackMatrix::new([[100, 200], [300, 400]]);

    assert_eq!(mat1.get_at_unchecked(0, 1), 300);
}

#[test]
fn stack_add_check() {
    let mat1 = StackMatrix::new([[1, 2], [3, 4]]);
    let mat2 = StackMatrix::new([[1, 2], [3, 4]]);

    assert_eq!(mat1 + mat2, StackMatrix::new([[2, 4], [6, 8]]));
    assert_ne!(mat1 + mat2, StackMatrix::new([[10, 10], [10, 10]]));
}

#[test]
fn stack_sub_check() {
    let mat1 = StackMatrix::new([[100; 3]; 3]);
    let mat2 = StackMatrix::new([[25; 3]; 3]);

    assert_eq!(mat1 - mat2, StackMatrix::new([[75; 3]; 3]));
}

#[test]
fn stack_mul_check() {
    let mat1 = StackMatrix::new([[1, 2], [3, 4], [5, 6]]);
    let mat2 = StackMatrix::new([[1, 2, 3], [4, 5, 6]]);

    let res = mat1 * mat2;

    assert_eq!(
        res,
        StackMatrix::new([[9, 12, 15], [19, 26, 33], [29, 40, 51]])
    );
}

#[test]
fn stack_sub_minds_the_order() {
    let mat1 = StackMatrix::new([[100; 3]; 3]);
    let mat2 = StackMatrix::new([[25; 3]; 3]);

    assert_eq!(mat2 - mat1, StackMatrix::new([[-75; 3]; 3]));
    assert_ne!(mat2 - mat1, mat1 - mat2);
}

#[test]
fn stack_has_one_cell_for_each_place() {
    let mat = StackMatrix::new([[1, 2, 3], [4, 5, 6]]);

    assert_eq!(mat.get_x_len(), 3);
    assert_eq!(mat.get_y_len(), 2);
    assert_eq!(mat.get_data().len(), 6);
}

#[test]
fn stack_data_is_row_major() {
    let mat = StackMatrix::new([[1, 2, 3], [4, 5, 6]]);

    assert_eq!(mat.get_data(), &[1, 2, 3, 4, 5, 6]);
    assert_eq!(mat.first(), Some(&1));
    assert_eq!(mat.last(), Some(&6));
    assert_eq!(mat.get_row_at(0), &[1, 2, 3]);
    assert_eq!(mat.get_row_at(1), &[4, 5, 6]);
    assert_eq!(mat.get_at_unchecked(2, 0), 3);
    assert_eq!(mat.get_at_unchecked(1, 1), 5);
}

#[test]
fn stack_checked_access() {
    let mat = StackMatrix::new([[1, 2, 3], [4, 5, 6]]);

    assert_eq!(mat.get_at(0, 0), Ok(1));
    assert_eq!(mat.get_at(2, 1), Ok(6));
    assert_eq!(mat.get_at(0, 2), Err(Error::OutOfRange));
    assert_eq!(mat.get_at(3, 1), Err(Error::OutOfRange));
    assert_eq!(mat.get_at(usize::MAX, usize::MAX), Err(Error::OutOfRange));
    assert_eq!(mat.get_at(0, usize::MAX), Err(Error::OutOfRange));
}

#[test]
fn stack_checked_access_goes_by_the_extents() {
    let mat = StackMatrix::new([[100, 200], [300, 400]]);

    assert_eq!(mat.get_at(0, 1), Ok(300));
    assert_eq!(mat.get_at(1, 1), Ok(400));
    assert_eq!(mat.get_at(2, 0), Err(Error::OutOfRange));
    assert_eq!(mat.get_at(3, 0), Err(Error::OutOfRange));
    assert_eq!(mat.get_at(2, 1), Err(Error::OutOfRange));
    assert_eq!(mat.get_at(0, 2), Err(Error::OutOfRange));

    let wide = StackMatrix::new([[1, 2, 3], [4, 5, 6]]);
    assert_eq!(wide.get_at(3, 0), Err(Error::OutOfRange));
    assert_eq!(wide.get_at(5, 0), Err(Error::OutOfRange));
    assert_eq!(wide.get_at(2, 1), Ok(6));
}

#[test]
fn stack_writes_reach_the_rows() {
    let mut mat = StackMatrix::new([[1, 2, 3], [4, 5, 6]]);

    mat.get_data_mut()[4] = 50;
    assert_eq!(mat.get_at_unchecked(1, 1), 50);

    *mat.first_mut().unwrap() = 10;
    *mat.last_mut().unwrap() = 60;
    assert_eq!(mat, StackMatrix::new([[10, 2, 3], [4, 50, 60]]));

    mat.get_row_at_mut(1)[0] = 40;
    assert_eq!(mat.get_data(), &[10, 2, 3, 40, 50, 60]);
}

#[test]
fn stack_new_1d_is_row_major() {
    let mat: StackMatrix<i32, 3, 2> = StackMatrix::new_1d([1, 2, 3, 4, 5, 6]);

    assert_eq!(mat, StackMatrix::new([[1, 2, 3], [4, 5, 6]]));
}

#[test]
fn stack_new_from_slice_checks_the_length() {
    let cells = vec![1, 2, 3, 4, 5, 6];

    let mat = StackMatrix::<i32, 3, 2>::new_from_slice(&cells);
    assert_eq!(mat, Ok(StackMatrix::new([[1, 2, 3], [4, 5, 6]])));

    let short = StackMatrix::<i32, 3, 2>::new_from_slice(&cells[..5]);
    assert_eq!(short, Err(Error::IncorrectLength));

    let long = StackMatrix::<i32, 2, 2>::new_from_slice(&cells);
    assert_eq!(long, Err(Error::IncorrectLength));
}

#[test]
fn stack_mat_new_takes_rows_of_its_shape_only() {
    let rows: [&[i32]; 2] = [&[1, 2, 3], &[4, 5, 6]];

    let mat = StackMatrix::<i32, 3, 2>::mat_new(&rows);
    assert_eq!(mat, Ok(StackMatrix::new([[1, 2, 3], [4, 5, 6]])));

    let too_wide = StackMatrix::<i32, 2, 2>::mat_new(&rows);
    assert_eq!(too_wide, Err(Error::IncorrectLength));

    let too_few = StackMatrix::<i32, 3, 3>::mat_new(&rows);
    assert_eq!(too_few, Err(Error::IncorrectLength));

    let ragged: [&[i32]; 2] = [&[1, 2, 3], &[4, 5]];
    let uneven = StackMatrix::<i32, 3, 2>::mat_new(&ragged);
    assert_eq!(uneven, Err(Error::IncorrectLength));
}

#[test]
fn stack_mat_new_vec_takes_rows_of_its_shape_only() {
    let mat = StackMatrix::<i32, 2, 2>::mat_new_vec(vec![vec![1, 2], vec![3, 4]]);
    assert_eq!(mat, Ok(StackMatrix::new([[1, 2], [3, 4]])));

    let uneven = StackMatrix::<i32, 2, 2>::mat_new_vec(vec![vec![1, 2], vec![3]]);
    assert_eq!(uneven, Err(Error::IncorrectLength));

    let none = StackMatrix::<i32, 2, 2>::mat_new_vec(vec![]);
    assert_eq!(none, Err(Error::IncorrectLength));
}

#[test]
fn stack_mat_new_1d_takes_its_shape_only() {
    let cells = [1, 2, 3, 4, 5, 6];

    let mat = StackMatrix::<i32, 3, 2>::mat_new_1d(&cells, 3, 2);
    assert_eq!(mat, Ok(StackMatrix::new([[1, 2, 3], [4, 5, 6]])));

    let turned = StackMatrix::<i32, 3, 2>::mat_new_1d(&cells, 2, 3);
    assert_eq!(turned, Err(Error::IncorrectLength));

    let short = StackMatrix::<i32, 3, 2>::mat_new_1d(&cells[..4], 3, 2);
    assert_eq!(short, Err(Error::IncorrectLength));
}

#[test]
fn stack_without_cells() {
    let none: StackMatrix<i32, 0, 0> = StackMatrix::new([]);
    assert_eq!(none.get_data().len(), 0);
    assert_eq!(none.first(), None);
    assert_eq!(none.last(), None);
    assert_eq!(none.get_at(0, 0), Err(Error::OutOfRange));
    assert_eq!(none.to_printable(), "");

    let no_rows = StackMatrix::<i32, 3, 0>::mat_new_vec(vec![]);
    assert_eq!(no_rows, Err(Error::IncorrectLength));
    let no_cells = StackMatrix::<i32, 3, 0>::new_from_slice(&[]);
    assert_eq!(no_cells.map(|m| m.get_x_len()), Ok(3));
}

#[test]
fn stack_scalar_operations() {
    let mat = StackMatrix::new([[1, 2], [3, 4]]);

    assert_eq!(mat.scalar_add(10), StackMatrix::new([[11, 12], [13, 14]]));
    assert_eq!(mat.scalar_sub(1), StackMatrix::new([[0, 1], [2, 3]]));
    assert_eq!(mat.scalar_mul(3), StackMatrix::new([[3, 6], [9, 12]]));
    assert_eq!(mat + 10, StackMatrix::new([[11, 12], [13, 14]]));
    assert_eq!(mat - 1, StackMatrix::new([[0, 1], [2, 3]]));
    assert_eq!(mat * 3, StackMatrix::new([[3, 6], [9, 12]]));
}

#[test]
fn stack_cell_by_cell_product() {
    let mat1 = StackMatrix::new([[1, 2], [3, 4]]);
    let mat2 = StackMatrix::new([[5, 6], [7, 8]]);

    assert_eq!(
        mat1.mat_mul_elementwise(&mat2),
        Ok(StackMatrix::new([[5, 12], [21, 32]]))
    );
}

#[test]
fn stack_product_that_does_not_fit() {
    let mat1 = StackMatrix::new([[1, 2], [3, 4], [5, 6]]);
    let mat2 = StackMatrix::new([[1, 2, 3], [4, 5, 6]]);

    assert_eq!(mat1.dot_prod(&mat2), Err(Error::IncorrectLength));

    let square = StackMatrix::new([[1, 0], [0, 1]]);
    assert_eq!(mat1.dot_prod(&square), Ok(mat1));
}

#[test]
fn stack_product_with_differing_extents() {
    let mat1 = StackMatrix::new([[1, 2], [3, 4], [5, 6]]);

    let res = mat1.mat_mul::<StackMatrix<i32, 2, 3>, StackMatrix<i32, 2, 3>>(&mat1);
    assert_eq!(res, Err(Error::NotEq(String::from("2 != 3"))));
}

#[test]
fn stack_sum_with_differing_shapes() {
    let mat1 = StackMatrix::new([[1, 2], [3, 4], [5, 6]]);
    let mat2 = StackMatrix::new([[1, 2, 3], [4, 5, 6]]);

    assert_eq!(
        mat1.mat_add(&mat2),
        Err(Error::NotEq(String::from("2x3 != 3x2")))
    );
    assert_eq!(
        mat1.mat_sub(&mat2),
        Err(Error::NotEq(String::from("2x3 != 3x2")))
    );
    assert_eq!(
        mat1.mat_mul_elementwise(&mat2),
        Err(Error::NotEq(String::from("2x3 != 3x2")))
    );
}

#[test]
fn stack_printable() {
    let mat = StackMatrix::new([[1, 2, 3], [40, 50, 60]]);

    assert_eq!(mat.to_printable(), "1\t2\t3\t\n40\t50\t60\t\n");
}

#[test]
fn stack_of_floats() {
    let mat1 = StackMatrix::new([[0.5, 1.5], [2.5, 3.5]]);
    let mat2 = StackMatrix::new([[0.25, 0.25], [0.25, 0.25]]);

    assert_eq!(mat1 + mat2, StackMatrix::new([[0.75, 1.75], [2.75, 3.75]]));
    assert_eq!(mat1 - mat2, StackMatrix::new([[0.25, 1.25], [2.25, 3.25]]));
    assert_eq!(mat1 * mat2, StackMatrix::new([[0.5, 0.5], [1.5, 1.5]]));
    assert_eq!(mat1.to_printable(), "0.5\t1.5\t\n2.5\t3.5\t\n");
}

#[test]
fn stack_copies_are_independent() {
    let mat = StackMatrix::new([[1, 2], [3, 4]]);
    let mut copy = mat;

    copy.get_data_mut()[0] = 9;
    assert_eq!(mat, StackMatrix::new([[1, 2], [3, 4]]));
    assert_eq!(copy, StackMatrix::new([[9, 2], [3, 4]]));
    assert_ne!(mat, copy);
}
