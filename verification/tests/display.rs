use tictactoe::{to_char_matrix, CharMatrix};

#[test]
fn to_char_matrix_keeps_every_character() {
    let matrix = to_char_matrix(&["ab", "", "●x●"]);
    let rows = matrix.rows();
    assert_eq!(rows.len(), 3);
    assert_eq!(rows[0], vec!['a', 'b']);
    assert_eq!(rows[1], Vec::<char>::new());
    assert_eq!(rows[2], vec!['●', 'x', '●']);
}

#[test]
fn to_text_joins_rows_with_newlines() {
    let matrix = to_char_matrix(&["ab", "c"]);
    assert_eq!(matrix.to_text(), "ab\nc\n");
    let empty = to_char_matrix(&[]);
    assert_eq!(empty.to_text(), "");
}

#[test]
fn default_matrix_holds_one_empty_row() {
    let matrix = CharMatrix::default();
    assert_eq!(matrix.rows().len(), 1);
    assert!(matrix.rows()[0].is_empty());
    assert_eq!(matrix.to_text(), "\n");
}

#[test]
fn new_matrix_keeps_its_rows() {
    let matrix = CharMatrix::new(vec![vec!['#', '#'], vec![' ']]);
    assert_eq!(matrix.rows(), &vec![vec!['#', '#'], vec![' ']]);
    assert_eq!(matrix.to_text(), "##\n \n");
}
