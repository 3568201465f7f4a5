use llama_core::device::{MatmulError, MatmulShape, CPU, GPU, LANES, MAX_THREADS_PER_BLOCK};

#[test]
fn unaligned_width_is_refused() {
    assert_eq!(CPU::check_alignment(3, 4), Err(MatmulError::Misaligned));
    assert_eq!(CPU::plan(6, 6, 4, 3, 2, 2), Err(MatmulError::Misaligned));
}

#[test]
fn unaligned_output_columns_are_refused() {
    assert_eq!(CPU::check_alignment(4, 2), Err(MatmulError::Misaligned));
    assert_eq!(CPU::plan(8, 8, 4, 4, 2, 2), Err(MatmulError::Misaligned));
}

#[test]
fn aligned_dimensions_are_accepted() {
    assert_eq!(LANES, 4);
    assert_eq!(CPU::check_alignment(8, 4), Ok(()));
    let shape = CPU::plan(16, 32, 8, 8, 2, 4).unwrap();
    assert_eq!(shape, MatmulShape { width: 8, o_rows: 2, o_cols: 4 });
}

#[test]
fn mismatched_lengths_are_refused() {
    assert_eq!(CPU::plan(15, 32, 8, 8, 2, 4), Err(MatmulError::LengthMismatch));
    assert_eq!(CPU::plan(16, 32, 9, 8, 2, 4), Err(MatmulError::LengthMismatch));
    assert_eq!(MatmulShape::new(6, 6, 4, 3, 2, 2).unwrap().width, 3);
    assert_eq!(MatmulShape::new(usize::MAX, 1, 1, 4, usize::MAX, 1), Err(MatmulError::LengthMismatch));
}

#[test]
fn row_major_indices() {
    let s = MatmulShape::new(6, 6, 4, 3, 2, 2).unwrap();
    assert_eq!(s.a_index(1, 2), 5);
    assert_eq!(s.b_index(2, 1), 5);
    assert_eq!(s.o_index(1, 0), 2);
    assert_eq!(s.a_index(0, 1), 1);
}

#[test]
fn gpu_block_holds_small_output() {
    let s = GPU::plan(6, 6, 4, 3, 2, 2).unwrap();
    assert_eq!(GPU::block_dim(&s), (2, 2, 1));
    let s = GPU::plan(32 * 5, 5 * 32, 32 * 32, 5, 32, 32).unwrap();
    assert_eq!(GPU::block_dim(&s), (32, 32, 1));
}

#[test]
fn gpu_refuses_output_larger_than_one_block() {
    assert_eq!(MAX_THREADS_PER_BLOCK, 1024);
    assert_eq!(GPU::plan(33, 32, 33 * 32, 1, 33, 32), Err(MatmulError::TooManyThreads));
    assert_eq!(GPU::plan(0, 2000, 0, 1, 0, 2000), Err(MatmulError::TooManyThreads));
    assert_eq!(GPU::plan(6, 6, 5, 3, 2, 2), Err(MatmulError::LengthMismatch));
}
