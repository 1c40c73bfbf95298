use dfdx::shapes::HasShape;
use dfdx::tensor::Cpu;
use dt_sequences::batch::batch_inputs;
use dt_sequences::sequence::{build_windows, ExactInput};
use dt_sequences::tensor::flatten_rows;

fn inputs_of_three_steps(window: usize) -> [ExactInput<1, 1>; 3] {
    let states = vec![[10i64], [20], [30]];
    let actions = vec![[7i64], [8], [9]];
    let rewards = vec![1i64, 2, 3];
    match build_windows(&states, &actions, &rewards, window).unwrap().try_into() {
        Ok(array) => array,
        Err(_) => panic!("three inputs expected"),
    }
}

#[test]
fn flatten_rows_lists_rows_in_order() {
    let rows = vec![vec![1u8, 2, 3], vec![4, 5, 6]];
    assert_eq!(flatten_rows(&rows, 3), Some(vec![1u8, 2, 3, 4, 5, 6]));
    assert_eq!(flatten_rows(&rows, 2), None);
    let ragged = vec![vec![1u8, 2], vec![3]];
    assert_eq!(flatten_rows(&ragged, 2), None);
    let none: Vec<Vec<u8>> = vec![];
    assert_eq!(flatten_rows(&none, 4), Some(vec![]));
    let empty_rows: Vec<Vec<u8>> = vec![vec![], vec![]];
    assert_eq!(flatten_rows(&empty_rows, 0), Some(vec![]));
}

#[test]
fn timesteps_tensor_holds_the_batch_row_by_row() {
    let dev = Cpu::default();
    let batch = batch_inputs(inputs_of_three_steps(2));
    let made = batch.timesteps_tensor(2, &dev).unwrap();
    assert_eq!(*made.tensor.shape(), (3usize, 2usize));
    assert_eq!(made.tensor.as_vec(), vec![0usize, 1, 1, 2, 2, 3]);
}

#[test]
fn timesteps_tensor_of_a_longer_window() {
    let dev = Cpu::default();
    let batch = batch_inputs(inputs_of_three_steps(4));
    let made = batch.timesteps_tensor(4, &dev).unwrap();
    assert_eq!(*made.tensor.shape(), (3usize, 4usize));
    assert_eq!(made.tensor.as_vec(), vec![0usize, 0, 0, 1, 0, 0, 1, 2, 0, 1, 2, 3]);
}

#[test]
fn timesteps_tensor_refuses_another_window() {
    let dev = Cpu::default();
    let batch = batch_inputs(inputs_of_three_steps(2));
    assert!(batch.timesteps_tensor(3, &dev).is_none());
}

#[test]
fn timesteps_tensor_needs_an_element() {
    let dev = Cpu::default();
    let none: [ExactInput<1, 1>; 0] = [];
    let batch = batch_inputs(none);
    assert!(batch.timesteps_tensor(2, &dev).is_none());
    assert!(batch.timesteps_tensor(0, &dev).is_none());
    let batch = batch_inputs(inputs_of_three_steps(2));
    assert!(batch.timesteps_tensor(0, &dev).is_none());
}
