use fhe_sum::ciphertext::split_block;
use fhe_sum::ciphertext::LweBlock;

#[test]
fn split_block_takes_the_last_number_as_body() {
    assert_eq!(split_block(&vec![1, 2, 3, 4]), Some(LweBlock { mask: vec![1, 2, 3], body: 4 }));
    assert_eq!(split_block(&vec![u64::MAX, 0]), Some(LweBlock { mask: vec![u64::MAX], body: 0 }));
}

#[test]
fn split_block_of_one_number_has_an_empty_mask() {
    assert_eq!(split_block(&vec![9]), Some(LweBlock { mask: vec![], body: 9 }));
}

#[test]
fn split_block_of_no_numbers_is_none() {
    assert_eq!(split_block(&vec![]), None);
}
