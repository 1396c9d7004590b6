use ext_php_rs::execute_data::{ExecuteData, ExecutionData};

#[test]
fn execution_data_test_zend_call_frame_slot() {
    // PHP 8.0.2 (cli) (built: Feb 21 2021 11:51:33) ( NTS )
    assert_eq!(ExecutionData::zend_call_frame_slot(), 5);
}

#[test]
fn ex_test_zend_call_frame_slot() {
    assert_eq!(ExecuteData::zend_call_frame_slot(), 5);
}

#[test]
fn aligned_size_rounds_up() {
    assert_eq!(ExecuteData::zend_mm_aligned_size(1), 8);
    assert_eq!(ExecuteData::zend_mm_aligned_size(16), 16);
    assert_eq!(ExecuteData::zend_mm_aligned_size(17), 24);
    assert_eq!(ExecuteData::zend_mm_aligned_size(0), 0);
}
