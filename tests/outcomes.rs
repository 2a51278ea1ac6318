use quantities::outcomes::{
    big_calculation, big_task, maybe_success, requires_a_positive_int, small_task,
    success_or_error, BigCalculationError, CalculationError, MemoryError, TaskError,
};

#[test]
fn maybe_success_only_on_four() {
    assert_eq!(maybe_success(4), Some(3));
    assert_eq!(maybe_success(3), None);
    assert_eq!(maybe_success(5), None);
}

#[test]
fn success_or_error_only_on_four() {
    assert_eq!(success_or_error(4), Ok(3));
    assert_eq!(success_or_error(0), Err(CalculationError::NotEqualToFour));
}

#[test]
fn big_calculation_each_outcome() {
    assert_eq!(big_calculation(4), Ok(3));
    for n in 0..4 {
        assert_eq!(
            big_calculation(n),
            Err(BigCalculationError::Calculation(CalculationError::NotEqualToFour))
        );
    }
    assert_eq!(big_calculation(5), Err(BigCalculationError::Memory(MemoryError::OutOfMemory)));
    assert_eq!(
        big_calculation(u32::MAX),
        Err(BigCalculationError::Memory(MemoryError::OutOfMemory))
    );
}

#[test]
fn tasks_succeed_and_fail() {
    assert_eq!(big_task(), Ok(()));
    assert_eq!(small_task(), Err(TaskError::OutOfDiskSpace));
}

#[test]
fn positive_int_is_tripled() {
    assert_eq!(requires_a_positive_int(5i32), Ok(15));
    assert_eq!(requires_a_positive_int(0i64), Ok(0));
    assert!(requires_a_positive_int(-5i32).is_err());
    assert!(requires_a_positive_int(-1i64).is_err());
}
