use vstd::prelude::*;
use vstd::std_specs::convert::TryIntoSpec;

verus! {

/// The calculation only succeeds on four.
#[derive(Clone, Copy, Debug, PartialEq, Eq, Structural)]
pub enum CalculationError {
    NotEqualToFour,
}

/// The calculation ran out of memory.
#[derive(Clone, Copy, Debug, PartialEq, Eq, Structural)]
pub enum MemoryError {
    OutOfMemory,
}

/// Either of the failures of `big_calculation`.
#[derive(Clone, Copy, Debug, PartialEq, Eq, Structural)]
pub enum BigCalculationError {
    Calculation(CalculationError),
    Memory(MemoryError),
}

/// Failure of a task.
#[derive(Clone, Copy, Debug, PartialEq, Eq, Structural)]
pub enum TaskError {
    OutOfDiskSpace,
}

/// Three when `n` is four, nothing otherwise.
pub fn maybe_success(n: u32) -> (r: Option<u32>)
    ensures
        n == 4 ==> r == Some(3u32),
        n != 4 ==> r is None,
{
    if n == 4 {
        Some(3)
    } else {
        None
    }
}

/// Three when `n` is four, `NotEqualToFour` otherwise.
pub fn success_or_error(n: u32) -> (r: Result<u32, CalculationError>)
    ensures
        n == 4 ==> r == Ok::<u32, CalculationError>(3),
        n != 4 ==> r == Err::<u32, CalculationError>(CalculationError::NotEqualToFour),
{
    if n == 4 {
        Ok(3)
    } else {
        Err(CalculationError::NotEqualToFour)
    }
}

/// Three when `n` is four; out of memory from five up; not equal to four
/// below four.
pub fn big_calculation(n: u32) -> (r: Result<u32, BigCalculationError>)
    ensures
        n == 4 ==> r == Ok::<u32, BigCalculationError>(3),
        n >= 5 ==> r == Err::<u32, BigCalculationError>(
            BigCalculationError::Memory(MemoryError::OutOfMemory),
        ),
        n < 4 ==> r == Err::<u32, BigCalculationError>(
            BigCalculationError::Calculation(CalculationError::NotEqualToFour),
        ),
{
    if n == 4 {
        Ok(3)
    } else if n >= 5 {
        Err(BigCalculationError::Memory(MemoryError::OutOfMemory))
    } else {
        Err(BigCalculationError::Calculation(CalculationError::NotEqualToFour))
    }
}

/// A task that always succeeds.
pub fn big_task() -> (r: Result<(), TaskError>)
    ensures
        r is Ok,
{
    Ok(())
}

/// A task that always runs out of disk space.
pub fn small_task() -> (r: Result<(), TaskError>)
    ensures
        r == Err::<(), TaskError>(TaskError::OutOfDiskSpace),
{
    Err(TaskError::OutOfDiskSpace)
}

/// Three times `number`, after converting it to `u32`; the conversion's
/// error when it does not fit.
pub fn requires_a_positive_int<T>(number: T) -> (r: Result<u32, T::Error>) where
    T: core::convert::TryInto<u32>,

    requires
        T::obeys_try_into_spec(),
        T::try_into_spec(number) is Ok ==> T::try_into_spec(number)->Ok_0 <= u32::MAX / 3,
    ensures
        match T::try_into_spec(number) {
            Ok(v) => r == Ok::<u32, T::Error>((3 * v) as u32),
            Err(e) => r == Err::<u32, T::Error>(e),
        },
{
    match number.try_into() {
        Ok(v) => Ok(v * 3),
        Err(e) => Err(e),
    }
}

} // verus!
