//! The three ways an operation with a time limit can end.

use std::convert::Infallible;
use std::ops::ControlFlow;
use vstd::prelude::*;

verus! {

/// How an operation with a time limit ended.
pub enum TimeoutResult<T, E> {
    /// It finished in time and produced a value.
    Success(T),
    /// It finished in time and failed.
    Error(E),
    /// The time ran out first.
    TimedOut,
}

/// The two ways in which a `TimeoutResult` is no success.
pub enum TimeoutResultError<E> {
    /// The operation itself failed.
    Error(E),
    /// The time ran out.
    TimedOut,
}

impl<T, E> TimeoutResult<T, E> {
    /// The result as a two-way `Result`: a success stays one, and the two
    /// other endings become the error.
    pub open spec fn as_result(self) -> Result<T, TimeoutResultError<E>> {
        match self {
            TimeoutResult::Success(value) => Ok(value),
            TimeoutResult::Error(error) => Err(TimeoutResultError::Error(error)),
            TimeoutResult::TimedOut => Err(TimeoutResultError::TimedOut),
        }
    }

    /// How an operation that finished in time ended.
    pub open spec fn of_result(finished: Result<T, E>) -> Self {
        match finished {
            Ok(value) => TimeoutResult::Success(value),
            Err(error) => TimeoutResult::Error(error),
        }
    }

    /// How an operation ended that may not have finished in time: `None`
    /// stands for a time limit that ran out.
    pub open spec fn of_outcome(outcome: Option<Result<T, E>>) -> Self {
        match outcome {
            Some(finished) => Self::of_result(finished),
            None => TimeoutResult::TimedOut,
        }
    }

    /// As `of_outcome`, with a fallback in place of the operation when the
    /// time ran out.
    pub open spec fn of_outcome_or(outcome: Option<Result<T, E>>, fallback: Result<T, E>) -> Self {
        match outcome {
            Some(finished) => Self::of_result(finished),
            None => Self::of_result(fallback),
        }
    }

    /// The ending of an operation that finished in time.
    pub fn from_result(finished: Result<T, E>) -> (result: Self)
        ensures
            result == Self::of_result(finished),
    {
        match finished {
            Ok(value) => TimeoutResult::Success(value),
            Err(error) => TimeoutResult::Error(error),
        }
    }

    /// The ending of an operation under a time limit: `outcome` is what the
    /// operation returned, or `None` if the time ran out first.
    pub fn settle(outcome: Option<Result<T, E>>) -> (result: Self)
        ensures
            result == Self::of_outcome(outcome),
    {
        match outcome {
            Some(finished) => Self::from_result(finished),
            None => TimeoutResult::TimedOut,
        }
    }

    /// The ending of an operation under a time limit with a fallback: when
    /// the time ran out, the fallback's result counts as the operation's.
    pub fn settle_or(outcome: Option<Result<T, E>>, fallback: Result<T, E>) -> (result: Self)
        ensures
            result == Self::of_outcome_or(outcome, fallback),
            !(result is TimedOut),
    {
        match outcome {
            Some(finished) => Self::from_result(finished),
            None => Self::from_result(fallback),
        }
    }

    /// Wraps a value as a success.
    pub fn from_output(output: T) -> (result: Self)
        ensures
            result == TimeoutResult::<T, E>::Success(output),
    {
        TimeoutResult::Success(output)
    }

    /// Splits the result for early return: go on with the value of a
    /// success, break off with the error otherwise.
    pub fn branch(self) -> (flow: ControlFlow<Result<Infallible, TimeoutResultError<E>>, T>)
        ensures
            match self.as_result() {
                Ok(value) => flow == ControlFlow::<
                    Result<Infallible, TimeoutResultError<E>>,
                    T,
                >::Continue(value),
                Err(error) => flow == ControlFlow::<
                    Result<Infallible, TimeoutResultError<E>>,
                    T,
                >::Break(Err(error)),
            },
    {
        match self {
            TimeoutResult::Success(value) => ControlFlow::Continue(value),
            TimeoutResult::Error(error) => ControlFlow::Break(Err(TimeoutResultError::Error(error))),
            TimeoutResult::TimedOut => ControlFlow::Break(Err(TimeoutResultError::TimedOut)),
        }
    }

    /// Turns the error of an early return back into a result.
    pub fn from_residual(residual: TimeoutResultError<E>) -> (result: Self)
        ensures
            result.as_result() == Err::<T, TimeoutResultError<E>>(residual),
    {
        match residual {
            TimeoutResultError::Error(error) => TimeoutResult::Error(error),
            TimeoutResultError::TimedOut => TimeoutResult::TimedOut,
        }
    }
}

} // verus!
