//! Combinators on `Option` and `Result`.

use vstd::prelude::*;

verus! {

/// Pairs a value that may be missing with a second one: the pair is there
/// only if both are.
pub trait JoinExt<T>: Sized {
    type Other;

    type Output;

    /// Joins with a value that is already there.
    fn join(self, other: Self::Other) -> Self::Output;

    /// Joins with a value that is made only if this one is there.
    fn join_with<F>(self, other: F) -> Self::Output where F: FnOnce() -> Self::Other
        requires
            other.requires(()),
    ;
}

impl<T, U> JoinExt<U> for Option<T> {
    type Other = Option<U>;

    type Output = Option<(T, U)>;

    fn join(self, other: Option<U>) -> (joined: Option<(T, U)>)
        ensures
            joined == match (self, other) {
                (Some(left), Some(right)) => Some((left, right)),
                _ => None,
            },
    {
        match self {
            Some(left) => match other {
                Some(right) => Some((left, right)),
                None => None,
            },
            None => None,
        }
    }

    fn join_with<F>(self, other: F) -> (joined: Option<(T, U)>) where F: FnOnce() -> Option<U>
        ensures
            match self {
                Some(left) => exists|made: Option<U>|
                    other.ensures((), made) && joined == match made {
                        Some(right) => Some((left, right)),
                        None => None,
                    },
                None => joined is None,
            },
    {
        match self {
            Some(left) => match other() {
                Some(right) => Some((left, right)),
                None => None,
            },
            None => None,
        }
    }
}

impl<T, U, E> JoinExt<U> for Result<T, E> {
    type Other = Result<U, E>;

    type Output = Result<(T, U), E>;

    fn join(self, other: Result<U, E>) -> (joined: Result<(T, U), E>)
        ensures
            joined == match self {
                Ok(left) => match other {
                    Ok(right) => Ok((left, right)),
                    Err(error) => Err(error),
                },
                Err(error) => Err(error),
            },
    {
        match self {
            Ok(left) => match other {
                Ok(right) => Ok((left, right)),
                Err(error) => Err(error),
            },
            Err(error) => Err(error),
        }
    }

    fn join_with<F>(self, other: F) -> (joined: Result<(T, U), E>) where F: FnOnce() -> Result<U, E>
        ensures
            match self {
                Ok(left) => exists|made: Result<U, E>|
                    other.ensures((), made) && joined == match made {
                        Ok(right) => Ok((left, right)),
                        Err(error) => Err(error),
                    },
                Err(error) => joined == Err::<(T, U), E>(error),
            },
    {
        match self {
            Ok(left) => match other() {
                Ok(right) => Ok((left, right)),
                Err(error) => Err(error),
            },
            Err(error) => Err(error),
        }
    }
}

/// Tests the value of a `Result` that is `Ok`: a value that fails the
/// test becomes an error.
pub trait TestExt<T, E>: Sized {
    /// Keeps a value that passes `pred`, and gives `err` for one that
    /// fails it.
    fn test<P>(self, pred: P, err: E) -> Result<T, E> where P: FnOnce(&T) -> bool
        requires
            forall|value: &T| pred.requires((value,)),
    ;

    /// Keeps a value that passes `pred`, and makes the error for one that
    /// fails it out of the value.
    fn test_or<P, F>(self, pred: P, err: F) -> Result<T, E> where
        P: FnOnce(&T) -> bool,
        F: FnOnce(T) -> E,

        requires
            forall|value: &T| pred.requires((value,)),
            forall|value: T| err.requires((value,)),
    ;
}

impl<T, E> TestExt<T, E> for Result<T, E> {
    fn test<P>(self, pred: P, err: E) -> (tested: Result<T, E>) where P: FnOnce(&T) -> bool
        ensures
            match self {
                Ok(value) => (pred.ensures((&value,), true) && tested == Ok::<T, E>(value)) || (
                pred.ensures((&value,), false) && tested == Err::<T, E>(err)),
                Err(error) => tested == Err::<T, E>(error),
            },
    {
        match self {
            Ok(value) => {
                if pred(&value) {
                    Ok(value)
                } else {
                    Err(err)
                }
            },
            Err(error) => Err(error),
        }
    }

    fn test_or<P, F>(self, pred: P, err: F) -> (tested: Result<T, E>) where
        P: FnOnce(&T) -> bool,
        F: FnOnce(T) -> E,

        ensures
            match self {
                Ok(value) => (pred.ensures((&value,), true) && tested == Ok::<T, E>(value)) || (
                pred.ensures((&value,), false) && tested is Err && err.ensures(
                    (value,),
                    tested->Err_0,
                )),
                Err(error) => tested == Err::<T, E>(error),
            },
    {
        match self {
            Ok(value) => {
                if pred(&value) {
                    Ok(value)
                } else {
                    Err(err(value))
                }
            },
            Err(error) => Err(error),
        }
    }
}

} // verus!
