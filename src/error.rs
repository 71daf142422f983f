//! The ways a repository operation can fail.
use vstd::prelude::*;

verus! {

#[derive(Debug, Clone, PartialEq)]
pub enum RepositoryError {
    /// A backend or connectivity failure, with its message.
    Unexpected(String),
    /// No entity has this id.
    NotFound(i32),
    /// Reserved: no operation produces it.
    Duplicate(i32),
}

/// A statement that changes rows by id and touched none means the id was
/// absent.
pub fn require_affected(id: i32, rows_affected: u64) -> (r: Result<(), RepositoryError>)
    ensures
        r == if rows_affected == 0 {
            Err::<(), RepositoryError>(RepositoryError::NotFound(id))
        } else {
            Ok(())
        },
{
    if rows_affected == 0 {
        Err(RepositoryError::NotFound(id))
    } else {
        Ok(())
    }
}

/// A statement that returns the row it changed and returned none means the
/// id was absent.
pub fn require_found<T>(id: i32, row: Option<T>) -> (r: Result<T, RepositoryError>)
    ensures
        row matches Some(v) ==> r == Ok::<T, RepositoryError>(v),
        row is None ==> r == Err::<T, RepositoryError>(RepositoryError::NotFound(id)),
{
    match row {
        Some(v) => Ok(v),
        None => Err(RepositoryError::NotFound(id)),
    }
}

} // verus!
