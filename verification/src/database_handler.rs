//! The rules of the title database: which titles and aliases may be stored.
//!
//! The caller looks up what the database holds, asks here what to do, and
//! writes.

use vstd::prelude::*;

verus! {

/// Why the database may not be changed.
#[derive(Clone, Copy, Debug, PartialEq, Eq, Structural)]
pub enum DBError {
    /// The title, or the alias, stands for a song already.
    TitleAlreadyUsed,
    /// There is no song with this title.
    TitleNotFound,
}

/// How a title came into the database.
#[derive(Clone, Copy, Debug, PartialEq, Eq, Structural)]
pub enum DBSuccess {
    /// Together with its URL, which was not known before.
    NewUrl,
    /// As one more title of a URL that was known.
    ExistUrl,
}

/// Decides whether a title may be stored for a URL. `url_id` is the row of
/// the URL and `title_id` the row of the title, as far as the database has
/// them. A title that is in use is refused. Otherwise the title is to be
/// stored and tied to the URL, which is to be stored first where it is new.
pub fn add_title_with_url(url_id: Option<u64>, title_id: Option<u64>) -> (outcome: Result<
    DBSuccess,
    DBError,
>)
    ensures
        title_id is Some ==> outcome == Err::<DBSuccess, _>(DBError::TitleAlreadyUsed),
        title_id is None && url_id is None ==> outcome == Ok::<_, DBError>(DBSuccess::NewUrl),
        title_id is None && url_id is Some ==> outcome == Ok::<_, DBError>(DBSuccess::ExistUrl),
{
    match title_id {
        Some(_) => Err(DBError::TitleAlreadyUsed),
        None => match url_id {
            Some(_) => Ok(DBSuccess::ExistUrl),
            None => Ok(DBSuccess::NewUrl),
        },
    }
}

/// Decides whether an alias may be stored for a title. `alias_id` is the
/// row of the alias and `title_id` the row of the title, as far as the
/// database has them. An alias that is in use is refused, and so is one for
/// a title that is not known. Otherwise the alias is to be tied to the URL of
/// the title whose row is returned.
pub fn add_alias_with_title(alias_id: Option<u64>, title_id: Option<u64>) -> (outcome: Result<
    u64,
    DBError,
>)
    ensures
        alias_id is Some ==> outcome == Err::<u64, _>(DBError::TitleAlreadyUsed),
        alias_id is None && title_id is None ==> outcome == Err::<u64, _>(DBError::TitleNotFound),
        alias_id is None && title_id is Some ==> outcome == Ok::<_, DBError>(title_id.unwrap()),
{
    match alias_id {
        Some(_) => Err(DBError::TitleAlreadyUsed),
        None => match title_id {
            Some(id) => Ok(id),
            None => Err(DBError::TitleNotFound),
        },
    }
}

/// Decides whether a title can be removed: it has to be known. The row to
/// remove is returned.
pub fn remove_title(title_id: Option<u64>) -> (outcome: Result<u64, DBError>)
    ensures
        title_id is Some ==> outcome == Ok::<_, DBError>(title_id.unwrap()),
        title_id is None ==> outcome == Err::<u64, _>(DBError::TitleNotFound),
{
    match title_id {
        Some(id) => Ok(id),
        None => Err(DBError::TitleNotFound),
    }
}

} // verus!
