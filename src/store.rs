use actix_session::{Session, SessionGetError, SessionInsertError};
use serde::de::DeserializeOwned;
use serde::Serialize;
use vstd::prelude::*;

verus! {

/// `actix_session::Session`, a handle on one request's session state.
#[verifier::external_type_specification]
#[verifier::external_body]
pub struct ExSession(Session);

/// The error of `Session::get`, passed through unchanged.
#[verifier::external_type_specification]
#[verifier::external_body]
pub struct ExSessionGetError(SessionGetError);

/// The error of `Session::insert`, passed through unchanged.
#[verifier::external_type_specification]
#[verifier::external_body]
pub struct ExSessionInsertError(SessionInsertError);

/// The session state: each raw key mapped to the JSON text stored under it.
///
/// A `Session` shares its state with its clones; the contracts below treat the
/// handle they are given as the only one written through while they run.
pub uninterp spec fn session_entries(s: Session) -> Map<Seq<char>, Seq<char>>;

/// Whether the session has been purged; a purged session ignores inserts and removals.
pub uninterp spec fn session_purged(s: Session) -> bool;

/// Relies on `Session::get`: an absent key answers `Ok(None)`; a present one
/// answers the decoded value or an error, and the state is only read.
#[verifier::external_body]
pub(crate) fn session_get<T: DeserializeOwned>(s: &Session, key: &str) -> (r: Result<
    Option<T>,
    SessionGetError,
>)
    ensures
        (r matches Ok(None)) <==> !session_entries(*s).contains_key(key@),
{
    s.get::<T>(key)
}

/// Relies on `Session::insert`: a purged session is left as it is and answers
/// `Ok(())`; otherwise the value is encoded as JSON and stored under the key,
/// replacing what was there, or encoding fails and the state is unchanged.
#[verifier::external_body]
pub(crate) fn session_insert<T: Serialize>(s: &mut Session, key: &str, value: T) -> (r: Result<
    (),
    SessionInsertError,
>)
    ensures
        session_purged(*final(s)) == session_purged(*old(s)),
        session_purged(*old(s)) ==> r is Ok && session_entries(*final(s)) == session_entries(
            *old(s),
        ),
        r is Err ==> session_entries(*final(s)) == session_entries(*old(s)),
        !session_purged(*old(s)) && r is Ok ==> exists|text: Seq<char>|
            session_entries(*final(s)) == #[trigger] session_entries(*old(s)).insert(key@, text),
{
    s.insert(key, value)
}

/// Relies on `Session::remove_as`: a purged session is left as it is and answers
/// `None`; otherwise the key is removed, and a value that was there comes back
/// decoded, or as its JSON text where decoding fails.
#[verifier::external_body]
pub(crate) fn session_remove_as<T: DeserializeOwned>(s: &mut Session, key: &str) -> (r: Option<
    Result<T, String>,
>)
    ensures
        session_purged(*final(s)) == session_purged(*old(s)),
        session_purged(*old(s)) ==> r is None && session_entries(*final(s)) == session_entries(
            *old(s),
        ),
        !session_purged(*old(s)) ==> session_entries(*final(s)) == session_entries(
            *old(s),
        ).remove(key@),
        !session_purged(*old(s)) ==> (r is None <==> !session_entries(*old(s)).contains_key(
            key@,
        )),
        r matches Some(Err(text)) ==> session_entries(*old(s)).contains_key(key@)
            && text@ == session_entries(*old(s))[key@],
{
    s.remove_as::<T>(key)
}

} // verus!
