use crate::key::{lemma_view_is_raw, SessionKey};
use crate::store::{
    session_entries, session_get, session_insert, session_purged, session_remove_as,
};
use actix_session::{Session, SessionGetError, SessionInsertError};
use serde::de::DeserializeOwned;
use serde::Serialize;
use vstd::prelude::*;

verus! {

/// Whether a read of `key` finds nothing stored under it.
pub open spec fn reads_absent(entries: Map<Seq<char>, Seq<char>>, key: Seq<char>) -> bool {
    !entries.contains_key(key)
}

/// The state left by a removal of `key`: a purged session keeps its state.
pub open spec fn state_after_remove(
    entries: Map<Seq<char>, Seq<char>>,
    purged: bool,
    key: Seq<char>,
) -> Map<Seq<char>, Seq<char>> {
    if purged {
        entries
    } else {
        entries.remove(key)
    }
}

/// A key that was never written reads absent: inserting under other keys and
/// removing any key leave a key absent once it is absent.
pub proof fn lemma_absent_until_inserted(
    entries: Map<Seq<char>, Seq<char>>,
    key: Seq<char>,
    other: Seq<char>,
    text: Seq<char>,
    purged: bool,
    removed: Seq<char>,
)
    requires
        reads_absent(entries, key),
        other != key,
    ensures
        reads_absent(entries.insert(other, text), key),
        reads_absent(state_after_remove(entries, purged, removed), key),
{
}

/// After a successful insert into a session that is not purged, a read of the
/// same key does not answer `Ok(None)`: the key holds the text just stored,
/// and every other key keeps what it held.
pub proof fn lemma_insert_then_present(
    entries: Map<Seq<char>, Seq<char>>,
    key: Seq<char>,
    text: Seq<char>,
)
    ensures
        !reads_absent(entries.insert(key, text), key),
        entries.insert(key, text)[key] == text,
        forall|j: Seq<char>|
            j != key && entries.contains_key(j) ==> #[trigger] entries.insert(key, text)[j]
                == entries[j],
{
}

/// Once a removal of `key` has answered, a read of `key` answers `Ok(None)`;
/// the one exception is a purged session that still holds a value there.
pub proof fn lemma_remove_then_absent(
    entries: Map<Seq<char>, Seq<char>>,
    purged: bool,
    key: Seq<char>,
)
    requires
        !purged || reads_absent(entries, key),
    ensures
        reads_absent(state_after_remove(entries, purged, key), key),
{
}

/// Removal does not depend on decoding: on a session that is not purged, a
/// value stored under `key` is gone after the removal whatever it decodes to,
/// and the other keys keep their values.
pub proof fn lemma_removal_is_unconditional(entries: Map<Seq<char>, Seq<char>>, key: Seq<char>)
    requires
        !reads_absent(entries, key),
    ensures
        reads_absent(state_after_remove(entries, false, key), key),
        forall|j: Seq<char>|
            j != key && entries.contains_key(j) ==> #[trigger] state_after_remove(
                entries,
                false,
                key,
            )[j] == entries[j],
{
}

/// Typed access to a session: each operation takes a `SessionKey<T>` in place
/// of a raw key, and reads or writes values of type `T` under it.
pub trait SessionExt {
    /// The session state: each raw key mapped to the JSON text stored under it.
    spec fn state(&self) -> Map<Seq<char>, Seq<char>>;

    /// Whether the session ignores inserts and removals.
    spec fn purged(&self) -> bool;

    /// Gets the value stored under `key`.
    ///
    /// Answers `Ok(None)` exactly when nothing is stored under the key; a stored
    /// value comes back decoded as `T`, or as an error where it does not decode.
    fn get_by_key<T: DeserializeOwned>(&self, key: SessionKey<T>) -> (r: Result<
        Option<T>,
        SessionGetError,
    >)
        ensures
            (r matches Ok(None)) <==> reads_absent(self.state(), key@),
    ;

    /// Stores `value` under `key`, replacing what was there whatever its type.
    ///
    /// An error comes when the value cannot be encoded; the state is then
    /// unchanged. A purged session is left as it is.
    fn insert_by_key<T: Serialize>(&mut self, key: SessionKey<T>, value: T) -> (r: Result<
        (),
        SessionInsertError,
    >)
        ensures
            final(self).purged() == old(self).purged(),
            old(self).purged() ==> r is Ok && final(self).state() == old(self).state(),
            r is Err ==> final(self).state() == old(self).state(),
            !old(self).purged() && r is Ok ==> exists|text: Seq<char>|
                final(self).state() == #[trigger] old(self).state().insert(key@, text),
    ;

    /// Removes the value stored under `key` and decodes it as `T`.
    ///
    /// Answers `Ok(None)` when nothing was removed. The removal happens even
    /// where the value does not decode: the error then holds its JSON text.
    fn remove_by_key<T: DeserializeOwned>(&mut self, key: SessionKey<T>) -> (r: Result<
        Option<T>,
        String,
    >)
        ensures
            final(self).purged() == old(self).purged(),
            final(self).state() == state_after_remove(
                old(self).state(),
                old(self).purged(),
                key@,
            ),
            (r matches Ok(None)) <==> (old(self).purged() || reads_absent(
                old(self).state(),
                key@,
            )),
            r matches Err(text) ==> !old(self).purged() && !reads_absent(
                old(self).state(),
                key@,
            ) && text@ == old(self).state()[key@],
    ;
}

impl SessionExt for Session {
    open spec fn state(&self) -> Map<Seq<char>, Seq<char>> {
        session_entries(*self)
    }

    open spec fn purged(&self) -> bool {
        session_purged(*self)
    }

    fn get_by_key<T: DeserializeOwned>(&self, key: SessionKey<T>) -> (r: Result<
        Option<T>,
        SessionGetError,
    >) {
        proof {
            lemma_view_is_raw(&key);
        }
        session_get::<T>(self, key.value)
    }

    fn insert_by_key<T: Serialize>(&mut self, key: SessionKey<T>, value: T) -> (r: Result<
        (),
        SessionInsertError,
    >) {
        proof {
            lemma_view_is_raw(&key);
        }
        let ghost before = *self;
        let r = session_insert(self, key.value, value);
        proof {
            if !session_purged(before) && r is Ok {
                let text = choose|text: Seq<char>|
                    session_entries(*self) == #[trigger] session_entries(before).insert(
                        key.value@,
                        text,
                    );
                assert(self.state() == before.state().insert(key@, text));
            }
        }
        r
    }

    fn remove_by_key<T: DeserializeOwned>(&mut self, key: SessionKey<T>) -> (r: Result<
        Option<T>,
        String,
    >) {
        proof {
            lemma_view_is_raw(&key);
        }
        match session_remove_as::<T>(self, key.value) {
            None => Ok(None),
            Some(Ok(v)) => Ok(Some(v)),
            Some(Err(text)) => Err(text),
        }
    }
}

} // verus!
