use serde::de::DeserializeOwned;
use serde::Serialize;
use std::marker::PhantomData;
use vstd::prelude::*;

verus! {

/// A session key bound to the type of the value stored under it.
///
/// Reading or writing through a `SessionKey<T>` fixes both the raw key and the
/// value type at the call site, so neither can be mistyped there.
pub struct SessionKey<T> {
    pub(crate) value: &'static str,
    pub(crate) _marker: PhantomData<T>,
}

impl<T> View for SessionKey<T> {
    type V = Seq<char>;

    /// The raw key.
    closed spec fn view(&self) -> Seq<char> {
        self.value@
    }
}

impl<T: Serialize + DeserializeOwned> SessionKey<T> {
    /// Constructs a typed session key. Any text is accepted as the raw key.
    #[must_use]
    pub fn new(value: &'static str) -> (r: Self)
        ensures
            r@ == value@,
    {
        SessionKey { value, _marker: PhantomData }
    }

    /// Returns the raw key as a string.
    #[must_use]
    pub fn as_str(&self) -> (r: &'static str)
        ensures
            r@ == self@,
    {
        self.value
    }
}

/// The view of a key is the text of its raw key.
pub(crate) proof fn lemma_view_is_raw<T>(key: &SessionKey<T>)
    ensures
        key@ == key.value@,
{
}

/// The raw key reads back as it was given: for every text `value`, the key that
/// `new(value)` builds answers `as_str` with that same text.
pub proof fn lemma_identifier_transparency<T>(value: &str, key: SessionKey<T>, raw: &str)
    requires
        key@ == value@,
        raw@ == key@,
    ensures
        raw@ == value@,
{
}

} // verus!
