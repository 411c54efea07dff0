use vstd::prelude::*;

use core::marker::PhantomData;

verus! {

/// What can go wrong in reading or writing a store.
#[derive(Debug)]
pub enum TokenStoreError {
    NotFound,
    /// The file exists but could not be read or written.
    FileAccessError(std::io::Error),
    /// The file exists but does not hold a value of the expected shape.
    InvalidToken,
    Unknown,
}

/// A value of type `T` kept in a file, as JSON.
#[derive(Debug)]
pub struct TokenStore<T> {
    location: String,
    _data: PhantomData<T>,
}

impl<T> View for TokenStore<T> {
    type V = Seq<char>;

    closed spec fn view(&self) -> Seq<char> {
        self.location@
    }
}

impl<T> TokenStore<T> {
    /// A store kept at `path`.
    pub fn new(path: &str) -> (r: Self)
        ensures
            r@ == path@,
    {
        Self { location: path.to_owned(), _data: PhantomData }
    }

    /// The path of the file.
    pub fn location(&self) -> (r: &str)
        ensures
            r@ == self@,
    {
        self.location.as_str()
    }

    /// What loading gives, from whether the file exists and, where it does, the value its
    /// contents parse into: nothing for a missing file (that is no error), `InvalidToken`
    /// for contents that do not parse, the value otherwise.
    pub fn load_outcome(&self, exists: bool, parsed: Option<T>) -> (r: Result<
        Option<T>,
        TokenStoreError,
    >)
        ensures
            !exists ==> r == Ok::<Option<T>, TokenStoreError>(None),
            exists && parsed is None ==> r matches Err(TokenStoreError::InvalidToken),
            exists && parsed is Some ==> r == Ok::<Option<T>, TokenStoreError>(parsed),
    {
        if !exists {
            return Ok(None);
        }
        match parsed {
            Some(v) => Ok(Some(v)),
            None => Err(TokenStoreError::InvalidToken),
        }
    }
}

} // verus!
