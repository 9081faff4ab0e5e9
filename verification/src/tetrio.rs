//! What the game's data service answers, and how an answer is judged.

use vstd::prelude::*;
use vstd::string::StringExecFns;

pub mod leaderboard;
pub mod user;

verus! {

/// Something that went wrong while asking the data service.
#[derive(Debug, PartialEq, Eq)]
pub enum TetrioApiError {
    /// The service, or the judging of its answer, gave this reason.
    Error(String),
}

impl View for TetrioApiError {
    type V = Seq<char>;

    /// The reason given.
    open spec fn view(&self) -> Seq<char> {
        match self {
            TetrioApiError::Error(reason) => reason@,
        }
    }
}

impl Clone for TetrioApiError {
    fn clone(&self) -> (r: Self)
        ensures
            r == *self,
    {
        match self {
            TetrioApiError::Error(reason) => TetrioApiError::Error(reason.clone()),
        }
    }
}

/// How the service had cached an answer on its side.
#[derive(Debug, PartialEq, Eq)]
pub struct CacheData {
    /// `hit`, `miss` or `awaited`.
    pub status: String,
    /// When the answer was cached, in milliseconds since the Unix epoch.
    pub cached_at: i64,
    /// When the service's cache expires, in milliseconds since the Unix epoch.
    pub cached_until: i64,
}

/// The mathematical content of a [`CacheData`].
pub struct CacheDataView {
    pub status: Seq<char>,
    pub cached_at: i64,
    pub cached_until: i64,
}

impl View for CacheData {
    type V = CacheDataView;

    open spec fn view(&self) -> CacheDataView {
        CacheDataView {
            status: self.status@,
            cached_at: self.cached_at,
            cached_until: self.cached_until,
        }
    }
}

impl Clone for CacheData {
    fn clone(&self) -> (r: Self)
        ensures
            r == *self,
    {
        CacheData {
            status: self.status.clone(),
            cached_at: self.cached_at,
            cached_until: self.cached_until,
        }
    }
}

/// An answer that carried data, without the envelope's flags.
#[derive(Debug, PartialEq, Eq)]
pub struct SuccessfulResponse<T> {
    /// The data asked for.
    pub data: T,
    /// How the service had cached it.
    pub cache: CacheData,
}

/// An answer of the data service, or the reason why there is none.
pub type TetrioResponse<T> = Result<SuccessfulResponse<T>, TetrioApiError>;

/// The envelope that every answer of the service comes in. `D` is the data
/// in whatever form the caller received it.
#[derive(Debug, PartialEq, Eq)]
pub struct TetrioResponseStruct<D> {
    /// Whether the service could answer.
    pub success: bool,
    /// Present in an answer that succeeded.
    pub cache: Option<CacheData>,
    /// Present in an answer that succeeded.
    pub data: Option<D>,
    /// Present in an answer that failed: the reason.
    pub error: Option<String>,
}

impl<D> TetrioResponseStruct<D> {
    /// Whether the envelope is one that [`Self::into_response`] accepts: a
    /// failure tells its reason.
    pub open spec fn tells_reason(self) -> bool {
        !self.success ==> self.error is Some
    }

    /// Judges an envelope. A failure is the error that the service gave; a
    /// success without data is the error `No data`; one with data and without
    /// cache information is `No cache data`; anything else is the data with
    /// its cache information.
    pub fn into_response(self) -> (r: TetrioResponse<D>)
        requires
            self.tells_reason(),
        ensures
            !self.success ==> r is Err && r->Err_0@ == self.error->0@,
            self.success && self.data is None ==> r is Err && r->Err_0@ == "No data"@,
            self.success && self.data is Some && self.cache is None ==> r is Err && r->Err_0@
                == "No cache data"@,
            self.success && self.data is Some && self.cache is Some ==> r == Ok::<
                SuccessfulResponse<D>,
                TetrioApiError,
            >(SuccessfulResponse { data: self.data->0, cache: self.cache->0 }),
    {
        if !self.success {
            match self.error {
                Some(reason) => Err(TetrioApiError::Error(reason)),
                None => vstd::pervasive::unreached(),
            }
        } else {
            match self.data {
                None => Err(TetrioApiError::Error(String::from_str("No data"))),
                Some(data) => match self.cache {
                    None => Err(TetrioApiError::Error(String::from_str("No cache data"))),
                    Some(cache) => Ok(SuccessfulResponse { data, cache }),
                },
            }
        }
    }
}

impl<D> SuccessfulResponse<D> {
    /// Replaces the data of an answer by what the caller made of it. Where
    /// the caller could make nothing of it, the result is the error
    /// `Could not parse`.
    pub fn parsed<T>(self, data: Option<T>) -> (r: TetrioResponse<T>)
        ensures
            data is None ==> r is Err && r->Err_0@ == "Could not parse"@,
            data is Some ==> r == Ok::<SuccessfulResponse<T>, TetrioApiError>(
                SuccessfulResponse { data: data->0, cache: self.cache },
            ),
    {
        match data {
            None => Err(TetrioApiError::Error(String::from_str("Could not parse"))),
            Some(data) => Ok(SuccessfulResponse { data, cache: self.cache }),
        }
    }
}

} // verus!
