//! The state of a data source between refreshes.
use vstd::prelude::*;
use crate::error::error_text;
use crate::error::AppError;
use crate::rates::Rates;

verus! {

/// The live rates: loading, loaded, or failed with a message.
#[derive(Clone, Debug, PartialEq)]
pub enum DataState {
    Loading,
    Loaded(Rates),
    Error(String),
}

impl DataState {
    /// The state after a fetch: the rates, or the error's text.
    pub fn from_result(result: Result<Rates, AppError>) -> (r: DataState)
        ensures
            match result {
                Ok(x) => r == DataState::Loaded(x),
                Err(e) => r matches DataState::Error(m) && m@ == error_text(e),
            },
    {
        match result {
            Ok(rates) => DataState::Loaded(rates),
            Err(e) => DataState::Error(e.to_string()),
        }
    }

    pub fn is_loading(&self) -> (r: bool)
        ensures
            r == (*self is Loading),
    {
        match self {
            DataState::Loading => true,
            _ => false,
        }
    }

    /// The rates, once loaded.
    pub fn data(&self) -> (r: Option<&Rates>)
        ensures
            match *self {
                DataState::Loaded(x) => r == Some(&x),
                _ => r is None,
            },
    {
        match self {
            DataState::Loaded(rates) => Some(rates),
            _ => None,
        }
    }
}

/// The historical rates: loading, loaded, or failed with a message.
#[derive(Clone, Debug, PartialEq)]
pub enum HistoricalDataState {
    Loading,
    Loaded(Rates),
    Error(String),
}

impl HistoricalDataState {
    /// The state after a fetch: the rates, or the error's text.
    pub fn from_result(result: Result<Rates, AppError>) -> (r: HistoricalDataState)
        ensures
            match result {
                Ok(x) => r == HistoricalDataState::Loaded(x),
                Err(e) => r matches HistoricalDataState::Error(m) && m@ == error_text(e),
            },
    {
        match result {
            Ok(rates) => HistoricalDataState::Loaded(rates),
            Err(e) => HistoricalDataState::Error(e.to_string()),
        }
    }

    /// The rates, once loaded.
    pub fn data(&self) -> (r: Option<&Rates>)
        ensures
            match *self {
                HistoricalDataState::Loaded(x) => r == Some(&x),
                _ => r is None,
            },
    {
        match self {
            HistoricalDataState::Loaded(rates) => Some(rates),
            _ => None,
        }
    }
}

} // verus!
