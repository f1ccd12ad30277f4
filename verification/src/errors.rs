//! The ways in which a request can fail, and the response that each becomes.

use vstd::prelude::*;
use crate::response::{Body, BodyView, Response, ResponseView};

verus! {

/// Why a request failed.
#[derive(Clone, Debug, PartialEq, Eq)]
pub enum ErrorKind {
    /// The store returned no row where one was expected.
    NotFound,
    /// The store could not run the statement.
    DatabaseError,
    /// A row that the store returned does not have the shape of the record.
    MappingError,
    /// The pool handed out no connection; the text says why.
    PoolError(String),
}

/// The view of a `ErrorKind`.
pub enum ErrorKindView {
    NotFound,
    DatabaseError,
    MappingError,
    PoolError(Seq<char>),
}

impl View for ErrorKind {
    type V = ErrorKindView;

    open spec fn view(&self) -> ErrorKindView {
        match self {
            ErrorKind::NotFound => ErrorKindView::NotFound,
            ErrorKind::DatabaseError => ErrorKindView::DatabaseError,
            ErrorKind::MappingError => ErrorKindView::MappingError,
            ErrorKind::PoolError(detail) => ErrorKindView::PoolError(detail@),
        }
    }
}

impl DeepView for ErrorKind {
    type V = ErrorKindView;

    open spec fn deep_view(&self) -> ErrorKindView {
        self@
    }
}

/// The response that stands for an error: 404 with no body where a row was
/// missing, 500 with the pool's own words where no connection could be had,
/// 500 with no body for the rest.
pub open spec fn error_response(e: ErrorKindView) -> ResponseView {
    match e {
        ErrorKindView::NotFound => ResponseView { status: 404, body: BodyView::Empty },
        ErrorKindView::PoolError(detail) => ResponseView {
            status: 500,
            body: BodyView::Text(detail),
        },
        _ => ResponseView { status: 500, body: BodyView::Empty },
    }
}

impl ErrorKind {
    /// The response that this error becomes.
    pub fn error_response(&self) -> (r: Response)
        ensures
            r@ == error_response(self@),
    {
        match self {
            ErrorKind::NotFound => Response { status: 404, body: Body::Empty },
            ErrorKind::PoolError(detail) => Response {
                status: 500,
                body: Body::Text(detail.clone()),
            },
            _ => Response { status: 500, body: Body::Empty },
        }
    }
}

} // verus!
