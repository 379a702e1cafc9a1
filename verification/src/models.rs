use vstd::prelude::*;
use crate::errors::{HttpError, STATUS_BAD_REQUEST};

verus! {

/// A page of search results together with the total number of matches.
#[derive(Debug)]
pub struct FindResult<T> {
    pub results: Vec<T>,
    pub total: u64,
}

/// A single record wrapped for a response body.
pub struct OneResult<T> {
    pub result: T,
}

/// The query parameters of the paginated search: an allow-listed column
/// name, the value to match, and a page window.
pub struct FindQuery {
    pub query_key: Option<String>,
    pub query_value: Option<String>,
    pub page: Option<i32>,
    pub limit: Option<i32>,
}

impl FindQuery {
    pub open spec fn spec_valid(self) -> bool {
        &&& match self.query_key {
            Some(k) => k@.len() >= 1,
            None => true,
        }
        &&& match self.query_value {
            Some(v) => v@.len() >= 1,
            None => true,
        }
        &&& match self.page {
            Some(p) => p >= 1,
            None => true,
        }
        &&& match self.limit {
            Some(l) => 1 <= l <= 100,
            None => true,
        }
    }

    pub open spec fn spec_error_message(self) -> Seq<char> {
        if self.query_key matches Some(k) && k@.len() < 1 {
            "query_key: The search key of the query must have at least 1 characters"@
        } else if self.query_value matches Some(v) && v@.len() < 1 {
            "query_value: The search value of the query must have at least 1 characters"@
        } else if self.page matches Some(p) && p < 1 {
            "page: The pagination page must be greather than 1"@
        } else {
            "limit: The pagination limit must between 1 and 100"@
        }
    }

    pub fn validate(&self) -> (r: Result<(), HttpError>)
        ensures
            r is Ok <==> self.spec_valid(),
            r matches Err(e) ==> e.is(STATUS_BAD_REQUEST, "validation"@, self.spec_error_message()),
    {
        match &self.query_key {
            Some(k) => {
                if k.as_str().unicode_len() < 1 {
                    return Err(
                        HttpError::errors(
                            "query_key: The search key of the query must have at least 1 characters",
                        ),
                    );
                }
            },
            None => {},
        }
        match &self.query_value {
            Some(v) => {
                if v.as_str().unicode_len() < 1 {
                    return Err(
                        HttpError::errors(
                            "query_value: The search value of the query must have at least 1 characters",
                        ),
                    );
                }
            },
            None => {},
        }
        match &self.page {
            Some(p) => {
                if *p < 1 {
                    return Err(
                        HttpError::errors("page: The pagination page must be greather than 1"),
                    );
                }
            },
            None => {},
        }
        match &self.limit {
            Some(l) => {
                if !(1 <= *l && *l <= 100) {
                    return Err(
                        HttpError::errors("limit: The pagination limit must between 1 and 100"),
                    );
                }
            },
            None => {},
        }
        Ok(())
    }
}

/// A plain message response body.
pub struct MessageResponse {
    pub message: String,
}

/// What the service announces about itself on its root route.
pub struct ApiInfo {
    pub name: String,
    pub version: String,
    pub author: String,
}

} // verus!
