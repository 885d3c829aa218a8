use vstd::prelude::*;

use crate::result::{ConnectorCause, Error, error_text};

verus! {

/// A failure of the HTTP client, as it is handed to the S3 SDK as the cause of
/// a failed connection.
pub struct HttpCLientErrorWrapper(pub Error);

impl HttpCLientErrorWrapper {
    /// The cause the connector reports for this failure: the client's error,
    /// known to the SDK only by its text.
    pub fn into_connector_cause(self) -> (c: ConnectorCause)
        ensures
            c matches ConnectorCause::Other(t) && t@ == error_text(self.0@),
    {
        ConnectorCause::Other(self.0.to_text())
    }
}

} // verus!
