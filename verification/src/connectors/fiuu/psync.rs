//! The reading of Fiuu's answers to status queries.

use vstd::prelude::*;

use super::{parse_response, record_text, Fiuu, FiuuFields};
use crate::router_data::{get_header, header_value, ConnectorError};
use crate::text::{pair_views, str_eq};

verus! {

impl Fiuu {
    /// Reads the answer to a status query that came with headers: it must be
    /// declared plain UTF-8 text, and is then read as `key=value` lines. A
    /// missing content type cannot be handled; another one cannot be read.
    /// (An answer without headers is JSON, read elsewhere.)
    pub fn read_psync_response(headers: &Vec<(String, String)>, body: &[u8]) -> (r: Result<FiuuFields, ConnectorError>)
        ensures
            match header_value(headers@, "content-type"@) {
                None => r matches Err(ConnectorError::ResponseHandlingFailed),
                Some(ct) => if ct == "text/plain;charset=UTF-8"@ {
                    match r {
                        Ok(f) => vstd::utf8::valid_utf8(body@) && (pair_views(f.fields@), pair_views(f.miscellaneous@))
                            == record_text((Seq::empty(), Seq::empty()), vstd::utf8::decode_utf8(body@)),
                        Err(e) => !vstd::utf8::valid_utf8(body@) && e is ResponseDeserializationFailed,
                    }
                } else {
                    r matches Err(ConnectorError::ResponseDeserializationFailed)
                },
            },
    {
        let content_type = match get_header(headers, "content-type") {
            Some(ct) => ct,
            None => return Err(ConnectorError::ResponseHandlingFailed),
        };
        if str_eq(content_type.as_str(), "text/plain;charset=UTF-8") {
            parse_response(body)
        } else {
            Err(ConnectorError::ResponseDeserializationFailed)
        }
    }
}

} // verus!
