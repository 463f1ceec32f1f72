//! Fiuu: the reading of its `key=value` line answers into fields, and its
//! error responses.

use vstd::prelude::*;

mod psync;

use crate::common_enums::CurrencyUnit;
use crate::encoding::{json_quoted, json_string_literal};
use crate::entries::{find_key, find_key_index, keys_unique, lemma_find_key, lemma_upsert_keeps_keys_unique, set_entry, upsert, Entries};
use crate::router_data::{ConnectorError, ErrorResponse};
use crate::text::{
    all_whitespace, concat, find_char, first_index_of, lemma_first_index_of, opt_str, pair_views, split_once_char, split_once_spec,
    trims_to_empty, utf8_to_string,
};

verus! {

/// The fields read so far and the values that later lines replaced.
pub type FieldState = (Entries, Entries);

/// Reads one line: a `key=value` line with a key that is not blank sets the
/// key, and a value it replaces is kept, in JSON text, among the replaced
/// values; other lines are ignored.
pub open spec fn record_line(st: FieldState, line: Seq<char>) -> FieldState {
    match split_once_spec(line, '=') {
        None => st,
        Some((key, value)) => if all_whitespace(key) {
            st
        } else {
            match find_key(st.0, key) {
                Some(i) => (st.0.update(i, (key, value)), upsert(st.1, key, json_quoted(st.0[i].1))),
                None => (st.0.push((key, value)), st.1),
            }
        },
    }
}

/// A line without the carriage return that ended it.
pub open spec fn strip_cr(line: Seq<char>) -> Seq<char> {
    if line.len() > 0 && line.last() == '\r' {
        line.drop_last()
    } else {
        line
    }
}

/// Reads the lines of a text (`str::lines`: split at `\n`, with a `\r` before
/// it dropped, and no empty line after a final `\n`).
#[verifier::opaque]
pub open spec fn record_text(st: FieldState, s: Seq<char>) -> FieldState
    decreases s.len(),
{
    if s.len() == 0 {
        st
    } else {
        proof {
            lemma_first_index_of(s, '\n');
        }
        match first_index_of(s, '\n') {
            Some(i) => record_text(record_line(st, strip_cr(s.subrange(0, i))), s.subrange(i + 1, s.len() as int)),
            None => record_line(st, s),
        }
    }
}

proof fn lemma_record_text_step(st: FieldState, s: Seq<char>)
    ensures
        s.len() == 0 ==> record_text(st, s) == st,
        s.len() > 0 && first_index_of(s, '\n') is None ==> record_text(st, s) == record_line(st, s),
        s.len() > 0 ==> (first_index_of(s, '\n') matches Some(i) ==> record_text(st, s) == record_text(
            record_line(st, strip_cr(s.subrange(0, i))),
            s.subrange(i + 1, s.len() as int),
        )),
{
    reveal(record_text);
}

proof fn lemma_record_line_keeps_keys_unique(st: FieldState, line: Seq<char>)
    requires
        keys_unique(st.0),
        keys_unique(st.1),
    ensures
        keys_unique(record_line(st, line).0),
        keys_unique(record_line(st, line).1),
{
    reveal(record_line);
    match split_once_spec(line, '=') {
        None => {},
        Some((key, value)) => if !all_whitespace(key) {
            lemma_upsert_keeps_keys_unique(st.0, key, value);
            lemma_find_key(st.0, key);
            match find_key(st.0, key) {
                Some(i) => {
                    assert(st.0.update(i, (key, value)) == upsert(st.0, key, value));
                    lemma_upsert_keeps_keys_unique(st.1, key, json_quoted(st.0[i].1));
                },
                None => {
                    assert(st.0.push((key, value)) == upsert(st.0, key, value));
                },
            }
        },
    }
}

/// Reading an answer keeps each key once among the fields, and once among
/// the replaced values.
pub proof fn lemma_fiuu_keys_unique(st: FieldState, s: Seq<char>)
    requires
        keys_unique(st.0),
        keys_unique(st.1),
    ensures
        keys_unique(record_text(st, s).0),
        keys_unique(record_text(st, s).1),
    decreases s.len(),
{
    lemma_record_text_step(st, s);
    if s.len() > 0 {
        lemma_first_index_of(s, '\n');
        match first_index_of(s, '\n') {
            Some(i) => {
                let next = record_line(st, strip_cr(s.subrange(0, i)));
                lemma_record_line_keeps_keys_unique(st, strip_cr(s.subrange(0, i)));
                lemma_fiuu_keys_unique(next, s.subrange(i + 1, s.len() as int));
            },
            None => {
                lemma_record_line_keeps_keys_unique(st, s);
            },
        }
    }
}

/// The fields of a Fiuu answer, and the values of repeated keys that later
/// lines replaced.
#[derive(Clone, Debug)]
pub struct FiuuFields {
    pub fields: Vec<(String, String)>,
    pub miscellaneous: Vec<(String, String)>,
}

fn record_one_line(fields: &mut Vec<(String, String)>, misc: &mut Vec<(String, String)>, line: &str)
    ensures
        (pair_views(final(fields)@), pair_views(final(misc)@)) == record_line(
            (pair_views(old(fields)@), pair_views(old(misc)@)),
            line@,
        ),
{
    reveal(record_line);
    match split_once_char(line, '=') {
        None => {},
        Some((key, value)) => {
            if trims_to_empty(key.as_str()) {
                return;
            }
            match find_key_index(fields, key.as_str()) {
                Some(i) => {
                    let old_text = json_string_literal(fields[i].1.as_str());
                    fields.set(i, (key.clone(), value.clone()));
                    assert(pair_views(fields@) =~= pair_views(old(fields)@).update(i as int, (key@, value@)));
                    set_entry(misc, key.as_str(), old_text.as_str());
                },
                None => {
                    fields.push((key.clone(), value.clone()));
                    assert(pair_views(fields@) =~= pair_views(old(fields)@).push((key@, value@)));
                },
            }
        },
    }
}

/// Reads a Fiuu answer: UTF-8 text of `key=value` lines. Text that is not
/// UTF-8 cannot be read.
#[verifier::spinoff_prover]
pub fn parse_response(data: &[u8]) -> (r: Result<FiuuFields, ConnectorError>)
    ensures
        match r {
            Ok(f) => vstd::utf8::valid_utf8(data@) && (pair_views(f.fields@), pair_views(f.miscellaneous@))
                == record_text((Seq::empty(), Seq::empty()), vstd::utf8::decode_utf8(data@)),
            Err(e) => !vstd::utf8::valid_utf8(data@) && e is ResponseDeserializationFailed,
        },
{
    let text = match utf8_to_string(data) {
        Some(t) => t,
        None => return Err(ConnectorError::ResponseDeserializationFailed),
    };
    let s = text.as_str();
    let n = s.unicode_len();
    let mut fields: Vec<(String, String)> = Vec::new();
    let mut misc: Vec<(String, String)> = Vec::new();
    let mut start: usize = 0;
    assert(s@.subrange(0, n as int) =~= s@);
    assert(pair_views(fields@) =~= Seq::<(Seq<char>, Seq<char>)>::empty());
    assert(pair_views(misc@) =~= Seq::<(Seq<char>, Seq<char>)>::empty());
    while start < n
        invariant
            n == s@.len(),
            start <= n,
            record_text((pair_views(fields@), pair_views(misc@)), s@.subrange(start as int, n as int))
                == record_text((Seq::empty(), Seq::empty()), s@),
        decreases n - start,
    {
        let rest = s.substring_char(start, n);
        let ghost before = (pair_views(fields@), pair_views(misc@));
        proof {
            lemma_record_text_step(before, rest@);
        }
        match find_char(rest, '\n') {
            Some(i) => {
                let line_raw = rest.substring_char(0, i);
                let len = line_raw.unicode_len();
                let line = if len > 0 && line_raw.get_char(len - 1) == '\r' {
                    line_raw.substring_char(0, len - 1)
                } else {
                    line_raw
                };
                proof {
                    assert(line@ == strip_cr(rest@.subrange(0, i as int)));
                    assert(rest@.subrange(i + 1, rest@.len() as int) =~= s@.subrange(start + i + 1, n as int));
                }
                record_one_line(&mut fields, &mut misc, line);
                start = start + i + 1;
            },
            None => {
                record_one_line(&mut fields, &mut misc, rest);
                proof {
                    assert(s@.subrange(n as int, n as int) =~= Seq::<char>::empty());
                    lemma_record_text_step((pair_views(fields@), pair_views(misc@)), s@.subrange(n as int, n as int));
                }
                start = n;
            },
        }
    }
    proof {
        assert(s@.subrange(n as int, n as int).len() == 0);
        lemma_record_text_step((pair_views(fields@), pair_views(misc@)), s@.subrange(n as int, n as int));
    }
    Ok(FiuuFields { fields, miscellaneous: misc })
}

/// The error answer of Fiuu.
#[derive(Clone, Debug)]
pub struct FiuuErrorResponse {
    pub error_code: String,
    pub error_desc: String,
}

/// The Fiuu connector.
pub struct Fiuu;

impl Fiuu {
    /// The error response of an error answer: its code, and its description
    /// as message and reason.
    pub fn build_error_response(&self, response: &FiuuErrorResponse, http_code: u16) -> (r: ErrorResponse)
        ensures
            r.status_code == http_code,
            r.code@ == response.error_code@,
            r.message@ == response.error_desc@,
            opt_str(r.reason) == Some(response.error_desc@),
            r.attempt_status is None,
            r.connector_transaction_id is None,
    {
        ErrorResponse {
            raw_connector_response: None,
            status_code: http_code,
            code: response.error_code.clone(),
            message: response.error_desc.clone(),
            reason: Some(response.error_desc.clone()),
            attempt_status: None,
            connector_transaction_id: None,
        }
    }

    /// Where a payment is sent: the recurring endpoint for a merchant-initiated
    /// payment that is not a network transaction id flow, the direct endpoint
    /// otherwise. (The two paths differ in their leading slash, as Fiuu's do.)
    pub fn authorize_url(base_url: &str, off_session: Option<bool>, is_network_transaction_id_flow: Option<bool>) -> (r: String)
        ensures
            off_session == Some(true) && is_network_transaction_id_flow == Some(false)
                ==> r@ == base_url@ + "/RMS/API/Recurring/input_v7.php"@,
            !(off_session == Some(true) && is_network_transaction_id_flow == Some(false))
                ==> r@ == base_url@ + "RMS/API/Direct/1.4.0/index.php"@,
    {
        match (off_session, is_network_transaction_id_flow) {
            (Some(true), Some(false)) => concat(base_url, "/RMS/API/Recurring/input_v7.php"),
            _ => concat(base_url, "RMS/API/Direct/1.4.0/index.php"),
        }
    }

    /// Where a payment's status is asked for.
    pub fn psync_url(base_url: &str) -> (r: String)
        ensures
            r@ == base_url@ + "RMS/API/gate-query/index.php"@,
    {
        concat(base_url, "RMS/API/gate-query/index.php")
    }

    /// Where a capture is sent.
    pub fn capture_url(base_url: &str) -> (r: String)
        ensures
            r@ == base_url@ + "RMS/API/capstxn/index.php"@,
    {
        concat(base_url, "RMS/API/capstxn/index.php")
    }

    /// Where a void is sent.
    pub fn void_url(base_url: &str) -> (r: String)
        ensures
            r@ == base_url@ + "RMS/API/refundAPI/refund.php"@,
    {
        concat(base_url, "RMS/API/refundAPI/refund.php")
    }

    /// Where a refund is sent.
    pub fn refund_url(base_url: &str) -> (r: String)
        ensures
            r@ == base_url@ + "RMS/API/refundAPI/index.php"@,
    {
        concat(base_url, "RMS/API/refundAPI/index.php")
    }

    /// Where a refund's status is asked for.
    pub fn rsync_url(base_url: &str) -> (r: String)
        ensures
            r@ == base_url@ + "RMS/API/refundAPI/q_by_txn.php"@,
    {
        concat(base_url, "RMS/API/refundAPI/q_by_txn.php")
    }


}

impl Fiuu {
    /// The name of the connector.
    pub fn id(&self) -> (r: &'static str)
        ensures
            r@ == "fiuu"@,
    {
        "fiuu"
    }
    /// The content type of its requests.
    pub fn common_get_content_type(&self) -> (r: &'static str)
        ensures
            r@ == "multipart/form-data"@,
    {
        "multipart/form-data"
    }
    /// Amounts are sent to the connector in major units.
    pub fn get_currency_unit(&self) -> (r: CurrencyUnit)
        ensures
            r == CurrencyUnit::Base,
    {
        CurrencyUnit::Base
    }
}

} // verus!
