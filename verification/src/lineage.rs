//! Lineage ids: the key and value pairs, read from a form-urlencoded header,
//! that trace a request across services, with the prefix their keys are given
//! when they are passed on.

use vstd::prelude::*;

use crate::encoding::{decode_form_pairs, form_urlencoded_pairs};
use crate::entries::{clone_pairs, collect_pairs, upsert_all, Entries};
use crate::text::{concat3, pair_views};

verus! {

/// Entries with each key written as the prefix, a comma and the key.
pub open spec fn prefixed(prefix: Seq<char>, entries: Entries) -> Entries {
    Seq::new(entries.len(), |i: int| (prefix + ","@ + entries[i].0, entries[i].1))
}

/// Lineage ids: a prefix and the ids by key, each key once.
#[derive(Clone, Debug)]
pub struct LineageIds {
    pub prefix: String,
    pub inner: Vec<(String, String)>,
}

/// Errors of reading lineage ids.
#[derive(Clone, Debug)]
pub enum LineageParseError {
    InvalidFormat(String),
    UrlDecoding(String),
}

impl LineageIds {
    /// Reads the ids from a form-urlencoded text; a text that does not decode
    /// gives the decoder's error text.
    pub fn new(prefix: &str, url_encoded_string: &str) -> (r: Result<Self, LineageParseError>)
        ensures
            match form_urlencoded_pairs(url_encoded_string@) {
                Ok(pairs) => r matches Ok(ids) && ids.prefix@ == prefix@
                    && pair_views(ids.inner@) == upsert_all(Seq::empty(), pairs),
                Err(e) => r matches Err(LineageParseError::InvalidFormat(m)) && m@ == e,
            },
            url_encoded_string@.len() == 0 ==> (r matches Ok(ids) && ids.prefix@ == prefix@ && ids.inner@.len() == 0),
    {
        let pairs = match decode_form_pairs(url_encoded_string) {
            Ok(p) => p,
            Err(e) => return Err(LineageParseError::InvalidFormat(e)),
        };
        let inner = collect_pairs(&pairs);
        Ok(LineageIds { prefix: String::from_str(prefix), inner })
    }

    /// No ids.
    pub fn empty(prefix: &str) -> (r: Self)
        ensures
            r.prefix@ == prefix@,
            r.inner@.len() == 0,
    {
        LineageIds { prefix: String::from_str(prefix), inner: Vec::new() }
    }

    /// The ids with each key written as the prefix, a comma and the key.
    pub fn inner(&self) -> (r: Vec<(String, String)>)
        ensures
            pair_views(r@) == prefixed(self.prefix@, pair_views(self.inner@)),
    {
        let mut out: Vec<(String, String)> = Vec::new();
        let n = self.inner.len();
        let mut i: usize = 0;
        while i < n
            invariant
                n == self.inner@.len(),
                i <= n,
                pair_views(out@) == prefixed(self.prefix@, pair_views(self.inner@)).subrange(0, i as int),
            decreases n - i,
        {
            let key = concat3(self.prefix.as_str(), ",", self.inner[i].0.as_str());
            proof {
                reveal_strlit(",");
            }
            let value = self.inner[i].1.clone();
            let ghost before = out@;
            let ghost entry = (key@, value@);
            out.push((key, value));
            proof {
                let want = prefixed(self.prefix@, pair_views(self.inner@));
                assert(out@ == before.push((key, value)));
                assert(pair_views(out@) =~= pair_views(before).push(entry));
                assert(entry == want[i as int]);
                assert(want.subrange(0, i + 1) =~= want.subrange(0, i as int).push(want[i as int]));
            }
            i = i + 1;
        }
        assert(prefixed(self.prefix@, pair_views(self.inner@)).subrange(0, n as int)
            =~= prefixed(self.prefix@, pair_views(self.inner@)));
        out
    }

    /// The ids with their keys as they were read.
    pub fn inner_raw(&self) -> (r: &Vec<(String, String)>)
        ensures
            r == &self.inner,
    {
        &self.inner
    }

    /// A copy of the ids that owns its prefix.
    pub fn to_owned(&self) -> (r: Self)
        ensures
            r.prefix@ == self.prefix@,
            pair_views(r.inner@) == pair_views(self.inner@),
    {
        LineageIds { prefix: self.prefix.clone(), inner: clone_pairs(&self.inner) }
    }
}

} // verus!
