//! The client side: holds a server's base URL and builds the request URLs
//! that mirror the server's route and query-string conventions. The
//! transport that sends the requests lives outside the library.

use vstd::prelude::*;
use vstd::string::StringExecFns;

use crate::text::{append_i64, append_u64, dec_chars, int_chars, join, lemma_join_push};

verus! {

/// A handle on one server: everything a request needs besides the table,
/// the id and the payload.
pub struct EasyClient {
    pub base_url: String,
}

/// The query string appended to a list URL: empty without parameters, else
/// `?` and `name=value` pairs joined with `&`, in parameter order.
pub open spec fn query_suffix(ps: Seq<(String, String)>) -> Seq<char> {
    if ps.len() == 0 {
        Seq::empty()
    } else {
        ("?")@ + join(ps.map_values(|p: (String, String)| p.0@ + ("=")@ + p.1@), ("&")@)
    }
}

impl EasyClient {
    /// Builds a client for the server at this host and port, over plain
    /// HTTP.
    pub fn new(host: &str, port: u16) -> (c: EasyClient)
        ensures
            c.base_url@ == ("http://")@ + host@ + (":")@ + dec_chars(port as int),
    {
        let mut url = String::from_str("http://");
        url.append(host);
        url.append(":");
        append_u64(&mut url, port as u64);
        EasyClient { base_url: url }
    }

    /// The URL of a table's collection route.
    pub fn table_url(&self, table: &str) -> (u: String)
        ensures
            u@ == self.base_url@ + ("/")@ + table@,
    {
        let mut url = self.base_url.clone();
        url.append("/");
        url.append(table);
        url
    }

    /// The URL of one record's route: the collection route with the id as
    /// the final path segment.
    pub fn record_url(&self, table: &str, id: i64) -> (u: String)
        ensures
            u@ == self.base_url@ + ("/")@ + table@ + ("/")@ + int_chars(id as int),
    {
        let mut url = self.table_url(table);
        url.append("/");
        append_i64(&mut url, id);
        url
    }

    /// The URL of a filtered or sorted list call: the collection route plus
    /// the query string for the given parameters, in the given order.
    pub fn list_url(&self, table: &str, params: &Vec<(String, String)>) -> (u: String)
        ensures
            u@ == self.base_url@ + ("/")@ + table@ + query_suffix(params@),
    {
        let ghost pieces = params@.map_values(|p: (String, String)| p.0@ + ("=")@ + p.1@);
        let mut url = self.table_url(table);
        let ghost head = self.base_url@ + ("/")@ + table@;
        if params.len() == 0 {
            proof {
                assert(url@ =~= head + query_suffix(params@));
            }
            return url;
        }
        url.append("?");
        let mut i: usize = 0;
        while i < params.len()
            invariant
                0 < params@.len(),
                0 <= i <= params@.len(),
                pieces == params@.map_values(|p: (String, String)| p.0@ + ("=")@ + p.1@),
                url@ == head + ("?")@ + join(pieces.take(i as int), ("&")@),
            decreases params@.len() - i,
        {
            if i > 0 {
                url.append("&");
            }
            url.append(params[i].0.as_str());
            url.append("=");
            url.append(params[i].1.as_str());
            proof {
                lemma_join_push(pieces.take(i as int), ("&")@, pieces[i as int]);
                assert(pieces.take(i + 1 as int) =~= pieces.take(i as int).push(pieces[i as int]));
                assert(pieces[i as int] == params@[i as int].0@ + ("=")@ + params@[i as int].1@);
                if i == 0 {
                    assert(url@ =~= head + ("?")@ + join(pieces.take(1), ("&")@));
                } else {
                    assert(url@ =~= head + ("?")@ + (join(pieces.take(i as int), ("&")@) + ("&")@
                        + pieces[i as int]));
                }
            }
            i += 1;
        }
        proof {
            assert(pieces.take(params@.len() as int) =~= pieces);
        }
        url
    }
}

} // verus!
