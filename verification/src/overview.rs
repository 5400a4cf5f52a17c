//! The decrypted overview of an item: the superficial data shown before
//! the item's detail is unsealed.

use vstd::prelude::*;

use crate::json;
use crate::Error;

verus! {

/// An item overview, parsed from the plaintext of its `o` envelope.
/// Every field is optional; absent members simply stay empty.
pub struct Overview {
    pub title: Option<String>,
    pub ainfo: Option<String>,
    pub urls: Vec<URL>,
    pub url: Option<String>,
    pub tags: Vec<String>,
    pub ps: Option<i64>,
}

/// One entry of an overview's `URLs` list.
pub struct URL {
    pub u: String,
}

impl Overview {
    /// Parse an overview from decrypted JSON bytes.
    pub fn from_slice(d: &[u8]) -> (r: Result<Overview, Error>)
        ensures
            r matches Err(e) ==> e == Error::JsonError,
    {
        let v = match json::json_parse(d) {
            Some(v) => v,
            None => {
                return Err(Error::JsonError);
            },
        };
        let title = match json::json_get(&v, "title") {
            Some(x) => match json::json_str_string(x) {
                Some(s) => Some(s),
                None => {
                    return Err(Error::JsonError);
                },
            },
            None => None,
        };
        let ainfo = match json::json_get(&v, "ainfo") {
            Some(x) => match json::json_str_string(x) {
                Some(s) => Some(s),
                None => {
                    return Err(Error::JsonError);
                },
            },
            None => None,
        };
        let urls = match json::json_get(&v, "URLs") {
            Some(x) => match parse_urls(x) {
                Some(u) => u,
                None => {
                    return Err(Error::JsonError);
                },
            },
            None => Vec::new(),
        };
        let url = match json::json_get(&v, "url") {
            Some(x) => match json::json_str_string(x) {
                Some(s) => Some(s),
                None => {
                    return Err(Error::JsonError);
                },
            },
            None => None,
        };
        let tags = match json::json_get(&v, "tags") {
            Some(x) => match parse_tags(x) {
                Some(t) => t,
                None => {
                    return Err(Error::JsonError);
                },
            },
            None => Vec::new(),
        };
        let ps = match json::json_get(&v, "ps") {
            Some(x) => match json::json_i64(x) {
                Some(n) => Some(n),
                None => {
                    return Err(Error::JsonError);
                },
            },
            None => None,
        };
        Ok(Overview { title, ainfo, urls, url, tags, ps })
    }
}

/// Parse the `URLs` member: a list of objects each holding a `u` string.
fn parse_urls(v: &serde_json::Value) -> Option<Vec<URL>> {
    let n = match json::json_array_len(v) {
        Some(n) => n,
        None => {
            return None;
        },
    };
    let mut out: Vec<URL> = Vec::new();
    let mut i: usize = 0;
    while i < n
        decreases n - i,
    {
        let e = match json::json_array_get(v, i) {
            Some(e) => e,
            None => {
                return None;
            },
        };
        let u = match json::json_get(e, "u") {
            Some(x) => match json::json_str_string(x) {
                Some(s) => s,
                None => {
                    return None;
                },
            },
            None => {
                return None;
            },
        };
        out.push(URL { u });
        i = i + 1;
    }
    Some(out)
}

/// Parse the `tags` member: a list of strings.
fn parse_tags(v: &serde_json::Value) -> Option<Vec<String>> {
    let n = match json::json_array_len(v) {
        Some(n) => n,
        None => {
            return None;
        },
    };
    let mut out: Vec<String> = Vec::new();
    let mut i: usize = 0;
    while i < n
        decreases n - i,
    {
        let e = match json::json_array_get(v, i) {
            Some(e) => e,
            None => {
                return None;
            },
        };
        let s = match json::json_str_string(e) {
            Some(s) => s,
            None => {
                return None;
            },
        };
        out.push(s);
        i = i + 1;
    }
    Some(out)
}

} // verus!
