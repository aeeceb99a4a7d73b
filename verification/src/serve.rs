//! The asset half of the request dispatcher: content-type inference, the
//! conditional-request negotiation, and the lookup against the embedded
//! directory.

use vstd::prelude::*;
use vstd::string::*;

use crate::fingerprint::fingerprint_of;
use crate::include_dir::File;
use crate::include_dir::IncludedDirectory;
use crate::strutil::has_suffix;
use crate::strutil::str_ends_with;

verus! {

/// The request method, as far as asset serving cares: anything but GET is
/// refused with absence, the caller answering 405 or similar.
#[derive(PartialEq, Eq, Structural, Clone, Copy, Debug)]
pub enum Method {
    Get,
    Head,
    Post,
    Put,
    Delete,
    Patch,
    Options,
    Other,
}

/// A response this core emits: 200 with the file's bytes, or 304 with an
/// empty body when the request's validator matched the stored fingerprint.
pub struct AssetResponse {
    pub status: u16,
    pub content_type: Option<String>,
    pub etag: Option<String>,
    pub body: Vec<u8>,
}

/// The Content-Type inferred from a path's extension, by the fixed table;
/// None for an unknown extension, and the header is then omitted.
pub open spec fn content_type_of(p: Seq<char>) -> Option<Seq<char>> {
    if has_suffix(p, ".css"@) {
        Some("text/css"@)
    } else if has_suffix(p, ".js"@) {
        Some("text/javascript"@)
    } else if has_suffix(p, ".svg"@) {
        Some("image/svg+xml"@)
    } else if has_suffix(p, ".wasm"@) {
        Some("application/wasm"@)
    } else {
        None
    }
}

/// The Content-Type for `path`, by its extension; None when unknown.
pub fn content_type(path: &str) -> (r: Option<&'static str>)
    ensures
        match r {
            Some(ct) => content_type_of(path@) == Some(ct@),
            None => content_type_of(path@) is None,
        },
{
    if str_ends_with(path, ".css") {
        Some("text/css")
    } else if str_ends_with(path, ".js") {
        Some("text/javascript")
    } else if str_ends_with(path, ".svg") {
        Some("image/svg+xml")
    } else if str_ends_with(path, ".wasm") {
        Some("application/wasm")
    } else {
        None
    }
}

/// The validator view of an optional conditional-request header.
pub open spec fn validator_view(v: Option<&String>) -> Option<Seq<char>> {
    match v {
        Some(x) => Some(x@),
        None => None,
    }
}

/// Whether a stored fingerprint and a request validator match exactly: only
/// then is the content skipped. No weak-validator or wildcard semantics.
pub open spec fn revalidated(hash: Option<Seq<char>>, validator: Option<Seq<char>>) -> bool {
    match (hash, validator) {
        (Some(h), Some(v)) => v == h,
        _ => false,
    }
}

/// The response for a file that was found at `path`: the Content-Type from
/// the extension table, the stored fingerprint echoed as the validator
/// header, and a 304 with an empty body exactly when the request's validator
/// matches that fingerprint — otherwise a 200 with the file's full bytes. A
/// file without a fingerprint is never revalidated and always served whole.
pub fn asset_response(file: &File, path: &String, if_none_match: Option<&String>) -> (r:
    AssetResponse)
    ensures
        ({
            let rv = revalidated(file.hash_view(), validator_view(if_none_match));
            &&& r.status == if rv {
                304u16
            } else {
                200u16
            }
            &&& r.body@ == if rv {
                Seq::<u8>::empty()
            } else {
                file.data@
            }
        }),
        match r.etag {
            Some(e) => file.hash_view() == Some(e@),
            None => file.hash_view() is None,
        },
        match r.content_type {
            Some(c) => content_type_of(path@) == Some(c@),
            None => content_type_of(path@) is None,
        },
{
    let ct: Option<String> = match content_type(path.as_str()) {
        Some(c) => Some(c.to_owned()),
        None => None,
    };
    match &file.hash {
        Some(h) => {
            let etag = Some(h.clone());
            let matched = match if_none_match {
                Some(v) => *v == *h,
                None => false,
            };
            if matched {
                AssetResponse { status: 304, content_type: ct, etag, body: Vec::new() }
            } else {
                AssetResponse {
                    status: 200,
                    content_type: ct,
                    etag,
                    body: crate::strutil::copy_bytes(&file.data),
                }
            }
        },
        None => {
            AssetResponse {
                status: 200,
                content_type: ct,
                etag: None,
                body: crate::strutil::copy_bytes(&file.data),
            }
        },
    }
}

/// Serves an asset from the embedded directory: only GET requests are
/// considered, the request path's leading `/` is stripped and looked up, a
/// miss is absence, and a hit is answered by the caching negotiation with
/// the file's stored fingerprint — which, by the directory's invariant, is
/// the fingerprint of the bytes served.
pub fn serve_asset(
    dir: &IncludedDirectory,
    method: Method,
    path: &str,
    if_none_match: Option<&String>,
) -> (r: Option<AssetResponse>)
    requires
        dir.wf(),
        path@.len() >= 1,
        path@[0] == '/',
    ensures
        ({
            let rel = path@.skip(1);
            match r {
                None => method != Method::Get || !dir.contents().contains_key(rel),
                Some(resp) => {
                    let data = dir.contents()[rel];
                    let fp = fingerprint_of(data);
                    let rv = revalidated(Some(fp), validator_view(if_none_match));
                    &&& method == Method::Get
                    &&& dir.contents().contains_key(rel)
                    &&& resp.status == if rv {
                        304u16
                    } else {
                        200u16
                    }
                    &&& resp.body@ == if rv {
                        Seq::<u8>::empty()
                    } else {
                        data
                    }
                    &&& match resp.etag {
                        Some(e) => e@ == fp,
                        None => false,
                    }
                    &&& match resp.content_type {
                        Some(c) => content_type_of(rel) == Some(c@),
                        None => content_type_of(rel) is None,
                    }
                },
            }
        }),
{
    if method != Method::Get {
        return None;
    }
    let len = path.unicode_len();
    let rel = path.substring_char(1, len).to_owned();
    proof {
        assert(rel@ =~= path@.skip(1));
    }
    match dir.read(&rel) {
        Some(f) => {
            let file = File::embedded(f);
            let resp = asset_response(&file, &rel, if_none_match);
            Some(resp)
        },
        None => None,
    }
}

} // verus!
