//! Page routes and the versioned path helpers.
//!
//! A route is either Static — a pure render function, with an optional
//! enumerator for the concrete paths it answers for — or Dynamic, whose
//! asynchronous handler runs outside this library and whose pages are not
//! statically exportable.

use vstd::prelude::*;
use vstd::string::*;

use crate::fingerprint::fingerprint_of;
use crate::fingerprint::hash;
use crate::strutil::last_index_of;
use crate::strutil::lemma_last_index_of_bounds;
use crate::strutil::lemma_split_on_len;
use crate::strutil::rfind_char;
use crate::strutil::split_on;

verus! {

/// The components of `path` after the first `/` separator: everything before
/// the first separator is dropped, as an absolute URL path starts with one.
pub fn path_components<'a>(path: &'a str) -> (r: Vec<&'a str>)
    ensures
        r@.len() + 1 == split_on(path@, '/').len(),
        forall|k: int| 0 <= k < r@.len() ==> r@[k]@ == split_on(path@, '/')[k + 1],
{
    let len = path.unicode_len();
    let mut comps: Vec<&'a str> = Vec::new();
    let mut start: usize = 0;
    let mut i: usize = 0;
    proof {
        assert(path@.take(0).len() == 0);
        assert(path@.subrange(0, 0) =~= Seq::<char>::empty());
    }
    while i < len
        invariant
            start <= i <= len,
            len == path@.len(),
            split_on(path@.take(i as int), '/').len() == comps@.len() + 1,
            forall|k: int|
                0 <= k < comps@.len() ==> comps@[k]@ == split_on(path@.take(i as int), '/')[k],
            split_on(path@.take(i as int), '/').last() == path@.subrange(start as int, i as int),
        decreases len - i,
    {
        let ch = path.get_char(i);
        proof {
            assert(path@.take(i + 1).drop_last() =~= path@.take(i as int));
            assert(path@.take(i + 1).last() == path@[i as int]);
            lemma_split_on_len(path@.take(i as int), '/');
        }
        if ch == '/' {
            comps.push(path.substring_char(start, i));
            start = i + 1;
            proof {
                assert(path@.subrange(start as int, start as int) =~= Seq::<char>::empty());
            }
        } else {
            proof {
                assert(path@.subrange(start as int, i + 1) =~= path@.subrange(
                    start as int,
                    i as int,
                ).push(path@[i as int]));
            }
        }
        i = i + 1;
    }
    proof {
        assert(path@.take(len as int) =~= path@);
        lemma_split_on_len(path@, '/');
    }
    comps.push(path.substring_char(start, len));
    let mut r: Vec<&'a str> = Vec::new();
    let mut j: usize = 1;
    while j < comps.len()
        invariant
            1 <= j <= comps@.len(),
            comps@.len() == split_on(path@, '/').len(),
            forall|k: int| 0 <= k < comps@.len() ==> comps@[k]@ == split_on(path@, '/')[k],
            r@.len() + 1 == j,
            forall|k: int| 0 <= k < r@.len() ==> r@[k]@ == split_on(path@, '/')[k + 1],
        decreases comps@.len() - j,
    {
        r.push(comps[j]);
        j += 1;
    }
    r
}

/// The versioned URL for an asset: `/assets/` followed by the fingerprint of
/// the path string itself, then the path's extension. The fingerprint is of
/// the identifying path string, not of the file's content.
pub open spec fn asset_path_of(path_chars: Seq<char>, path_bytes: Seq<u8>) -> Seq<char> {
    "/assets/"@ + fingerprint_of(path_bytes) + "."@ + path_chars.skip(
        last_index_of(path_chars, '.') + 1,
    )
}

/// The versioned URL for the asset at `path`, which must have an extension:
/// a `.` after the last `/` and not immediately after it.
pub fn asset_path(path: &str) -> (r: String)
    requires
        last_index_of(path@, '.') > last_index_of(path@, '/') + 1,
    ensures
        r@ == asset_path_of(path@, path.spec_bytes()),
{
    proof {
        lemma_last_index_of_bounds(path@, '.');
        lemma_last_index_of_bounds(path@, '/');
    }
    let h = hash(path.as_bytes());
    let dot = rfind_char(path, '.').unwrap();
    let len = path.unicode_len();
    let ext = path.substring_char(dot + 1, len);
    let mut r = "/assets/".to_owned();
    r.append(h.as_str());
    r.append(".");
    r.append(ext);
    proof {
        assert(ext@ =~= path@.skip(last_index_of(path@, '.') + 1));
        assert(r@ =~= asset_path_of(path@, path.spec_bytes()));
    }
    r
}

/// Law: the versioned asset path is determined by the path string alone —
/// equal paths always yield the same asset URL.
pub proof fn lemma_asset_path_deterministic(
    c1: Seq<char>,
    b1: Seq<u8>,
    c2: Seq<char>,
    b2: Seq<u8>,
)
    requires
        c1 == c2,
        b1 == b2,
    ensures
        asset_path_of(c1, b1) == asset_path_of(c2, b2),
{
}

/// The versioned URLs for a client crate's script and wasm binary.
pub struct ClientPaths {
    pub path_js: String,
    pub path_wasm: String,
}

/// The versioned URLs for the client crate named `crate_name`: both carry the
/// fingerprint of the name string.
pub fn client_paths(crate_name: &'static str) -> (r: ClientPaths)
    ensures
        r.path_js@ == "/js/"@ + fingerprint_of(crate_name.spec_bytes()) + ".js"@,
        r.path_wasm@ == "/js/"@ + fingerprint_of(crate_name.spec_bytes()) + "_bg.wasm"@,
{
    let h = hash(crate_name.as_bytes());
    let mut path_js = "/js/".to_owned();
    path_js.append(h.as_str());
    path_js.append(".js");
    let mut path_wasm = "/js/".to_owned();
    path_wasm.append(h.as_str());
    path_wasm.append("_bg.wasm");
    ClientPaths { path_js, path_wasm }
}

/// A page definition: Static renders synchronously and can enumerate its
/// concrete paths; Dynamic marks a page whose asynchronous handler lives with
/// the host, outside this library.
pub enum Route<P, H> {
    Static { paths: Option<P>, handler: H },
    Dynamic,
}

impl<P: Fn() -> Vec<String>, H: Fn(String) -> String> Route<P, H> {
    pub open spec fn is_static(self) -> bool {
        match self {
            Route::Static { .. } => true,
            Route::Dynamic => false,
        }
    }

    pub open spec fn is_dynamic(self) -> bool {
        !self.is_static()
    }

    pub open spec fn has_enumerator(self) -> bool {
        match self {
            Route::Static { paths: Some(_), .. } => true,
            _ => false,
        }
    }

    pub open spec fn spec_handler(self) -> H
        recommends
            self.is_static(),
    {
        match self {
            Route::Static { handler, .. } => handler,
            Route::Dynamic => vstd::pervasive::arbitrary(),
        }
    }

    pub open spec fn spec_enumerator(self) -> P
        recommends
            self.has_enumerator(),
    {
        match self {
            Route::Static { paths: Some(p), .. } => p,
            _ => vstd::pervasive::arbitrary(),
        }
    }

    /// A statically rendered page whose only concrete path is its pattern.
    pub fn new_static(handler: H) -> (r: Route<P, H>)
        ensures
            r.is_static(),
            !r.has_enumerator(),
            r.spec_handler() == handler,
    {
        Route::Static { paths: None, handler }
    }

    /// A statically rendered page with an enumerator for its concrete paths.
    pub fn new_static_with_paths(paths: P, handler: H) -> (r: Route<P, H>)
        ensures
            r.is_static(),
            r.has_enumerator(),
            r.spec_enumerator() == paths,
            r.spec_handler() == handler,
    {
        Route::Static { paths: Some(paths), handler }
    }

    /// A dynamically handled page; its handler is the host's, so the variant
    /// carries no state here.
    pub fn new_dynamic() -> (r: Route<P, H>)
        ensures
            r.is_dynamic(),
    {
        Route::Dynamic
    }

    /// The dispatcher's synchronous half: a Static route renders `path` at
    /// once; a Dynamic route yields None, its handler running with the host.
    pub fn render(self, path: String) -> (r: Option<String>)
        requires
            self.is_static() ==> call_requires(self.spec_handler(), (path,)),
        ensures
            r is Some <==> self.is_static(),
            match r {
                Some(html) => call_ensures(self.spec_handler(), (path,), html),
                None => true,
            },
    {
        match self {
            Route::Static { handler, .. } => Some(handler(path)),
            Route::Dynamic => None,
        }
    }
}

/// A route table entry: the route's URL pattern and the factory that builds a
/// fresh, unshared route instance for each dispatch or export iteration.
pub struct RouteInitializer<I> {
    pub path_with_placeholders: String,
    pub init: I,
}

} // verus!
