//! The static-export pipeline's decisions: which file a page path is written
//! to, which concrete paths a route exports, and the per-route plan of
//! rendered pages. Creating, copying and writing the actual files is the
//! host's, outside this library.

use vstd::prelude::*;
use vstd::string::*;

use crate::route::Route;

verus! {

/// The file an exported page path is written to, relative to the
/// distribution root: a path ending in `/` gains `index.html`, any other
/// gains `.html`, and the leading `/` is dropped. In particular `/` itself
/// maps to `index.html` at the root.
pub open spec fn export_file_name_of(p: Seq<char>) -> Seq<char> {
    if p.last() == '/' {
        p.skip(1) + "index.html"@
    } else {
        p.skip(1) + ".html"@
    }
}

/// The output file for the page at `path`, which must be absolute.
pub fn export_file_name(path: &str) -> (r: String)
    requires
        path@.len() >= 1,
        path@[0] == '/',
    ensures
        r@ == export_file_name_of(path@),
{
    let len = path.unicode_len();
    let last = path.get_char(len - 1);
    let mut r = path.substring_char(1, len).to_owned();
    proof {
        assert(r@ =~= path@.skip(1));
    }
    if last == '/' {
        r.append("index.html");
    } else {
        r.append(".html");
    }
    r
}

/// The concrete paths a route exports: a Dynamic route exports none; a
/// Static route exports its enumerator's output when one was given, else the
/// route's pattern alone.
pub fn export_paths<P: Fn() -> Vec<String>, H: Fn(String) -> String>(
    route: Route<P, H>,
    pattern: &String,
) -> (r: Vec<String>)
    requires
        route.has_enumerator() ==> call_requires(route.spec_enumerator(), ()),
    ensures
        route.is_dynamic() ==> r@.len() == 0,
        (route.is_static() && !route.has_enumerator()) ==> (r@.len() == 1 && r@[0] == *pattern),
        route.has_enumerator() ==> call_ensures(route.spec_enumerator(), (), r),
{
    match route {
        Route::Dynamic => Vec::new(),
        Route::Static { paths: Some(p), .. } => p(),
        Route::Static { paths: None, .. } => {
            let mut v: Vec<String> = Vec::new();
            v.push(pattern.clone());
            v
        },
    }
}

/// One planned page: the file it is written to, relative to the distribution
/// root, and the rendered body written there.
pub struct ExportEntry {
    pub file: String,
    pub html: String,
}

/// The export plan for one route: for each concrete path — the enumerator's
/// output, or the pattern alone without an enumerator — the output file name
/// and the page the route's render function produced for that path, in path
/// order. A Dynamic route contributes nothing: its pages have no finite
/// output set and are skipped.
pub fn export_route<P: Fn() -> Vec<String>, H: Fn(String) -> String>(
    route: Route<P, H>,
    pattern: &String,
) -> (r: Vec<ExportEntry>)
    requires
        pattern@.len() >= 1,
        pattern@[0] == '/',
        route.has_enumerator() ==> call_requires(route.spec_enumerator(), ()),
        route.is_static() ==> forall|p: String| call_requires(route.spec_handler(), (p,)),
        route.has_enumerator() ==> forall|ps: Vec<String>, i: int|
            (call_ensures(route.spec_enumerator(), (), ps) && 0 <= i < ps@.len()) ==> ((
            #[trigger] ps@[i])@.len() >= 1 && ps@[i]@[0] == '/'),
    ensures
        route.is_dynamic() ==> r@.len() == 0,
        exists|ps: Seq<String>|
            {
                &&& (route.is_dynamic() ==> ps.len() == 0)
                &&& ((route.is_static() && !route.has_enumerator()) ==> ps =~= seq![*pattern])
                &&& (route.has_enumerator() ==> exists|pv: Vec<String>|
                    call_ensures(route.spec_enumerator(), (), pv) && ps =~= pv@)
                &&& r@.len() == #[trigger] ps.len()
                &&& forall|k: int|
                    0 <= k < ps.len() ==> (#[trigger] r@[k]).file@ == export_file_name_of(ps[k]@)
                        && call_ensures(route.spec_handler(), (ps[k],), r@[k].html)
            },
{
    let ghost grt = route;
    match route {
        Route::Dynamic => {
            let r: Vec<ExportEntry> = Vec::new();
            proof {
                let ps = Seq::<String>::empty();
                assert((grt.is_dynamic() ==> ps.len() == 0) && r@.len() == ps.len());
            }
            r
        },
        Route::Static { paths, handler } => {
            proof {
                assert(grt.is_static());
                assert(grt.spec_handler() == handler);
                assert(grt.has_enumerator() ==> grt.spec_enumerator() == paths->0);
            }
            let path_list: Vec<String> = match paths {
                Some(p) => p(),
                None => {
                    let mut v: Vec<String> = Vec::new();
                    v.push(pattern.clone());
                    proof {
                        assert(v@ =~= seq![*pattern]);
                    }
                    v
                },
            };
            let ghost ps: Seq<String> = path_list@;
            proof {
                assert forall|i: int| 0 <= i < ps.len() implies (#[trigger] ps[i])@.len() >= 1
                    && ps[i]@[0] == '/' by {
                    if grt.has_enumerator() {
                        assert(call_ensures(grt.spec_enumerator(), (), path_list));
                        assert(path_list@[i]@.len() >= 1 && path_list@[i]@[0] == '/');
                    } else {
                        assert(ps[i] == *pattern);
                    }
                }
            }
            let mut r: Vec<ExportEntry> = Vec::new();
            let mut j: usize = 0;
            while j < path_list.len()
                invariant
                    j <= path_list@.len(),
                    path_list@ == ps,
                    r@.len() == j,
                    forall|p: String| call_requires(handler, (p,)),
                    handler == grt.spec_handler(),
                    forall|i: int|
                        0 <= i < ps.len() ==> (#[trigger] ps[i])@.len() >= 1 && ps[i]@[0] == '/',
                    forall|k: int|
                        0 <= k < j ==> (#[trigger] r@[k]).file@ == export_file_name_of(ps[k]@)
                            && call_ensures(grt.spec_handler(), (ps[k],), r@[k].html),
                decreases path_list@.len() - j,
            {
                let p = path_list[j].clone();
                let file = export_file_name(p.as_str());
                let html = handler(p);
                r.push(ExportEntry { file, html });
                j += 1;
            }
            r
        },
    }
}

} // verus!
