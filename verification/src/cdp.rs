//! The facilitator client's request paths.

use vstd::prelude::*;
use crate::text::{starts_with, index_of};
use crate::landing::{trim_end_char, trim_end_matches_char};

verus! {

/// The path of an `http(s)` URL without trailing slashes: empty when the URL
/// has no path or another scheme.
pub open spec fn url_path(url: Seq<char>) -> Seq<char> {
    let rest = if starts_with(url, "https://"@) {
        Some(url.skip(8))
    } else if starts_with(url, "http://"@) {
        Some(url.skip(7))
    } else {
        None
    };
    let path = match rest {
        Some(r) => if index_of(r, '/') < r.len() {
            r.skip(index_of(r, '/'))
        } else {
            "/"@
        },
        None => "/"@,
    };
    trim_end_char(path, '/')
}

/// The base path of the facilitator URL, without trailing slashes.
pub fn extract_path(url: &str) -> (r: String)
    ensures
        r@ == url_path(url@),
{
    proof {
        reveal_strlit("https://");
        reveal_strlit("http://");
    }
    let v = crate::text::chars_of(url);
    let start: Option<usize> = if crate::text::str_starts_with(url, "https://") {
        Some(8)
    } else if crate::text::str_starts_with(url, "http://") {
        Some(7)
    } else {
        None
    };
    let path = match start {
        Some(s) => {
            let mut i = s;
            while i < v.len() && v[i] != '/'
                invariant
                    s <= i <= v@.len(),
                    forall|k: int| s <= k < i ==> v@[k] != '/',
                decreases v@.len() - i,
            {
                i = i + 1;
            }
            proof {
                let r = url@.skip(s as int);
                assert(v@ == url@);
                assert forall|k: int| 0 <= k < i - s implies r[k] != '/' by {
                    assert(r[k] == v@[s + k]);
                }
                if i < v.len() {
                    assert(r[i - s] == v@[i as int]);
                }
                crate::text::lemma_index_of_unique(r, '/', i - s);
            }
            if i < v.len() {
                let mut out = String::new();
                crate::text::push_chars(&mut out, &v, i, v.len());
                assert(out@ =~= url@.skip(s as int).skip(i - s));
                out
            } else {
                crate::text::to_owned("/")
            }
        },
        None => crate::text::to_owned("/"),
    };
    trim_end_matches_char(path.as_str(), '/')
}

} // verus!
