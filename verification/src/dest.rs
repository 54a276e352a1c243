//! Derivation of the destination name for one transfer.
//!
//! The name is the final path segment of the source URL, prefixed by `/`,
//! when the URL parses and that segment is non-empty; otherwise a fresh
//! fallback name `/file_<uuid>.dat`.

use vstd::prelude::*;
use vstd::string::StrSliceExecFns;
use vstd::string::StringExecFns;

verus! {

/// The final path segment of a URL's text, as the `url` crate parses it:
/// `None` when the text does not parse as an absolute URL or the URL cannot
/// have path segments, `Some` of the (possibly empty) last segment otherwise.
pub uninterp spec fn last_path_segment(url: Seq<char>) -> Option<Seq<char>>;

/// Relies on `url::Url::parse` and `url::Url::path_segments`: the last path
/// segment depends on the URL text alone; a parse error or a
/// cannot-be-a-base URL has no segments.
#[verifier::external_body]
fn url_last_segment(url_str: &str) -> (r: Option<String>)
    ensures
        match r {
            Some(seg) => last_path_segment(url_str@) == Some(seg@),
            None => last_path_segment(url_str@) is None,
        },
{
    match url::Url::parse(url_str) {
        Ok(parsed) => match parsed.path_segments() {
            Some(segments) => segments.last().map(|seg| seg.to_string()),
            None => None,
        },
        Err(_) => None,
    }
}

/// Relies on `uuid::Uuid::new_v4` and its `Display` form: a fresh random
/// UUID prints as 36 characters, each a lower-case hex digit or a hyphen.
/// The value is random, so nothing relates one call to another.
#[verifier::external_body]
fn fresh_uuid_string() -> (r: String)
    ensures
        r@.len() == 36,
        forall|i: int|
            0 <= i < 36 ==> (r@[i] == '-' || ('0' <= r@[i] && r@[i] <= '9') || ('a' <= r@[i]
                && r@[i] <= 'f')),
{
    format!("{}", uuid::Uuid::new_v4())
}

/// Shape of a synthesized fallback name: `/file_` + 36 UUID characters + `.dat`.
pub open spec fn is_fallback_name(name: Seq<char>) -> bool {
    &&& name.len() == 46
    &&& name.subrange(0, 6) == "/file_"@
    &&& name.subrange(42, 46) == ".dat"@
}

/// What the derived destination name must be for a given URL text: `/` +
/// the final path segment when that segment exists and is non-empty, a
/// fallback name otherwise.
pub open spec fn dest_name_ok(url: Seq<char>, name: Seq<char>) -> bool {
    match last_path_segment(url) {
        Some(seg) => if seg.len() > 0 {
            name == seq!['/'] + seg
        } else {
            is_fallback_name(name)
        },
        None => is_fallback_name(name),
    }
}

fn fallback_name() -> (r: String)
    ensures
        is_fallback_name(r@),
{
    let u = fresh_uuid_string();
    let mut name = String::from_str("/file_");
    name.append(u.as_str());
    name.append(".dat");
    proof {
        reveal_strlit("/file_");
        reveal_strlit(".dat");
        assert(name@.subrange(0, 6) =~= "/file_"@);
        assert(name@.subrange(42, 46) =~= ".dat"@);
    }
    name
}

/// A string with every trailing `/` removed.
pub open spec fn trim_trailing_slashes(s: Seq<char>) -> Seq<char>
    decreases s.len(),
{
    if s.len() > 0 && s[s.len() - 1] == '/' {
        trim_trailing_slashes(s.drop_last())
    } else {
        s
    }
}

proof fn lemma_trim_trailing_slashes(s: Seq<char>, cut: int)
    requires
        0 <= cut <= s.len(),
        forall|j: int| cut <= j < s.len() ==> s[j] == '/',
        cut > 0 ==> s[cut - 1] != '/',
    ensures
        trim_trailing_slashes(s) == s.subrange(0, cut),
    decreases s.len(),
{
    if s.len() > cut {
        lemma_trim_trailing_slashes(s.drop_last(), cut);
        assert(s.drop_last().subrange(0, cut) =~= s.subrange(0, cut));
    } else {
        assert(s.subrange(0, cut) =~= s);
    }
}

/// Join the sink endpoint and a derived destination name: the endpoint,
/// shorn of trailing slashes, followed by the `/`-prefixed name.
pub fn build_upload_url(endpoint: &str, name: &str) -> (r: String)
    ensures
        r@ == trim_trailing_slashes(endpoint@) + name@,
{
    let n = endpoint.unicode_len();
    let mut cut: usize = n;
    while cut > 0 && endpoint.get_char(cut - 1) == '/'
        invariant
            cut <= n,
            n == endpoint@.len(),
            forall|j: int| cut <= j < n ==> endpoint@[j] == '/',
        decreases cut,
    {
        cut = cut - 1;
    }
    let base = endpoint.substring_char(0, cut);
    proof {
        lemma_trim_trailing_slashes(endpoint@, cut as int);
    }
    let mut r = String::from_str(base);
    r.append(name);
    r
}

/// Derive the destination name for one source URL.
pub fn get_filename_from_url(url_str: &str) -> (r: String)
    ensures
        dest_name_ok(url_str@, r@),
{
    match url_last_segment(url_str) {
        Some(seg) => {
            if seg.as_str().unicode_len() > 0 {
                let mut name = String::from_str("/");
                name.append(seg.as_str());
                proof {
                    reveal_strlit("/");
                    assert(name@ =~= seq!['/'] + seg@);
                }
                name
            } else {
                fallback_name()
            }
        },
        None => fallback_name(),
    }
}

} // verus!
