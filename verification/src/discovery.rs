//! Discovery of devices on the local network with SSDP: the search message
//! the controller broadcasts, and how it reads the location of a device
//! from an answer.

use crate::text;
use crate::weectrl::DiscoveryMode;
use vstd::prelude::*;

verus! {

/// The start of the SSDP search message, up to its MX value.
pub const SSDP_SEARCH_HEAD: &'static str = "M-SEARCH * HTTP/1.1\r\nHost: 239.255.255.250:1900\r\nMan: \"ssdp:discover\"\r\nST: upnp:rootdevice\r\nMX: ";

/// The end of the SSDP search message, after its MX value.
pub const SSDP_SEARCH_TAIL: &'static str = "\r\nContent-Length: 0\r\n\r\n";

/// The SSDP search message that gives devices `mx` seconds to answer.
pub open spec fn ssdp_search_of(mx: nat) -> Seq<char> {
    SSDP_SEARCH_HEAD@ + text::decimal(mx) + SSDP_SEARCH_TAIL@
}

/// The SSDP search message that gives devices `mx_seconds` seconds to
/// answer.
pub fn ssdp_search_message(mx_seconds: u64) -> (m: String)
    ensures
        m@ == ssdp_search_of(mx_seconds as nat),
{
    let mut v = text::to_chars(SSDP_SEARCH_HEAD);
    text::push_decimal(&mut v, mx_seconds);
    let tail = text::to_chars(SSDP_SEARCH_TAIL);
    text::push_all(&mut v, tail.as_slice());
    text::string_from_chars(v.as_slice())
}

/// Whether some answer to a broadcast registered a new device.
pub open spec fn any_registered(registered: Seq<bool>) -> bool {
    exists|i: int| 0 <= i < registered.len() && registered[i]
}

/// Whether the disk cache is rewritten with the devices then known, once
/// discovery in `mode` has ended, given for each answer to the broadcast
/// whether it registered a new device. `BroadcastOnly` always rewrites it;
/// `CacheAndBroadcast` rewrites it when some answer registered a new device;
/// `CacheOnly` never does.
pub open spec fn rewrites_cache(mode: DiscoveryMode, registered: Seq<bool>) -> bool {
    match mode {
        DiscoveryMode::BroadcastOnly => true,
        DiscoveryMode::CacheAndBroadcast => any_registered(registered),
        DiscoveryMode::CacheOnly => false,
    }
}

/// Whether the disk cache is rewritten once discovery in `mode` has ended;
/// `registered` says for each answer to the broadcast whether it registered
/// a new device.
pub fn cache_needs_rewrite(mode: DiscoveryMode, registered: &[bool]) -> (r: bool)
    ensures
        r == rewrites_cache(mode, registered@),
        mode is BroadcastOnly ==> r,
        mode is CacheOnly ==> !r,
        mode is CacheAndBroadcast ==> (r <==> exists|i: int|
            0 <= i < registered@.len() && #[trigger] registered@[i]),
{
    match mode {
        DiscoveryMode::BroadcastOnly => {
            return true;
        },
        DiscoveryMode::CacheOnly => {
            return false;
        },
        DiscoveryMode::CacheAndBroadcast => {},
    }
    let mut i: usize = 0;
    while i < registered.len()
        invariant
            mode is CacheAndBroadcast,
            i <= registered@.len(),
            forall|j: int| 0 <= j < i ==> !registered@[j],
        decreases registered@.len() - i,
    {
        if registered[i] {
            assert(registered@[i as int]);
            return true;
        }
        i += 1;
    }
    false
}

/// Law: after a broadcast with the disk cache read first, the cache is
/// rewritten when any answer, whichever, registered a new device, and only
/// then; the order of the answers does not matter, and more answers never
/// take a rewrite back. After a broadcast alone it is always rewritten.
pub proof fn lemma_rewrites_cache(a: Seq<bool>, b: Seq<bool>, i: int)
    ensures
        0 <= i < a.len() && a[i] ==> rewrites_cache(DiscoveryMode::CacheAndBroadcast, a),
        (forall|j: int| 0 <= j < a.len() ==> !a[j]) ==> !rewrites_cache(
            DiscoveryMode::CacheAndBroadcast,
            a,
        ),
        rewrites_cache(DiscoveryMode::CacheAndBroadcast, a + b) == rewrites_cache(
            DiscoveryMode::CacheAndBroadcast,
            b + a,
        ),
        rewrites_cache(DiscoveryMode::CacheAndBroadcast, a + b) == (rewrites_cache(
            DiscoveryMode::CacheAndBroadcast,
            a,
        ) || rewrites_cache(DiscoveryMode::CacheAndBroadcast, b)),
        rewrites_cache(DiscoveryMode::BroadcastOnly, a),
        !rewrites_cache(DiscoveryMode::CacheOnly, a),
{
    assert forall|j: int| 0 <= j < a.len() implies (a + b)[j] == a[j] && (b + a)[j + b.len()]
        == a[j] by {}
    assert forall|j: int| 0 <= j < b.len() implies (a + b)[j + a.len()] == b[j] && (b + a)[j]
        == b[j] by {}
    if any_registered(a + b) {
        let j = choose|j: int| 0 <= j < (a + b).len() && (a + b)[j];
        if j < a.len() {
            assert(a[j]);
        } else {
            assert(b[j - a.len()]);
        }
    }
    if any_registered(b + a) {
        let j = choose|j: int| 0 <= j < (b + a).len() && (b + a)[j];
        if j < b.len() {
            assert(b[j]);
        } else {
            assert(a[j - b.len()]);
        }
    }
    if any_registered(a) {
        let j = choose|j: int| 0 <= j < a.len() && a[j];
        assert((a + b)[j]);
        assert((b + a)[j + b.len()]);
    }
    if any_registered(b) {
        let j = choose|j: int| 0 <= j < b.len() && b[j];
        assert((a + b)[j + a.len()]);
        assert((b + a)[j]);
    }
}

/// What std's `str::to_lowercase` makes of a text (Unicode lower case,
/// with the context rule for final sigma).
pub uninterp spec fn lowercase(s: Seq<char>) -> Seq<char>;

/// Calls std's `str::to_lowercase`; the contract claims that the result is
/// `lowercase` of the text, which depends on the text alone.
#[verifier::external_body]
fn to_lowercase(s: &str) -> (r: String)
    ensures
        r@ == lowercase(s@),
{
    s.to_lowercase()
}

/// The length of the first line of `s`: the index of its first newline, or
/// its length when it has none.
pub open spec fn line_end(s: Seq<char>) -> nat
    decreases s.len(),
{
    if s.len() == 0 || s[0] == '\n' {
        0
    } else {
        1 + line_end(s.drop_first())
    }
}

/// The first line ends at the first newline, or at the end.
pub proof fn lemma_line_end(s: Seq<char>, k: int)
    requires
        0 <= k <= s.len(),
        forall|j: int| 0 <= j < k ==> s[j] != '\n',
        k == s.len() || s[k] == '\n',
    ensures
        line_end(s) == k,
    decreases k,
{
    if k > 0 {
        assert forall|j: int| 0 <= j < k - 1 implies s.drop_first()[j] != '\n' by {
            assert(s.drop_first()[j] == s[j + 1]);
        }
        lemma_line_end(s.drop_first(), k - 1);
    }
}

/// The first line is no longer than the text.
pub proof fn lemma_line_end_bound(s: Seq<char>)
    ensures
        line_end(s) <= s.len(),
    decreases s.len(),
{
    if s.len() > 0 && s[0] != '\n' {
        lemma_line_end_bound(s.drop_first());
    }
}

/// The first line of `s` as std's `str::lines` gives it: without its
/// newline, and without a carriage return just before that newline.
pub open spec fn first_line(s: Seq<char>) -> Seq<char> {
    let e = line_end(s) as int;
    let line = s.take(e);
    if e < s.len() && line.len() > 0 && line.last() == '\r' {
        line.drop_last()
    } else {
        line
    }
}

/// The location that one lower-case line of an SSDP answer gives, if any:
/// when it holds `location` and `http`, the text from the first `http` on,
/// without surrounding white space.
pub open spec fn line_location(l: Seq<char>) -> Option<Seq<char>> {
    if text::contains(l, "location"@) && text::find(l, "http"@) is Some {
        Some(text::trim(l.skip(text::find(l, "http"@)->Some_0)))
    } else {
        None
    }
}

/// The location that an SSDP answer gives, if any: that of the first line
/// whose lower-case form gives one.
pub open spec fn ssdp_location(s: Seq<char>) -> Option<Seq<char>>
    decreases s.len(),
{
    if s.len() == 0 {
        None
    } else {
        let e = line_end(s) as int;
        let l = lowercase(first_line(s));
        if line_location(l) is Some {
            line_location(l)
        } else if e < s.len() {
            proof {
                lemma_line_end_bound(s);
            }
            ssdp_location(s.skip(e + 1))
        } else {
            None
        }
    }
}

/// The location that one lower-case line of an SSDP answer gives, if any.
pub fn location_in_line(line: &str) -> (r: Option<String>)
    ensures
        text::opt_text(r) == line_location(line@),
{
    let lower = text::to_chars(line);
    let location = text::to_chars("location");
    let http = text::to_chars("http");
    if text::contains_chars(lower.as_slice(), location.as_slice()) {
        match text::find_chars(lower.as_slice(), http.as_slice()) {
            Some(idx) => {
                proof {
                    text::lemma_find(lower@, http@);
                }
                let url = text::copy_range(lower.as_slice(), idx, lower.len());
                assert(url@ =~= lower@.skip(idx as int));
                let trimmed = text::trim_chars(url.as_slice());
                return Some(text::string_from_chars(trimmed.as_slice()));
            },
            None => {},
        }
    }
    None
}

/// The location URL in an SSDP answer from a device.
pub fn parse_ssdp_response(response: &str) -> (r: Option<String>)
    ensures
        text::opt_text(r) == ssdp_location(response@),
{
    let s = text::to_chars(response);
    let n = s.len();
    let mut start: usize = 0;
    assert(s@.skip(0) =~= s@);
    while start < n
        invariant
            n == s@.len(),
            s@ == response@,
            start <= n,
            ssdp_location(s@) == ssdp_location(s@.skip(start as int)),
        decreases n - start,
    {
        let ghost rest = s@.skip(start as int);
        let mut e = start;
        while e < n && s[e] != '\n'
            invariant
                n == s@.len(),
                start <= e <= n,
                forall|j: int| start <= j < e ==> s@[j] != '\n',
            decreases n - e,
        {
            e += 1;
        }
        proof {
            assert forall|j: int| 0 <= j < e - start implies rest[j] != '\n' by {
                assert(rest[j] == s@[start + j]);
            }
            if e < n {
                assert(rest[e - start] == s@[e as int]);
            }
            lemma_line_end(rest, e - start);
        }
        let mut line = text::copy_range(s.as_slice(), start, e);
        if e < n && line.len() > 0 && line[line.len() - 1] == '\r' {
            line.pop();
        }
        assert(line@ =~= first_line(rest));
        let lower_string = to_lowercase(text::string_from_chars(line.as_slice()).as_str());
        let found = location_in_line(lower_string.as_str());
        if found.is_some() {
            return found;
        }
        if e >= n {
            return None;
        }
        assert(rest.skip(e - start + 1) =~= s@.skip(e + 1));
        start = e + 1;
    }
    None
}

} // verus!
