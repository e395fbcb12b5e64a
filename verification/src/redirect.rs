//! Redirecting plaintext HTTP to HTTPS.
//!
//! When redirecting is enabled and the TLS listener binds the canonical
//! HTTPS port, a second plaintext listener answers every request with a
//! permanent redirect to the HTTPS equivalent of the requested URL.  The
//! per-request decision is made here, on the raw bytes of the Host header
//! and of the request target:
//!
//! - a missing Host header, a Host header that is not valid header text, or
//!   a rewritten host that is not a valid URI authority yield 400 Bad
//!   Request;
//! - otherwise the answer is 301 with a Location of the form
//!   `https://<rewritten host><target>`, where the textual port `80` is
//!   replaced with `443` inside the Host header value and an absent or
//!   empty target (or the lone asterisk form) becomes `/`.
//!
//! The port rewrite is a literal substring replacement, not a structural
//! parse of host and port: a host name that contains the digits `80`
//! elsewhere is rewritten there too.

use vstd::prelude::*;

verus! {

/// The canonical HTTPS port; redirecting is only meaningful when the TLS
/// listener binds it.
pub const HTTPS_PORT: u16 = 443;

/// The canonical plaintext HTTP port that the redirect listener binds.
pub const HTTP_PORT: u16 = 80;

/// Byte value of `/`.
pub const SLASH: u8 = 47;

/// Byte value of `*`.
pub const ASTERISK: u8 = 42;

/// Byte value of `8`.
pub const DIGIT_EIGHT: u8 = 56;

/// Byte value of `0`.
pub const DIGIT_ZERO: u8 = 48;

/// Byte value of `4`.
pub const DIGIT_FOUR: u8 = 52;

/// Byte value of `3`.
pub const DIGIT_THREE: u8 = 51;

/// Whether redirecting is active, and if not, why.
#[derive(Clone, Copy, Debug, PartialEq, Eq, Structural)]
pub enum RedirectMode {
    /// Redirecting was requested and the TLS listener binds the canonical
    /// HTTPS port: the redirect listener starts.
    Active,
    /// Redirecting was requested but the TLS listener binds some other
    /// port: the listener does not start, a diagnostic is logged, and the
    /// server keeps serving HTTPS only.
    MisconfiguredPort,
    /// Redirecting was not requested.
    Disabled,
}

/// Decide whether the redirect listener starts.
pub fn redirect_mode(redirect_http: bool, https_port: u16) -> (m: RedirectMode)
    ensures
        m is Active <==> redirect_http && https_port == HTTPS_PORT,
        m is MisconfiguredPort <==> redirect_http && https_port != HTTPS_PORT,
        m is Disabled <==> !redirect_http,
{
    if !redirect_http {
        RedirectMode::Disabled
    } else if https_port == HTTPS_PORT {
        RedirectMode::Active
    } else {
        RedirectMode::MisconfiguredPort
    }
}

/// Whether a byte may appear in the text of a header value: visible ASCII,
/// space, or horizontal tab.
pub open spec fn is_header_byte(b: u8) -> bool {
    32 <= b < 127 || b == 9
}

/// Whether a Host header value is valid text.
pub open spec fn is_header_text(s: Seq<u8>) -> bool {
    forall|i: int| 0 <= i < s.len() ==> is_header_byte(s[i])
}

/// Check a Host header value for validity as text.
pub fn check_header_text(h: &[u8]) -> (b: bool)
    ensures
        b == is_header_text(h@),
{
    let mut i: usize = 0;
    while i < h.len()
        invariant
            i <= h@.len(),
            forall|j: int| 0 <= j < i ==> is_header_byte(h@[j]),
        decreases h@.len() - i,
    {
        let c = h[i];
        if !(32 <= c && c < 127 || c == 9) {
            return false;
        }
        i = i + 1;
    }
    true
}

/// The Host header value with every occurrence of the substring `80`
/// replaced by `443`, scanning left to right without overlap.
pub open spec fn rewritten_host(s: Seq<u8>) -> Seq<u8>
    decreases s.len(),
{
    if s.len() >= 2 && s[0] == DIGIT_EIGHT && s[1] == DIGIT_ZERO {
        seq![DIGIT_FOUR, DIGIT_FOUR, DIGIT_THREE] + rewritten_host(s.skip(2))
    } else if s.len() == 0 {
        Seq::empty()
    } else {
        seq![s[0]] + rewritten_host(s.skip(1))
    }
}

/// Replace the textual port `80` with `443` in a Host header value.
pub fn rewrite_host(h: &[u8]) -> (r: Vec<u8>)
    ensures
        r@ == rewritten_host(h@),
{
    let mut out: Vec<u8> = Vec::new();
    let mut i: usize = 0;
    proof {
        assert(h@.skip(0) =~= h@);
        assert(out@ + rewritten_host(h@) =~= rewritten_host(h@));
    }
    while i < h.len()
        invariant
            i <= h@.len(),
            rewritten_host(h@) == out@ + rewritten_host(h@.skip(i as int)),
        decreases h@.len() - i,
    {
        if i + 1 < h.len() && h[i] == DIGIT_EIGHT && h[i + 1] == DIGIT_ZERO {
            out.push(DIGIT_FOUR);
            out.push(DIGIT_FOUR);
            out.push(DIGIT_THREE);
            proof {
                assert(h@.skip(i as int).skip(2) =~= h@.skip(i + 2));
                assert(out@ + rewritten_host(h@.skip(i + 2)) =~= rewritten_host(h@));
            }
            i = i + 2;
        } else {
            out.push(h[i]);
            proof {
                assert(h@.skip(i as int).skip(1) =~= h@.skip(i + 1));
                assert(out@ + rewritten_host(h@.skip(i + 1)) =~= rewritten_host(h@));
            }
            i = i + 1;
        }
    }
    proof {
        assert(h@.skip(i as int) =~= Seq::<u8>::empty());
        assert(out@ =~= rewritten_host(h@));
    }
    out
}

/// What the authority parser of the HTTP types behind `axum::http` returns
/// on a given byte string: whether the bytes form a valid URI authority.
pub uninterp spec fn authority_ok(s: Seq<u8>) -> bool;

/// Relies on `axum::http::uri::Authority::try_from` (the `http` crate's
/// authority parser) to validate the rewritten host: the outcome depends on
/// the bytes alone, and an empty byte string is never a valid authority.
#[verifier::external_body]
fn parse_authority(s: &[u8]) -> (ok: bool)
    ensures
        ok == authority_ok(s@),
        s@.len() == 0 ==> !ok,
{
    axum::http::uri::Authority::try_from(s).is_ok()
}

/// The bytes of `https://`, the scheme prefix of every redirect target.
pub open spec fn https_prefix() -> Seq<u8> {
    seq![104u8, 116u8, 116u8, 112u8, 115u8, 58u8, 47u8, 47u8]
}

/// Whether a request target is taken as absent: empty, or the lone
/// asterisk form.  Such a target defaults to `/`.
pub open spec fn target_is_blank(t: Seq<u8>) -> bool {
    t.len() == 0 || (t.len() == 1 && t[0] == ASTERISK)
}

/// The path-and-query part of the redirect target for a present request
/// target.
pub open spec fn normalized_target(t: Seq<u8>) -> Seq<u8> {
    if target_is_blank(t) {
        seq![SLASH]
    } else {
        t
    }
}

/// The per-request answer of the redirect listener.
#[derive(Debug)]
pub enum RedirectAction {
    /// 301 Moved Permanently, with the given Location header value.
    Redirect(Vec<u8>),
    /// 400 Bad Request, with no Location header.
    BadRequest,
}

impl RedirectAction {
    /// The HTTP status code of the answer.
    pub fn status(&self) -> (s: u16)
        ensures
            self is Redirect ==> s == 301,
            self is BadRequest ==> s == 400,
    {
        match self {
            RedirectAction::Redirect(_) => 301,
            RedirectAction::BadRequest => 400,
        }
    }
}

/// Build the Location header value `https://<authority><target>`.  A URI
/// assembled from a scheme, a non-empty authority and a path-and-query is
/// their concatenation, and assembling it cannot fail, so the bytes are
/// built directly.
fn build_location(authority: &Vec<u8>, target: Option<&[u8]>) -> (loc: Vec<u8>)
    ensures
        target is None ==> loc@ == https_prefix() + authority@ + seq![SLASH],
        target matches Some(t) ==> loc@ == https_prefix() + authority@ + normalized_target(t@),
{
    let mut loc: Vec<u8> = Vec::new();
    loc.push(104);
    loc.push(116);
    loc.push(116);
    loc.push(112);
    loc.push(115);
    loc.push(58);
    loc.push(47);
    loc.push(47);
    proof {
        assert(loc@ =~= https_prefix());
        assert(loc@ =~= https_prefix() + authority@.take(0));
    }
    let mut i: usize = 0;
    while i < authority.len()
        invariant
            i <= authority@.len(),
            loc@ == https_prefix() + authority@.take(i as int),
        decreases authority@.len() - i,
    {
        loc.push(authority[i]);
        proof {
            assert(loc@ =~= https_prefix() + authority@.take(i + 1));
        }
        i = i + 1;
    }
    proof {
        assert(authority@.take(authority@.len() as int) =~= authority@);
    }
    let blank = match target {
        None => true,
        Some(t) => t.len() == 0 || (t.len() == 1 && t[0] == ASTERISK),
    };
    if blank {
        loc.push(SLASH);
        proof {
            assert(loc@ =~= https_prefix() + authority@ + seq![SLASH]);
        }
        return loc;
    }
    let t = match target {
        Some(t) => t,
        None => unreached(),
    };
    let mut j: usize = 0;
    proof {
        assert(loc@ =~= https_prefix() + authority@ + t@.take(0));
    }
    while j < t.len()
        invariant
            j <= t@.len(),
            loc@ == https_prefix() + authority@ + t@.take(j as int),
        decreases t@.len() - j,
    {
        loc.push(t[j]);
        proof {
            assert(loc@ =~= https_prefix() + authority@ + t@.take(j + 1));
        }
        j = j + 1;
    }
    proof {
        assert(t@.take(t@.len() as int) =~= t@);
    }
    loc
}

/// Answer one request of the redirect listener, from the raw bytes of its
/// Host header (if present) and of its request target (if present).
///
/// The request is answered with 400 exactly when the Host header is absent,
/// is not valid header text, or does not rewrite to a valid URI authority;
/// otherwise with a permanent redirect to
/// `https://<rewritten host><target>`, the target defaulting to `/` when
/// absent or blank.
pub fn redirect(host: Option<&[u8]>, target: Option<&[u8]>) -> (r: RedirectAction)
    ensures
        host is None ==> r is BadRequest,
        host matches Some(h) ==> {
            &&& r is BadRequest <==> !(is_header_text(h@) && authority_ok(rewritten_host(h@)))
            &&& is_header_text(h@) && authority_ok(rewritten_host(h@)) ==> ({
                &&& r matches RedirectAction::Redirect(loc)
                &&& target is None ==> loc@ == https_prefix() + rewritten_host(h@) + seq![SLASH]
                &&& target matches Some(t) ==> loc@ == https_prefix() + rewritten_host(h@)
                    + normalized_target(t@)
            })
        },
{
    let h = match host {
        Some(h) => h,
        None => {
            return RedirectAction::BadRequest;
        },
    };
    if !check_header_text(h) {
        return RedirectAction::BadRequest;
    }
    let authority = rewrite_host(h);
    if !parse_authority(authority.as_slice()) {
        return RedirectAction::BadRequest;
    }
    RedirectAction::Redirect(build_location(&authority, target))
}

} // verus!
