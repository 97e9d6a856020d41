//! Which links the app opens and which download locations it follows.

use vstd::prelude::*;
use crate::text;

verus! {

/// The parts of a parsed URL that the checks read.
pub struct UrlParts {
    pub scheme: String,
    pub host: Option<String>,
    /// The serialized URL.
    pub text: String,
}

pub struct UrlPartsView {
    pub scheme: Seq<char>,
    pub host: Option<Seq<char>>,
    pub text: Seq<char>,
}

impl UrlParts {
    /// A copy of the parts.
    pub fn clone_parts(&self) -> (r: UrlParts)
        ensures
            r@ == self@,
    {
        UrlParts { scheme: self.scheme.clone(), host: self.host.clone(), text: self.text.clone() }
    }
}

impl View for UrlParts {
    type V = UrlPartsView;

    open spec fn view(&self) -> UrlPartsView {
        UrlPartsView {
            scheme: self.scheme@,
            host: match self.host {
                Some(h) => Some(h@),
                None => None,
            },
            text: self.text@,
        }
    }
}

/// What `url::Url::parse` makes of a text (WHATWG URL parsing): `None` when
/// it refuses the text, else the scheme, the host and the serialization.
pub uninterp spec fn url_parse_result(s: Seq<char>) -> Option<(Seq<char>, Option<Seq<char>>, Seq<char>)>;

pub open spec fn parts_tuple(p: Option<UrlPartsView>) -> Option<(Seq<char>, Option<Seq<char>>, Seq<char>)> {
    match p {
        Some(v) => Some((v.scheme, v.host, v.text)),
        None => None,
    }
}

pub open spec fn opt_parts_view(p: Option<UrlParts>) -> Option<UrlPartsView> {
    match p {
        Some(u) => Some(u@),
        None => None,
    }
}

/// `url::Url::parse`, read back as its scheme (`Url::scheme`), host
/// (`Url::host_str`) and serialization (`Url::as_str`).  The result depends
/// on the text alone and is named, not stated.
#[verifier::external_body]
fn parse_url(s: &str) -> (r: Option<UrlParts>)
    ensures
        parts_tuple(opt_parts_view(r)) == url_parse_result(s@),
{
    match url::Url::parse(s) {
        Ok(u) => Some(
            UrlParts {
                scheme: u.scheme().to_string(),
                host: u.host_str().map(|h| h.to_string()),
                text: u.as_str().to_string(),
            },
        ),
        Err(_) => None,
    }
}

pub open spec fn is_site_link(p: UrlPartsView) -> bool {
    p.scheme == "https"@ && p.host == Some("unchartable.site"@)
}

/// The verdict on a parsed link: only `https` links to unchartable.site.
pub open spec fn external_link_verdict(p: Option<UrlPartsView>) -> Result<UrlPartsView, Seq<char>> {
    match p {
        None => Err("invalid UNCHARTABLE URL."@),
        Some(v) => if is_site_link(v) {
            Ok(v)
        } else {
            Err("only unchartable.site links can be opened by the app."@)
        },
    }
}

pub open spec fn result_view(r: Result<UrlParts, String>) -> Result<UrlPartsView, Seq<char>> {
    match r {
        Ok(u) => Ok(u@),
        Err(e) => Err(e@),
    }
}

fn str_is(s: &String, lit: &str) -> (r: bool)
    ensures
        r == (s@ == lit@),
{
    text::chars_are(&text::chars_of(s.as_str()), lit)
}

/// Decides on a parsed link (or on a text the parser refused).
pub fn check_external_url(parsed: Option<UrlParts>) -> (r: Result<UrlParts, String>)
    ensures
        result_view(r) == external_link_verdict(opt_parts_view(parsed)),
{
    match parsed {
        None => Err(text::string_from(&text::chars_of("invalid UNCHARTABLE URL."))),
        Some(p) => {
            let host_ok = match &p.host {
                Some(h) => str_is(h, "unchartable.site"),
                None => false,
            };
            if str_is(&p.scheme, "https") && host_ok {
                Ok(p)
            } else {
                Err(
                    text::string_from(
                        &text::chars_of("only unchartable.site links can be opened by the app."),
                    ),
                )
            }
        },
    }
}

/// Parses a link the interface asks to open; only `https` links to
/// unchartable.site are accepted.
pub fn parse_allowed_external_url(url: &str) -> (r: Result<UrlParts, String>)
    ensures
        result_view(r) == external_link_verdict(
            match url_parse_result(url@) {
                Some((s, h, t)) => Some(UrlPartsView { scheme: s, host: h, text: t }),
                None => None,
            },
        ),
{
    let parsed = parse_url(url);
    assert(parsed matches Some(p) ==> url_parse_result(url@) == Some((p@.scheme, p@.host, p@.text)));
    check_external_url(parsed)
}

/// Whether `p` occurs in `s`.
pub open spec fn contains_text(s: Seq<char>, p: Seq<char>) -> bool {
    exists|i: int| 0 <= i && i + p.len() <= s.len() && #[trigger] s.subrange(i, i + p.len()) == p
}

fn occurs_in(s: &Vec<char>, p: &Vec<char>) -> (r: bool)
    ensures
        r == contains_text(s@, p@),
{
    if p.len() > s.len() {
        assert(!contains_text(s@, p@));
        return false;
    }
    let n = s.len();
    let last = n - p.len();
    let mut i: usize = 0;
    loop
        invariant
            last + p@.len() == s@.len() == n,
            i <= last,
            forall|k: int| 0 <= k < i ==> #[trigger] s@.subrange(k, k + p@.len()) != p@,
        ensures
            forall|k: int| 0 <= k <= last ==> #[trigger] s@.subrange(k, k + p@.len()) != p@,
        decreases last - i,
    {
        let piece = text::subrange_chars(s, i, i + p.len());
        if text::chars_equal(&piece, p) {
            assert(contains_text(s@, p@));
            return true;
        }
        if i == last {
            break;
        }
        i = i + 1;
    }
    assert(!contains_text(s@, p@)) by {
        if contains_text(s@, p@) {
            let k = choose|k: int| 0 <= k && k + p@.len() <= s@.len() && #[trigger] s@.subrange(k, k + p@.len()) == p@;
            assert(k <= last);
        }
    }
    false
}

pub open spec fn download_link_verdict(p: Option<UrlPartsView>) -> Result<UrlPartsView, Seq<char>> {
    match p {
        None => Err("UNCHARTABLE returned an invalid download URL."@),
        Some(v) => if v.scheme != "https"@ {
            Err("the chart download did not use HTTPS."@)
        } else if v.host matches Some(h) && (contains_text(h, "google.com"@) || contains_text(
            h,
            "googleusercontent.com"@,
        )) {
            Err("Google Drive charts are not supported by this first app version yet."@)
        } else {
            Ok(v)
        },
    }
}

/// Decides on the parsed download location the site handed out: it must use
/// HTTPS and must not be a Google Drive host.
pub fn check_download_url(parsed: Option<UrlParts>) -> (r: Result<UrlParts, String>)
    ensures
        result_view(r) == download_link_verdict(opt_parts_view(parsed)),
{
    match parsed {
        None => Err(text::string_from(&text::chars_of("UNCHARTABLE returned an invalid download URL."))),
        Some(p) => {
            if !str_is(&p.scheme, "https") {
                return Err(text::string_from(&text::chars_of("the chart download did not use HTTPS.")));
            }
            let google = match &p.host {
                Some(h) => {
                    let hv = text::chars_of(h.as_str());
                    occurs_in(&hv, &text::chars_of("google.com")) || occurs_in(
                        &hv,
                        &text::chars_of("googleusercontent.com"),
                    )
                },
                None => false,
            };
            if google {
                Err(
                    text::string_from(
                        &text::chars_of(
                            "Google Drive charts are not supported by this first app version yet.",
                        ),
                    ),
                )
            } else {
                Ok(p)
            }
        },
    }
}

/// Parses and checks the download location of a chart.
pub fn parse_download_url(url: &str) -> (r: Result<UrlParts, String>)
    ensures
        result_view(r) == download_link_verdict(
            match url_parse_result(url@) {
                Some((s, h, t)) => Some(UrlPartsView { scheme: s, host: h, text: t }),
                None => None,
            },
        ),
{
    let parsed = parse_url(url);
    assert(parsed matches Some(p) ==> url_parse_result(url@) == Some((p@.scheme, p@.host, p@.text)));
    check_download_url(parsed)
}

/// The app opens only `https` links whose host is exactly
/// `unchartable.site`, and downloads only over `https` from hosts that
/// name neither `google.com` nor `googleusercontent.com`.
pub proof fn lemma_only_secure_links(p: Option<UrlPartsView>)
    ensures
        external_link_verdict(p) is Ok ==> p is Some && p->0.scheme == "https"@ && p->0.host == Some(
            "unchartable.site"@,
        ),
        download_link_verdict(p) is Ok ==> p is Some && p->0.scheme == "https"@ && !(p->0.host matches Some(h)
            && (contains_text(h, "google.com"@) || contains_text(h, "googleusercontent.com"@))),
        p is None ==> external_link_verdict(p) is Err && download_link_verdict(p) is Err,
{
}

} // verus!
