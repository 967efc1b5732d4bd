use crate::error::PlaylistError;
use vstd::prelude::*;
use vstd::string::*;

verus! {

#[verifier::external_type_specification]
#[verifier::external_body]
pub struct ExUrlParseError(url::ParseError);

/// Whether `url::Url::parse` accepts the text.
pub uninterp spec fn url_parses(s: Seq<char>) -> bool;

/// What `url::Url::domain` gives for the URL that `url::Url::parse` reads
/// from the text: its host where that is a domain name.
pub uninterp spec fn url_domain(s: Seq<char>) -> Option<Seq<char>>;

pub open spec fn opt_view(o: Option<String>) -> Option<Seq<char>> {
    match o {
        Some(s) => Some(s@),
        None => None,
    }
}

/// Relies on `url::Url::parse` to read `s` as a URL, and on `url::Url::domain`
/// for the domain name of its host, if its host is one.
#[verifier::external_body]
fn parse_domain(s: &str) -> (r: Result<Option<String>, url::ParseError>)
    ensures
        r is Ok <==> url_parses(s@),
        r matches Ok(d) ==> opt_view(d) == url_domain(s@),
{
    match url::Url::parse(s) {
        Ok(u) => Ok(u.domain().map(|d| d.to_string())),
        Err(e) => Err(e),
    }
}

/// The hosts a playlist URL may have.
pub open spec fn domain_allowed(d: Seq<char>) -> bool {
    d == "youtube.com"@ || d == "www.youtube.com"@
}

/// The verdict on a URL, given what parsing it gave: `None` where it did not
/// parse, else the domain name of its host, if any.
pub open spec fn domain_verdict(parsed: Option<Option<Seq<char>>>) -> Result<(), PlaylistError> {
    match parsed {
        None => Err(PlaylistError::InvalidUrl),
        Some(None) => Err(PlaylistError::NoDomain),
        Some(Some(d)) => if domain_allowed(d) {
            Ok(())
        } else {
            Err(PlaylistError::DomainNotAllowed)
        },
    }
}

/// The verdict on the text `s` as a playlist URL.
pub open spec fn url_verdict(s: Seq<char>) -> Result<(), PlaylistError> {
    domain_verdict(if url_parses(s) { Some(url_domain(s)) } else { None })
}

/// Whether `d` is one of the allowed hosts.
pub fn is_allowed_domain(d: &str) -> (r: bool)
    ensures
        r == domain_allowed(d@),
{
    let d = String::from_str(d);
    let bare = String::from_str("youtube.com");
    let www = String::from_str("www.youtube.com");
    d == bare || d == www
}

/// Judges a URL from what parsing it gave: `None` where it did not parse,
/// else the domain name of its host, if any.
pub fn check_parsed_url(parsed: Option<Option<String>>) -> (r: Result<(), PlaylistError>)
    ensures
        r == domain_verdict(
            match parsed {
                Some(d) => Some(opt_view(d)),
                None => None,
            },
        ),
{
    match parsed {
        None => Err(PlaylistError::InvalidUrl),
        Some(None) => Err(PlaylistError::NoDomain),
        Some(Some(d)) => {
            if is_allowed_domain(d.as_str()) {
                Ok(())
            } else {
                Err(PlaylistError::DomainNotAllowed)
            }
        },
    }
}

/// Checks that `url` parses as a URL whose host is an allowed domain name.
pub fn validate_url(url: &str) -> (r: Result<(), PlaylistError>)
    ensures
        r == url_verdict(url@),
{
    let parsed = match parse_domain(url) {
        Ok(d) => Some(d),
        Err(_) => None,
    };
    check_parsed_url(parsed)
}

} // verus!
