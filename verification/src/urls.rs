//! URLs as text. The url crate does the parsing and the path arithmetic;
//! this module hands it texts and takes texts back.

use crate::error::Error;
use vstd::prelude::*;
use vstd::string::*;

verus! {

/// The error that the url crate reports for a text that is no URL.
#[verifier::external_type_specification]
#[verifier::external_body]
pub struct ExUrlParseError(url::ParseError);

/// The normal form that `Url::parse` gives `input`, where it accepts it.
pub uninterp spec fn url_normal(input: Seq<char>) -> Option<Seq<char>>;

/// The URL `url` after `Url::set_path(path)`, where `url` parses.
pub uninterp spec fn url_path_set(url: Seq<char>, path: Seq<char>) -> Option<Seq<char>>;

/// The URL that `Url::join` makes of `reference` against `base`, where both
/// parse.
pub uninterp spec fn url_joined(base: Seq<char>, reference: Seq<char>) -> Option<Seq<char>>;

/// The reference that `Url::make_relative` finds from `base` to `target`,
/// where both parse and one exists.
pub uninterp spec fn url_relative(base: Seq<char>, target: Seq<char>) -> Option<Seq<char>>;

/// The longest text, in characters, that is handed to `Url::set_path`.
pub const MAX_URL_PART: usize = 0x0100_0000;

/// Calls `Url::parse` and takes the URL's text. Acceptance and the text
/// depend on `input` alone.
#[verifier::external_body]
fn parse_url(input: &str) -> (r: Result<String, url::ParseError>)
    ensures
        r is Ok <==> url_normal(input@) is Some,
        r matches Ok(s) ==> url_normal(input@) == Some(s@),
{
    url::Url::parse(input).map(String::from)
}

/// Parses `url`, calls `Url::set_path` on it and takes the URL's text.
/// `set_path` aborts where the new URL has more than `u32::MAX` bytes, which
/// the bound on the two lengths rules out: a character takes at most four
/// bytes, and twelve once it is percent-encoded.
#[verifier::external_body]
fn set_url_path(url: &str, path: &str) -> (r: Result<String, url::ParseError>)
    requires
        url@.len() <= MAX_URL_PART,
        path@.len() <= MAX_URL_PART,
    ensures
        r is Ok <==> url_path_set(url@, path@) is Some,
        r matches Ok(s) ==> url_path_set(url@, path@) == Some(s@),
{
    let mut parsed = url::Url::parse(url)?;
    parsed.set_path(path);
    Ok(parsed.into())
}

/// Parses `base`, calls `Url::join` on it and takes the URL's text.
#[verifier::external_body]
fn join_url(base: &str, reference: &str) -> (r: Result<String, url::ParseError>)
    ensures
        r is Ok <==> url_joined(base@, reference@) is Some,
        r matches Ok(s) ==> url_joined(base@, reference@) == Some(s@),
{
    url::Url::parse(base)?.join(reference).map(String::from)
}

/// Parses both texts and calls `Url::make_relative`. Nothing comes back
/// where one of them does not parse or the url crate finds no relative form.
#[verifier::external_body]
fn make_relative_url(base: &str, target: &str) -> (r: Option<String>)
    ensures
        r is Some <==> url_relative(base@, target@) is Some,
        r matches Some(s) ==> url_relative(base@, target@) == Some(s@),
{
    let from = url::Url::parse(base).ok()?;
    let to = url::Url::parse(target).ok()?;
    from.make_relative(&to)
}

/// The error that the url crate gives for a URL that is too long for it,
/// `ParseError::Overflow`.
#[verifier::external_body]
fn too_long() -> url::ParseError {
    url::ParseError::Overflow
}

/// Whether `s` is short enough to become part of a URL.
pub open spec fn fits_url(s: Seq<char>) -> bool {
    s.len() <= MAX_URL_PART
}

/// `url` with its path replaced by `path`, where both are short enough and
/// `url` parses.
pub open spec fn with_path_text(url: Seq<char>, path: Seq<char>) -> Option<Seq<char>> {
    if fits_url(url) && fits_url(path) {
        url_path_set(url, path)
    } else {
        None
    }
}

/// The reference to write for `target` on a page at `base`: the relative
/// one where there is one, else `target` itself; nothing where `target` is no
/// URL.
pub open spec fn reference_text(base: Seq<char>, target: Seq<char>) -> Option<Seq<char>> {
    if url_normal(target) is Some {
        Some(
            match url_relative(base, target) {
                Some(r) => r,
                None => target,
            },
        )
    } else {
        None
    }
}

/// Parses `input` as a URL and returns it in normal form.
pub fn parse(input: &str) -> (r: Result<String, Error>)
    ensures
        match r {
            Ok(s) => url_normal(input@) == Some(s@),
            Err(e) => e is UrlError && url_normal(input@) is None,
        },
{
    match parse_url(input) {
        Ok(s) => Ok(s),
        Err(e) => Err(Error::UrlError(e)),
    }
}

/// Replaces the path of `url` by `path`. A part of more than
/// `MAX_URL_PART` characters is refused as too long.
pub fn with_path(url: &str, path: &str) -> (r: Result<String, Error>)
    ensures
        match r {
            Ok(s) => with_path_text(url@, path@) == Some(s@),
            Err(e) => e is UrlError && with_path_text(url@, path@) is None,
        },
{
    if url.unicode_len() > MAX_URL_PART || path.unicode_len() > MAX_URL_PART {
        return Err(Error::UrlError(too_long()));
    }
    match set_url_path(url, path) {
        Ok(s) => Ok(s),
        Err(e) => Err(Error::UrlError(e)),
    }
}

/// Resolves `reference` against `base`.
pub fn join(base: &str, reference: &str) -> (r: Result<String, Error>)
    ensures
        match r {
            Ok(s) => url_joined(base@, reference@) == Some(s@),
            Err(e) => e is UrlError && url_joined(base@, reference@) is None,
        },
{
    match join_url(base, reference) {
        Ok(s) => Ok(s),
        Err(e) => Err(Error::UrlError(e)),
    }
}

/// The reference from a page at `base` to `target`: relative where the url
/// crate finds a relative form, else `target` unchanged. Fails where
/// `target` is no URL.
pub fn reference(base: &str, target: &str) -> (r: Result<String, Error>)
    ensures
        match r {
            Ok(s) => reference_text(base@, target@) == Some(s@),
            Err(e) => e is UrlError && reference_text(base@, target@) is None,
        },
{
    match parse_url(target) {
        Ok(_) => match make_relative_url(base, target) {
            Some(s) => Ok(s),
            None => Ok(String::from_str(target)),
        },
        Err(e) => Err(Error::UrlError(e)),
    }
}

} // verus!
