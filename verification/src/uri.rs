//! A URI, held as the components that a URI parser reports.

use vstd::prelude::*;
use vstd::string::*;
use vstd::utf8::*;

use crate::error::InvalidUriError;

verus! {

/// A URI as mathematical values: each component is a sequence of characters.
pub struct UriView {
    /// The scheme, without `://`; empty if the URI has none.
    pub scheme: Seq<char>,
    /// The authority: a host name and, if the URI has one, a colon and a port
    /// number.
    pub authority: Seq<char>,
    /// The path, with its leading `/`; empty if the URI has none.
    pub path: Seq<char>,
    /// The query string, without its leading `?`; empty if the URI has none.
    pub query_string: Seq<char>,
}

impl UriView {
    /// Whether the URI goes beyond scheme and authority.
    pub open spec fn has_path_or_query(self) -> bool {
        self.path.len() > 0 || self.query_string.len() > 0
    }

    /// The URI cut down to its scheme and authority.
    pub open spec fn origin(self) -> UriView {
        UriView {
            scheme: self.scheme,
            authority: self.authority,
            path: Seq::empty(),
            query_string: Seq::empty(),
        }
    }

    /// The scheme as it is written in front of the authority.
    pub open spec fn scheme_prefix(self) -> Seq<char> {
        if self.scheme.len() > 0 {
            self.scheme + seq![':', '/', '/']
        } else {
            Seq::empty()
        }
    }

    /// The query string as it is written behind the path.
    pub open spec fn query_suffix(self) -> Seq<char> {
        if self.query_string.len() > 0 {
            seq!['?'] + self.query_string
        } else {
            Seq::empty()
        }
    }

    /// The URI written out: `scheme://authority/path?query`, each part only
    /// where the URI has it.
    pub open spec fn text(self) -> Seq<char> {
        self.scheme_prefix() + self.authority + self.path + self.query_suffix()
    }
}

/// A URI, held as its components.
#[derive(Debug)]
pub struct Uri {
    scheme: String,
    authority: String,
    path: String,
    query_string: String,
}

impl View for Uri {
    type V = UriView;

    closed spec fn view(&self) -> UriView {
        UriView {
            scheme: self.scheme@,
            authority: self.authority@,
            path: self.path@,
            query_string: self.query_string@,
        }
    }
}

/// Calls `core::str::from_utf8` and drops the description of its error.
/// Not proved, but taken from the documentation of that function: the call
/// succeeds exactly on valid UTF-8, and the string slice that it then gives
/// is the bytes it was given, read as text.
#[verifier::external_body]
fn str_from_utf8(bytes: &[u8]) -> (text: Option<&str>)
    ensures
        text is Some <==> valid_utf8(bytes@),
        text matches Some(s) ==> s.spec_bytes() == bytes@,
{
    match core::str::from_utf8(bytes) {
        Ok(text) => Some(text),
        Err(_) => None,
    }
}

/// Decodes one component of a URI.
fn decode_component(bytes: &[u8]) -> (text: Option<String>)
    ensures
        text is Some <==> valid_utf8(bytes@),
        text matches Some(s) ==> s@ == decode_utf8(bytes@),
{
    match str_from_utf8(bytes) {
        Some(s) => {
            proof {
                encode_utf8_decode_utf8(s@);
            }
            Some(s.to_owned())
        },
        None => None,
    }
}

impl Uri {
    /// A URI of the given components.
    pub fn new(scheme: &str, authority: &str, path: &str, query_string: &str) -> (uri: Uri)
        ensures
            uri@ == (UriView {
                scheme: scheme@,
                authority: authority@,
                path: path@,
                query_string: query_string@,
            }),
    {
        Uri {
            scheme: scheme.to_owned(),
            authority: authority.to_owned(),
            path: path.to_owned(),
            query_string: query_string.to_owned(),
        }
    }

    /// A URI of the given components, each given as bytes. It is refused with
    /// [`InvalidUriError::InvalidUtf8`] if and only if one of them is not
    /// valid UTF-8.
    pub fn from_bytes(scheme: &[u8], authority: &[u8], path: &[u8], query_string: &[u8]) -> (result:
        Result<Uri, InvalidUriError>)
        ensures
            result is Ok <==> valid_utf8(scheme@) && valid_utf8(authority@) && valid_utf8(path@)
                && valid_utf8(query_string@),
            result matches Ok(uri) ==> uri@ == (UriView {
                scheme: decode_utf8(scheme@),
                authority: decode_utf8(authority@),
                path: decode_utf8(path@),
                query_string: decode_utf8(query_string@),
            }),
            result matches Err(error) ==> error == InvalidUriError::InvalidUtf8,
    {
        let scheme = match decode_component(scheme) {
            Some(text) => text,
            None => { return Err(InvalidUriError::InvalidUtf8); },
        };
        let authority = match decode_component(authority) {
            Some(text) => text,
            None => { return Err(InvalidUriError::InvalidUtf8); },
        };
        let path = match decode_component(path) {
            Some(text) => text,
            None => { return Err(InvalidUriError::InvalidUtf8); },
        };
        let query_string = match decode_component(query_string) {
            Some(text) => text,
            None => { return Err(InvalidUriError::InvalidUtf8); },
        };
        Ok(Uri { scheme, authority, path, query_string })
    }

    /// The scheme, without `://`; empty if the URI has none.
    pub fn scheme(&self) -> (scheme: &str)
        ensures
            scheme@ == self@.scheme,
    {
        self.scheme.as_str()
    }

    /// The authority: a host name and, if the URI has one, a colon and a port
    /// number.
    pub fn authority(&self) -> (authority: &str)
        ensures
            authority@ == self@.authority,
    {
        self.authority.as_str()
    }

    /// The path, with its leading `/`; empty if the URI has none.
    pub fn path(&self) -> (path: &str)
        ensures
            path@ == self@.path,
    {
        self.path.as_str()
    }

    /// The query string, without its leading `?`; empty if the URI has none.
    pub fn query_string(&self) -> (query_string: &str)
        ensures
            query_string@ == self@.query_string,
    {
        self.query_string.as_str()
    }

    /// Whether the URI goes beyond scheme and authority.
    pub fn has_path_or_query(&self) -> (found: bool)
        ensures
            found == self@.has_path_or_query(),
    {
        !self.path.as_str().is_empty() || !self.query_string.as_str().is_empty()
    }

    /// The URI cut down to its scheme and authority.
    pub fn origin(&self) -> (origin: Uri)
        ensures
            origin@ == self@.origin(),
    {
        Uri {
            scheme: self.scheme.clone(),
            authority: self.authority.clone(),
            path: String::new(),
            query_string: String::new(),
        }
    }

    /// The URI written out.
    pub fn text(&self) -> (text: String)
        ensures
            text@ == self@.text(),
    {
        let mut text = String::new();
        if !self.scheme.as_str().is_empty() {
            text.append(self.scheme.as_str());
            text.append("://");
            proof {
                reveal_strlit("://");
            }
        }
        text.append(self.authority.as_str());
        text.append(self.path.as_str());
        if !self.query_string.as_str().is_empty() {
            text.append("?");
            text.append(self.query_string.as_str());
            proof {
                reveal_strlit("?");
            }
        }
        assert(text@ =~= self@.text());
        text
    }
}

impl Clone for Uri {
    fn clone(&self) -> (copy: Uri)
        ensures
            copy@ == self@,
    {
        Uri {
            scheme: self.scheme.clone(),
            authority: self.authority.clone(),
            path: self.path.clone(),
            query_string: self.query_string.clone(),
        }
    }
}

impl PartialEq for Uri {
    fn eq(&self, other: &Uri) -> (equal: bool) {
        self.scheme == other.scheme && self.authority == other.authority && self.path
            == other.path && self.query_string == other.query_string
    }
}

impl Eq for Uri {

}

impl vstd::std_specs::cmp::PartialEqSpecImpl for Uri {
    open spec fn obeys_eq_spec() -> bool {
        true
    }

    open spec fn eq_spec(&self, other: &Uri) -> bool {
        self@ == other@
    }
}

} // verus!
