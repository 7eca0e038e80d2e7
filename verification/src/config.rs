//! The configuration from which an endpoint is resolved.

use vstd::prelude::*;
use vstd::utf8::*;

use crate::error::RegionError;
use crate::uri::{Uri, UriView};

verus! {

/// How the bucket name is placed in a request: in the host name or in the path.
#[derive(Debug, Clone, Copy, PartialEq, Eq, Structural)]
pub enum AddressingStyle {
    /// Virtual-hosted style where the bucket name allows it, path style otherwise.
    Automatic,
    /// Always virtual-hosted style.
    Virtual,
    /// Always path style.
    Path,
}

impl Default for AddressingStyle {
    fn default() -> (style: AddressingStyle)
        ensures
            style == AddressingStyle::Automatic,
    {
        AddressingStyle::Automatic
    }
}

/// Whether a character may stand in a region name: an ASCII letter, an ASCII
/// digit or a hyphen, the characters of a DNS label.
pub open spec fn is_region_char(c: char) -> bool {
    ('a' <= c <= 'z') || ('A' <= c <= 'Z') || ('0' <= c <= '9') || c == '-'
}

/// Whether a text is accepted as a region name: it is not empty, and each of
/// its characters may stand in a region name.
pub open spec fn valid_region(region: Seq<char>) -> bool {
    region.len() > 0 && forall|i: int| 0 <= i < region.len() ==> is_region_char(#[trigger] region[i])
}

/// An endpoint configuration as mathematical values.
pub struct EndpointConfigView {
    /// The region.
    pub region: Seq<char>,
    /// The bucket name, access point alias or access point ARN, if one is set.
    pub bucket: Option<Seq<char>>,
    /// The URI to use in place of a resolved one, if one is set.
    pub endpoint: Option<UriView>,
    /// Where the bucket name is to stand.
    pub addressing_style: AddressingStyle,
    /// Whether the endpoint is to serve IPv4 and IPv6.
    pub use_dual_stack: bool,
    /// Whether the endpoint is to be a FIPS endpoint.
    pub use_fips: bool,
    /// Whether the endpoint is to be a transfer acceleration endpoint.
    pub use_accelerate: bool,
}

impl EndpointConfigView {
    /// The configuration that names a region and leaves everything else as
    /// it is by default.
    pub open spec fn initial(region: Seq<char>) -> EndpointConfigView {
        EndpointConfigView {
            region,
            bucket: None,
            endpoint: None,
            addressing_style: AddressingStyle::Automatic,
            use_dual_stack: false,
            use_fips: false,
            use_accelerate: false,
        }
    }
}

/// What an endpoint is resolved from: a region, and what the caller asks of
/// the endpoint. A value never changes; each setter gives a new value.
#[derive(Debug)]
pub struct EndpointConfig {
    region: String,
    bucket: Option<String>,
    endpoint: Option<Uri>,
    addressing_style: AddressingStyle,
    use_dual_stack: bool,
    use_fips: bool,
    use_accelerate: bool,
}

impl View for EndpointConfig {
    type V = EndpointConfigView;

    closed spec fn view(&self) -> EndpointConfigView {
        EndpointConfigView {
            region: self.region@,
            bucket: match self.bucket {
                Some(bucket) => Some(bucket@),
                None => None,
            },
            endpoint: match self.endpoint {
                Some(uri) => Some(uri@),
                None => None,
            },
            addressing_style: self.addressing_style,
            use_dual_stack: self.use_dual_stack,
            use_fips: self.use_fips,
            use_accelerate: self.use_accelerate,
        }
    }
}

/// Tells whether a byte is an ASCII letter, an ASCII digit or a hyphen.
fn is_region_byte(byte: u8) -> (accepted: bool)
    ensures
        accepted == is_region_char(byte as char),
{
    // In ASCII, 'a'..='z' is 97..=122, 'A'..='Z' is 65..=90, '0'..='9' is
    // 48..=57, and '-' is 45.
    (97 <= byte && byte <= 122) || (65 <= byte && byte <= 90) || (48 <= byte && byte <= 57) || byte
        == 45
}

/// Tells whether a text is accepted as a region name, and if it is not, why.
pub fn check_region(region: &str) -> (result: Result<(), RegionError>)
    ensures
        match result {
            Ok(()) => valid_region(region@),
            Err(RegionError::Empty) => region@.len() == 0,
            Err(RegionError::InvalidCharacter) => region@.len() > 0 && !valid_region(region@),
        },
{
    if region.is_empty() {
        return Err(RegionError::Empty);
    }
    if !region.is_ascii() {
        return Err(RegionError::InvalidCharacter);
    }
    proof {
        is_ascii_chars_encode_utf8(region@);
    }
    let bytes = region.as_bytes();
    let mut i: usize = 0;
    while i < bytes.len()
        invariant
            i <= bytes@.len(),
            bytes@.len() == region@.len(),
            forall|j: int| 0 <= j < bytes@.len() ==> region@[j] as u8 == #[trigger] bytes@[j],
            is_ascii_chars(region@),
            forall|j: int| 0 <= j < i ==> is_region_char(#[trigger] region@[j]),
        decreases bytes@.len() - i,
    {
        if !is_region_byte(bytes[i]) {
            return Err(RegionError::InvalidCharacter);
        }
        i += 1;
    }
    Ok(())
}

impl EndpointConfig {
    #[verifier::type_invariant]
    spec fn well_formed(&self) -> bool {
        valid_region(self.region@)
    }

    /// A configuration for the given region, with no bucket and no endpoint
    /// URI, automatic addressing, and dual stack, FIPS and acceleration off.
    /// An empty region name is refused with [`RegionError::Empty`], one with
    /// a character that is no letter, digit or hyphen with
    /// [`RegionError::InvalidCharacter`].
    pub fn new(region: &str) -> (result: Result<EndpointConfig, RegionError>)
        ensures
            match result {
                Ok(config) => valid_region(region@) && config@ == EndpointConfigView::initial(
                    region@,
                ),
                Err(RegionError::Empty) => region@.len() == 0,
                Err(RegionError::InvalidCharacter) => region@.len() > 0 && !valid_region(region@),
            },
    {
        match check_region(region) {
            Ok(()) => Ok(
                EndpointConfig {
                    region: region.to_owned(),
                    bucket: None,
                    endpoint: None,
                    addressing_style: AddressingStyle::Automatic,
                    use_dual_stack: false,
                    use_fips: false,
                    use_accelerate: false,
                },
            ),
            Err(error) => Err(error),
        }
    }

    /// The same configuration for the given bucket name, access point alias
    /// or access point ARN.
    #[must_use]
    pub fn bucket(self, bucket: &str) -> (config: EndpointConfig)
        ensures
            config@ == (EndpointConfigView { bucket: Some(bucket@), ..self@ }),
    {
        proof {
            use_type_invariant(&self);
        }
        EndpointConfig { bucket: Some(bucket.to_owned()), ..self }
    }

    /// The same configuration with the given URI in place of a resolved one.
    #[must_use]
    pub fn endpoint(self, endpoint: Uri) -> (config: EndpointConfig)
        ensures
            config@ == (EndpointConfigView { endpoint: Some(endpoint@), ..self@ }),
    {
        proof {
            use_type_invariant(&self);
        }
        EndpointConfig { endpoint: Some(endpoint), ..self }
    }

    /// The same configuration with the given addressing style.
    #[must_use]
    pub fn addressing_style(self, addressing_style: AddressingStyle) -> (config: EndpointConfig)
        ensures
            config@ == (EndpointConfigView { addressing_style, ..self@ }),
    {
        proof {
            use_type_invariant(&self);
        }
        EndpointConfig { addressing_style, ..self }
    }

    /// The same configuration with dual stack on or off.
    #[must_use]
    pub fn use_dual_stack(self, use_dual_stack: bool) -> (config: EndpointConfig)
        ensures
            config@ == (EndpointConfigView { use_dual_stack, ..self@ }),
    {
        proof {
            use_type_invariant(&self);
        }
        EndpointConfig { use_dual_stack, ..self }
    }

    /// The same configuration with FIPS on or off.
    #[must_use]
    pub fn use_fips(self, use_fips: bool) -> (config: EndpointConfig)
        ensures
            config@ == (EndpointConfigView { use_fips, ..self@ }),
    {
        proof {
            use_type_invariant(&self);
        }
        EndpointConfig { use_fips, ..self }
    }

    /// The same configuration with transfer acceleration on or off.
    #[must_use]
    pub fn use_accelerate(self, use_accelerate: bool) -> (config: EndpointConfig)
        ensures
            config@ == (EndpointConfigView { use_accelerate, ..self@ }),
    {
        proof {
            use_type_invariant(&self);
        }
        EndpointConfig { use_accelerate, ..self }
    }

    /// The region, which is a valid region name.
    pub fn get_region(&self) -> (region: &str)
        ensures
            region@ == self@.region,
            valid_region(region@),
    {
        proof {
            use_type_invariant(self);
        }
        self.region.as_str()
    }

    /// The bucket name, access point alias or access point ARN, if one is set.
    pub fn get_bucket(&self) -> (bucket: Option<&str>)
        ensures
            match bucket {
                Some(name) => self@.bucket == Some(name@),
                None => self@.bucket is None,
            },
    {
        match &self.bucket {
            Some(name) => Some(name.as_str()),
            None => None,
        }
    }

    /// The URI to use in place of a resolved one, if one is set.
    pub fn get_endpoint(&self) -> (endpoint: Option<&Uri>)
        ensures
            match endpoint {
                Some(uri) => self@.endpoint == Some(uri@),
                None => self@.endpoint is None,
            },
    {
        match &self.endpoint {
            Some(uri) => Some(uri),
            None => None,
        }
    }

    /// Where the bucket name is to stand.
    pub fn get_addressing_style(&self) -> (addressing_style: AddressingStyle)
        ensures
            addressing_style == self@.addressing_style,
    {
        self.addressing_style
    }

    /// Whether the endpoint is to serve IPv4 and IPv6.
    pub fn is_dual_stack(&self) -> (use_dual_stack: bool)
        ensures
            use_dual_stack == self@.use_dual_stack,
    {
        self.use_dual_stack
    }

    /// Whether the endpoint is to be a FIPS endpoint.
    pub fn is_fips(&self) -> (use_fips: bool)
        ensures
            use_fips == self@.use_fips,
    {
        self.use_fips
    }

    /// Whether the endpoint is to be a transfer acceleration endpoint.
    pub fn is_accelerate(&self) -> (use_accelerate: bool)
        ensures
            use_accelerate == self@.use_accelerate,
    {
        self.use_accelerate
    }
}

impl Clone for EndpointConfig {
    fn clone(&self) -> (copy: EndpointConfig)
        ensures
            copy@ == self@,
    {
        proof {
            use_type_invariant(self);
        }
        EndpointConfig {
            region: self.region.clone(),
            bucket: match &self.bucket {
                Some(name) => Some(name.clone()),
                None => None,
            },
            endpoint: match &self.endpoint {
                Some(uri) => Some(uri.clone()),
                None => None,
            },
            addressing_style: self.addressing_style,
            use_dual_stack: self.use_dual_stack,
            use_fips: self.use_fips,
            use_accelerate: self.use_accelerate,
        }
    }
}

impl PartialEq for EndpointConfig {
    fn eq(&self, other: &EndpointConfig) -> (equal: bool) {
        let same_bucket = match (&self.bucket, &other.bucket) {
            (Some(a), Some(b)) => *a == *b,
            (None, None) => true,
            _ => false,
        };
        let same_endpoint = match (&self.endpoint, &other.endpoint) {
            (Some(a), Some(b)) => *a == *b,
            (None, None) => true,
            _ => false,
        };
        self.region == other.region && same_bucket && same_endpoint && self.addressing_style
            == other.addressing_style && self.use_dual_stack == other.use_dual_stack
            && self.use_fips == other.use_fips && self.use_accelerate == other.use_accelerate
    }
}

impl Eq for EndpointConfig {

}

impl vstd::std_specs::cmp::PartialEqSpecImpl for EndpointConfig {
    open spec fn obeys_eq_spec() -> bool {
        true
    }

    open spec fn eq_spec(&self, other: &EndpointConfig) -> bool {
        self@ == other@
    }
}

} // verus!
