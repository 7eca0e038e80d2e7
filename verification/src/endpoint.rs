//! Resolution of an endpoint from a configuration.
//!
//! The endpoint rules themselves are evaluated by the caller. Resolution is
//! therefore split in two: [`Endpoint::set_endpoint`] either settles the
//! endpoint on its own or says which request is to be put to the rules, and
//! [`Endpoint::from_rule_outcome`] turns what the rules gave into the
//! endpoint.

use vstd::prelude::*;

use crate::config::{EndpointConfig, EndpointConfigView};
use crate::error::{EndpointError, EndpointErrorView, InvalidUriError, ResolverError, ResolverErrorView};
use crate::request::{build_request, parameter_views, request_parameters, Parameter, ParameterView};
use crate::uri::{Uri, UriView};

verus! {

/// The URI to which the requests for a bucket are sent. It has neither a
/// path nor a query string.
#[derive(Debug)]
pub struct Endpoint {
    uri: Uri,
}

impl View for Endpoint {
    type V = UriView;

    closed spec fn view(&self) -> UriView {
        self.uri@
    }
}

/// What is left to do for a configuration once it has been looked at.
#[derive(Debug)]
pub enum Resolution {
    /// Nothing: the configuration settles the outcome, and no rule is
    /// evaluated.
    Finished(Result<Endpoint, EndpointError>),
    /// The endpoint rules are to be evaluated on this request.
    Evaluate(Vec<Parameter>),
}

/// A [`Resolution`] as mathematical values.
pub enum ResolutionView {
    Finished(Result<UriView, EndpointErrorView>),
    Evaluate(Seq<ParameterView>),
}

/// What came of putting a request to the endpoint rules.
#[derive(Debug)]
pub enum RuleOutcome {
    /// The rules gave a URL, and this is the URL as the URI parser read it.
    Url(Uri),
    /// The rules gave a URL, and it was refused as a URI.
    InvalidUrl(InvalidUriError),
    /// The rules gave no URL.
    NotResolved(ResolverError),
}

/// A [`RuleOutcome`] as mathematical values.
pub enum RuleOutcomeView {
    Url(UriView),
    InvalidUrl(InvalidUriError),
    NotResolved(ResolverErrorView),
}

impl View for RuleOutcome {
    type V = RuleOutcomeView;

    open spec fn view(&self) -> RuleOutcomeView {
        match self {
            RuleOutcome::Url(uri) => RuleOutcomeView::Url(uri@),
            RuleOutcome::InvalidUrl(cause) => RuleOutcomeView::InvalidUrl(*cause),
            RuleOutcome::NotResolved(cause) => RuleOutcomeView::NotResolved(cause@),
        }
    }
}

/// The result of a resolution as mathematical values.
pub open spec fn result_view(result: Result<Endpoint, EndpointError>) -> Result<
    UriView,
    EndpointErrorView,
> {
    match result {
        Ok(endpoint) => Ok(endpoint@),
        Err(error) => Err(error@),
    }
}

impl View for Resolution {
    type V = ResolutionView;

    open spec fn view(&self) -> ResolutionView {
        match self {
            Resolution::Finished(result) => ResolutionView::Finished(result_view(*result)),
            Resolution::Evaluate(request) => ResolutionView::Evaluate(parameter_views(request@)),
        }
    }
}

/// What a configuration asks for. An endpoint URI that is set decides alone:
/// it is the endpoint if it has neither path nor query string, and an
/// invalid endpoint otherwise. Without one, the rules are asked.
pub open spec fn first_step(config: EndpointConfigView) -> ResolutionView {
    match config.endpoint {
        Some(uri) => if uri.has_path_or_query() {
            ResolutionView::Finished(Err(EndpointErrorView::InvalidEndpoint))
        } else {
            ResolutionView::Finished(Ok(uri))
        },
        None => ResolutionView::Evaluate(request_parameters(config)),
    }
}

/// The endpoint that an outcome of the rules stands for: scheme and authority
/// of the URL that they gave, or the error that explains why there is none.
pub open spec fn last_step(outcome: RuleOutcomeView) -> Result<UriView, EndpointErrorView> {
    match outcome {
        RuleOutcomeView::Url(uri) => Ok(uri.origin()),
        RuleOutcomeView::InvalidUrl(cause) => Err(EndpointErrorView::InvalidUri(cause)),
        RuleOutcomeView::NotResolved(cause) => Err(EndpointErrorView::UnresolvedEndpoint(cause)),
    }
}

/// The endpoint of a configuration, where `outcome` is what the rules give
/// for the configuration's request.
pub open spec fn resolved(config: EndpointConfigView, outcome: RuleOutcomeView) -> Result<
    UriView,
    EndpointErrorView,
> {
    match first_step(config) {
        ResolutionView::Finished(result) => result,
        ResolutionView::Evaluate(_) => last_step(outcome),
    }
}

impl Endpoint {
    #[verifier::type_invariant]
    spec fn well_formed(&self) -> bool {
        !self.uri@.has_path_or_query()
    }

    /// The first step of resolving the endpoint of a configuration. Where
    /// the configuration sets an endpoint URI, the resolution ends here: with
    /// that URI as the endpoint if it has neither path nor query string, and
    /// with [`EndpointError::InvalidEndpoint`] if it has one. Where it sets
    /// none, the step gives the request that is to be put to the endpoint
    /// rules; [`Endpoint::from_rule_outcome`] then ends the resolution.
    pub fn set_endpoint(endpoint_config: EndpointConfig) -> (step: Resolution)
        ensures
            step@ == first_step(endpoint_config@),
    {
        match endpoint_config.get_endpoint() {
            Some(uri) => {
                if uri.has_path_or_query() {
                    Resolution::Finished(Err(EndpointError::InvalidEndpoint))
                } else {
                    Resolution::Finished(Ok(Endpoint { uri: uri.clone() }))
                }
            },
            None => Resolution::Evaluate(build_request(&endpoint_config)),
        }
    }

    /// The last step of resolving an endpoint. Where the rules gave a URL,
    /// the endpoint is its scheme and authority, without its path and query
    /// string. A URL that was refused as a URI ends the resolution with
    /// [`EndpointError::InvalidUri`], and rules that gave no URL end it with
    /// [`EndpointError::UnresolvedEndpoint`], each with its cause.
    pub fn from_rule_outcome(outcome: RuleOutcome) -> (result: Result<Endpoint, EndpointError>)
        ensures
            result_view(result) == last_step(outcome@),
    {
        match outcome {
            RuleOutcome::Url(uri) => Ok(Endpoint { uri: uri.origin() }),
            RuleOutcome::InvalidUrl(cause) => Err(EndpointError::InvalidUri(cause)),
            RuleOutcome::NotResolved(cause) => Err(EndpointError::UnresolvedEndpoint(cause)),
        }
    }

    /// The endpoint at a given URI. The URI is refused with
    /// [`EndpointError::InvalidEndpoint`] if and only if it has a path or a
    /// query string.
    pub fn from_uri(uri: Uri) -> (result: Result<Endpoint, EndpointError>)
        ensures
            match result {
                Ok(endpoint) => !uri@.has_path_or_query() && endpoint@ == uri@,
                Err(error) => uri@.has_path_or_query() && error@
                    == EndpointErrorView::InvalidEndpoint,
            },
    {
        if uri.has_path_or_query() {
            Err(EndpointError::InvalidEndpoint)
        } else {
            Ok(Endpoint { uri })
        }
    }

    /// The URI of the endpoint, which has neither a path nor a query string.
    pub fn get_uri(&self) -> (uri: Uri)
        ensures
            uri@ == self@,
            !uri@.has_path_or_query(),
    {
        proof {
            use_type_invariant(self);
        }
        self.uri.clone()
    }
}

impl Clone for Endpoint {
    fn clone(&self) -> (copy: Endpoint)
        ensures
            copy@ == self@,
    {
        proof {
            use_type_invariant(self);
        }
        Endpoint { uri: self.uri.clone() }
    }
}

impl PartialEq for Endpoint {
    fn eq(&self, other: &Endpoint) -> (equal: bool) {
        self.uri == other.uri
    }
}

impl Eq for Endpoint {

}

impl vstd::std_specs::cmp::PartialEqSpecImpl for Endpoint {
    open spec fn obeys_eq_spec() -> bool {
        true
    }

    open spec fn eq_spec(&self, other: &Endpoint) -> bool {
        self@ == other@
    }
}

} // verus!
