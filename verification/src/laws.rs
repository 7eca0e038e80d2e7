//! What holds of every resolution, proved from the definitions.

use vstd::prelude::*;

use crate::config::{AddressingStyle, EndpointConfigView};
use crate::endpoint::{first_step, last_step, resolved, ResolutionView, RuleOutcomeView};
use crate::error::EndpointErrorView;
use crate::request::{request_parameters, ParameterView};
use crate::uri::UriView;

verus! {

/// Resolution is deterministic: two resolutions of one configuration end in
/// the same result, and where that is an endpoint, in a URI that is written
/// out the same. This holds wherever the rules answer the configuration's
/// request the same way both times, and where the configuration settles the
/// outcome without the rules, whatever they would answer.
pub proof fn lemma_resolution_is_deterministic(
    config: EndpointConfigView,
    first_answer: RuleOutcomeView,
    second_answer: RuleOutcomeView,
)
    ensures
        first_answer == second_answer || first_step(config) is Finished ==> {
            &&& resolved(config, first_answer) == resolved(config, second_answer)
            &&& resolved(config, first_answer) matches Ok(uri) ==> resolved(
                config,
                second_answer,
            ) matches Ok(other) && uri.text() == other.text()
        },
{
}

/// An endpoint URI without path and query string takes precedence: it is the
/// endpoint whatever else the configuration holds, and the rules are not
/// asked.
pub proof fn lemma_override_takes_precedence(
    config: EndpointConfigView,
    uri: UriView,
    outcome: RuleOutcomeView,
)
    requires
        config.endpoint == Some(uri),
        !uri.has_path_or_query(),
    ensures
        first_step(config) == ResolutionView::Finished(Ok(uri)),
        resolved(config, outcome) == Ok::<UriView, EndpointErrorView>(uri),
{
}

/// An endpoint URI with a path or a query string is rejected as an invalid
/// endpoint, and the rules are not asked.
pub proof fn lemma_override_with_path_or_query_is_rejected(
    config: EndpointConfigView,
    uri: UriView,
    outcome: RuleOutcomeView,
)
    requires
        config.endpoint == Some(uri),
        uri.has_path_or_query(),
    ensures
        first_step(config) == ResolutionView::Finished(Err(EndpointErrorView::InvalidEndpoint)),
        resolved(config, outcome) == Err::<UriView, EndpointErrorView>(
            EndpointErrorView::InvalidEndpoint,
        ),
{
}

/// Every endpoint that a resolution gives has an empty path and an empty
/// query string, so that it is written as scheme and authority alone.
pub proof fn lemma_resolved_endpoint_has_no_path_or_query(
    config: EndpointConfigView,
    outcome: RuleOutcomeView,
)
    ensures
        resolved(config, outcome) matches Ok(uri) ==> {
            &&& uri.path.len() == 0
            &&& uri.query_string.len() == 0
            &&& uri.text() == uri.scheme_prefix() + uri.authority
        },
{
}

/// Without an endpoint URI the rules decide: the rules are asked, and what
/// they give decides alone whether there is an endpoint.
pub proof fn lemma_rules_decide_without_override(
    config: EndpointConfigView,
    outcome: RuleOutcomeView,
)
    requires
        config.endpoint is None,
    ensures
        first_step(config) == ResolutionView::Evaluate(request_parameters(config)),
        resolved(config, outcome) == last_step(outcome),
        resolved(config, outcome) is Ok <==> outcome is Url,
{
}

/// The request holds what the configuration asks for and nothing else: its
/// region; its bucket if it has one; and each of the four flags, set to
/// true, exactly where the configuration asks for it. No flag is sent as
/// false.
pub proof fn lemma_request_holds_what_the_configuration_asks(
    config: EndpointConfigView,
    parameter: ParameterView,
)
    ensures
        request_parameters(config).contains(parameter) <==> match parameter {
            ParameterView::Region(region) => region == config.region,
            ParameterView::Bucket(bucket) => config.bucket == Some(bucket),
            ParameterView::UseFips(on) => on && config.use_fips,
            ParameterView::UseDualStack(on) => on && config.use_dual_stack,
            ParameterView::Accelerate(on) => on && config.use_accelerate,
            ParameterView::ForcePathStyle(on) => on && config.addressing_style
                == AddressingStyle::Path,
        },
{
    let request = request_parameters(config);
    let bucket: int = if config.bucket is Some {
        1
    } else {
        0
    };
    let fips: int = if config.use_fips {
        1
    } else {
        0
    };
    let dual_stack: int = if config.use_dual_stack {
        1
    } else {
        0
    };
    let accelerate: int = if config.use_accelerate {
        1
    } else {
        0
    };
    assert(request[0] == ParameterView::Region(config.region));
    if config.bucket is Some {
        assert(request[1] == ParameterView::Bucket(config.bucket->Some_0));
    }
    if config.use_fips {
        assert(request[1 + bucket] == ParameterView::UseFips(true));
    }
    if config.use_dual_stack {
        assert(request[1 + bucket + fips] == ParameterView::UseDualStack(true));
    }
    if config.use_accelerate {
        assert(request[1 + bucket + fips + dual_stack] == ParameterView::Accelerate(true));
    }
    if config.addressing_style == AddressingStyle::Path {
        assert(request[1 + bucket + fips + dual_stack + accelerate]
            == ParameterView::ForcePathStyle(true));
    }
}

/// The request names each parameter once: no two of its parameters go by
/// the same name.
pub proof fn lemma_request_names_each_parameter_once(config: EndpointConfigView, i: int, j: int)
    requires
        0 <= i < j < request_parameters(config).len(),
    ensures
        request_parameters(config)[i].name() != request_parameters(config)[j].name(),
{
    reveal_strlit("Region");
    reveal_strlit("Bucket");
    reveal_strlit("UseFIPS");
    reveal_strlit("UseDualStack");
    reveal_strlit("Accelerate");
    reveal_strlit("ForcePathStyle");
    assert("Region"@.len() == 6 && "Bucket"@.len() == 6 && "UseFIPS"@.len() == 7
        && "UseDualStack"@.len() == 12 && "Accelerate"@.len() == 10 && "ForcePathStyle"@.len()
        == 14);
    assert("Region"@[0] == 'R' && "Bucket"@[0] == 'B');
}

/// A configuration that asks for FIPS and for transfer acceleration, and
/// sets no endpoint URI, puts both to the rules: the request holds `UseFIPS`
/// and `Accelerate`, both true. Whether the two go together is then for the
/// rules to say: if they give no URL, there is no endpoint, and the error is
/// an unresolved endpoint with their cause.
pub proof fn lemma_fips_and_accelerate_reach_the_rules(
    config: EndpointConfigView,
    outcome: RuleOutcomeView,
)
    requires
        config.endpoint is None,
        config.use_fips,
        config.use_accelerate,
    ensures
        first_step(config) matches ResolutionView::Evaluate(request) && request.contains(
            ParameterView::UseFips(true),
        ) && request.contains(ParameterView::Accelerate(true)),
        outcome matches RuleOutcomeView::NotResolved(cause) ==> resolved(config, outcome) == Err::<
            UriView,
            EndpointErrorView,
        >(EndpointErrorView::UnresolvedEndpoint(cause)),
{
    lemma_request_holds_what_the_configuration_asks(config, ParameterView::UseFips(true));
    lemma_request_holds_what_the_configuration_asks(config, ParameterView::Accelerate(true));
}

/// The addressing style reaches the rules as `ForcePathStyle` alone: the
/// request of a configuration holds it, set to true, exactly when the style
/// is path addressing. With automatic addressing it is left out, and the
/// rules choose the style by the bucket name: the configuration's bucket is
/// in the request as it was set, and the endpoint has the scheme and the
/// authority of the URL that the rules give.
pub proof fn lemma_path_style_is_forced_only_on_request(
    config: EndpointConfigView,
    url: UriView,
)
    ensures
        request_parameters(config).contains(ParameterView::ForcePathStyle(true))
            <==> config.addressing_style == AddressingStyle::Path,
        !request_parameters(config).contains(ParameterView::ForcePathStyle(false)),
        config.bucket matches Some(bucket) ==> request_parameters(config).contains(
            ParameterView::Bucket(bucket),
        ),
        config.endpoint is None ==> resolved(config, RuleOutcomeView::Url(url)) == Ok::<
            UriView,
            EndpointErrorView,
        >(url.origin()),
        url.origin().scheme == url.scheme && url.origin().authority == url.authority,
{
    lemma_request_holds_what_the_configuration_asks(config, ParameterView::ForcePathStyle(true));
    lemma_request_holds_what_the_configuration_asks(config, ParameterView::ForcePathStyle(false));
    if let Some(bucket) = config.bucket {
        lemma_request_holds_what_the_configuration_asks(config, ParameterView::Bucket(bucket));
    }
}

} // verus!
