//! The request that is put to the endpoint rules.

use vstd::prelude::*;

use crate::config::{AddressingStyle, EndpointConfig, EndpointConfigView};

verus! {

/// One parameter of a request to the endpoint rules.
#[derive(Debug)]
pub enum Parameter {
    /// The region.
    Region(String),
    /// The bucket name, access point alias or access point ARN.
    Bucket(String),
    /// Whether a FIPS endpoint is asked for.
    UseFips(bool),
    /// Whether a dual-stack endpoint is asked for.
    UseDualStack(bool),
    /// Whether a transfer acceleration endpoint is asked for.
    Accelerate(bool),
    /// Whether the bucket name must stand in the path.
    ForcePathStyle(bool),
}

/// A parameter as mathematical values.
pub enum ParameterView {
    Region(Seq<char>),
    Bucket(Seq<char>),
    UseFips(bool),
    UseDualStack(bool),
    Accelerate(bool),
    ForcePathStyle(bool),
}

impl ParameterView {
    /// The name under which the endpoint rules know the parameter.
    pub open spec fn name(self) -> Seq<char> {
        match self {
            ParameterView::Region(_) => "Region"@,
            ParameterView::Bucket(_) => "Bucket"@,
            ParameterView::UseFips(_) => "UseFIPS"@,
            ParameterView::UseDualStack(_) => "UseDualStack"@,
            ParameterView::Accelerate(_) => "Accelerate"@,
            ParameterView::ForcePathStyle(_) => "ForcePathStyle"@,
        }
    }
}

impl View for Parameter {
    type V = ParameterView;

    open spec fn view(&self) -> ParameterView {
        match self {
            Parameter::Region(region) => ParameterView::Region(region@),
            Parameter::Bucket(bucket) => ParameterView::Bucket(bucket@),
            Parameter::UseFips(on) => ParameterView::UseFips(*on),
            Parameter::UseDualStack(on) => ParameterView::UseDualStack(*on),
            Parameter::Accelerate(on) => ParameterView::Accelerate(*on),
            Parameter::ForcePathStyle(on) => ParameterView::ForcePathStyle(*on),
        }
    }
}

impl Parameter {
    /// The name under which the endpoint rules know the parameter.
    pub fn name(&self) -> (name: &'static str)
        ensures
            name@ == self@.name(),
    {
        match self {
            Parameter::Region(_) => "Region",
            Parameter::Bucket(_) => "Bucket",
            Parameter::UseFips(_) => "UseFIPS",
            Parameter::UseDualStack(_) => "UseDualStack",
            Parameter::Accelerate(_) => "Accelerate",
            Parameter::ForcePathStyle(_) => "ForcePathStyle",
        }
    }
}

impl Clone for Parameter {
    fn clone(&self) -> (copy: Parameter)
        ensures
            copy == *self,
    {
        match self {
            Parameter::Region(region) => Parameter::Region(region.clone()),
            Parameter::Bucket(bucket) => Parameter::Bucket(bucket.clone()),
            Parameter::UseFips(on) => Parameter::UseFips(*on),
            Parameter::UseDualStack(on) => Parameter::UseDualStack(*on),
            Parameter::Accelerate(on) => Parameter::Accelerate(*on),
            Parameter::ForcePathStyle(on) => Parameter::ForcePathStyle(*on),
        }
    }
}

impl PartialEq for Parameter {
    fn eq(&self, other: &Parameter) -> (equal: bool) {
        match (self, other) {
            (Parameter::Region(a), Parameter::Region(b)) => *a == *b,
            (Parameter::Bucket(a), Parameter::Bucket(b)) => *a == *b,
            (Parameter::UseFips(a), Parameter::UseFips(b)) => *a == *b,
            (Parameter::UseDualStack(a), Parameter::UseDualStack(b)) => *a == *b,
            (Parameter::Accelerate(a), Parameter::Accelerate(b)) => *a == *b,
            (Parameter::ForcePathStyle(a), Parameter::ForcePathStyle(b)) => *a == *b,
            _ => false,
        }
    }
}

impl Eq for Parameter {

}

impl vstd::std_specs::cmp::PartialEqSpecImpl for Parameter {
    open spec fn obeys_eq_spec() -> bool {
        true
    }

    open spec fn eq_spec(&self, other: &Parameter) -> bool {
        self@ == other@
    }
}

/// The parameters of a list, each as mathematical values.
pub open spec fn parameter_views(parameters: Seq<Parameter>) -> Seq<ParameterView> {
    parameters.map_values(|parameter: Parameter| parameter@)
}

/// The one parameter that is sent for a flag that is on; nothing is sent for
/// a flag that is off, so that the rules' own default holds.
pub open spec fn flag_parameters(on: bool, parameter: ParameterView) -> Seq<ParameterView> {
    if on {
        seq![parameter]
    } else {
        Seq::empty()
    }
}

/// The request that stands for a configuration: the region; the bucket if
/// one is set; and `UseFIPS`, `UseDualStack`, `Accelerate` and
/// `ForcePathStyle`, each set to true where the configuration asks for it
/// and left out where it does not.
pub open spec fn request_parameters(config: EndpointConfigView) -> Seq<ParameterView> {
    seq![ParameterView::Region(config.region)] + (match config.bucket {
        Some(bucket) => seq![ParameterView::Bucket(bucket)],
        None => Seq::empty(),
    }) + flag_parameters(config.use_fips, ParameterView::UseFips(true)) + flag_parameters(
        config.use_dual_stack,
        ParameterView::UseDualStack(true),
    ) + flag_parameters(config.use_accelerate, ParameterView::Accelerate(true)) + flag_parameters(
        config.addressing_style == AddressingStyle::Path,
        ParameterView::ForcePathStyle(true),
    )
}

/// Adds a parameter to a request.
fn add_parameter(request: &mut Vec<Parameter>, parameter: Parameter)
    ensures
        parameter_views(final(request)@) == parameter_views(old(request)@).push(parameter@),
{
    request.push(parameter);
    assert(parameter_views(request@) =~= parameter_views(old(request)@).push(parameter@));
}

/// The request that stands for a configuration.
pub fn build_request(config: &EndpointConfig) -> (request: Vec<Parameter>)
    ensures
        parameter_views(request@) == request_parameters(config@),
{
    let mut request: Vec<Parameter> = Vec::new();
    add_parameter(&mut request, Parameter::Region(config.get_region().to_owned()));
    if let Some(bucket) = config.get_bucket() {
        add_parameter(&mut request, Parameter::Bucket(bucket.to_owned()));
    }
    if config.is_fips() {
        add_parameter(&mut request, Parameter::UseFips(true));
    }
    if config.is_dual_stack() {
        add_parameter(&mut request, Parameter::UseDualStack(true));
    }
    if config.is_accelerate() {
        add_parameter(&mut request, Parameter::Accelerate(true));
    }
    if config.get_addressing_style() == AddressingStyle::Path {
        add_parameter(&mut request, Parameter::ForcePathStyle(true));
    }
    request
}

} // verus!
