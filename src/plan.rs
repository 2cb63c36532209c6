//! The endpoint descriptor: everything the generated artifacts are emitted
//! from, settled once per definition.
use vstd::prelude::*;
use crate::args::{DefinitionError, args_outcome, args_valid, chosen_method, last_value, parse_macro_args};
use crate::method::{Encoding, HttpMethod, encoding_of, method_lower_name, method_name};
use crate::signature::{
    FnInput, ParamSpec, ResultShape, ReturnType, collect_params, extract_return_type,
    handler_name, hook_name, is_sequence_type, param_views, params_of, params_struct_name, pascal,
    first_unsupported, is_named, shape_of, wrapper_name,
};
use crate::text::owned;

verus! {

/// Everything the handler, caller, hook and route registration are built from.
#[derive(Debug, Clone, PartialEq, Eq)]
pub struct EndpointPlan {
    pub fn_name: String,
    pub path: String,
    pub method: HttpMethod,
    pub encoding: Encoding,
    pub params: Vec<ParamSpec>,
    pub shape: ResultShape,
    /// The parameter container's name; `None` for an endpoint without parameters.
    pub params_struct: Option<String>,
    pub handler_name: String,
    pub wrapper_name: String,
    pub hook_name: String,
    /// Whether the hook reports an empty success payload as `Empty`.
    pub success_is_sequence: bool,
}

/// One entry of the dispatch table.
#[derive(Debug, Clone, PartialEq, Eq)]
pub struct RouteRegistration {
    pub path: String,
    pub method: HttpMethod,
    /// The name of the function that serves raw requests.
    pub handler: String,
}

/// The plan is the one its definition determines.
pub open spec fn plan_matches(
    p: EndpointPlan,
    path: Seq<char>,
    method: HttpMethod,
    fn_name: Seq<char>,
    inputs: Seq<FnInput>,
    output: ReturnType,
) -> bool {
    &&& p.fn_name@ == fn_name
    &&& p.path@ == path
    &&& p.method == method
    &&& p.encoding == encoding_of(method)
    &&& param_views(p.params@) == params_of(inputs)
    &&& (p.shape.success@, p.shape.error@) == shape_of(output)
    &&& (params_of(inputs).len() == 0 <==> p.params_struct is None)
    &&& (p.params_struct matches Some(n) ==> n@ == pascal(fn_name) + "Params"@)
    &&& p.handler_name@ == fn_name + "_handler"@
    &&& p.wrapper_name@ == fn_name + "_handler_wrapper"@
    &&& p.hook_name@ == "use_"@ + fn_name
    &&& p.success_is_sequence == is_sequence_type(shape_of(output).0)
}

/// Settles an endpoint from its definition arguments (as name/value pairs),
/// the business function's name, parameters and return type. Argument errors
/// come first, then the first parameter bound by a pattern.
pub fn plan_endpoint(
    args: &Vec<(String, String)>,
    fn_name: &str,
    inputs: &Vec<FnInput>,
    output: &ReturnType,
) -> (r: Result<EndpointPlan, DefinitionError>)
    ensures
        !args_valid(args@) ==> (r matches Err(e) && args_outcome(args@, Err(e))),
        args_valid(args@) ==> (r is Ok <==> forall|i: int|
            0 <= i < inputs@.len() ==> is_named(#[trigger] inputs@[i])),
        r matches Err(DefinitionError::UnsupportedParameterPattern(i)) ==> first_unsupported(
            inputs@,
            i as int,
        ),
        r matches Ok(p) ==> plan_matches(
            p,
            last_value(args@, "path"@)->0,
            chosen_method(args@),
            fn_name@,
            inputs@,
            *output,
        ),
{
    let parsed = parse_macro_args(args);
    let margs = match parsed {
        Ok(a) => a,
        Err(e) => {
            return Err(e);
        },
    };
    let params = match collect_params(inputs) {
        Ok(ps) => ps,
        Err(i) => {
            return Err(DefinitionError::UnsupportedParameterPattern(i));
        },
    };
    let shape = extract_return_type(output);
    let success_is_sequence = shape.success.is_sequence();
    let params_struct = if params.len() == 0 {
        None
    } else {
        Some(params_struct_name(fn_name))
    };
    proof {
        assert(param_views(params@).len() == params@.len());
    }
    let p = EndpointPlan {
        fn_name: owned(fn_name),
        path: owned(margs.path.as_str()),
        method: margs.method,
        encoding: margs.method.encoding(),
        params,
        shape,
        params_struct,
        handler_name: handler_name(fn_name),
        wrapper_name: wrapper_name(fn_name),
        hook_name: hook_name(fn_name),
        success_is_sequence,
    };
    Ok(p)
}

impl EndpointPlan {
    /// The dispatch-table entry for this endpoint.
    pub fn registration(&self) -> (r: RouteRegistration)
        ensures
            r.path@ == self.path@,
            r.method == self.method,
            r.handler@ == self.wrapper_name@,
    {
        RouteRegistration {
            path: owned(self.path.as_str()),
            method: self.method,
            handler: owned(self.wrapper_name.as_str()),
        }
    }
}

} // verus!
