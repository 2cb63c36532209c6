//! The endpoint's definition arguments (`path = "..."`, `method = "..."`) and
//! the errors that stop a definition before anything is generated.
use vstd::prelude::*;
use crate::method::{HttpMethod, method_named};
use crate::text::{join3, owned, str_eq};

verus! {

/// An error that aborts an endpoint definition.
#[derive(Debug, Clone, PartialEq, Eq)]
pub enum DefinitionError {
    /// `method` named something other than GET, POST, PUT, DELETE or PATCH.
    InvalidMethod(String),
    /// An argument other than `path` or `method`.
    UnknownArgument(String),
    /// No `path` argument was given.
    MissingPath,
    /// The parameter at this position is bound by a pattern, not a name.
    UnsupportedParameterPattern(usize),
}

/// The validated definition arguments.
#[derive(Debug, Clone, PartialEq, Eq)]
pub struct MacroArgs {
    pub path: String,
    pub method: HttpMethod,
}

/// One argument is acceptable: a `path`, or a `method` naming a known method.
pub open spec fn arg_ok(a: (String, String)) -> bool {
    a.0@ == "path"@ || (a.0@ == "method"@ && method_named(a.1@) is Some)
}

/// The argument at `i` is the first unacceptable one.
pub open spec fn first_bad_arg(a: Seq<(String, String)>, i: int) -> bool {
    0 <= i < a.len() && !arg_ok(a[i]) && forall|j: int| 0 <= j < i ==> arg_ok(#[trigger] a[j])
}

/// The value of the last argument named `key`, if any.
pub open spec fn last_value(a: Seq<(String, String)>, key: Seq<char>) -> Option<Seq<char>>
    decreases a.len(),
{
    if a.len() == 0 {
        None
    } else if a.last().0@ == key {
        Some(a.last().1@)
    } else {
        last_value(a.drop_last(), key)
    }
}

/// The method the arguments settle on: the last `method` given, else POST.
pub open spec fn chosen_method(a: Seq<(String, String)>) -> HttpMethod {
    match last_value(a, "method"@) {
        Some(v) => method_named(v)->0,
        None => HttpMethod::Post,
    }
}

/// The definition arguments are all acceptable and include a `path`.
pub open spec fn args_valid(a: Seq<(String, String)>) -> bool {
    (forall|i: int| 0 <= i < a.len() ==> arg_ok(#[trigger] a[i])) && last_value(a, "path"@) is Some
}

/// `r` is what reading the definition arguments `a` gives.
pub open spec fn args_outcome(a: Seq<(String, String)>, r: Result<MacroArgs, DefinitionError>) -> bool {
        match r {
            Ok(args) => (forall|i: int| 0 <= i < a.len() ==> arg_ok(#[trigger] a[i]))
                && last_value(a, "path"@) == Some(args.path@) && args.method == chosen_method(a),
            Err(DefinitionError::UnknownArgument(k)) => exists|i: int|
                first_bad_arg(a, i) && a[i].0@ != "method"@ && a[i].0@ == k@,
            Err(DefinitionError::InvalidMethod(v)) => exists|i: int|
                first_bad_arg(a, i) && a[i].0@ == "method"@ && a[i].1@ == v@,
            Err(DefinitionError::MissingPath) => (forall|i: int|
                0 <= i < a.len() ==> arg_ok(#[trigger] a[i])) && last_value(a, "path"@) is None,
            Err(DefinitionError::UnsupportedParameterPattern(_)) => false,
        }
}

/// Reads the definition arguments, given as (name, value) pairs in order.
/// The first argument that is neither `path` nor a valid `method` fails the
/// whole definition; a later argument of the same name overrides an earlier
/// one; `path` is required and `method` defaults to POST.
pub fn parse_macro_args(a: &Vec<(String, String)>) -> (r: Result<MacroArgs, DefinitionError>)
    ensures
        args_outcome(a@, r),
{
    let mut path: Option<String> = None;
    let mut method: Option<HttpMethod> = None;
    let mut i: usize = 0;
    while i < a.len()
        invariant
            i <= a@.len(),
            forall|j: int| 0 <= j < i ==> arg_ok(#[trigger] a@[j]),
            match path {
                Some(p) => last_value(a@.subrange(0, i as int), "path"@) == Some(p@),
                None => last_value(a@.subrange(0, i as int), "path"@) is None,
            },
            method is Some ==> last_value(a@.subrange(0, i as int), "method"@) is Some
                && method_named(last_value(a@.subrange(0, i as int), "method"@)->0) == method,
            method is None ==> last_value(a@.subrange(0, i as int), "method"@) is None,
        decreases a@.len() - i,
    {
        let key = &a[i].0;
        let value = &a[i].1;
        proof {
            reveal_strlit("path");
            reveal_strlit("method");
            assert("path"@ != "method"@) by {
                assert("path"@.len() != "method"@.len());
            }
        }
        let ghost before = a@.subrange(0, i as int);
        let ghost upto = a@.subrange(0, i + 1);
        proof {
            assert(upto.drop_last() =~= before);
            assert(upto.last() == a@[i as int]);
            assert(last_value(upto, "method"@) == if key@ == "method"@ {
                Some(value@)
            } else {
                last_value(before, "method"@)
            });
            assert(last_value(upto, "path"@) == if key@ == "path"@ {
                Some(value@)
            } else {
                last_value(before, "path"@)
            });
        }
        if str_eq(key.as_str(), "path") {
            path = Some(owned(value.as_str()));
        } else if str_eq(key.as_str(), "method") {
            match HttpMethod::parse(value.as_str()) {
                Some(m) => {
                    method = Some(m);
                },
                None => {
                    assert(first_bad_arg(a@, i as int));
                    return Err(DefinitionError::InvalidMethod(owned(value.as_str())));
                },
            }
        } else {
            assert(first_bad_arg(a@, i as int));
            return Err(DefinitionError::UnknownArgument(owned(key.as_str())));
        }
        i = i + 1;
    }
    proof {
        assert(a@.subrange(0, a@.len() as int) =~= a@);
    }
    match path {
        None => Err(DefinitionError::MissingPath),
        Some(p) => {
            let m = match method {
                Some(m) => m,
                None => HttpMethod::Post,
            };
            Ok(MacroArgs { path: p, method: m })
        },
    }
}

/// A definition whose arguments name a method outside GET, POST, PUT, DELETE
/// and PATCH (in any letter case) is rejected: reading its arguments fails.
pub proof fn lemma_invalid_method_rejected(
    a: Seq<(String, String)>,
    i: int,
    r: Result<MacroArgs, DefinitionError>,
)
    requires
        0 <= i < a.len(),
        a[i].0@ == "method"@,
        method_named(a[i].1@) is None,
        args_outcome(a, r),
    ensures
        !args_valid(a),
        r is Err,
{
    reveal_strlit("path");
    reveal_strlit("method");
    assert("path"@.len() != "method"@.len());
    assert(!arg_ok(a[i]));
}

/// When an unknown method is the first unacceptable argument, the definition
/// fails with `InvalidMethod` carrying that method's text.
pub proof fn lemma_first_bad_method_is_invalid_method(
    a: Seq<(String, String)>,
    i: int,
    r: Result<MacroArgs, DefinitionError>,
)
    requires
        first_bad_arg(a, i),
        a[i].0@ == "method"@,
        args_outcome(a, r),
    ensures
        r matches Err(DefinitionError::InvalidMethod(v)) && v@ == a[i].1@,
{
    assert forall|j: int| first_bad_arg(a, j) implies j == i by {
        if j < i {
            assert(arg_ok(a[j]));
        } else if j > i {
            assert(arg_ok(a[i]));
        }
    }
    assert(!arg_ok(a[i]));
}

impl DefinitionError {
    /// The human-readable description of the error.
    pub fn message(&self) -> (r: String)
        ensures
            r@ == match self {
                DefinitionError::InvalidMethod(_) =>
                    "Invalid HTTP method. Must be one of: GET, POST, PUT, DELETE, PATCH"@,
                DefinitionError::UnknownArgument(k) => "Unknown argument '"@ + k@
                    + "'. Expected 'path' or 'method'"@,
                DefinitionError::MissingPath => "Missing required argument 'path'"@,
                DefinitionError::UnsupportedParameterPattern(_) =>
                    "Parameters must be bound to plain identifiers"@,
            },
    {
        match self {
            DefinitionError::InvalidMethod(_) => owned(
                "Invalid HTTP method. Must be one of: GET, POST, PUT, DELETE, PATCH",
            ),
            DefinitionError::UnknownArgument(k) => join3(
                "Unknown argument '",
                k.as_str(),
                "'. Expected 'path' or 'method'",
            ),
            DefinitionError::MissingPath => owned("Missing required argument 'path'"),
            DefinitionError::UnsupportedParameterPattern(_) => owned(
                "Parameters must be bound to plain identifiers",
            ),
        }
    }
}

} // verus!
