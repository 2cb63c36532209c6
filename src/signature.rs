//! The parameter model of a business function: its parameters, the shape of
//! its result, and the names derived from it.
use vstd::prelude::*;
use crate::text::{join2, owned, push_char, str_eq};

verus! {

/// A type as written in a signature.
#[derive(Debug, Clone, PartialEq, Eq)]
pub struct TypeRef {
    /// The type's source text.
    pub text: String,
    /// For a path type, the identifier of its last segment.
    pub head: Option<String>,
}

/// One generic argument of a path segment.
#[derive(Debug, Clone, PartialEq, Eq)]
pub enum GenericArg {
    Type(TypeRef),
    /// A lifetime, a constant or a binding.
    Other,
}

/// The declared return type of a function.
#[derive(Debug, Clone, PartialEq, Eq)]
pub enum ReturnType {
    /// No `->` at all.
    Default,
    /// A type, with the angle-bracketed arguments of its last segment.
    Type { ty: TypeRef, args: Vec<GenericArg> },
}

/// How one parameter is bound.
#[derive(Debug, Clone, PartialEq, Eq)]
pub enum ParamPattern {
    /// A plain identifier.
    Ident(String),
    /// `self` in any form.
    Receiver,
    /// A tuple, struct or other destructuring pattern.
    Other,
}

/// One parameter as declared.
#[derive(Debug, Clone, PartialEq, Eq)]
pub struct FnInput {
    pub pattern: ParamPattern,
    pub ty: TypeRef,
}

/// One named parameter of an endpoint.
#[derive(Debug, Clone, PartialEq, Eq)]
pub struct ParamSpec {
    pub name: String,
    pub ty: TypeRef,
}

/// The success and error types of an endpoint.
#[derive(Debug, Clone, PartialEq, Eq)]
pub struct ResultShape {
    pub success: TypeRef,
    pub error: TypeRef,
}

/// A type's text and the identifier of its last segment.
pub type TypeView = (Seq<char>, Option<Seq<char>>);

impl View for TypeRef {
    type V = TypeView;

    open spec fn view(&self) -> TypeView {
        (
            self.text@,
            match self.head {
                Some(h) => Some(h@),
                None => None,
            },
        )
    }
}

/// The unit type `()`.
pub open spec fn unit_type() -> TypeView {
    ("()"@, None)
}

/// The return type is `Result<S, E, ..>` with two type arguments up front.
pub open spec fn is_result_shape(ty: TypeRef, args: Seq<GenericArg>) -> bool {
    ty.head matches Some(h) && h@ == "Result"@ && args.len() >= 2 && args[0] is Type
        && args[1] is Type
}

/// The success and error types that a return type declares.
pub open spec fn shape_of(output: ReturnType) -> (TypeView, TypeView) {
    match output {
        ReturnType::Default => (unit_type(), unit_type()),
        ReturnType::Type { ty, args } => if is_result_shape(ty, args@) {
            (args@[0]->Type_0@, args@[1]->Type_0@)
        } else {
            (ty@, unit_type())
        },
    }
}

fn unit_ref() -> (r: TypeRef)
    ensures
        r@ == unit_type(),
{
    proof {
        reveal_strlit("()");
    }
    TypeRef { text: owned("()"), head: None }
}

fn copy_type(t: &TypeRef) -> (r: TypeRef)
    ensures
        r@ == t@,
{
    let head = match &t.head {
        Some(h) => Some(owned(h.as_str())),
        None => None,
    };
    TypeRef { text: owned(t.text.as_str()), head }
}

/// Splits a return type into success and error types. A return type that is
/// not `Result` with two type arguments is the success type as a whole, with
/// `()` as its error type; no return type at all is `()` for both.
pub fn extract_return_type(output: &ReturnType) -> (r: ResultShape)
    ensures
        (r.success@, r.error@) == shape_of(*output),
{
    match output {
        ReturnType::Default => ResultShape { success: unit_ref(), error: unit_ref() },
        ReturnType::Type { ty, args } => {
            let is_result = match &ty.head {
                Some(h) => {
                    proof {
                        reveal_strlit("Result");
                    }
                    str_eq(h.as_str(), "Result")
                },
                None => false,
            };
            if is_result && args.len() >= 2 {
                match (&args[0], &args[1]) {
                    (GenericArg::Type(ok), GenericArg::Type(err)) => {
                        return ResultShape { success: copy_type(ok), error: copy_type(err) };
                    },
                    _ => {},
                }
            }
            ResultShape { success: copy_type(ty), error: unit_ref() }
        },
    }
}

/// A sequence type: a path whose last segment is `Vec`.
pub open spec fn is_sequence_type(t: TypeView) -> bool {
    t.1 == Some("Vec"@)
}

impl TypeRef {
    /// Whether this is a sequence type (`Vec<..>`).
    pub fn is_sequence(&self) -> (r: bool)
        ensures
            r == is_sequence_type(self@),
    {
        proof {
            reveal_strlit("Vec");
        }
        match &self.head {
            Some(h) => str_eq(h.as_str(), "Vec"),
            None => false,
        }
    }
}

/// A parameter and its type, as seen by contracts.
pub type ParamView = (Seq<char>, TypeView);

/// The parameters among `inputs` bound to plain identifiers, in order.
pub open spec fn params_of(inputs: Seq<FnInput>) -> Seq<ParamView>
    decreases inputs.len(),
{
    if inputs.len() == 0 {
        Seq::empty()
    } else {
        let rest = params_of(inputs.drop_last());
        match inputs.last().pattern {
            ParamPattern::Ident(n) => rest.push((n@, inputs.last().ty@)),
            _ => rest,
        }
    }
}

/// The parameter is bound to a plain identifier.
pub open spec fn is_named(input: FnInput) -> bool {
    input.pattern is Ident
}

/// The position of the first parameter not bound to a plain identifier:
/// a receiver or any destructuring pattern.
pub open spec fn first_unsupported(inputs: Seq<FnInput>, i: int) -> bool {
    0 <= i < inputs.len() && !is_named(inputs[i]) && forall|j: int|
        0 <= j < i ==> is_named(#[trigger] inputs[j])
}

/// The views of a list of parameters.
pub open spec fn param_views(ps: Seq<ParamSpec>) -> Seq<ParamView> {
    ps.map_values(|p: ParamSpec| (p.name@, p.ty@))
}

/// The named parameters of a function, in order. A parameter bound by
/// anything but a plain identifier (`self` included) is refused with its
/// position.
pub fn collect_params(inputs: &Vec<FnInput>) -> (r: Result<Vec<ParamSpec>, usize>)
    ensures
        match r {
            Ok(ps) => (forall|i: int| 0 <= i < inputs@.len() ==> is_named(#[trigger] inputs@[i]))
                && param_views(ps@) == params_of(inputs@),
            Err(i) => first_unsupported(inputs@, i as int),
        },
{
    let mut out: Vec<ParamSpec> = Vec::new();
    let mut i: usize = 0;
    while i < inputs.len()
        invariant
            i <= inputs@.len(),
            forall|j: int| 0 <= j < i ==> is_named(#[trigger] inputs@[j]),
            param_views(out@) == params_of(inputs@.subrange(0, i as int)),
        decreases inputs@.len() - i,
    {
        let input = &inputs[i];
        proof {
            assert(inputs@.subrange(0, i + 1).drop_last() =~= inputs@.subrange(0, i as int));
        }
        match &input.pattern {
            ParamPattern::Ident(n) => {
                let p = ParamSpec { name: owned(n.as_str()), ty: copy_type(&input.ty) };
                out.push(p);
                proof {
                    assert(param_views(out@) =~= param_views(out@.drop_last()).push((n@, input.ty@)));
                }
            },
            _ => {
                return Err(i);
            },
        }
        i = i + 1;
    }
    assert(inputs@.subrange(0, inputs@.len() as int) =~= inputs@);
    Ok(out)
}

/// What `char::to_uppercase` makes of one character.
pub uninterp spec fn upper_of(c: char) -> Seq<char>;

/// The ASCII upper-case form of `c`: a lower-case ASCII letter becomes its
/// capital, any other character stays as it is.
pub open spec fn ascii_upper(c: char) -> char {
    if 'a' <= c <= 'z' {
        "ABCDEFGHIJKLMNOPQRSTUVWXYZ"@[(c as u32 - 97) as int]
    } else {
        c
    }
}

/// Every character of `s` is ASCII.
pub open spec fn all_ascii(s: Seq<char>) -> bool {
    forall|i: int| 0 <= i < s.len() ==> (#[trigger] s[i] as u32) < 128
}

/// Relies on `char::to_uppercase`: the upper-case mapping of one character,
/// which for an ASCII character is its ASCII upper-case form.
#[verifier::external_body]
fn upper_char(c: char) -> (r: String)
    ensures
        r@ == upper_of(c),
        (c as u32) < 128 ==> r@ == seq![ascii_upper(c)],
{
    c.to_uppercase().collect()
}

/// The first `n` characters of `s` in PascalCase: underscores dropped, the
/// first character of each underscore-separated word upper-cased.
pub open spec fn pascal_prefix(s: Seq<char>, n: int) -> Seq<char>
    decreases n,
{
    if n <= 0 {
        Seq::empty()
    } else {
        let prev = pascal_prefix(s, n - 1);
        let c = s[n - 1];
        if c == '_' {
            prev
        } else if n == 1 || s[n - 2] == '_' {
            prev + upper_of(c)
        } else {
            prev.push(c)
        }
    }
}

/// `s` in PascalCase.
pub open spec fn pascal(s: Seq<char>) -> Seq<char> {
    pascal_prefix(s, s.len() as int)
}

/// `pascal_prefix` for ASCII text, with the upper-case mapping written out.
pub open spec fn pascal_ascii_prefix(s: Seq<char>, n: int) -> Seq<char>
    decreases n,
{
    if n <= 0 {
        Seq::empty()
    } else {
        let prev = pascal_ascii_prefix(s, n - 1);
        let c = s[n - 1];
        if c == '_' {
            prev
        } else if n == 1 || s[n - 2] == '_' {
            prev.push(ascii_upper(c))
        } else {
            prev.push(c)
        }
    }
}

/// ASCII `s` in PascalCase.
pub open spec fn pascal_ascii(s: Seq<char>) -> Seq<char> {
    pascal_ascii_prefix(s, s.len() as int)
}

/// Converts a snake_case name to PascalCase: each underscore-separated word
/// gets its first character upper-cased, and the underscores are dropped.
pub fn to_pascal_case(s: &str) -> (r: String)
    ensures
        r@ == pascal(s@),
        all_ascii(s@) ==> r@ == pascal_ascii(s@),
{
    let n = s.unicode_len();
    let mut out = String::new();
    let mut i: usize = 0;
    while i < n
        invariant
            n == s@.len(),
            i <= n,
            out@ == pascal_prefix(s@, i as int),
            all_ascii(s@) ==> out@ == pascal_ascii_prefix(s@, i as int),
        decreases n - i,
    {
        let c = s.get_char(i);
        if c == '_' {
        } else if i == 0 || s.get_char(i - 1) == '_' {
            let u = upper_char(c);
            out = out.concat(u.as_str());
        } else {
            push_char(&mut out, c);
        }
        i = i + 1;
    }
    out
}

/// The name of the generated parameter container: the PascalCase function name
/// followed by `Params`.
pub fn params_struct_name(fn_name: &str) -> (r: String)
    ensures
        r@ == pascal(fn_name@) + "Params"@,
        all_ascii(fn_name@) ==> r@ == pascal_ascii(fn_name@) + "Params"@,
{
    let p = to_pascal_case(fn_name);
    p.concat("Params")
}

/// The name of the generated client hook: `use_` and the function name.
pub fn hook_name(fn_name: &str) -> (r: String)
    ensures
        r@ == "use_"@ + fn_name@,
{
    join2("use_", fn_name)
}

/// The name of the generated server handler: the function name and `_handler`.
pub fn handler_name(fn_name: &str) -> (r: String)
    ensures
        r@ == fn_name@ + "_handler"@,
{
    join2(fn_name, "_handler")
}

/// The name of the raw-request wrapper registered for dispatch.
pub fn wrapper_name(fn_name: &str) -> (r: String)
    ensures
        r@ == fn_name@ + "_handler_wrapper"@,
{
    join2(fn_name, "_handler_wrapper")
}

} // verus!
