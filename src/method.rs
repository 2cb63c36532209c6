//! HTTP methods an endpoint may declare, and the wire encoding each implies.
use vstd::prelude::*;
use crate::text::{owned, str_eq};

verus! {

/// The methods an endpoint may be declared with.
#[derive(Debug, Clone, Copy, PartialEq, Eq, Structural)]
pub enum HttpMethod {
    Get,
    Post,
    Put,
    Delete,
    Patch,
}

/// How a parameter container travels on the wire.
#[derive(Debug, Clone, Copy, PartialEq, Eq, Structural)]
pub enum Encoding {
    /// Form-urlencoded in the query string.
    QueryString,
    /// A JSON object in the request body.
    BodyJson,
}

/// The canonical upper-case name of a method.
pub open spec fn method_name(m: HttpMethod) -> Seq<char> {
    match m {
        HttpMethod::Get => seq!['G', 'E', 'T'],
        HttpMethod::Post => seq!['P', 'O', 'S', 'T'],
        HttpMethod::Put => seq!['P', 'U', 'T'],
        HttpMethod::Delete => seq!['D', 'E', 'L', 'E', 'T', 'E'],
        HttpMethod::Patch => seq!['P', 'A', 'T', 'C', 'H'],
    }
}

/// The lower-case name of a method.
pub open spec fn method_lower_name(m: HttpMethod) -> Seq<char> {
    match m {
        HttpMethod::Get => seq!['g', 'e', 't'],
        HttpMethod::Post => seq!['p', 'o', 's', 't'],
        HttpMethod::Put => seq!['p', 'u', 't'],
        HttpMethod::Delete => seq!['d', 'e', 'l', 'e', 't', 'e'],
        HttpMethod::Patch => seq!['p', 'a', 't', 'c', 'h'],
    }
}

/// `c` is the upper-case ASCII letter `u`, or its lower-case form.
pub open spec fn letter_matches(c: char, u: char) -> bool {
    c == u || c as u32 == u as u32 + 32
}

/// `s` spells the upper-case word `name`, ignoring ASCII letter case.
pub open spec fn matches_ignoring_case(s: Seq<char>, name: Seq<char>) -> bool {
    s.len() == name.len() && forall|i: int| 0 <= i < s.len() ==> letter_matches(s[i], name[i])
}

/// The method that `s` names, ignoring case, if any.
pub open spec fn method_named(s: Seq<char>) -> Option<HttpMethod> {
    if matches_ignoring_case(s, method_name(HttpMethod::Get)) {
        Some(HttpMethod::Get)
    } else if matches_ignoring_case(s, method_name(HttpMethod::Post)) {
        Some(HttpMethod::Post)
    } else if matches_ignoring_case(s, method_name(HttpMethod::Put)) {
        Some(HttpMethod::Put)
    } else if matches_ignoring_case(s, method_name(HttpMethod::Delete)) {
        Some(HttpMethod::Delete)
    } else if matches_ignoring_case(s, method_name(HttpMethod::Patch)) {
        Some(HttpMethod::Patch)
    } else {
        None
    }
}

/// The encoding a method implies: the query string for GET, a JSON body otherwise.
pub open spec fn encoding_of(m: HttpMethod) -> Encoding {
    if m == HttpMethod::Get {
        Encoding::QueryString
    } else {
        Encoding::BodyJson
    }
}

fn matches_word(s: &str, name: &str) -> (r: bool)
    requires
        forall|i: int| 0 <= i < name@.len() ==> 'A' <= #[trigger] name@[i] <= 'Z',
    ensures
        r == matches_ignoring_case(s@, name@),
{
    let n = name.unicode_len();
    if s.unicode_len() != n {
        return false;
    }
    let mut i: usize = 0;
    while i < n
        invariant
            n == name@.len(),
            n == s@.len(),
            i <= n,
            forall|j: int| 0 <= j < i ==> letter_matches(s@[j], name@[j]),
        decreases n - i,
    {
        let c = s.get_char(i);
        let u = name.get_char(i);
        if !(c == u || c as u32 == u as u32 + 32) {
            return false;
        }
        i = i + 1;
    }
    true
}

impl HttpMethod {
    /// Reads a method name, ignoring case; `None` for anything outside
    /// GET, POST, PUT, DELETE and PATCH.
    pub fn parse(s: &str) -> (r: Option<HttpMethod>)
        ensures
            r == method_named(s@),
    {
        proof {
            reveal_strlit("GET");
            reveal_strlit("POST");
            reveal_strlit("PUT");
            reveal_strlit("DELETE");
            reveal_strlit("PATCH");
        }
        if matches_word(s, "GET") {
            Some(HttpMethod::Get)
        } else if matches_word(s, "POST") {
            Some(HttpMethod::Post)
        } else if matches_word(s, "PUT") {
            Some(HttpMethod::Put)
        } else if matches_word(s, "DELETE") {
            Some(HttpMethod::Delete)
        } else if matches_word(s, "PATCH") {
            Some(HttpMethod::Patch)
        } else {
            None
        }
    }

    /// The upper-case name, as it appears on the wire.
    pub fn name(&self) -> (r: String)
        ensures
            r@ == method_name(*self),
    {
        let r = match self {
            HttpMethod::Get => owned("GET"),
            HttpMethod::Post => owned("POST"),
            HttpMethod::Put => owned("PUT"),
            HttpMethod::Delete => owned("DELETE"),
            HttpMethod::Patch => owned("PATCH"),
        };
        proof {
            reveal_strlit("GET");
            reveal_strlit("POST");
            reveal_strlit("PUT");
            reveal_strlit("DELETE");
            reveal_strlit("PATCH");
        }
        r
    }

    /// The lower-case name, as a client request builder spells it.
    pub fn lower_name(&self) -> (r: String)
        ensures
            r@ == method_lower_name(*self),
    {
        let r = match self {
            HttpMethod::Get => owned("get"),
            HttpMethod::Post => owned("post"),
            HttpMethod::Put => owned("put"),
            HttpMethod::Delete => owned("delete"),
            HttpMethod::Patch => owned("patch"),
        };
        proof {
            reveal_strlit("get");
            reveal_strlit("post");
            reveal_strlit("put");
            reveal_strlit("delete");
            reveal_strlit("patch");
        }
        r
    }

    /// The encoding this method implies for the parameter container.
    pub fn encoding(&self) -> (r: Encoding)
        ensures
            r == encoding_of(*self),
    {
        match self {
            HttpMethod::Get => Encoding::QueryString,
            _ => Encoding::BodyJson,
        }
    }
}

/// A method name is accepted exactly when it is one of the five methods,
/// spelled in any mix of letter case; every accepted name maps back to a
/// method whose canonical name it matches.
pub proof fn lemma_method_names_closed(s: Seq<char>)
    ensures
        method_named(s) is Some <==> (exists|m: HttpMethod|
            matches_ignoring_case(s, #[trigger] method_name(m))),
        method_named(s) is Some ==> matches_ignoring_case(s, method_name(method_named(s)->0)),
{
    if method_named(s) is None {
        assert forall|m: HttpMethod| !matches_ignoring_case(s, #[trigger] method_name(m)) by {
            match m {
                HttpMethod::Get => {},
                HttpMethod::Post => {},
                HttpMethod::Put => {},
                HttpMethod::Delete => {},
                HttpMethod::Patch => {},
            }
        }
    } else {
        let m = method_named(s)->0;
        assert(matches_ignoring_case(s, method_name(m)));
    }
}

} // verus!
