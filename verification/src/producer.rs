//! Producer descriptors: a URI-shaped string `scheme[:source][?key=value&...]`
//! parsed into a name, a data source and forward-compatible parameters,
//! immutable once parsed.

use vstd::prelude::*;

use crate::errors::AnnoError;

verus! {

/// What parsing a descriptor string yields: nothing when the string is not
/// an absolute URI, otherwise its scheme, its path and its decoded query
/// pairs.
pub uninterp spec fn url_parts(s: Seq<char>) -> Option<
    (Seq<char>, Seq<char>, Seq<(Seq<char>, Seq<char>)>),
>;

/// Relies on url::Url::parse together with Url::scheme, Url::path and
/// Url::query_pairs: whether a string parses as an absolute URI, and its
/// scheme, path and decoded query pairs, are functions of the string
/// alone. A parsed scheme is never empty, since the parser admits only
/// schemes that begin with an ASCII letter, and parsing fails on any
/// string without a scheme delimiter, since the scheme parser succeeds
/// only at a colon.
#[verifier::external_body]
fn parse_url_parts(s: &str) -> (r: Option<(String, String, Vec<(String, String)>)>)
    ensures
        r is Some <==> url_parts(s@) is Some,
        r matches Some(p) ==> url_parts(s@) == Some((p.0@, p.1@, p.2.deep_view())),
        r matches Some(p) ==> p.0@.len() > 0,
        (forall|i: int| 0 <= i < s@.len() ==> s@[i] != ':') ==> r is None,
{
    match url::Url::parse(s) {
        Ok(u) => {
            let pairs = u.query_pairs().map(|(k, v)| (k.into_owned(), v.into_owned())).collect();
            Some((u.scheme().to_string(), u.path().to_string(), pairs))
        },
        Err(_) => None,
    }
}

/// One producer as named on the command line: `name` identifies the
/// external command, `source` points it at its data (possibly empty), and
/// `params` carries additional arguments that the engine itself does not
/// consume.
#[derive(Debug, Clone, PartialEq, Eq)]
pub struct ProducerSpec {
    pub name: String,
    pub source: String,
    pub params: Vec<(String, String)>,
}

pub struct ProducerSpecV {
    pub name: Seq<char>,
    pub source: Seq<char>,
    pub params: Seq<(Seq<char>, Seq<char>)>,
}

impl View for ProducerSpec {
    type V = ProducerSpecV;

    open spec fn view(&self) -> ProducerSpecV {
        ProducerSpecV {
            name: self.name@,
            source: self.source@,
            params: self.params.deep_view(),
        }
    }
}

impl DeepView for ProducerSpec {
    type V = ProducerSpecV;

    open spec fn deep_view(&self) -> ProducerSpecV {
        self.view()
    }
}

impl ProducerSpec {
    /// A descriptor always carries a non-empty producer name.
    pub open spec fn wf(self) -> bool {
        self.name@.len() > 0
    }

    /// Parses a descriptor string. Fails with `InvalidProducerSpec` when
    /// the string is not a structured URI (for example when the scheme
    /// delimiter is missing), before any subprocess is launched.
    pub fn parse(input: &str) -> (r: Result<ProducerSpec, AnnoError>)
        ensures
            r is Ok <==> url_parts(input@) is Some,
            r matches Ok(p) ==> url_parts(input@) == Some(
                (p.name@, p.source@, p.params.deep_view()),
            ) && p.wf(),
            r matches Err(e) ==> e matches AnnoError::InvalidProducerSpec { input: orig }
                && orig@ == input@,
            (forall|i: int| 0 <= i < input@.len() ==> input@[i] != ':') ==> r is Err,
    {
        match parse_url_parts(input) {
            Some((name, source, params)) => Ok(ProducerSpec { name, source, params }),
            None => Err(AnnoError::InvalidProducerSpec { input: input.to_owned() }),
        }
    }

    /// The name component: the URI scheme.
    pub fn name(&self) -> (r: &str)
        ensures
            r@ == self.name@,
    {
        self.name.as_str()
    }

    /// The data-source component: the URI path, empty when absent.
    pub fn source(&self) -> (r: &str)
        ensures
            r@ == self.source@,
    {
        self.source.as_str()
    }
}

} // verus!
