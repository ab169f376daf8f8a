//! The platform API's ingress-type vocabulary.

use vstd::prelude::*;

verus! {

/// How an endpoint is exposed: over HTTP or as a raw TCP stream.
#[derive(Clone, Copy, Debug, PartialEq, Eq, Structural, Hash)]
pub enum IngressType {
    Http,
    Tcp,
}

impl IngressType {
    /// The wire name of the variant: `"http"` or `"tcp"`.
    pub fn as_text(&self) -> (r: String)
        ensures
            *self == IngressType::Http ==> r@ == "http"@,
            *self == IngressType::Tcp ==> r@ == "tcp"@,
    {
        match self {
            IngressType::Http => "http".to_owned(),
            IngressType::Tcp => "tcp".to_owned(),
        }
    }
}

impl Default for IngressType {
    /// The default exposure is HTTP.
    fn default() -> (r: IngressType)
        ensures
            r == IngressType::Http,
    {
        IngressType::Http
    }
}

} // verus!
