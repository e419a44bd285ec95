//! How request URLs are put together.
//!
//! Every endpoint of the service is reached as
//! `<origin>/<interface>/<method>/v<version>/`, the version in at least four
//! digits, followed by a query string that ends in `format=json`.

use vstd::prelude::*;
use crate::text::{decimal, push_decimal, push_zero_padded, zero_padded};

verus! {

/// The number of digits that a version is padded to.
pub const VERSION_WIDTH: usize = 4;

/// The URL of an endpoint, without a query string.
pub open spec fn endpoint(
    origin: Seq<char>,
    interface: Seq<char>,
    method: Seq<char>,
    version: nat,
) -> Seq<char> {
    origin + seq!['/'] + interface + seq!['/'] + method + seq!['/', 'v'] + zero_padded(
        version,
        VERSION_WIDTH as nat,
    ) + seq!['/']
}

/// The parameters of a query string, each as `name=value` with `&` behind it,
/// in the order given.
pub open spec fn parameters_text(parameters: Seq<(Seq<char>, Seq<char>)>) -> Seq<char>
    decreases parameters.len(),
{
    if parameters.len() == 0 {
        Seq::empty()
    } else {
        parameters_text(parameters.drop_last()) + parameters.last().0 + seq!['='] + parameters.last().1
            + seq!['&']
    }
}

/// A query string: the caller's parameters in the order given, then the fixed
/// `format=json`.
pub open spec fn query(parameters: Seq<(Seq<char>, Seq<char>)>) -> Seq<char> {
    seq!['?'] + parameters_text(parameters) + "format=json"@
}

/// Builds the URL of an endpoint, without a query string.
pub fn build_endpoint(origin: &str, interface: &str, method: &str, version: u32) -> (url: String)
    ensures
        url@ == endpoint(origin@, interface@, method@, version as nat),
{
    proof {
        reveal_strlit("/");
        reveal_strlit("/v");
    }
    let mut url: String = String::from_str(origin);
    url.append("/");
    url.append(interface);
    url.append("/");
    url.append(method);
    url.append("/v");
    push_zero_padded(&mut url, version as u64, VERSION_WIDTH);
    url.append("/");
    assert(url@ =~= endpoint(origin@, interface@, method@, version as nat));
    url
}

/// Appends a query string with the given parameters to `url`.
pub fn push_query(url: &mut String, parameters: &Vec<(String, String)>)
    ensures
        final(url)@ == old(url)@ + query(parameters.deep_view()),
{
    proof {
        reveal_strlit("?");
    }
    let ghost all = parameters.deep_view();
    url.append("?");
    let mut i: usize = 0;
    while i < parameters.len()
        invariant
            i <= parameters.len(),
            all == parameters.deep_view(),
            url@ == old(url)@ + seq!['?'] + parameters_text(all.take(i as int)),
        decreases parameters.len() - i,
    {
        let ghost before = url@;
        url.append(parameters[i].0.as_str());
        url.append("=");
        url.append(parameters[i].1.as_str());
        url.append("&");
        proof {
            reveal_strlit("=");
            reveal_strlit("&");
            let next = all.take(i + 1);
            assert(next.drop_last() =~= all.take(i as int));
            assert(next.last() == all[i as int]);
            let name = parameters[i as int].0@;
            let value = parameters[i as int].1@;
            assert(all[i as int] == (name, value));
            assert(url@ =~= old(url)@ + seq!['?'] + parameters_text(next));
        }
        i = i + 1;
    }
    assert(all.take(i as int) =~= all);
    url.append("format=json");
    assert(url@ =~= old(url)@ + query(parameters.deep_view()));
}

/// A query parameter whose value is an integer, written in decimal.
pub fn integer_parameter(name: &str, value: i64) -> (parameter: (String, String))
    ensures
        parameter.deep_view() == (name@, decimal(value as int)),
{
    let mut text: String = String::new();
    push_decimal(&mut text, value);
    assert(text@ =~= decimal(value as int));
    (String::from_str(name), text)
}

/// A query parameter whose value is a piece of text, taken as it is.
pub fn text_parameter(name: &str, value: &str) -> (parameter: (String, String))
    ensures
        parameter.deep_view() == (name@, value@),
{
    (String::from_str(name), String::from_str(value))
}

} // verus!
