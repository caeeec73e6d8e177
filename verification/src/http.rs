//! Building the `key=value&key=value` query string a REST call sends.

use vstd::prelude::*;

verus! {

/// The parameters of one REST request, in order.
pub type HttpParams = Vec<(String, String)>;

/// The query string for the given parameters: `key=value` pieces joined
/// with `&`.
pub open spec fn http_query(params: Seq<(String, String)>) -> Seq<char>
    decreases params.len(),
{
    if params.len() == 0 {
        Seq::empty()
    } else {
        let piece = params.last().0@ + seq!['='] + params.last().1@;
        if params.len() == 1 {
            piece
        } else {
            http_query(params.drop_last()) + seq!['&'] + piece
        }
    }
}

/// Relies on String::push: appends the given character to the end of the
/// string.
pub assume_specification[ String::push ](s: &mut String, ch: char)
    ensures
        final(s)@ == old(s)@.push(ch),
;

/// Relies on String::push_str: appends the given string slice onto the end
/// of the string.
pub assume_specification[ String::push_str ](s: &mut String, other: &str)
    ensures
        final(s)@ == old(s)@ + other@,
;

/// Renders the parameters as the venue expects them on the wire:
/// `key=value` pieces joined with `&`, in the given order.
pub fn to_http_string(parameters: &HttpParams) -> (r: String)
    ensures
        r@ == http_query(parameters@),
{
    let mut http_string = String::new();
    let mut i: usize = 0;
    while i < parameters.len()
        invariant
            i <= parameters@.len(),
            http_string@ == http_query(parameters@.subrange(0, i as int)),
            i > 0 ==> http_string@.len() > 0,
        decreases parameters@.len() - i,
    {
        if !http_string.as_str().is_empty() {
            http_string.push('&');
        }
        let pair = &parameters[i];
        http_string.push_str(pair.0.as_str());
        http_string.push('=');
        http_string.push_str(pair.1.as_str());
        proof {
            let head = parameters@.subrange(0, (i + 1) as int);
            assert(head.drop_last() =~= parameters@.subrange(0, i as int));
            assert(http_string@ =~= http_query(head));
        }
        i += 1;
    }
    proof {
        assert(parameters@.subrange(0, parameters@.len() as int) =~= parameters@);
    }
    http_string
}

} // verus!
