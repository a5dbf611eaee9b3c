//! The request payload — the name of a bar and the name of a drink — and
//! the deterministic object-storage key derived from it.

use vstd::prelude::*;
use vstd::string::StringExecFns;

verus! {

/// The JSON payload of an upload request.
#[derive(Clone, Debug)]
pub struct Payload {
    pub bar_name: String,
    pub drink_name: String,
}

/// The object-storage key derived from a bar name and a drink name:
/// a fixed prefix, the two names separated by a slash, and a fixed suffix.
pub open spec fn key_of(bar: Seq<char>, drink: Seq<char>) -> Seq<char> {
    "cocktail-pictures/"@ + bar + "/"@ + drink + ".jpg"@
}

/// Builds the object-storage key for the given bar and drink names.
pub fn object_key(bar: &str, drink: &str) -> (r: String)
    ensures
        r@ == key_of(bar@, drink@),
{
    let mut s = "cocktail-pictures/".to_owned();
    s.append(bar);
    s.append("/");
    s.append(drink);
    s.append(".jpg");
    proof {
        assert(s@ =~= key_of(bar@, drink@));
    }
    s
}

} // verus!
