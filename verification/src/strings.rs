//! What the library needs of `String` beyond what it finds specified.

use vstd::prelude::*;

verus! {

/// `String::push_str` appends the given text to the string.
pub assume_specification[ std::string::String::push_str ](
    target: &mut std::string::String,
    string: &str,
)
    ensures
        final(target)@ == old(target)@ + string@,
;

} // verus!
