//! The reaction started by a sampler-pad press: the progress messages that it
//! posts, in order, on the reaction channel.

use vstd::prelude::*;

verus! {

/// The progress messages of one reaction, in the order they are posted.
pub open spec fn reaction_spec() -> Seq<Seq<char>> {
    seq!["more"@, "messages"@, "for"@, "you"@]
}

/// The progress messages of one reaction, in the order they are posted.
pub fn reaction_messages() -> (r: Vec<String>)
    ensures
        r@.map_values(|s: String| s@) == reaction_spec(),
{
    let r: Vec<String> = vec![
        String::from_str("more"),
        String::from_str("messages"),
        String::from_str("for"),
        String::from_str("you"),
    ];
    assert(r@.map_values(|s: String| s@) =~= reaction_spec());
    r
}

} // verus!
