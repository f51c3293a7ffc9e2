//! Endpoint selection policy: which of the available named ports to bind.

use vstd::prelude::*;

verus! {

/// Preferred port names, matched exactly against the available ports.
pub struct EndpointConfig {
    pub input_name: String,
    pub output_name: String,
}

impl EndpointConfig {
    /// The default preferences: input `loopMIDI_IN2`, output `loopMIDI_OUT_2`.
    pub fn new() -> (r: EndpointConfig)
        ensures
            r.input_name@ == "loopMIDI_IN2"@,
            r.output_name@ == "loopMIDI_OUT_2"@,
    {
        EndpointConfig {
            input_name: String::from_str("loopMIDI_IN2"),
            output_name: String::from_str("loopMIDI_OUT_2"),
        }
    }
}

/// The outcome of the selection policy.
#[derive(Clone, Copy, Debug, PartialEq, Eq, Structural)]
pub enum PortChoice {
    /// The port at this index.
    Selected(usize),
    /// No automatic choice: the operator picks a port by number.
    AskOperator,
}

/// Selection failures.
#[derive(Clone, Copy, Debug, PartialEq, Eq, Structural)]
pub enum EndpointError {
    /// The chosen index names no available port.
    EndpointUnavailable,
}

/// `i` is the first index whose name equals `preferred`.
pub open spec fn first_match(names: Seq<Seq<char>>, preferred: Seq<char>, i: int) -> bool {
    &&& 0 <= i < names.len()
    &&& names[i] == preferred
    &&& forall|k: int| 0 <= k < i ==> names[k] != preferred
}

/// The selection policy over port names: with no port, index 0 (the caller
/// then finds it unavailable); with one port, that port; with several, the
/// first whose name equals `preferred`, and else the operator's pick.
pub open spec fn choice_spec(names: Seq<Seq<char>>, preferred: Seq<char>, r: PortChoice) -> bool {
    if names.len() <= 1 {
        r == PortChoice::Selected(0)
    } else {
        match r {
            PortChoice::Selected(i) => first_match(names, preferred, i as int),
            PortChoice::AskOperator => !names.contains(preferred),
        }
    }
}

/// Applies the selection policy to the available port names.
pub fn choose_port(names: &Vec<String>, preferred: &String) -> (r: PortChoice)
    ensures
        choice_spec(names@.map_values(|s: String| s@), preferred@, r),
{
    let ghost views = names@.map_values(|s: String| s@);
    if names.len() <= 1 {
        return PortChoice::Selected(0);
    }
    let mut i: usize = 0;
    while i < names.len()
        invariant
            views == names@.map_values(|s: String| s@),
            i <= names@.len(),
            forall|k: int| 0 <= k < i ==> views[k] != preferred@,
        decreases names@.len() - i,
    {
        if names[i] == *preferred {
            return PortChoice::Selected(i);
        }
        i = i + 1;
    }
    assert(!views.contains(preferred@));
    PortChoice::AskOperator
}

/// The choice of input port among the available input port names.
pub fn midi_select_in_port(names: &Vec<String>, config: &EndpointConfig) -> (r: PortChoice)
    ensures
        choice_spec(names@.map_values(|s: String| s@), config.input_name@, r),
{
    choose_port(names, &config.input_name)
}

/// The choice of output port among the available output port names.
pub fn midi_select_out_port(names: &Vec<String>, config: &EndpointConfig) -> (r: PortChoice)
    ensures
        choice_spec(names@.map_values(|s: String| s@), config.output_name@, r),
{
    choose_port(names, &config.output_name)
}

/// Checks a chosen index against the number of available ports.
pub fn resolve_port(index: usize, port_count: usize) -> (r: Result<usize, EndpointError>)
    ensures
        index < port_count <==> r == Ok::<usize, EndpointError>(index),
        index >= port_count <==> r == Err::<usize, EndpointError>(EndpointError::EndpointUnavailable),
{
    if index < port_count {
        Ok(index)
    } else {
        Err(EndpointError::EndpointUnavailable)
    }
}

} // verus!
