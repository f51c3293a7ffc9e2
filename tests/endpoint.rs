use midi_sampler::endpoint::{
    choose_port, midi_select_in_port, midi_select_out_port, resolve_port, EndpointConfig,
    EndpointError, PortChoice,
};
use midi_sampler::reaction::reaction_messages;
use std::sync::mpsc;

fn names(list: &[&str]) -> Vec<String> {
    list.iter().map(|s| s.to_string()).collect()
}

#[test]
fn default_preferences() {
    let c = EndpointConfig::new();
    assert_eq!(c.input_name, "loopMIDI_IN2");
    assert_eq!(c.output_name, "loopMIDI_OUT_2");
}

#[test]
fn no_port_or_one_port_selects_zero() {
    let c = EndpointConfig::new();
    assert_eq!(midi_select_in_port(&names(&[]), &c), PortChoice::Selected(0));
    assert_eq!(midi_select_out_port(&names(&["only"]), &c), PortChoice::Selected(0));
}

#[test]
fn preferred_name_is_chosen_among_several() {
    let c = EndpointConfig::new();
    let ins = names(&["a", "loopMIDI_IN2", "loopMIDI_IN2"]);
    assert_eq!(midi_select_in_port(&ins, &c), PortChoice::Selected(1));
    let outs = names(&["x", "y", "loopMIDI_OUT_2"]);
    assert_eq!(midi_select_out_port(&outs, &c), PortChoice::Selected(2));
}

#[test]
fn no_match_asks_operator() {
    let c = EndpointConfig::new();
    assert_eq!(midi_select_in_port(&names(&["a", "loopMIDI_IN"]), &c), PortChoice::AskOperator);
    let alt = EndpointConfig { input_name: "a".to_string(), output_name: "b".to_string() };
    assert_eq!(midi_select_in_port(&names(&["b", "a"]), &alt), PortChoice::Selected(1));
    assert_eq!(choose_port(&names(&["b", "a"]), &"c".to_string()), PortChoice::AskOperator);
}

#[test]
fn resolve_checks_range() {
    assert_eq!(resolve_port(0, 1), Ok(0));
    assert_eq!(resolve_port(0, 0), Err(EndpointError::EndpointUnavailable));
    assert_eq!(resolve_port(3, 3), Err(EndpointError::EndpointUnavailable));
}

#[test]
fn reaction_messages_arrive_in_order() {
    let msgs = reaction_messages();
    assert_eq!(msgs, vec!["more", "messages", "for", "you"]);
    let (tx, rx) = mpsc::channel::<String>();
    for m in msgs {
        tx.send(m).unwrap();
    }
    drop(tx);
    let got: Vec<String> = rx.iter().collect();
    assert_eq!(got, vec!["more", "messages", "for", "you"]);
}
