use doctainr::records::ContainerState;

#[test]
fn container_state_labels_match() {
    assert_eq!(ContainerState::Running.label(), "Running");
    assert_eq!(ContainerState::Stopped.label(), "Stopped");
}

#[test]
fn css_classes_are_lower_case() {
    assert_eq!(ContainerState::Running.css_class(), "running");
    assert_eq!(ContainerState::Stopped.css_class(), "stopped");
}

#[test]
fn action_label_names_the_opposite_move() {
    assert_eq!(ContainerState::Running.action_label(), "Stop");
    assert_eq!(ContainerState::Stopped.action_label(), "Start");
}
