use http_tokio_router::middleware::stack_order;
use http_tokio_router::middleware::MwEvent;

#[test]
fn two_layers_run_in_onion_order() {
    let order = stack_order(&vec![10, 20]);
    assert_eq!(
        order,
        vec![
            MwEvent::Enter(10),
            MwEvent::Enter(20),
            MwEvent::Handler,
            MwEvent::Exit(20),
            MwEvent::Exit(10),
        ]
    );
}

#[test]
fn no_layers_run_just_the_handler() {
    assert_eq!(stack_order(&Vec::new()), vec![MwEvent::Handler]);
}

#[test]
fn single_layer_wraps_handler() {
    assert_eq!(
        stack_order(&vec![5]),
        vec![MwEvent::Enter(5), MwEvent::Handler, MwEvent::Exit(5)]
    );
}

#[test]
fn three_layers_exit_in_reverse() {
    let order = stack_order(&vec![1, 2, 3]);
    assert_eq!(
        order,
        vec![
            MwEvent::Enter(1),
            MwEvent::Enter(2),
            MwEvent::Enter(3),
            MwEvent::Handler,
            MwEvent::Exit(3),
            MwEvent::Exit(2),
            MwEvent::Exit(1),
        ]
    );
}
