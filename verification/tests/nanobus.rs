use cudyos::nanobus::broadcast::{recv_step, RecvResult, RecvStep};
use cudyos::nanobus::broker::{CapnpServer, Topic};

#[test]
fn messages_go_to_subscribers_of_their_topic() {
    let mut broker: CapnpServer<&str> = CapnpServer::new();
    broker.subscribe("a", vec![Topic::Named(1)]);
    broker.subscribe("b", vec![Topic::All]);
    broker.subscribe("c", vec![Topic::Named(2), Topic::Named(1)]);
    broker.subscribe("d", vec![]);
    assert_eq!(broker.publish(Topic::Named(1)), vec![0, 1, 2]);
    assert_eq!(broker.publish(Topic::Named(2)), vec![1, 2]);
    assert_eq!(broker.publish(Topic::Named(3)), vec![1]);
    assert_eq!(broker.publish(Topic::All), vec![1]);
    assert_eq!(*broker.subscriber(2), "c");
}

#[test]
fn empty_broker_routes_nowhere() {
    let broker: CapnpServer<u8> = CapnpServer::new();
    assert!(broker.publish(Topic::Named(0)).is_empty());
}

#[test]
fn lagging_subscribers_receive_again() {
    assert!(matches!(recv_step(RecvResult::Message(5)), RecvStep::Deliver(5)));
    assert!(matches!(recv_step::<u8>(RecvResult::Lagged(3)), RecvStep::Retry));
    assert!(matches!(recv_step::<u8>(RecvResult::Closed), RecvStep::Stop));
}
