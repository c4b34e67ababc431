use anycall::counter::CounterServerImpl;

#[test]
fn counter_server_adds() {
    assert_eq!(CounterServerImpl.sum((), 1, 1), 2);
    assert_eq!(CounterServerImpl.sum_async((), 2, 3), 5);
    assert_eq!(CounterServerImpl.sum((), -1, 1), 0);
}
