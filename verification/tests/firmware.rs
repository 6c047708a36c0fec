use ascot::firmware::{
    collection_size, first_occurrences, parse_config, FuncIndex, FuncType, HandlerIndex, State,
    TransportProtocol, ValueFromRef,
};

#[test]
fn collection_sizes() {
    assert_eq!(collection_size(0), 2);
    assert_eq!(collection_size(1), 2);
    assert_eq!(collection_size(2), 2);
    assert_eq!(collection_size(3), 4);
    assert_eq!(collection_size(4), 4);
    assert_eq!(collection_size(5), 8);
    assert_eq!(collection_size(1000), 1024);
    assert_eq!(collection_size(usize::MAX / 2 + 1), usize::MAX / 2 + 1);
}

#[test]
fn only_the_first_route_of_a_name_is_published() {
    assert_eq!(
        first_occurrences(&["/on", "/off", "/on", "/toggle", "/off"]),
        vec![true, true, false, true, false]
    );
    assert!(first_occurrences(&[]).is_empty());
}

#[test]
fn transport_protocol_names() {
    assert_eq!(TransportProtocol::TCP.name(), "tcp");
    assert_eq!(TransportProtocol::UDP.name(), "udp");
}

#[test]
fn handlers() {
    let mut index = HandlerIndex::new();
    assert_eq!(index.register(FuncType::OkStateless), FuncIndex::new(FuncType::OkStateless, 0));
    assert_eq!(index.register(FuncType::SerialStateful), FuncIndex::new(FuncType::SerialStateful, 0));
    assert_eq!(index.register(FuncType::OkStateless), FuncIndex::new(FuncType::OkStateless, 1));
    assert_eq!(index.len(), 3);
    assert_eq!(index.handler_of(1), FuncIndex::new(FuncType::SerialStateful, 0));
    assert_eq!(index.handler_of(2).index, 1);
    let state = State(());
    let () = state.0.value_from_ref();
    parse_config("device: light");
}
