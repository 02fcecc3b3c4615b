use stark_vm_core::memory_bus::{
    FieldAlgebra, InteractionBuilder, InteractionType, MemoryAddress, MemoryBus,
    MemoryBusInteraction,
};

fn on_bus(builder: &InteractionBuilder<u64>, bus_index: usize) -> Vec<(Vec<u64>, u64, InteractionType)> {
    builder
        .interactions
        .iter()
        .filter(|interaction| interaction.bus_index == bus_index)
        .map(|interaction| {
            (
                interaction.fields.clone(),
                interaction.count,
                interaction.interaction_type,
            )
        })
        .collect()
}

#[test]
fn address_keeps_its_parts() {
    let address = MemoryAddress::new(2u32, 40u64);
    assert_eq!(address.address_space, 2u32);
    assert_eq!(address.pointer, 40u64);
}

#[test]
fn send_builds_a_send_on_its_bus() {
    let bus = MemoryBus(3);
    let interaction: MemoryBusInteraction<u64> =
        bus.send(MemoryAddress::new(1u32, 0u32), vec![5u32], 1u32);
    assert_eq!(interaction.bus_index, 3);
    assert_eq!(interaction.interaction_type, InteractionType::Send);
    assert_eq!(interaction.address, MemoryAddress::new(1u64, 0u64));
    assert_eq!(interaction.data, vec![5u64]);
    assert_eq!(interaction.timestamp, 1u64);
}

#[test]
fn receive_builds_a_receive_on_its_bus() {
    let bus = MemoryBus(1);
    let interaction: MemoryBusInteraction<u64> =
        bus.receive(MemoryAddress::new(2u8, 77u16), vec![9u32, 8u32, 7u32], 12u64);
    assert_eq!(interaction.bus_index, 1);
    assert_eq!(interaction.interaction_type, InteractionType::Receive);
    assert_eq!(interaction.address, MemoryAddress::new(2u64, 77u64));
    assert_eq!(interaction.data, vec![9u64, 8u64, 7u64]);
    assert_eq!(interaction.timestamp, 12u64);
}

#[test]
fn send_or_receive_takes_the_direction_it_is_given() {
    let bus = MemoryBus(4);
    let sent: MemoryBusInteraction<u32> =
        bus.send_or_receive(InteractionType::Send, MemoryAddress::new(1u32, 2u32), vec![3u32], 4u32);
    let received: MemoryBusInteraction<u32> = bus.send_or_receive(
        InteractionType::Receive,
        MemoryAddress::new(1u32, 2u32),
        vec![3u32],
        4u32,
    );
    assert_eq!(sent.interaction_type, InteractionType::Send);
    assert_eq!(received.interaction_type, InteractionType::Receive);
    assert_eq!(sent.data, received.data);
    assert_eq!(sent.bus_index, 4);
    assert_eq!(received.bus_index, 4);
}

#[test]
fn data_keeps_its_order_under_conversion() {
    let bus = MemoryBus(0);
    let interaction: MemoryBusInteraction<u64> =
        bus.send(MemoryAddress::new(0u32, 0u32), vec![4u32, 3u32, 2u32, 1u32], 0u32);
    assert_eq!(interaction.data, vec![4u64, 3u64, 2u64, 1u64]);
}

#[test]
fn the_sentinel_is_one() {
    assert_eq!(<u32 as FieldAlgebra>::one(), 1u32);
    assert_eq!(<u64 as FieldAlgebra>::one(), 1u64);
}

#[test]
fn fields_are_address_data_timestamp_sentinel() {
    let bus = MemoryBus(1);
    let interaction: MemoryBusInteraction<u64> =
        bus.send(MemoryAddress::new(1u32, 0u32), vec![5u32], 2u32);
    assert_eq!(interaction.into_fields(), vec![1u64, 0, 5, 2, 1]);
    let wide: MemoryBusInteraction<u64> =
        bus.receive(MemoryAddress::new(2u32, 7u32), vec![10u32, 11u32], 9u32);
    assert_eq!(wide.into_fields(), vec![2u64, 7, 10, 11, 9, 1]);
}

#[test]
fn fields_of_an_operation_without_data() {
    let bus = MemoryBus(1);
    let empty: Vec<u32> = Vec::new();
    let interaction: MemoryBusInteraction<u32> =
        bus.send(MemoryAddress::new(3u32, 4u32), empty, 6u32);
    assert_eq!(interaction.into_fields(), vec![3u32, 4, 6, 1]);
}

#[test]
fn tuples_of_different_data_lengths_differ_in_length() {
    let bus = MemoryBus(1);
    for shorter in 0usize..5 {
        for longer in (shorter + 1)..6 {
            let a: MemoryBusInteraction<u64> =
                bus.send(MemoryAddress::new(1u32, 1u32), vec![1u32; shorter], 1u32);
            let b: MemoryBusInteraction<u64> =
                bus.send(MemoryAddress::new(1u32, 1u32), vec![1u32; longer], 1u32);
            let a = a.into_fields();
            let b = b.into_fields();
            assert_eq!(a.len(), shorter + 4);
            assert_eq!(b.len(), longer + 4);
            assert_ne!(a.len(), b.len());
            assert_ne!(a, b);
        }
    }
}

#[test]
fn a_data_word_is_not_taken_for_the_timestamp() {
    // Without the sentinel, data [1] at timestamp 1 and no data at timestamp 1
    // followed by a 1 would read alike.
    let bus = MemoryBus(1);
    let empty: Vec<u32> = Vec::new();
    let a: MemoryBusInteraction<u64> = bus.send(MemoryAddress::new(0u32, 0u32), vec![1u32], 1u32);
    let b: MemoryBusInteraction<u64> = bus.send(MemoryAddress::new(0u32, 0u32), empty, 1u32);
    let a = a.into_fields();
    let b = b.into_fields();
    assert_eq!(a, vec![0u64, 0, 1, 1, 1]);
    assert_eq!(b, vec![0u64, 0, 1, 1]);
    assert_ne!(a, b);
}

#[test]
fn tuples_differ_where_an_operation_differs() {
    let bus = MemoryBus(1);
    let base: MemoryBusInteraction<u64> =
        bus.send(MemoryAddress::new(1u32, 2u32), vec![3u32], 4u32);
    let other_space: MemoryBusInteraction<u64> =
        bus.send(MemoryAddress::new(9u32, 2u32), vec![3u32], 4u32);
    let other_pointer: MemoryBusInteraction<u64> =
        bus.send(MemoryAddress::new(1u32, 9u32), vec![3u32], 4u32);
    let other_data: MemoryBusInteraction<u64> =
        bus.send(MemoryAddress::new(1u32, 2u32), vec![9u32], 4u32);
    let other_time: MemoryBusInteraction<u64> =
        bus.send(MemoryAddress::new(1u32, 2u32), vec![3u32], 9u32);
    let base = base.into_fields();
    assert_ne!(base, other_space.into_fields());
    assert_ne!(base, other_pointer.into_fields());
    assert_ne!(base, other_data.into_fields());
    assert_ne!(base, other_time.into_fields());
}

#[test]
fn a_new_builder_is_empty() {
    let builder: InteractionBuilder<u64> = InteractionBuilder::new();
    assert!(builder.interactions.is_empty());
}

#[test]
fn push_interaction_appends_what_it_is_given() {
    let mut builder: InteractionBuilder<u64> = InteractionBuilder::new();
    builder.push_interaction(7, vec![1, 2, 3], 4, InteractionType::Receive);
    builder.push_interaction(8, vec![5], 6, InteractionType::Send);
    assert_eq!(builder.interactions.len(), 2);
    assert_eq!(builder.interactions[0].bus_index, 7);
    assert_eq!(builder.interactions[0].fields, vec![1u64, 2, 3]);
    assert_eq!(builder.interactions[0].count, 4);
    assert_eq!(builder.interactions[0].interaction_type, InteractionType::Receive);
    assert_eq!(builder.interactions[1].bus_index, 8);
    assert_eq!(builder.interactions[1].fields, vec![5u64]);
    assert_eq!(builder.interactions[1].count, 6);
    assert_eq!(builder.interactions[1].interaction_type, InteractionType::Send);
}

#[test]
fn eval_registers_exactly_one_interaction() {
    let bus = MemoryBus(1);
    let mut builder: InteractionBuilder<u64> = InteractionBuilder::new();
    let interaction: MemoryBusInteraction<u64> =
        bus.send(MemoryAddress::new(1u32, 0u32), vec![5u32], 1u32);
    interaction.eval(&mut builder, 3u32);
    assert_eq!(builder.interactions.len(), 1);
    let registered = &builder.interactions[0];
    assert_eq!(registered.bus_index, 1);
    assert_eq!(registered.interaction_type, InteractionType::Send);
    assert_eq!(registered.fields, vec![1u64, 0, 5, 1, 1]);
    assert_eq!(registered.count, 3);
}

#[test]
fn eval_keeps_earlier_interactions_in_order() {
    let bus = MemoryBus(1);
    let mut builder: InteractionBuilder<u64> = InteractionBuilder::new();
    let write: MemoryBusInteraction<u64> =
        bus.send(MemoryAddress::new(1u32, 0u32), vec![5u32], 1u32);
    let read: MemoryBusInteraction<u64> =
        bus.receive(MemoryAddress::new(1u32, 0u32), vec![5u32], 1u32);
    write.eval(&mut builder, 1u64);
    read.eval(&mut builder, 2u64);
    assert_eq!(
        on_bus(&builder, 1),
        vec![
            (vec![1u64, 0, 5, 1, 1], 1, InteractionType::Send),
            (vec![1u64, 0, 5, 1, 1], 2, InteractionType::Receive),
        ]
    );
}

#[test]
fn interactions_on_another_bus_leave_a_bus_as_it_was() {
    let memory = MemoryBus(1);
    let other = MemoryBus(2);
    let mut builder: InteractionBuilder<u64> = InteractionBuilder::new();
    let write: MemoryBusInteraction<u64> =
        memory.send(MemoryAddress::new(1u32, 0u32), vec![5u32], 1u32);
    let read: MemoryBusInteraction<u64> =
        memory.receive(MemoryAddress::new(1u32, 0u32), vec![5u32], 1u32);
    write.eval(&mut builder, 1u64);
    read.eval(&mut builder, 1u64);
    let before = on_bus(&builder, 1);
    let unmatched: MemoryBusInteraction<u64> =
        other.send(MemoryAddress::new(1u32, 0u32), vec![5u32], 1u32);
    unmatched.eval(&mut builder, 1u64);
    assert_eq!(on_bus(&builder, 1), before);
    assert_eq!(before.len(), 2);
    assert_eq!(
        on_bus(&builder, 2),
        vec![(vec![1u64, 0, 5, 1, 1], 1, InteractionType::Send)]
    );
    assert!(on_bus(&builder, 3).is_empty());
}

/// A symbolic expression, as a constraint builder holds them.
#[derive(Clone, Debug, PartialEq)]
struct Expr(String);

impl From<&str> for Expr {
    fn from(name: &str) -> Self {
        Expr(name.to_string())
    }
}

impl FieldAlgebra for Expr {
    fn spec_one() -> Self {
        Expr("1".to_string())
    }

    fn one() -> Self {
        Expr("1".to_string())
    }
}

#[test]
fn operations_over_expressions_end_in_their_one() {
    let bus = MemoryBus(1);
    let interaction: MemoryBusInteraction<Expr> =
        bus.receive(MemoryAddress::new("as", "ptr"), vec!["d0", "d1"], "t");
    let mut builder: InteractionBuilder<Expr> = InteractionBuilder::new();
    interaction.eval(&mut builder, "count");
    let names: Vec<&str> =
        builder.interactions[0].fields.iter().map(|field| field.0.as_str()).collect();
    assert_eq!(names, vec!["as", "ptr", "d0", "d1", "t", "1"]);
    assert_eq!(builder.interactions[0].count, Expr("count".to_string()));
    assert_eq!(builder.interactions[0].interaction_type, InteractionType::Receive);
}
