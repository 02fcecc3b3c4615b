//! The memory bus: every memory operation of the machine is encoded as one
//! interaction on a bus, a tuple of field values with a multiplicity.

use vstd::prelude::*;
use vstd::std_specs::convert::IntoSpec;

verus! {

/// A memory cell: an address space and a pointer into it.
#[derive(Clone, Copy, Debug, PartialEq, Eq)]
pub struct MemoryAddress<S, T> {
    pub address_space: S,
    pub pointer: T,
}

impl<S, T> MemoryAddress<S, T> {
    pub fn new(address_space: S, pointer: T) -> (address: Self)
        ensures
            address.address_space == address_space,
            address.pointer == pointer,
    {
        MemoryAddress { address_space, pointer }
    }
}

/// The direction of an interaction: a write is sent, a read is received.
#[derive(Clone, Copy, Debug, PartialEq, Eq, Structural)]
pub enum InteractionType {
    Send,
    Receive,
}

/// A type of field values or expressions with a multiplicative identity,
/// which closes every encoded tuple.
pub trait FieldAlgebra: Sized {
    spec fn spec_one() -> Self;

    fn one() -> (one: Self)
        ensures
            one == Self::spec_one(),
    ;
}

impl FieldAlgebra for u32 {
    open spec fn spec_one() -> u32 {
        1u32
    }

    fn one() -> (one: u32) {
        1u32
    }
}

impl FieldAlgebra for u64 {
    open spec fn spec_one() -> u64 {
        1u64
    }

    fn one() -> (one: u64) {
        1u64
    }
}

/// `From::from` of std, from a type into itself. The contract claims what
/// std documents of it: the conversion is reflexive, it returns its
/// argument.
pub assume_specification<Value>[ <Value as core::convert::From<Value>>::from ](
    value: Value,
) -> (same: Value)
    ensures
        same == value,
;

/// The values of `data`, each converted into the target type, in order.
pub open spec fn converted<D: Into<T>, T>(data: Seq<D>) -> Seq<T> {
    Seq::new(data.len(), |i: int| data[i].into_spec())
}

/// The tuple that stands for one memory operation: address space, pointer,
/// the data words in order, the timestamp, and the closing sentinel.
pub open spec fn encode_fields<T>(
    address_space: T,
    pointer: T,
    data: Seq<T>,
    timestamp: T,
    sentinel: T,
) -> Seq<T> {
    seq![address_space, pointer] + data + seq![timestamp, sentinel]
}

/// A memory bus, identified by its index alone.
#[derive(Clone, Copy, Debug, PartialEq, Eq, Structural)]
pub struct MemoryBus(pub usize);

/// One memory operation bound to a bus, not yet handed to a builder.
#[derive(Clone, Debug)]
pub struct MemoryBusInteraction<T> {
    pub bus_index: usize,
    pub interaction_type: InteractionType,
    pub address: MemoryAddress<T, T>,
    pub data: Vec<T>,
    pub timestamp: T,
}

impl MemoryBus {
    /// What `send` and `receive` build from their arguments: an operation
    /// on this bus, in the given direction, whose address, data words and
    /// timestamp are the arguments, each converted into `T`.
    pub open spec fn built<T, A: Into<T>, P: Into<T>, D: Into<T>, S: Into<T>>(
        self,
        interaction_type: InteractionType,
        address: MemoryAddress<A, P>,
        data: Seq<D>,
        timestamp: S,
        interaction: MemoryBusInteraction<T>,
    ) -> bool {
        &&& interaction.bus_index == self.0
        &&& interaction.interaction_type == interaction_type
        &&& call_ensures(
            A::into,
            (address.address_space,),
            interaction.address.address_space,
        )
        &&& call_ensures(P::into, (address.pointer,), interaction.address.pointer)
        &&& interaction.data@.len() == data.len()
        &&& forall|i: int|
            0 <= i < data.len() ==> call_ensures(D::into, (data[i],), #[trigger] interaction.data@[i])
        &&& call_ensures(S::into, (timestamp,), interaction.timestamp)
        &&& A::obeys_into_spec() ==> interaction.address.address_space
            == address.address_space.into_spec()
        &&& P::obeys_into_spec() ==> interaction.address.pointer == address.pointer.into_spec()
        &&& D::obeys_into_spec() ==> interaction.data@ == converted::<D, T>(data)
        &&& S::obeys_into_spec() ==> interaction.timestamp == timestamp.into_spec()
    }

    /// Prepares a write through the memory bus.
    pub fn send<T: Clone, A: Into<T>, P: Into<T>, D: Into<T>, S: Into<T>>(
        &self,
        address: MemoryAddress<A, P>,
        data: Vec<D>,
        timestamp: S,
    ) -> (interaction: MemoryBusInteraction<T>)
        ensures
            self.built(InteractionType::Send, address, data@, timestamp, interaction),
    {
        self.send_or_receive(InteractionType::Send, address, data, timestamp)
    }

    /// Prepares a read through the memory bus.
    pub fn receive<T: Clone, A: Into<T>, P: Into<T>, D: Into<T>, S: Into<T>>(
        &self,
        address: MemoryAddress<A, P>,
        data: Vec<D>,
        timestamp: S,
    ) -> (interaction: MemoryBusInteraction<T>)
        ensures
            self.built(InteractionType::Receive, address, data@, timestamp, interaction),
    {
        self.send_or_receive(InteractionType::Receive, address, data, timestamp)
    }

    /// Prepares a memory operation, read or write, through the memory bus.
    pub fn send_or_receive<T: Clone, A: Into<T>, P: Into<T>, D: Into<T>, S: Into<T>>(
        &self,
        interaction_type: InteractionType,
        address: MemoryAddress<A, P>,
        data: Vec<D>,
        timestamp: S,
    ) -> (interaction: MemoryBusInteraction<T>)
        ensures
            self.built(interaction_type, address, data@, timestamp, interaction),
    {
        let ghost source = data@;
        let mut words: Vec<T> = Vec::new();
        for item in it: data
            invariant
                it.seq() == source,
                words@.len() == it.index(),
                forall|j: int|
                    0 <= j < words@.len() ==> call_ensures(D::into, (source[j],), #[trigger] words@[j]),
                D::obeys_into_spec() ==> forall|j: int|
                    0 <= j < words@.len() ==> words@[j] == (#[trigger] source[j]).into_spec(),
        {
            words.push(item.into());
        }
        proof {
            if D::obeys_into_spec() {
                assert(words@ =~= converted::<D, T>(source));
            }
        }
        MemoryBusInteraction {
            bus_index: self.0,
            interaction_type,
            address: MemoryAddress::new(address.address_space.into(), address.pointer.into()),
            data: words,
            timestamp: timestamp.into(),
        }
    }
}

/// One interaction as a builder keeps it: the bus, the tuple of fields, the
/// multiplicity and the direction.
#[derive(Clone, Debug)]
pub struct Interaction<T> {
    pub fields: Vec<T>,
    pub count: T,
    pub bus_index: usize,
    pub interaction_type: InteractionType,
}

/// The mathematical value of an [`Interaction`].
pub ghost struct InteractionRecord<T> {
    pub fields: Seq<T>,
    pub count: T,
    pub bus_index: usize,
    pub interaction_type: InteractionType,
}

impl<T> View for Interaction<T> {
    type V = InteractionRecord<T>;

    open spec fn view(&self) -> InteractionRecord<T> {
        InteractionRecord {
            fields: self.fields@,
            count: self.count,
            bus_index: self.bus_index,
            interaction_type: self.interaction_type,
        }
    }
}

/// The interactions of one constraint system, in the order in which they
/// were registered.
pub struct InteractionBuilder<T> {
    pub interactions: Vec<Interaction<T>>,
}

impl<T> View for InteractionBuilder<T> {
    type V = Seq<InteractionRecord<T>>;

    open spec fn view(&self) -> Seq<InteractionRecord<T>> {
        self.interactions@.map_values(|interaction: Interaction<T>| interaction@)
    }
}

impl<T> InteractionBuilder<T> {
    /// A builder that holds no interaction.
    pub fn new() -> (builder: Self)
        ensures
            builder@ == Seq::<InteractionRecord<T>>::empty(),
    {
        let builder = InteractionBuilder { interactions: Vec::new() };
        assert(builder@ =~= Seq::<InteractionRecord<T>>::empty());
        builder
    }

    /// Registers one interaction after those already there.
    pub fn push_interaction(
        &mut self,
        bus_index: usize,
        fields: Vec<T>,
        count: T,
        interaction_type: InteractionType,
    )
        ensures
            final(self)@ == old(self)@.push(
                (InteractionRecord { fields: fields@, count, bus_index, interaction_type }),
            ),
    {
        let interaction = Interaction { fields, count, bus_index, interaction_type };
        self.interactions.push(interaction);
        assert(self@ =~= old(self)@.push(interaction@));
    }
}

/// The interactions of `log` that were registered on `bus_index`, in order.
/// Only these are balanced against each other.
pub open spec fn on_bus<T>(log: Seq<InteractionRecord<T>>, bus_index: usize) -> Seq<
    InteractionRecord<T>,
>
    decreases log.len(),
{
    if log.len() == 0 {
        Seq::empty()
    } else if log.last().bus_index == bus_index {
        on_bus(log.drop_last(), bus_index).push(log.last())
    } else {
        on_bus(log.drop_last(), bus_index)
    }
}

impl<T: FieldAlgebra> MemoryBusInteraction<T> {
    /// The tuple that this operation contributes to the bus.
    pub open spec fn fields(self) -> Seq<T> {
        encode_fields(
            self.address.address_space,
            self.address.pointer,
            self.data@,
            self.timestamp,
            T::spec_one(),
        )
    }

    /// What `eval` registers for this operation with multiplicity `count`.
    pub open spec fn record(self, count: T) -> InteractionRecord<T> {
        InteractionRecord {
            fields: self.fields(),
            count,
            bus_index: self.bus_index,
            interaction_type: self.interaction_type,
        }
    }

    /// Encodes the operation as its tuple of fields.
    pub fn into_fields(self) -> (fields: Vec<T>)
        ensures
            fields@ == self.fields(),
            fields@.len() == self.data@.len() + 4,
    {
        let MemoryBusInteraction { bus_index: _, interaction_type: _, address, data, timestamp } =
            self;
        let mut data = data;
        let mut fields: Vec<T> = Vec::new();
        fields.push(address.address_space);
        fields.push(address.pointer);
        fields.append(&mut data);
        fields.push(timestamp);
        fields.push(T::one());
        assert(fields@ =~= self.fields());
        fields
    }

    /// Registers the operation on `builder` with multiplicity `count`: one
    /// interaction more, on this operation's bus, and nothing else changes.
    pub fn eval<C: Into<T>>(self, builder: &mut InteractionBuilder<T>, count: C)
        ensures
            final(builder)@.len() == old(builder)@.len() + 1,
            final(builder)@.drop_last() == old(builder)@,
            final(builder)@.last() == self.record(final(builder)@.last().count),
            call_ensures(C::into, (count,), final(builder)@.last().count),
            C::obeys_into_spec() ==> final(builder)@.last().count == count.into_spec(),
            forall|other: usize|
                other != self.bus_index ==> #[trigger] on_bus(final(builder)@, other) == on_bus(
                    old(builder)@,
                    other,
                ),
            on_bus(final(builder)@, self.bus_index) == on_bus(old(builder)@, self.bus_index).push(
                final(builder)@.last(),
            ),
    {
        let bus_index = self.bus_index;
        let interaction_type = self.interaction_type;
        let fields = self.into_fields();
        builder.push_interaction(bus_index, fields, count.into(), interaction_type);
        proof {
            let record = builder@.last();
            assert(builder@.drop_last() =~= old(builder)@);
            assert(builder@ =~= old(builder)@.push(record));
            lemma_on_bus_push(old(builder)@, record, bus_index);
            assert forall|other: usize| other != self.bus_index implies #[trigger] on_bus(
                builder@,
                other,
            ) == on_bus(old(builder)@, other) by {
                lemma_on_bus_push(old(builder)@, record, other);
            }
        }
    }
}

/// Registering one interaction extends its own bus by that interaction and
/// leaves every other bus as it was.
pub proof fn lemma_on_bus_push<T>(
    log: Seq<InteractionRecord<T>>,
    record: InteractionRecord<T>,
    bus_index: usize,
)
    ensures
        record.bus_index == bus_index ==> on_bus(log.push(record), bus_index) == on_bus(
            log,
            bus_index,
        ).push(record),
        record.bus_index != bus_index ==> on_bus(log.push(record), bus_index) == on_bus(
            log,
            bus_index,
        ),
{
    assert(log.push(record).drop_last() =~= log);
    assert(log.push(record).last() == record);
}

/// Channel separation: whatever is registered on other buses, in any number
/// and order, the interactions seen on `bus_index` stay the same.
pub proof fn lemma_channel_separation<T>(
    log: Seq<InteractionRecord<T>>,
    others: Seq<InteractionRecord<T>>,
    bus_index: usize,
)
    requires
        forall|i: int| 0 <= i < others.len() ==> (#[trigger] others[i]).bus_index != bus_index,
    ensures
        on_bus(log + others, bus_index) == on_bus(log, bus_index),
    decreases others.len(),
{
    if others.len() == 0 {
        assert(log + others =~= log);
    } else {
        lemma_channel_separation(log, others.drop_last(), bus_index);
        assert(log + others =~= (log + others.drop_last()).push(others.last()));
        lemma_on_bus_push(log + others.drop_last(), others.last(), bus_index);
    }
}

/// Two operations on different buses register interactions that no bus
/// holds together.
pub proof fn lemma_distinct_buses_never_meet<T: FieldAlgebra>(
    a: MemoryBusInteraction<T>,
    b: MemoryBusInteraction<T>,
    count_a: T,
    count_b: T,
    log: Seq<InteractionRecord<T>>,
)
    requires
        a.bus_index != b.bus_index,
    ensures
        on_bus(log.push(a.record(count_a)), b.bus_index) == on_bus(log, b.bus_index),
        on_bus(log.push(b.record(count_b)), a.bus_index) == on_bus(log, a.bus_index),
{
    lemma_on_bus_push(log, a.record(count_a), b.bus_index);
    lemma_on_bus_push(log, b.record(count_b), a.bus_index);
}

/// Tuple disambiguation: the encoded tuple is four fields longer than the
/// data, so two tuples have one length exactly when their data have.
pub proof fn lemma_tuple_length<T: FieldAlgebra>(
    a: MemoryBusInteraction<T>,
    b: MemoryBusInteraction<T>,
)
    ensures
        a.fields().len() == a.data@.len() + 4,
        a.fields().len() == b.fields().len() <==> a.data@.len() == b.data@.len(),
        a.data@.len() != b.data@.len() ==> a.fields() != b.fields(),
        a.fields().last() == T::spec_one(),
{
}

/// The encoding loses nothing: two operations with the same tuple have the
/// same address, the same data and the same timestamp.
pub proof fn lemma_tuple_injective<T: FieldAlgebra>(
    a: MemoryBusInteraction<T>,
    b: MemoryBusInteraction<T>,
)
    requires
        a.fields() == b.fields(),
    ensures
        a.address == b.address,
        a.data@ == b.data@,
        a.timestamp == b.timestamp,
{
    let n = a.data@.len() as int;
    assert(a.fields().len() == n + 4);
    assert(b.fields().len() == b.data@.len() + 4);
    assert(a.fields()[0] == a.address.address_space);
    assert(b.fields()[0] == b.address.address_space);
    assert(a.fields()[1] == a.address.pointer);
    assert(b.fields()[1] == b.address.pointer);
    assert(a.fields()[n + 2] == a.timestamp);
    assert(b.fields()[n + 2] == b.timestamp);
    assert forall|i: int| 0 <= i < n implies a.data@[i] == b.data@[i] by {
        assert(a.fields()[i + 2] == a.data@[i]);
        assert(b.fields()[i + 2] == b.data@[i]);
    }
    assert(a.data@ =~= b.data@);
}

} // verus!
