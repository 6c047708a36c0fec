//! Pieces of device firmware: the capacity of fixed-size route collections,
//! which routes are published, the service transport protocol, the state a
//! route handler sees and how the server finds a route's handler.
use vstd::arithmetic::power2::{lemma_pow2_unfold, pow2};
use vstd::prelude::*;

use crate::text::str_eq;

verus! {

/// The capacity of a fixed-size collection meant to hold `n` elements: the
/// smallest power of two that is at least `n`, and at least two.
pub fn collection_size(n: usize) -> (size: usize)
    requires
        n <= usize::MAX / 2 + 1,
    ensures
        exists|k: nat|
            k >= 1 && size == #[trigger] pow2(k) && size >= n && (k == 1 || pow2((k - 1) as nat) < n),
{
    proof {
        lemma_pow2_unfold(1);
        vstd::arithmetic::power2::lemma2_to64();
    }
    if n == 0 || n == 1 {
        assert(2 == pow2(1));
        assert(pow2(1) >= n);
        return 2;
    }
    let mut power: usize = 1;
    let ghost mut k: nat = 0;
    while power < n
        invariant
            power == pow2(k),
            2 <= n <= usize::MAX / 2 + 1,
            k == 0 || pow2((k - 1) as nat) < n,
            power < n ==> power <= usize::MAX / 2,
        decreases usize::MAX - power,
    {
        proof {
            lemma_pow2_unfold(k + 1);
            vstd::arithmetic::power2::lemma_pow2_pos(k);
        }
        power = power * 2;
        proof {
            k = k + 1;
            assert(pow2((k - 1) as nat) < n);
            if power < n {
                assert(power <= usize::MAX / 2) by {
                    vstd::arithmetic::power2::lemma_pow2_adds(1, k);
                }
            }
        }
    }
    proof {
        assert(k >= 1) by {
            if k == 0 {
                vstd::arithmetic::power2::lemma2_to64();
            }
        }
        assert(power == pow2(k));
    }
    power
}

/// Whether the name at `i` is the first of its kind.
pub open spec fn first_of_its_name(names: Seq<&str>, i: int) -> bool {
    forall|j: int| 0 <= j < i ==> names[j]@ != (#[trigger] names[i])@
}

/// Marks which routes are published: only the first route of each name, so
/// that no two published routes share one.
pub fn first_occurrences(names: &[&str]) -> (published: Vec<bool>)
    ensures
        published@.len() == names@.len(),
        forall|i: int| 0 <= i < names@.len() ==> published@[i] == first_of_its_name(names@, i),
{
    let mut published: Vec<bool> = Vec::new();
    let mut i: usize = 0;
    while i < names.len()
        invariant
            i <= names@.len(),
            published@.len() == i,
            forall|k: int| 0 <= k < i ==> published@[k] == first_of_its_name(names@, k),
        decreases names.len() - i,
    {
        let mut first = true;
        let mut j: usize = 0;
        while j < i
            invariant
                j <= i < names@.len(),
                first == forall|m: int| 0 <= m < j ==> names@[m]@ != names@[i as int]@,
            decreases i - j,
        {
            if str_eq(names[j], names[i]) {
                first = false;
            }
            j = j + 1;
        }
        published.push(first);
        i = i + 1;
    }
    published
}

/// Service transport protocol.
#[derive(Debug, Clone, Copy, PartialEq, Eq, Structural)]
pub enum TransportProtocol {
    /// TCP service.
    TCP,
    /// UDP service.
    UDP,
}

impl TransportProtocol {
    /// Returns the [`TransportProtocol`] name.
    pub fn name(&self) -> (name: &'static str)
        ensures
            name@ == match *self {
                TransportProtocol::TCP => "tcp"@,
                TransportProtocol::UDP => "udp"@,
            },
    {
        match self {
            TransportProtocol::TCP => "tcp",
            TransportProtocol::UDP => "udp",
        }
    }
}

/// A device state accessible through a route handler.
pub struct State<S>(pub S);

/// Retrieves, from a reference, the part of a firmware state that a route
/// handler receives.
pub trait ValueFromRef: Sized {
    /// Converts a self reference into a value.
    fn value_from_ref(&self) -> Self;
}

impl ValueFromRef for () {
    fn value_from_ref(&self) -> Self {
    }
}

/// The sort of a route handler: what it answers with and whether it reads
/// the device state.
#[derive(Debug, Clone, Copy, PartialEq, Eq, Structural)]
pub enum FuncType {
    /// Answers that the operation succeeded, without state.
    OkStateless,
    /// Answers that the operation succeeded, with state.
    OkStateful,
    /// Answers with data, without state.
    SerialStateless,
    /// Answers with data, with state.
    SerialStateful,
    /// Answers with device information, without state.
    InfoStateless,
    /// Answers with device information, with state.
    InfoStateful,
}

/// Where the handler of a route is: its sort, and its position among the
/// handlers of that sort.
#[derive(Debug, Clone, Copy, PartialEq, Eq, Structural)]
pub struct FuncIndex {
    /// The sort of handler.
    pub func_type: FuncType,
    /// The position among the handlers of that sort.
    pub index: usize,
}

impl FuncIndex {
    /// Creates a [`FuncIndex`].
    pub fn new(func_type: FuncType, index: usize) -> (func_index: Self)
        ensures
            func_index.func_type == func_type,
            func_index.index == index,
    {
        FuncIndex { func_type, index }
    }
}

/// The position of a sort of handler among the six sorts.
pub open spec fn sort_number(func_type: FuncType) -> int {
    match func_type {
        FuncType::OkStateless => 0,
        FuncType::OkStateful => 1,
        FuncType::SerialStateless => 2,
        FuncType::SerialStateful => 3,
        FuncType::InfoStateless => 4,
        FuncType::InfoStateful => 5,
    }
}

fn sort_position(func_type: FuncType) -> (position: usize)
    ensures
        position == sort_number(func_type),
{
    match func_type {
        FuncType::OkStateless => 0,
        FuncType::OkStateful => 1,
        FuncType::SerialStateless => 2,
        FuncType::SerialStateful => 3,
        FuncType::InfoStateless => 4,
        FuncType::InfoStateful => 5,
    }
}

/// Where the handler of each route is: the server keeps the handlers in
/// one list per sort, and for each route, in order, the sort and position
/// of its handler.
pub struct HandlerIndex {
    counts: [usize; 6],
    routes: Vec<FuncIndex>,
}

impl HandlerIndex {
    #[verifier::type_invariant]
    spec fn slots_valid(self) -> bool {
        &&& forall|k: int|
            0 <= k < self.routes@.len() ==> (#[trigger] self.routes@[k]).index
                < self.counts@[sort_number(self.routes@[k].func_type)]
        &&& forall|k1: int, k2: int|
            0 <= k1 < k2 < self.routes@.len() ==> #[trigger] self.routes@[k1]
                != #[trigger] self.routes@[k2]
    }

    /// The handler position of each route, in order.
    pub closed spec fn table(&self) -> Seq<FuncIndex> {
        self.routes@
    }

    /// The number of handlers of a sort.
    pub closed spec fn count(&self, func_type: FuncType) -> nat {
        self.counts@[sort_number(func_type)] as nat
    }

    /// An index without routes.
    pub fn new() -> (index: Self)
        ensures
            index.table() == Seq::<FuncIndex>::empty(),
            forall|t: FuncType| index.count(t) == 0,
    {
        HandlerIndex { counts: [0; 6], routes: Vec::new() }
    }

    /// Records the route whose handler is added last to the list of its
    /// sort, and returns where that handler is.
    pub fn register(&mut self, func_type: FuncType) -> (func_index: FuncIndex)
        requires
            old(self).count(func_type) < usize::MAX,
        ensures
            func_index == (FuncIndex { func_type, index: old(self).count(func_type) as usize }),
            final(self).table() == old(self).table().push(func_index),
            final(self).count(func_type) == old(self).count(func_type) + 1,
            forall|t: FuncType| t != func_type ==> final(self).count(t) == old(self).count(t),
    {
        proof {
            use_type_invariant(&*self);
        }
        let position = sort_position(func_type);
        let slot = self.counts[position];
        let func_index = FuncIndex { func_type, index: slot };
        let mut counts = self.counts;
        counts[position] = slot + 1;
        let mut routes = Vec::new();
        std::mem::swap(&mut routes, &mut self.routes);
        let ghost before = routes@;
        routes.push(func_index);
        proof {
            assert forall|k: int| 0 <= k < routes@.len() implies (#[trigger] routes@[k]).index
                < counts@[sort_number(routes@[k].func_type)] by {
                if k < before.len() {
                    assert(routes@[k] == before[k]);
                }
            }
            assert forall|k1: int, k2: int| 0 <= k1 < k2 < routes@.len() implies #[trigger] routes@[k1]
                != #[trigger] routes@[k2] by {
                if k2 == before.len() {
                    assert(routes@[k1] == before[k1]);
                    if routes@[k1].func_type == func_type {
                        assert(before[k1].index < slot);
                    }
                } else {
                    assert(routes@[k1] == before[k1]);
                    assert(routes@[k2] == before[k2]);
                }
            }
            assert forall|t: FuncType| t != func_type implies counts@[sort_number(t)] == self.counts@[sort_number(t)] by {
                assert(sort_number(t) != sort_number(func_type));
            }
        }
        self.counts = counts;
        self.routes = routes;
        func_index
    }

    /// Finds where the handler of the route at `route` is: always a handler
    /// that was added, and no other route's.
    pub fn handler_of(&self, route: usize) -> (func_index: FuncIndex)
        requires
            route < self.table().len(),
        ensures
            func_index == self.table()[route as int],
            func_index.index < self.count(func_index.func_type),
            forall|k: int| 0 <= k < self.table().len() && k != route ==> self.table()[k] != func_index,
    {
        proof {
            use_type_invariant(self);
            assert forall|k: int| 0 <= k < self.table().len() && k != route implies self.table()[k] != self.table()[route as int] by {
                if k < route {
                    assert(self.routes@[k] != self.routes@[route as int]);
                } else {
                    assert(self.routes@[route as int] != self.routes@[k]);
                }
            }
        }
        self.routes[route]
    }

    /// The number of routes.
    pub fn len(&self) -> (n: usize)
        ensures
            n == self.table().len(),
    {
        self.routes.len()
    }
}

/// The network stack builder.
pub struct NetworkStack;

/// Parses a device configuration; the configuration format is not read
/// yet, so nothing is done.
pub fn parse_config(yaml_str: &str) {
}

} // verus!
