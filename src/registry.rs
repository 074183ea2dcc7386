use vstd::hash_map::HashMapWithView;
use vstd::prelude::*;

verus! {

broadcast use vstd::std_specs::hash::group_hash_axioms;

/// Largest value of a 48-bit hardware address.
pub const MAX_MAC_ADDRESS: u64 = 0xffff_ffff_ffff;

/// A 48-bit hardware address, most significant octet first.
#[derive(Clone, Copy, Debug, PartialEq, Eq, Hash, Structural)]
pub struct MacAddress {
    pub value: u64,
}

/// The number that six octets stand for, the first one most significant.
pub open spec fn octets_value(o: Seq<u8>) -> u64 {
    (o[0] as int * 0x100_0000_0000 + o[1] as int * 0x1_0000_0000 + o[2] as int * 0x100_0000
        + o[3] as int * 0x1_0000 + o[4] as int * 0x100 + o[5] as int) as u64
}

pub open spec fn value_octets(v: u64) -> Seq<u8> {
    seq![
        (v as int / 0x100_0000_0000 % 0x100) as u8,
        (v as int / 0x1_0000_0000 % 0x100) as u8,
        (v as int / 0x100_0000 % 0x100) as u8,
        (v as int / 0x1_0000 % 0x100) as u8,
        (v as int / 0x100 % 0x100) as u8,
        (v as int % 0x100) as u8,
    ]
}

impl MacAddress {
    pub open spec fn wf(self) -> bool {
        self.value <= MAX_MAC_ADDRESS
    }

    pub fn from_octets(octets: [u8; 6]) -> (r: MacAddress)
        ensures
            r.value == octets_value(octets@),
            r.wf(),
    {
        let value = (octets[0] as u64) * 0x100_0000_0000 + (octets[1] as u64) * 0x1_0000_0000
            + (octets[2] as u64) * 0x100_0000 + (octets[3] as u64) * 0x1_0000 + (octets[4] as u64)
            * 0x100 + octets[5] as u64;
        MacAddress { value }
    }

    pub fn octets(&self) -> (r: [u8; 6])
        ensures
            r@ == value_octets(self.value),
    {
        let v = self.value;
        let r: [u8; 6] = [
            (v / 0x100_0000_0000 % 0x100) as u8,
            (v / 0x1_0000_0000 % 0x100) as u8,
            (v / 0x100_0000 % 0x100) as u8,
            (v / 0x1_0000 % 0x100) as u8,
            (v / 0x100 % 0x100) as u8,
            (v % 0x100) as u8,
        ];
        assert(r@ == value_octets(self.value));
        r
    }
}

/// A device found by discovery: its name and its address. Two descriptors
/// stand for the same device when their addresses are equal.
#[derive(Clone, Debug)]
pub struct ConnectionDescriptor {
    pub name: String,
    pub mac_address: MacAddress,
}

impl ConnectionDescriptor {
    pub fn new(name: String, mac_address: MacAddress) -> (r: ConnectionDescriptor)
        ensures
            r.name@ == name@,
            r.mac_address == mac_address,
    {
        ConnectionDescriptor { name, mac_address }
    }
}

impl PartialEq for ConnectionDescriptor {
    fn eq(&self, other: &ConnectionDescriptor) -> (r: bool) {
        self.mac_address == other.mac_address
    }
}

impl vstd::std_specs::cmp::PartialEqSpecImpl for ConnectionDescriptor {
    open spec fn obeys_eq_spec() -> bool {
        true
    }

    open spec fn eq_spec(&self, other: &ConnectionDescriptor) -> bool {
        self.mac_address == other.mac_address
    }
}

impl Eq for ConnectionDescriptor {

}

/// True when no two descriptors share an address.
pub open spec fn addresses_unique(d: Seq<ConnectionDescriptor>) -> bool {
    forall|i: int, j: int|
        0 <= i < j < d.len() ==> #[trigger] d[i].mac_address != #[trigger] d[j].mac_address
}

pub open spec fn has_address(d: Seq<ConnectionDescriptor>, a: MacAddress) -> bool {
    exists|i: int| 0 <= i < d.len() && #[trigger] d[i].mac_address == a
}

pub open spec fn has_descriptor(d: Seq<ConnectionDescriptor>, x: ConnectionDescriptor) -> bool {
    exists|j: int| 0 <= j < d.len() && d[j] == x
}

/// Whether a descriptor with address `a` is in `d`.
pub fn contains_address(d: &Vec<ConnectionDescriptor>, a: MacAddress) -> (r: bool)
    ensures
        r == has_address(d@, a),
{
    let mut i: usize = 0;
    while i < d.len()
        invariant
            i <= d@.len(),
            forall|j: int| 0 <= j < i ==> d@[j].mac_address != a,
        decreases d@.len() - i,
    {
        if d[i].mac_address == a {
            return true;
        }
        i += 1;
    }
    false
}

/// Keeps the first descriptor of each address, in the order found.
pub fn unique_by_address(descriptors: &Vec<ConnectionDescriptor>) -> (r: Vec<ConnectionDescriptor>)
    ensures
        addresses_unique(r@),
        forall|a: MacAddress| has_address(descriptors@, a) <==> has_address(r@, a),
        forall|i: int| 0 <= i < r@.len() ==> has_descriptor(descriptors@, #[trigger] r@[i]),
{
    let mut r: Vec<ConnectionDescriptor> = Vec::new();
    let mut i: usize = 0;
    while i < descriptors.len()
        invariant
            i <= descriptors@.len(),
            addresses_unique(r@),
            forall|a: MacAddress|
                has_address(descriptors@.subrange(0, i as int), a) <==> has_address(r@, a),
            forall|k: int| 0 <= k < r@.len() ==> has_descriptor(descriptors@, #[trigger] r@[k]),
        decreases descriptors@.len() - i,
    {
        let d = &descriptors[i];
        let ghost prev = r@;
        let ghost seen = descriptors@.subrange(0, i as int);
        let ghost next = descriptors@.subrange(0, i + 1);
        assert(next == seen.push(descriptors@[i as int]));
        assert forall|a: MacAddress|
            has_address(next, a) <==> (has_address(seen, a) || descriptors@[i as int].mac_address
                == a) by {
            if has_address(next, a) {
                let w = choose|w: int| 0 <= w < next.len() && #[trigger] next[w].mac_address == a;
                if w < seen.len() {
                    assert(seen[w] == next[w]);
                }
            }
            if has_address(seen, a) {
                let w = choose|w: int| 0 <= w < seen.len() && #[trigger] seen[w].mac_address == a;
                assert(next[w] == seen[w]);
            }
            if descriptors@[i as int].mac_address == a {
                assert(next[i as int] == descriptors@[i as int]);
            }
        }
        if !contains_address(&r, d.mac_address) {
            let copy = ConnectionDescriptor { name: d.name.clone(), mac_address: d.mac_address };
            r.push(copy);
            assert(r@ == prev.push(copy));
            assert forall|a: MacAddress|
                has_address(r@, a) <==> (has_address(prev, a) || copy.mac_address == a) by {
                if has_address(r@, a) {
                    let w = choose|w: int| 0 <= w < r@.len() && #[trigger] r@[w].mac_address == a;
                    if w < prev.len() {
                        assert(prev[w] == r@[w]);
                    }
                }
                if has_address(prev, a) {
                    let w = choose|w: int|
                        0 <= w < prev.len() && #[trigger] prev[w].mac_address == a;
                    assert(r@[w] == prev[w]);
                }
                if copy.mac_address == a {
                    assert(r@[prev.len() as int] == copy);
                }
            }
            assert forall|k: int| 0 <= k < r@.len() implies has_descriptor(
                descriptors@,
                #[trigger] r@[k],
            ) by {
                if k < prev.len() {
                    assert(r@[k] == prev[k]);
                } else {
                    assert(r@[k] == descriptors@[i as int]);
                }
            }
            assert forall|a: MacAddress| has_address(next, a) <==> has_address(r@, a) by {
                assert(has_address(next, a) <==> (has_address(seen, a)
                    || descriptors@[i as int].mac_address == a));
                assert(has_address(seen, a) <==> has_address(prev, a));
                assert(has_address(r@, a) <==> (has_address(prev, a) || copy.mac_address == a));
            }
        } else {
            assert(has_address(prev, descriptors@[i as int].mac_address));
            assert forall|a: MacAddress| has_address(next, a) <==> has_address(r@, a) by {}
        }
        i += 1;
    }
    assert(descriptors@.subrange(0, i as int) == descriptors@);
    r
}

/// One live connection: the handle that stands for it and how many callers
/// hold it.
#[derive(Clone, Copy, Debug, PartialEq, Eq, Hash, Structural)]
pub struct RegistryEntry {
    pub handle: u64,
    pub holders: u64,
}

/// The registry as plain values: live entries keyed by address, the next
/// handle to give out, and how many connections were opened so far.
pub struct RegistryView {
    pub entries: Map<u64, RegistryEntry>,
    pub next_handle: u64,
    pub opened: u64,
}

impl RegistryView {
    /// Every live entry has a holder and a handle that was given out.
    pub open spec fn wf(self) -> bool {
        forall|k: u64|
            #![trigger self.entries[k]]
            self.entries.contains_key(k) ==> self.entries[k].holders >= 1
                && self.entries[k].handle < self.next_handle
    }
}

/// Looking up `address`: a live entry gains a holder and its handle is
/// returned; otherwise nothing changes and a connection must be opened.
pub open spec fn spec_acquire(v: RegistryView, address: u64) -> (RegistryView, Option<u64>) {
    if v.entries.contains_key(address) {
        let e = v.entries[address];
        (
            RegistryView {
                entries: v.entries.insert(
                    address,
                    RegistryEntry { handle: e.handle, holders: (e.holders + 1) as u64 },
                ),
                ..v
            },
            Some(e.handle),
        )
    } else {
        (v, None)
    }
}

/// Recording a newly opened connection for `address`, held by one caller.
pub open spec fn spec_register(v: RegistryView, address: u64) -> (RegistryView, u64) {
    (
        RegistryView {
            entries: v.entries.insert(address, RegistryEntry { handle: v.next_handle, holders: 1 }),
            next_handle: (v.next_handle + 1) as u64,
            opened: (v.opened + 1) as u64,
        },
        v.next_handle,
    )
}

/// A caller drops its hold on `address`; the last one removes the entry.
pub open spec fn spec_release(v: RegistryView, address: u64) -> RegistryView {
    if v.entries.contains_key(address) {
        let e = v.entries[address];
        if e.holders <= 1 {
            RegistryView { entries: v.entries.remove(address), ..v }
        } else {
            RegistryView {
                entries: v.entries.insert(
                    address,
                    RegistryEntry { handle: e.handle, holders: (e.holders - 1) as u64 },
                ),
                ..v
            }
        }
    } else {
        v
    }
}

/// At most one live connection per address, shared by every caller that
/// holds it and forgotten once the last one lets go. Callers run
/// `acquire` and, when it finds nothing, the opening and `register`, in one
/// critical section.
pub struct ConnectionRegistry {
    entries: HashMapWithView<u64, RegistryEntry>,
    next_handle: u64,
    opened: u64,
}

impl View for ConnectionRegistry {
    type V = RegistryView;

    closed spec fn view(&self) -> RegistryView {
        RegistryView { entries: self.entries@, next_handle: self.next_handle, opened: self.opened }
    }
}

impl ConnectionRegistry {
    pub fn new() -> (r: ConnectionRegistry)
        ensures
            r@.entries == Map::<u64, RegistryEntry>::empty(),
            r@.next_handle == 0,
            r@.opened == 0,
            r@.wf(),
    {
        ConnectionRegistry { entries: HashMapWithView::new(), next_handle: 0, opened: 0 }
    }

    /// The handle of the live connection to `address`, now held once more,
    /// or `None` when a connection must be opened.
    pub fn acquire(&mut self, address: MacAddress) -> (r: Option<u64>)
        requires
            old(self)@.wf(),
            old(self)@.entries.contains_key(address.value) ==> old(self)@.entries[address.value].holders
                < u64::MAX,
        ensures
            (final(self)@, r) == spec_acquire(old(self)@, address.value),
            final(self)@.wf(),
    {
        match self.entries.get(&address.value) {
            Some(e) => {
                let e = *e;
                self.entries.insert(
                    address.value,
                    RegistryEntry { handle: e.handle, holders: e.holders + 1 },
                );
                Some(e.handle)
            },
            None => None,
        }
    }

    /// Records the connection just opened to `address` and returns its
    /// handle.
    pub fn register(&mut self, address: MacAddress) -> (r: u64)
        requires
            old(self)@.wf(),
            !old(self)@.entries.contains_key(address.value),
            old(self)@.next_handle < u64::MAX,
            old(self)@.opened < u64::MAX,
        ensures
            (final(self)@, r) == spec_register(old(self)@, address.value),
            final(self)@.wf(),
    {
        let handle = self.next_handle;
        self.entries.insert(address.value, RegistryEntry { handle, holders: 1 });
        self.next_handle = self.next_handle + 1;
        self.opened = self.opened + 1;
        handle
    }

    /// Drops one hold on the connection to `address`.
    pub fn release(&mut self, address: MacAddress)
        requires
            old(self)@.wf(),
        ensures
            final(self)@ == spec_release(old(self)@, address.value),
            final(self)@.wf(),
    {
        match self.entries.get(&address.value) {
            Some(e) => {
                let e = *e;
                if e.holders <= 1 {
                    self.entries.remove(&address.value);
                } else {
                    self.entries.insert(
                        address.value,
                        RegistryEntry { handle: e.handle, holders: e.holders - 1 },
                    );
                }
            },
            None => {},
        }
    }

    /// Whether `acquire` may be called for `address`: a live connection to
    /// it can take one more holder.
    pub fn can_acquire(&self, address: MacAddress) -> (r: bool)
        ensures
            r == (self@.entries.contains_key(address.value) ==> self@.entries[address.value].holders
                < u64::MAX),
    {
        match self.entries.get(&address.value) {
            Some(e) => e.holders < u64::MAX,
            None => true,
        }
    }

    /// Whether `register` may be called for `address`: no live connection
    /// to it exists and the counters have room.
    pub fn can_register(&self, address: MacAddress) -> (r: bool)
        ensures
            r == (!self@.entries.contains_key(address.value) && self@.next_handle < u64::MAX
                && self@.opened < u64::MAX),
    {
        !self.entries.contains_key(&address.value) && self.next_handle < u64::MAX && self.opened
            < u64::MAX
    }

    /// How many connections were opened so far.
    pub fn opened(&self) -> (r: u64)
        ensures
            r == self@.opened,
    {
        self.opened
    }

    /// Whether a live connection to `address` is held.
    pub fn contains(&self, address: MacAddress) -> (r: bool)
        ensures
            r == self@.entries.contains_key(address.value),
    {
        self.entries.contains_key(&address.value)
    }
}

} // verus!
