//! The ledger itself: the counter and the four tables in stable memory,
//! read as a [`State`], and the point reads, point writes and scans that
//! every operation is built from.

use crate::entity::{Client, Contract, CreditOrder, Producer};
use crate::protocol::{issue, State};
use crate::record::fits;
use crate::layout::{
    cell_header, cell_known, forget_manager, holds_cell, holds_manager, holds_map,
    manager_header, manager_known, map_header, map_known, Header, Partition,
};
use crate::stable::{
    counter_get, counter_init, counter_new, counter_set, counter_value, memory_bytes,
    memory_intact, region_bytes, region_intact, table_init, table_new, Counter, RawTable, Region,
};
use crate::table::{
    fetch, keys_of, lists, models_of, ordered_values, read_all, rows, scan, sound, store,
};
use ic_stable_structures::DefaultMemoryImpl;
use vstd::prelude::*;

verus! {

/// The region of the identifier counter.
pub const COUNTER_REGION: u8 = 0;

/// The region of the client table.
pub const CLIENT_REGION: u8 = 1;

/// The region of the producer table.
pub const PRODUCER_REGION: u8 = 2;

/// The region of the order table.
pub const ORDER_REGION: u8 = 3;

/// The region of the contract.
pub const CONTRACT_REGION: u8 = 4;

/// The key under which the contract is stored.
pub const CONTRACT_KEY: u64 = 0;

/// A ledger of carbon credits in stable memory.
pub struct Ledger {
    counter: Counter,
    contract: RawTable,
    clients: RawTable,
    producers: RawTable,
    orders: RawTable,
}

impl View for Ledger {
    type V = State;

    closed spec fn view(&self) -> State {
        State {
            next_id: counter_value(self.counter),
            contract: if rows::<Contract>(self.contract).contains_key(CONTRACT_KEY) {
                Some(rows::<Contract>(self.contract)[CONTRACT_KEY])
            } else {
                None
            },
            clients: rows::<Client>(self.clients),
            producers: rows::<Producer>(self.producers),
            orders: rows::<CreditOrder>(self.orders),
        }
    }
}

impl Ledger {
    /// Every table holds nothing but records of its kind.
    pub closed spec fn stored(&self) -> bool {
        &&& sound::<Contract>(self.contract)
        &&& sound::<Client>(self.clients)
        &&& sound::<Producer>(self.producers)
        &&& sound::<CreditOrder>(self.orders)
    }

    /// The invariant that every operation expects and keeps.
    pub open spec fn wf(&self) -> bool {
        self.stored() && self@.wf()
    }

    /// A new, empty ledger in `memory`. What `memory` held is lost: where
    /// it starts as a divided memory does, its first byte is overwritten
    /// before it is divided, so that nothing of it is loaded.
    ///
    /// A memory is a shared handle. A ledger takes its memory to be its
    /// own: whoever writes to the same memory behind the ledger's back, be
    /// it a second ledger, changes what this one holds without any contract
    /// seeing it.
    pub fn new(memory: DefaultMemoryImpl) -> (ledger: Ledger)
        ensures
            ledger.wf(),
            ledger@ =~= State::empty(),
    {
        let mut memory = memory;
        forget_manager(&mut memory);
        let mut partition = Partition::divide(memory);
        let counter = counter_new(partition.open(COUNTER_REGION), 0);
        let contract = table_new(partition.open(CONTRACT_REGION));
        let clients = table_new(partition.open(CLIENT_REGION));
        let producers = table_new(partition.open(PRODUCER_REGION));
        let orders = table_new(partition.open(ORDER_REGION));
        Ledger { counter, contract, clients, producers, orders }
    }

    /// The ledger that `memory` holds.
    ///
    /// - A memory that does not start as a divided memory does holds
    ///   nothing: the ledger is new and empty, as [`Ledger::new`] makes it.
    /// - A memory divided in a layout that cannot be loaded, or with a
    ///   region whose map or counter cannot be loaded, holds no ledger:
    ///   `None`, before that structure is opened.
    /// - Otherwise the counter and the tables are opened and handed to
    ///   [`Ledger::audited`], which reads every table in full and says for
    ///   each value of them whether a ledger comes back.
    ///
    /// The headers are all that can be looked at before a structure is
    /// opened. That what lies behind a header that can be loaded is what
    /// the structures left there is the caller's to know: a memory goes in
    /// here empty or as a ledger left it. As with [`Ledger::new`], the
    /// memory is taken to be the ledger's own.
    pub fn init(memory: DefaultMemoryImpl) -> (r: Option<Ledger>)
        requires
            manager_known(memory_bytes(memory)) ==> memory_intact(memory),
        ensures
            r matches Some(ledger) ==> ledger.wf(),
            !holds_manager(memory_bytes(memory)) ==> r is Some && r->0@ =~= State::empty(),
            holds_manager(memory_bytes(memory)) && !manager_known(memory_bytes(memory)) ==> r
                is None,
    {
        match manager_header(&memory) {
            Header::Absent => Some(Ledger::new(memory)),
            Header::Foreign => None,
            Header::Known => {
                let mut partition = Partition::divide(memory);
                let counter = match Ledger::load_counter(partition.open(COUNTER_REGION)) {
                    Some(counter) => counter,
                    None => {
                        return None;
                    },
                };
                let contract = match Ledger::load_table(partition.open(CONTRACT_REGION)) {
                    Some(table) => table,
                    None => {
                        return None;
                    },
                };
                let clients = match Ledger::load_table(partition.open(CLIENT_REGION)) {
                    Some(table) => table,
                    None => {
                        return None;
                    },
                };
                let producers = match Ledger::load_table(partition.open(PRODUCER_REGION)) {
                    Some(table) => table,
                    None => {
                        return None;
                    },
                };
                let orders = match Ledger::load_table(partition.open(ORDER_REGION)) {
                    Some(table) => table,
                    None => {
                        return None;
                    },
                };
                (Ledger { counter, contract, clients, producers, orders }).audited()
            },
        }
    }

    /// The counter that `region` holds, or a new one at zero where it holds
    /// none; `None` where it holds a cell that cannot be loaded.
    fn load_counter(region: Region) -> (r: Option<Counter>)
        requires
            region_intact(region),
        ensures
            r is None <==> holds_cell(region_bytes(region)) && !cell_known(region_bytes(region)),
    {
        match cell_header(&region) {
            Header::Foreign => None,
            _ => Some(counter_init(region, 0)),
        }
    }

    /// The table that `region` holds, or a new and empty one where it
    /// holds none; `None` where it holds a map that cannot be loaded.
    fn load_table(region: Region) -> (r: Option<RawTable>)
        requires
            region_intact(region),
        ensures
            r is None <==> holds_map(region_bytes(region)) && !map_known(region_bytes(region)),
    {
        match map_header(&region) {
            Header::Foreign => None,
            _ => Some(table_init(region)),
        }
    }

    /// This ledger if it meets the invariant, `None` if it does not.
    pub fn audited(self) -> (r: Option<Ledger>)
        ensures
            match r {
                Some(ledger) => ledger == self && self.wf(),
                None => !self.wf(),
            },
    {
        if self.audit() {
            Some(self)
        } else {
            None
        }
    }

    /// Whether this ledger meets the invariant: reads every table in full.
    pub fn audit(&self) -> (ok: bool)
        ensures
            ok == self.wf(),
    {
        if read_all::<Contract>(&self.contract).is_none() {
            return false;
        }
        let clients = match read_all::<Client>(&self.clients) {
            Some(v) => v,
            None => {
                return false;
            },
        };
        let producers = match read_all::<Producer>(&self.producers) {
            Some(v) => v,
            None => {
                return false;
            },
        };
        let orders = match read_all::<CreditOrder>(&self.orders) {
            Some(v) => v,
            None => {
                return false;
            },
        };
        let next = counter_get(&self.counter);
        let mut i: usize = 0;
        while i < clients.len()
            invariant
                self.stored(),
                next == self@.next_id,
                i <= clients.len(),
                lists(self@.clients, keys_of(clients@), models_of(clients@)),
                forall|j: int| 0 <= j < i ==> self@.client_ok(#[trigger] keys_of(clients@)[j]),
            decreases clients.len() - i,
        {
            let id = clients[i].0;
            assert(keys_of(clients@)[i as int] == id);
            if clients[i].1.id != id || id >= next || self.load_producer(id).is_some()
                || self.load_order(id).is_some() {
                return false;
            }
            i += 1;
        }
        let mut i: usize = 0;
        while i < producers.len()
            invariant
                self.stored(),
                next == self@.next_id,
                i <= producers.len(),
                lists(self@.producers, keys_of(producers@), models_of(producers@)),
                forall|j: int| 0 <= j < i ==> self@.producer_ok(#[trigger] keys_of(producers@)[j]),
            decreases producers.len() - i,
        {
            let id = producers[i].0;
            assert(keys_of(producers@)[i as int] == id);
            if producers[i].1.id != id || id >= next || self.load_order(id).is_some() {
                return false;
            }
            i += 1;
        }
        let mut i: usize = 0;
        while i < orders.len()
            invariant
                self.stored(),
                next == self@.next_id,
                i <= orders.len(),
                lists(self@.orders, keys_of(orders@), models_of(orders@)),
                forall|j: int| 0 <= j < i ==> self@.order_ok(#[trigger] keys_of(orders@)[j]),
            decreases orders.len() - i,
        {
            let id = orders[i].0;
            let order = orders[i].1;
            assert(keys_of(orders@)[i as int] == id);
            let has_its_client = match order.client_id {
                Some(client_id) => self.load_client(client_id).is_some(),
                None => !order.paid,
            };
            if order.id != id || id >= next || self.load_producer(order.producer_id).is_none()
                || !has_its_client {
                return false;
            }
            i += 1;
        }
        proof {
            assert forall|id: u64| #[trigger]
                self@.clients.contains_key(id) implies self@.client_ok(id) by {
                let j = choose|j: int|
                    0 <= j < keys_of(clients@).len() && #[trigger] keys_of(clients@)[j] == id;
            }
            assert forall|id: u64| #[trigger]
                self@.producers.contains_key(id) implies self@.producer_ok(id) by {
                let j = choose|j: int|
                    0 <= j < keys_of(producers@).len() && #[trigger] keys_of(producers@)[j] == id;
            }
            assert forall|id: u64| #[trigger]
                self@.orders.contains_key(id) implies self@.order_ok(id) by {
                let j = choose|j: int|
                    0 <= j < keys_of(orders@).len() && #[trigger] keys_of(orders@)[j] == id;
            }
        }
        true
    }

    /// The identifier that the next new entity will get.
    pub fn peek_next_id(&self) -> (id: u64)
        ensures
            id == self@.next_id,
    {
        counter_get(&self.counter)
    }

    /// Issues the next identifier: returns the counter and advances it by
    /// one. No identifier is issued twice.
    pub fn next_id(&mut self) -> (id: u64)
        requires
            old(self)@.next_id < u64::MAX,
        ensures
            id == old(self)@.next_id,
            final(self)@ =~= issue(old(self)@),
            old(self).stored() ==> final(self).stored(),
            old(self).wf() ==> final(self).wf(),
    {
        let current = counter_get(&self.counter);
        counter_set(&mut self.counter, current + 1)
    }

    /// The contract, if it has been set.
    pub(crate) fn load_contract(&self) -> (r: Option<Contract>)
        requires
            self.stored(),
        ensures
            match r {
                Some(c) => self@.contract == Some(c@) && fits::<Contract>(c@),
                None => self@.contract is None,
            },
    {
        fetch::<Contract>(&self.contract, CONTRACT_KEY)
    }

    /// Sets the contract.
    pub(crate) fn save_contract(&mut self, contract: &Contract)
        requires
            old(self).stored(),
            fits::<Contract>(contract@),
        ensures
            final(self).stored(),
            final(self)@ =~= (State { contract: Some(contract@), ..old(self)@ }),
    {
        store::<Contract>(&mut self.contract, CONTRACT_KEY, contract);
    }

    /// The client `id`, if there is one.
    pub(crate) fn load_client(&self, id: u64) -> (r: Option<Client>)
        requires
            self.stored(),
        ensures
            match r {
                Some(c) => self@.clients.contains_key(id) && self@.clients[id] == c@ && fits::<
                    Client,
                >(c@),
                None => !self@.clients.contains_key(id),
            },
    {
        fetch::<Client>(&self.clients, id)
    }

    /// Stores `client` under its identifier.
    pub(crate) fn save_client(&mut self, client: &Client)
        requires
            old(self).stored(),
            fits::<Client>(client@),
        ensures
            final(self).stored(),
            final(self)@ =~= (State {
                clients: old(self)@.clients.insert(client.id, client@),
                ..old(self)@
            }),
    {
        store::<Client>(&mut self.clients, client.id, client);
    }

    /// All the clients, in ascending order of their identifiers.
    pub(crate) fn scan_clients(&self) -> (r: Vec<Client>)
        requires
            self.stored(),
        ensures
            r@.map_values(|c: Client| c@) == ordered_values(self@.clients),
    {
        scan::<Client>(&self.clients)
    }

    /// The producer `id`, if there is one.
    pub(crate) fn load_producer(&self, id: u64) -> (r: Option<Producer>)
        requires
            self.stored(),
        ensures
            match r {
                Some(p) => self@.producers.contains_key(id) && self@.producers[id] == p@ && fits::<
                    Producer,
                >(p@),
                None => !self@.producers.contains_key(id),
            },
    {
        fetch::<Producer>(&self.producers, id)
    }

    /// Stores `producer` under its identifier.
    pub(crate) fn save_producer(&mut self, producer: &Producer)
        requires
            old(self).stored(),
            fits::<Producer>(producer@),
        ensures
            final(self).stored(),
            final(self)@ =~= (State {
                producers: old(self)@.producers.insert(producer.id, producer@),
                ..old(self)@
            }),
    {
        store::<Producer>(&mut self.producers, producer.id, producer);
    }

    /// All the producers, in ascending order of their identifiers.
    pub(crate) fn scan_producers(&self) -> (r: Vec<Producer>)
        requires
            self.stored(),
        ensures
            r@.map_values(|p: Producer| p@) == ordered_values(self@.producers),
    {
        scan::<Producer>(&self.producers)
    }

    /// The order `id`, if there is one.
    pub(crate) fn load_order(&self, id: u64) -> (r: Option<CreditOrder>)
        requires
            self.stored(),
        ensures
            match r {
                Some(o) => self@.orders.contains_key(id) && self@.orders[id] == o,
                None => !self@.orders.contains_key(id),
            },
    {
        fetch::<CreditOrder>(&self.orders, id)
    }

    /// Stores `order` under its identifier.
    pub(crate) fn save_order(&mut self, order: &CreditOrder)
        requires
            old(self).stored(),
        ensures
            final(self).stored(),
            final(self)@ =~= (State {
                orders: old(self)@.orders.insert(order.id, *order),
                ..old(self)@
            }),
    {
        proof {
            crate::entity::order_size(*order);
        }
        store::<CreditOrder>(&mut self.orders, order.id, order);
    }

    /// All the orders, in ascending order of their identifiers.
    pub(crate) fn scan_orders(&self) -> (r: Vec<CreditOrder>)
        requires
            self.stored(),
        ensures
            r@ == ordered_values(self@.orders),
    {
        scan::<CreditOrder>(&self.orders)
    }
}

} // verus!
