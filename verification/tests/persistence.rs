use energy_trading_backend::entity::{Client, CreditOrder, Producer};
use energy_trading_backend::layout::{forget_manager, manager_header, Header};
use energy_trading_backend::ledger::{
    Ledger, CLIENT_REGION, CONTRACT_REGION, COUNTER_REGION, ORDER_REGION, PRODUCER_REGION,
};
use energy_trading_backend::payload::{
    BidPayload, ClientPayload, CreditOrderPayload, InitPayload, PaidPayload,
    ProducerEnergyPayload, ProducerPayload,
};
use energy_trading_backend::record::Record;
use ic_stable_structures::memory_manager::{MemoryId, MemoryManager};
use ic_stable_structures::{Cell, DefaultMemoryImpl, Memory, StableBTreeMap};
use std::cell::RefCell;
use std::rc::Rc;

fn populated(memory: DefaultMemoryImpl) -> Ledger {
    let mut l = Ledger::new(memory);
    l.init_contract(InitPayload { password: "admin".to_string(), credit_per_energy: 5 }).unwrap();
    let p = l
        .add_producer(ProducerPayload {
            name: "Solar".to_string(),
            phone: "7654321".to_string(),
            password: "hunter2".to_string(),
        })
        .unwrap();
    let c = l
        .add_client(ClientPayload { name: "Alice".to_string(), phone: "0123456".to_string() })
        .unwrap();
    l.award_producer_energy(ProducerEnergyPayload {
        contract_password: "admin".to_string(),
        producer_id: p.id,
        energy_supply: 10,
    })
    .unwrap();
    let o = l
        .add_credit_order(CreditOrderPayload {
            producer_id: p.id,
            credits: 50,
            min_offer_per_credit: 2,
        })
        .unwrap();
    l.bid(BidPayload { client_id: c.id, credit_order_id: o.id, offer_per_credit: 3 }).unwrap();
    l
}

fn tamper(memory: &DefaultMemoryImpl, region: u8, key: u64, value: Vec<u8>) {
    let manager = MemoryManager::init(memory.clone());
    let mut table: StableBTreeMap<u64, Vec<u8>, _> =
        StableBTreeMap::init(manager.get(MemoryId::new(region)));
    table.insert(key, value);
}

#[test]
fn empty_memory_holds_an_empty_ledger() {
    let l = Ledger::init(DefaultMemoryImpl::default()).unwrap();
    assert_eq!(l.peek_next_id(), 0);
    assert!(l.get_clients().is_err());
    assert!(l.get_producers().is_err());
    assert!(l.get_all_credit_orders().is_err());
}

#[test]
fn consistent_ledger_passes_the_audit_unchanged() {
    let l = populated(DefaultMemoryImpl::default());
    let l = l.audited().unwrap();
    assert_eq!(l.peek_next_id(), 3);
    assert_eq!(l.get_producer(0).unwrap().credits, 50);
    assert_eq!(l.get_credit_order_by_id(2).unwrap().client_id, Some(1));
    assert!(Ledger::new(DefaultMemoryImpl::default()).audited().is_some());
}

#[test]
fn ledger_survives_a_restart() {
    let memory = DefaultMemoryImpl::default();
    drop(populated(memory.clone()));
    let mut l = Ledger::init(memory.clone()).unwrap();
    assert_eq!(l.peek_next_id(), 3);
    let p = l.get_producer(0).unwrap();
    assert_eq!((p.name.as_str(), p.credits, p.energy_supply), ("Solar", 50, 10));
    let c = l.get_client(1).unwrap();
    assert_eq!((c.name.as_str(), c.phone.as_str(), c.credits), ("Alice", "0123456", 0));
    let o = l.get_credit_order_by_id(2).unwrap();
    assert_eq!(o, CreditOrder {
        id: 2,
        client_id: Some(1),
        producer_id: 0,
        credits: 50,
        min_offer_per_credit: 3,
        paid: false
    });
    l.mark_order_paid(PaidPayload { order_id: 2, password: "hunter2".to_string() }).unwrap();
    l.award_producer_energy(ProducerEnergyPayload {
        contract_password: "admin".to_string(),
        producer_id: 0,
        energy_supply: 1,
    })
    .unwrap();
    drop(l);
    let l = Ledger::init(memory).unwrap();
    assert_eq!(l.get_producer(0).unwrap().credits, 52);
    assert_eq!(l.get_client(1).unwrap().credits, 3);
    assert!(l.get_credit_order_by_id(2).unwrap().paid);
    assert!(l.audit());
}

#[test]
fn new_ledger_forgets_what_the_memory_held() {
    let memory = DefaultMemoryImpl::default();
    drop(populated(memory.clone()));
    let l = Ledger::new(memory.clone());
    assert_eq!(l.peek_next_id(), 0);
    assert!(l.get_clients().is_err());
    assert!(l.get_producers().is_err());
    assert!(l.get_all_credit_orders().is_err());
    drop(l);
    let mut l = Ledger::init(memory).unwrap();
    assert_eq!(l.peek_next_id(), 0);
    assert!(l
        .award_producer_energy(ProducerEnergyPayload {
            contract_password: "admin".to_string(),
            producer_id: 0,
            energy_supply: 1,
        })
        .is_err());
}

#[test]
fn tables_hold_the_byte_forms_of_their_records() {
    let memory = DefaultMemoryImpl::default();
    drop(populated(memory.clone()));
    let manager = MemoryManager::init(memory);
    let clients: StableBTreeMap<u64, Vec<u8>, _> =
        StableBTreeMap::init(manager.get(MemoryId::new(CLIENT_REGION)));
    assert_eq!(clients.len(), 1);
    let alice = Client { id: 1, name: "Alice".to_string(), phone: "0123456".to_string(), credits: 0 };
    assert_eq!(clients.get(&1), Some(alice.to_bytes()));
    let counter: Cell<u64, _> = Cell::init(manager.get(MemoryId::new(COUNTER_REGION)), 0);
    assert_eq!(*counter.get(), 3);
}

#[test]
fn garbage_in_a_table_is_refused() {
    for region in [CONTRACT_REGION, CLIENT_REGION, PRODUCER_REGION, ORDER_REGION] {
        let memory = DefaultMemoryImpl::default();
        drop(populated(memory.clone()));
        tamper(&memory, region, 40, vec![1, 2, 3]);
        assert!(Ledger::init(memory).is_none(), "region {}", region);
    }
}

#[test]
fn record_under_a_foreign_identifier_is_refused() {
    let memory = DefaultMemoryImpl::default();
    drop(populated(memory.clone()));
    let c = Client { id: 1, name: "Alice".to_string(), phone: "0123456".to_string(), credits: 0 };
    tamper(&memory, CLIENT_REGION, 2, c.to_bytes());
    assert!(Ledger::init(memory).is_none());
}

#[test]
fn identifier_beyond_the_counter_is_refused() {
    let memory = DefaultMemoryImpl::default();
    drop(populated(memory.clone()));
    let c = Client { id: 3, name: "Carla".to_string(), phone: "0123456".to_string(), credits: 0 };
    tamper(&memory, CLIENT_REGION, 3, c.to_bytes());
    assert!(Ledger::init(memory).is_none());
}

#[test]
fn identifier_shared_by_two_kinds_is_refused() {
    let memory = DefaultMemoryImpl::default();
    drop(populated(memory.clone()));
    let p = Producer {
        id: 1,
        name: "Wind".to_string(),
        password: "hunter2".to_string(),
        phone: "7654321".to_string(),
        energy_supply: 0,
        credits: 0,
    };
    tamper(&memory, PRODUCER_REGION, 1, p.to_bytes());
    assert!(Ledger::init(memory).is_none());
}

#[test]
fn order_of_an_unknown_producer_is_refused() {
    let memory = DefaultMemoryImpl::default();
    drop(populated(memory.clone()));
    let o = CreditOrder {
        id: 2,
        client_id: Some(1),
        producer_id: 1,
        credits: 50,
        min_offer_per_credit: 3,
        paid: false,
    };
    tamper(&memory, ORDER_REGION, 2, o.to_bytes());
    assert!(Ledger::init(memory).is_none());
}

#[test]
fn order_of_an_unknown_client_is_refused() {
    let memory = DefaultMemoryImpl::default();
    drop(populated(memory.clone()));
    let o = CreditOrder {
        id: 2,
        client_id: Some(0),
        producer_id: 0,
        credits: 50,
        min_offer_per_credit: 3,
        paid: false,
    };
    tamper(&memory, ORDER_REGION, 2, o.to_bytes());
    assert!(Ledger::init(memory).is_none());
}

#[test]
fn settled_order_without_a_client_is_refused() {
    let memory = DefaultMemoryImpl::default();
    drop(populated(memory.clone()));
    let o = CreditOrder {
        id: 2,
        client_id: None,
        producer_id: 0,
        credits: 50,
        min_offer_per_credit: 3,
        paid: true,
    };
    tamper(&memory, ORDER_REGION, 2, o.to_bytes());
    assert!(Ledger::init(memory).is_none());
}

#[test]
fn oversized_stored_record_is_refused() {
    let memory = DefaultMemoryImpl::default();
    drop(populated(memory.clone()));
    let c = Client { id: 1, name: "A".repeat(2000), phone: "0123456".to_string(), credits: 0 };
    tamper(&memory, CLIENT_REGION, 1, c.to_bytes());
    assert!(Ledger::init(memory).is_none());
}

#[test]
fn consistent_change_behind_the_ledger_is_accepted() {
    let memory = DefaultMemoryImpl::default();
    drop(populated(memory.clone()));
    let c = Client { id: 1, name: "Alice".to_string(), phone: "0123456".to_string(), credits: 77 };
    tamper(&memory, CLIENT_REGION, 1, c.to_bytes());
    let l = Ledger::init(memory).unwrap();
    assert_eq!(l.get_client(1).unwrap().credits, 77);
}

fn memory_of(bytes: Vec<u8>) -> DefaultMemoryImpl {
    Rc::new(RefCell::new(bytes))
}

fn page_starting_with(head: &[u8]) -> Vec<u8> {
    let mut page = vec![0xaau8; 65536];
    page[..head.len()].copy_from_slice(head);
    page
}

fn scribble(memory: &DefaultMemoryImpl, region: u8, head: &[u8]) {
    let manager = MemoryManager::init(memory.clone());
    let handle = manager.get(MemoryId::new(region));
    if handle.size() == 0 {
        assert_eq!(handle.grow(1), 0);
    }
    handle.write(0, head);
}

#[test]
fn new_ledger_in_a_memory_divided_in_an_unknown_layout() {
    let l = Ledger::new(memory_of(page_starting_with(b"MGR\x02")));
    assert_eq!(l.peek_next_id(), 0);
    assert!(l.get_clients().is_err());
    assert!(l.audit());
}

#[test]
fn new_ledger_in_a_memory_of_any_bytes() {
    for bytes in [vec![], vec![1, 2, 3], vec![0x4d; 100], page_starting_with(b"xyz"), vec![0xff; 70000]] {
        let memory = memory_of(bytes);
        let mut l = Ledger::new(memory.clone());
        assert_eq!(l.peek_next_id(), 0);
        l.add_client(ClientPayload { name: "Alice".to_string(), phone: "0123456".to_string() })
            .unwrap();
        drop(l);
        let l = Ledger::init(memory).unwrap();
        assert_eq!(l.get_client(0).unwrap().name, "Alice");
    }
}

#[test]
fn memory_divided_in_an_unknown_layout_holds_no_ledger() {
    assert!(Ledger::init(memory_of(page_starting_with(b"MGR\x02"))).is_none());
    assert!(Ledger::init(memory_of(page_starting_with(b"MGR\x00"))).is_none());
}

#[test]
fn memory_that_is_not_divided_holds_an_empty_ledger() {
    for bytes in [vec![], vec![b'M', b'G', b'R', 2], page_starting_with(b"MGQ\x01"), vec![7; 65537]] {
        let l = Ledger::init(memory_of(bytes)).unwrap();
        assert_eq!(l.peek_next_id(), 0);
        assert!(l.get_clients().is_err());
        assert!(l.get_all_credit_orders().is_err());
    }
}

#[test]
fn counter_cell_that_cannot_be_loaded_is_refused() {
    let unknown_version = DefaultMemoryImpl::default();
    drop(populated(unknown_version.clone()));
    scribble(&unknown_version, COUNTER_REGION, b"SCL\x02\x08\x00\x00\x00");
    assert!(Ledger::init(unknown_version).is_none());
    let wrong_length = DefaultMemoryImpl::default();
    drop(populated(wrong_length.clone()));
    scribble(&wrong_length, COUNTER_REGION, b"SCL\x01\x04\x00\x00\x00");
    assert!(Ledger::init(wrong_length).is_none());
    let long_length = DefaultMemoryImpl::default();
    drop(populated(long_length.clone()));
    scribble(&long_length, COUNTER_REGION, b"SCL\x01\x08\x00\x00\x01");
    assert!(Ledger::init(long_length).is_none());
}

#[test]
fn region_without_a_cell_gives_a_counter_at_zero() {
    let memory = DefaultMemoryImpl::default();
    drop(Ledger::new(memory.clone()));
    scribble(&memory, COUNTER_REGION, b"SCX\x09");
    let l = Ledger::init(memory).unwrap();
    assert_eq!(l.peek_next_id(), 0);
}

#[test]
fn map_that_cannot_be_loaded_is_refused() {
    for region in [CONTRACT_REGION, CLIENT_REGION, PRODUCER_REGION, ORDER_REGION] {
        for version in [0u8, 1, 3, 255] {
            let memory = DefaultMemoryImpl::default();
            drop(populated(memory.clone()));
            scribble(&memory, region, &[b'B', b'T', b'R', version]);
            assert!(Ledger::init(memory).is_none(), "region {} version {}", region, version);
        }
    }
}

#[test]
fn region_without_a_map_gives_an_empty_table() {
    let memory = DefaultMemoryImpl::default();
    drop(Ledger::new(memory.clone()));
    scribble(&memory, CLIENT_REGION, b"BTX\x07");
    let l = Ledger::init(memory).unwrap();
    assert!(l.get_clients().is_err());
}

#[test]
fn refused_requests_need_no_identifier() {
    let memory = DefaultMemoryImpl::default();
    drop(populated(memory.clone()));
    {
        let manager = MemoryManager::init(memory.clone());
        let mut counter: Cell<u64, _> = Cell::init(manager.get(MemoryId::new(COUNTER_REGION)), 0);
        counter.set(u64::MAX);
    }
    let mut l = Ledger::init(memory).unwrap();
    assert_eq!(l.peek_next_id(), u64::MAX);
    assert!(l.add_client(ClientPayload { name: "A".to_string(), phone: "0123456".to_string() }).is_err());
    assert!(l
        .add_producer(ProducerPayload {
            name: "Solar".to_string(),
            phone: "1".to_string(),
            password: "hunter2".to_string(),
        })
        .is_err());
    assert!(l
        .add_credit_order(CreditOrderPayload { producer_id: 0, credits: 51, min_offer_per_credit: 1 })
        .is_err());
    assert!(l
        .add_credit_order(CreditOrderPayload { producer_id: 9, credits: 1, min_offer_per_credit: 1 })
        .is_err());
    assert_eq!(l.peek_next_id(), u64::MAX);
    assert_eq!(l.get_producer(0).unwrap().credits, 50);
    assert!(l.audit());
}

#[test]
fn memory_headers_are_told_apart() {
    assert_eq!(manager_header(&memory_of(vec![])), Header::Absent);
    assert_eq!(manager_header(&memory_of(vec![b'M', b'G', b'R', 1])), Header::Absent);
    assert_eq!(manager_header(&memory_of(page_starting_with(b"MGS\x01"))), Header::Absent);
    assert_eq!(manager_header(&memory_of(page_starting_with(b"MGR\x01"))), Header::Known);
    assert_eq!(manager_header(&memory_of(page_starting_with(b"MGR\x02"))), Header::Foreign);
    assert_eq!(manager_header(&memory_of(page_starting_with(b"MGR\x00"))), Header::Foreign);
    let memory = DefaultMemoryImpl::default();
    drop(populated(memory.clone()));
    assert_eq!(manager_header(&memory), Header::Known);
}

#[test]
fn forgetting_a_manager_changes_the_first_byte_alone() {
    let mut memory = memory_of(page_starting_with(b"MGR\x02"));
    forget_manager(&mut memory);
    assert_eq!(manager_header(&memory), Header::Absent);
    let mut expected = page_starting_with(b"MGR\x02");
    expected[0] = 0;
    assert_eq!(*memory.borrow(), expected);
    let mut other = memory_of(page_starting_with(b"abc"));
    forget_manager(&mut other);
    assert_eq!(*other.borrow(), page_starting_with(b"abc"));
    let mut small = memory_of(vec![b'M', b'G', b'R']);
    forget_manager(&mut small);
    assert_eq!(*small.borrow(), vec![b'M', b'G', b'R']);
}
