use energy_trading_backend::entity::{Client, CreditOrder, Producer};
use energy_trading_backend::error::{Error, ErrorKind};
use energy_trading_backend::ledger::Ledger;
use energy_trading_backend::payload::{
    BidPayload, ClientPayload, CreditOrderPayload, InitPayload, PaidPayload,
    ProducerEnergyPayload, ProducerPayload, UpdateClientPayload,
};
use ic_stable_structures::DefaultMemoryImpl;

fn fresh() -> Ledger {
    Ledger::new(DefaultMemoryImpl::default())
}

fn configure(l: &mut Ledger, rate: u64) {
    let r = l.init_contract(InitPayload { password: "admin".to_string(), credit_per_energy: rate });
    assert_eq!(r.unwrap(), "Contract initiated successfully");
}

fn client(l: &mut Ledger, name: &str) -> Client {
    l.add_client(ClientPayload { name: name.to_string(), phone: "0123456".to_string() }).unwrap()
}

fn producer(l: &mut Ledger, name: &str) -> Producer {
    l.add_producer(ProducerPayload {
        name: name.to_string(),
        phone: "7654321".to_string(),
        password: "hunter2".to_string(),
    })
    .unwrap()
}

fn award(l: &mut Ledger, producer_id: u64, energy: u64) -> Result<String, Error> {
    l.award_producer_energy(ProducerEnergyPayload {
        contract_password: "admin".to_string(),
        producer_id,
        energy_supply: energy,
    })
}

fn order(l: &mut Ledger, producer_id: u64, credits: u64, min: u64) -> CreditOrder {
    l.add_credit_order(CreditOrderPayload { producer_id, credits, min_offer_per_credit: min })
        .unwrap()
}

fn bid(l: &mut Ledger, client_id: u64, order_id: u64, offer: u64) -> Result<String, Error> {
    l.bid(BidPayload { client_id, credit_order_id: order_id, offer_per_credit: offer })
}

fn settle(l: &mut Ledger, order_id: u64, password: &str) -> Result<String, Error> {
    l.mark_order_paid(PaidPayload { order_id, password: password.to_string() })
}

fn total(l: &Ledger) -> u128 {
    let clients: u128 = match l.get_clients() {
        Ok(v) => v.iter().map(|c| c.credits as u128).sum(),
        Err(_) => 0,
    };
    let producers: u128 = match l.get_producers() {
        Ok(v) => v.iter().map(|p| p.credits as u128).sum(),
        Err(_) => 0,
    };
    clients + producers
}

fn expect(r: Result<String, Error>, kind: ErrorKind, message: &str) {
    let e = r.unwrap_err();
    assert_eq!(e.kind(), kind);
    assert_eq!(e.message(), message);
}

#[test]
fn new_ledger_is_empty() {
    let l = fresh();
    assert_eq!(l.peek_next_id(), 0);
    assert!(l.audit());
    assert_eq!(l.get_clients().unwrap_err().message(), "no clients found");
    assert_eq!(l.get_producers().unwrap_err().message(), "no producers found");
    assert_eq!(l.get_all_credit_orders().unwrap_err().message(), "no credit orders found");
    assert_eq!(
        l.get_all_incomplete_orders().unwrap_err().message(),
        "no incomplete credit orders found"
    );
    assert_eq!(l.get_clients().unwrap_err().kind(), ErrorKind::NotFound);
}

#[test]
fn award_bid_settle_scenario() {
    let mut l = fresh();
    configure(&mut l, 5);
    let p = producer(&mut l, "Solar");
    assert_eq!(p.credits, 0);
    assert_eq!(p.energy_supply, 0);
    assert_eq!(award(&mut l, p.id, 10).unwrap(), format!("Producer id: {} awarded successfully", p.id));
    let shown = l.get_producer(p.id).unwrap();
    assert_eq!(shown.credits, 50);
    assert_eq!(shown.energy_supply, 10);
    let c = client(&mut l, "Alice");
    let o = order(&mut l, p.id, 50, 2);
    assert_eq!(o.client_id, None);
    assert!(!o.paid);
    assert_eq!(o.credits, 50);
    assert_eq!(o.min_offer_per_credit, 2);
    assert_eq!(o.producer_id, p.id);
    assert_eq!(bid(&mut l, c.id, o.id, 3).unwrap(), format!("Client id: {} bid successfully", c.id));
    let claimed = l.get_credit_order_by_id(o.id).unwrap();
    assert_eq!(claimed.client_id, Some(c.id));
    assert_eq!(claimed.min_offer_per_credit, 3);
    assert!(!claimed.paid);
    assert_eq!(
        settle(&mut l, o.id, "hunter2").unwrap(),
        format!("Credit order id: {} marked as paid", o.id)
    );
    assert_eq!(l.get_producer(p.id).unwrap().credits, 47);
    assert_eq!(l.get_client(c.id).unwrap().credits, 3);
    let settled = l.get_credit_order_by_id(o.id).unwrap();
    assert!(settled.paid);
    assert_eq!(settled, CreditOrder { paid: true, ..claimed });
    expect(settle(&mut l, o.id, "hunter2"), ErrorKind::AlreadyPaid, "Credit order has already been paid");
    assert_eq!(l.get_producer(p.id).unwrap().credits, 47);
    assert_eq!(l.get_client(c.id).unwrap().credits, 3);
    assert!(l.audit());
}

#[test]
fn identifiers_are_shared_and_increase() {
    let mut l = fresh();
    configure(&mut l, 1);
    let a = client(&mut l, "Alice");
    let p = producer(&mut l, "Solar");
    let b = client(&mut l, "Bruno");
    award(&mut l, p.id, 5).unwrap();
    let o = order(&mut l, p.id, 1, 1);
    let q = producer(&mut l, "Wind");
    assert_eq!((a.id, p.id, b.id, o.id, q.id), (0, 1, 2, 3, 4));
    assert_eq!(l.peek_next_id(), 5);
    assert_eq!(l.next_id(), 5);
    assert_eq!(l.next_id(), 6);
    assert_eq!(client(&mut l, "Carla").id, 7);
}

#[test]
fn refused_requests_issue_no_identifier() {
    let mut l = fresh();
    assert!(l.add_client(ClientPayload { name: "A".to_string(), phone: "0123456".to_string() }).is_err());
    assert!(l
        .add_producer(ProducerPayload {
            name: "Solar".to_string(),
            phone: "1".to_string(),
            password: "hunter2".to_string()
        })
        .is_err());
    assert!(l
        .add_credit_order(CreditOrderPayload { producer_id: 9, credits: 0, min_offer_per_credit: 0 })
        .is_err());
    assert_eq!(l.peek_next_id(), 0);
    assert_eq!(client(&mut l, "Alice").id, 0);
}

#[test]
fn contract_is_overwritten() {
    let mut l = fresh();
    let p = producer(&mut l, "Solar");
    configure(&mut l, 5);
    let again = l.init_contract(InitPayload { password: "root".to_string(), credit_per_energy: 7 });
    assert_eq!(again.unwrap(), "Contract initiated successfully");
    expect(
        award(&mut l, p.id, 1),
        ErrorKind::Unauthorized,
        "Unauthorized, method only available to contract Admins",
    );
    let r = l.award_producer_energy(ProducerEnergyPayload {
        contract_password: "root".to_string(),
        producer_id: p.id,
        energy_supply: 2,
    });
    assert!(r.is_ok());
    assert_eq!(l.get_producer(p.id).unwrap().credits, 14);
}

#[test]
fn oversized_records_are_refused() {
    let mut l = fresh();
    let long = "x".repeat(2000);
    let e = l
        .init_contract(InitPayload { password: long.clone(), credit_per_energy: 1 })
        .unwrap_err();
    assert_eq!(e.kind(), ErrorKind::InvalidPayload);
    assert_eq!(e.message(), "Contract is too large to be stored");
    let e = l.add_client(ClientPayload { name: long.clone(), phone: "0123456".to_string() }).unwrap_err();
    assert_eq!(e.message(), "Client is too large to be stored");
    let e = l
        .add_producer(ProducerPayload {
            name: "Solar".to_string(),
            phone: "0123456".to_string(),
            password: long.clone(),
        })
        .unwrap_err();
    assert_eq!(e.message(), "Producer is too large to be stored");
    assert_eq!(l.peek_next_id(), 0);
    let c = client(&mut l, "Alice");
    expect(
        l.update_client(UpdateClientPayload { id: c.id, name: long, phone: "1".to_string() }),
        ErrorKind::InvalidPayload,
        "Client is too large to be stored",
    );
    assert_eq!(l.get_client(c.id).unwrap().name, "Alice");
    // 8 + (8 + name) + (8 + 7) + 8 bytes: a name of 985 bytes just fits
    assert!(l
        .add_client(ClientPayload { name: "y".repeat(985), phone: "0123456".to_string() })
        .is_ok());
    assert!(l
        .add_client(ClientPayload { name: "y".repeat(986), phone: "0123456".to_string() })
        .is_err());
}

#[test]
fn clients_are_found_listed_and_updated() {
    let mut l = fresh();
    let e = l.get_client(3).unwrap_err();
    assert_eq!(e.kind(), ErrorKind::NotFound);
    assert_eq!(e.message(), "client with id: 3 not found");
    let a = client(&mut l, "Alice");
    assert_eq!(a, Client { id: 0, name: "Alice".to_string(), phone: "0123456".to_string(), credits: 0 });
    assert_eq!(l.get_client(a.id), Ok(a.clone()));
    let _p = producer(&mut l, "Solar");
    let b = client(&mut l, "Bruno");
    let all = l.get_clients().unwrap();
    assert_eq!(all, vec![a.clone(), b.clone()]);
    assert_eq!(all.len(), 2);
    assert_eq!((all[0].id, all[0].name.as_str()), (a.id, "Alice"));
    assert_eq!((all[1].id, all[1].name.as_str()), (b.id, "Bruno"));
    assert_eq!(all[0].phone, "0123456");
    assert_eq!(all[0].credits, 0);
    let r = l.update_client(UpdateClientPayload {
        id: a.id,
        name: "Al".to_string(),
        phone: "9".to_string(),
    });
    assert_eq!(r.unwrap(), format!("Client id: {} updated successfully", a.id));
    let got = l.get_client(a.id).unwrap();
    assert_eq!((got.id, got.name.as_str(), got.phone.as_str(), got.credits), (a.id, "Al", "9", 0));
    assert_eq!(l.get_client(b.id).unwrap().name, "Bruno");
    expect(
        l.update_client(UpdateClientPayload { id: 1, name: "Al".to_string(), phone: "9".to_string() }),
        ErrorKind::NotFound,
        "Client not found",
    );
    assert_eq!(l.get_client(1).unwrap_err().message(), "client with id: 1 not found");
}

#[test]
fn update_keeps_the_balance() {
    let mut l = fresh();
    let c = client(&mut l, "Alice");
    l.add_credit_to_client(Some(c.id), 9).unwrap();
    l.update_client(UpdateClientPayload { id: c.id, name: "Alicia".to_string(), phone: "55555".to_string() })
        .unwrap();
    let got = l.get_client(c.id).unwrap();
    assert_eq!(got.credits, 9);
    assert_eq!(got.name, "Alicia");
}

#[test]
fn producers_are_found_and_listed_without_passwords() {
    let mut l = fresh();
    let e = l.get_producer(0).unwrap_err();
    assert_eq!(e.kind(), ErrorKind::NotFound);
    assert_eq!(e.message(), "producer with id: 0 not found");
    let _c = client(&mut l, "Alice");
    let p = producer(&mut l, "Solar");
    let q = producer(&mut l, "Wind");
    assert_eq!(p, Producer {
        id: 1,
        name: "Solar".to_string(),
        password: "hunter2".to_string(),
        phone: "7654321".to_string(),
        energy_supply: 0,
        credits: 0
    });
    assert_eq!(p.password, "hunter2");
    configure(&mut l, 3);
    award(&mut l, q.id, 4).unwrap();
    let all = l.get_producers().unwrap();
    assert_eq!(all.len(), 2);
    assert_eq!((all[0].id, all[0].name.as_str(), all[0].credits), (p.id, "Solar", 0));
    assert_eq!((all[1].id, all[1].name.as_str(), all[1].credits), (q.id, "Wind", 12));
    assert_eq!(all[1].energy_supply, 4);
    assert_eq!(all[1].phone, "7654321");
    assert_eq!(l.get_producer(q.id).unwrap().credits, 12);
}

#[test]
fn award_failures() {
    let mut l = fresh();
    expect(award(&mut l, 0, 1), ErrorKind::NotFound, "Producer not found");
    let p = producer(&mut l, "Solar");
    expect(
        award(&mut l, p.id, 1),
        ErrorKind::NotFound,
        "Contract not found, please initialize contract",
    );
    configure(&mut l, 5);
    let r = l.award_producer_energy(ProducerEnergyPayload {
        contract_password: "guess".to_string(),
        producer_id: p.id,
        energy_supply: 1,
    });
    expect(r, ErrorKind::Unauthorized, "Unauthorized, method only available to contract Admins");
    assert_eq!(l.get_producer(p.id).unwrap().credits, 0);
    assert_eq!(l.get_producer(p.id).unwrap().energy_supply, 0);
}

#[test]
fn award_accumulates() {
    let mut l = fresh();
    configure(&mut l, 5);
    let p = producer(&mut l, "Solar");
    award(&mut l, p.id, 10).unwrap();
    award(&mut l, p.id, 0).unwrap();
    award(&mut l, p.id, 3).unwrap();
    let got = l.get_producer(p.id).unwrap();
    assert_eq!(got.energy_supply, 13);
    assert_eq!(got.credits, 65);
}

#[test]
fn award_that_overflows_is_refused() {
    let mut l = fresh();
    configure(&mut l, 2);
    let p = producer(&mut l, "Solar");
    expect(
        award(&mut l, p.id, u64::MAX),
        ErrorKind::InvalidPayload,
        "Award exceeds what a producer can hold",
    );
    award(&mut l, p.id, u64::MAX / 2).unwrap();
    assert_eq!(l.get_producer(p.id).unwrap().credits, u64::MAX - 1);
    expect(award(&mut l, p.id, 1), ErrorKind::InvalidPayload, "Award exceeds what a producer can hold");
    let got = l.get_producer(p.id).unwrap();
    assert_eq!(got.credits, u64::MAX - 1);
    assert_eq!(got.energy_supply, u64::MAX / 2);
    let mut m = fresh();
    configure(&mut m, 0);
    let q = producer(&mut m, "Wind");
    award(&mut m, q.id, u64::MAX).unwrap();
    expect(award(&mut m, q.id, 1), ErrorKind::InvalidPayload, "Award exceeds what a producer can hold");
    assert_eq!(m.get_producer(q.id).unwrap().energy_supply, u64::MAX);
}

#[test]
fn order_needs_a_producer_with_enough_credits() {
    let mut l = fresh();
    configure(&mut l, 5);
    let e = l
        .add_credit_order(CreditOrderPayload { producer_id: 0, credits: 1, min_offer_per_credit: 1 })
        .unwrap_err();
    assert_eq!((e.kind(), e.message().as_str()), (ErrorKind::NotFound, "Producer not found"));
    let p = producer(&mut l, "Solar");
    award(&mut l, p.id, 10).unwrap();
    let e = l
        .add_credit_order(CreditOrderPayload { producer_id: p.id, credits: 51, min_offer_per_credit: 1 })
        .unwrap_err();
    assert_eq!(
        (e.kind(), e.message().as_str()),
        (ErrorKind::InvalidPayload, "Producer does not have enough credits")
    );
    let o = order(&mut l, p.id, 50, 1);
    assert_eq!(o, CreditOrder {
        id: 1,
        client_id: None,
        producer_id: p.id,
        credits: 50,
        min_offer_per_credit: 1,
        paid: false
    });
    // nothing is set aside: a second order for the same credits is placed too
    let second = order(&mut l, p.id, 50, 1);
    assert_eq!(second.id, 2);
    assert_eq!(l.get_producer(p.id).unwrap().credits, 50);
}

#[test]
fn orders_are_found_and_listed() {
    let mut l = fresh();
    configure(&mut l, 5);
    let e = l.get_credit_order_by_id(7).unwrap_err();
    assert_eq!((e.kind(), e.message().as_str()), (ErrorKind::NotFound, "credit order with id: 7 not found"));
    let p = producer(&mut l, "Solar");
    let c = client(&mut l, "Alice");
    award(&mut l, p.id, 10).unwrap();
    let a = order(&mut l, p.id, 10, 1);
    let b = order(&mut l, p.id, 20, 2);
    let d = order(&mut l, p.id, 30, 3);
    bid(&mut l, c.id, b.id, 2).unwrap();
    settle(&mut l, b.id, "hunter2").unwrap();
    let all = l.get_all_credit_orders().unwrap();
    assert_eq!(all.iter().map(|o| o.id).collect::<Vec<u64>>(), vec![a.id, b.id, d.id]);
    assert!(all[1].paid);
    let open = l.get_all_incomplete_orders().unwrap();
    assert_eq!(open, vec![a, d]);
    assert_eq!(l.get_credit_order_by_id(d.id).unwrap(), d);
}

#[test]
fn incomplete_orders_may_be_an_empty_list() {
    let mut l = fresh();
    configure(&mut l, 5);
    let p = producer(&mut l, "Solar");
    let c = client(&mut l, "Alice");
    award(&mut l, p.id, 10).unwrap();
    let o = order(&mut l, p.id, 10, 1);
    bid(&mut l, c.id, o.id, 1).unwrap();
    settle(&mut l, o.id, "hunter2").unwrap();
    assert_eq!(l.get_all_incomplete_orders().unwrap(), vec![]);
    assert_eq!(l.get_all_credit_orders().unwrap().len(), 1);
}

#[test]
fn bid_failures_in_order() {
    let mut l = fresh();
    configure(&mut l, 5);
    let p = producer(&mut l, "Solar");
    let c = client(&mut l, "Alice");
    award(&mut l, p.id, 10).unwrap();
    let o = order(&mut l, p.id, 10, 4);
    expect(bid(&mut l, c.id, 99, 5), ErrorKind::NotFound, "Credit order not found");
    expect(bid(&mut l, 99, 98, 5), ErrorKind::NotFound, "Credit order not found");
    expect(bid(&mut l, 99, o.id, 5), ErrorKind::NotFound, "Client not found");
    expect(bid(&mut l, p.id, o.id, 5), ErrorKind::NotFound, "Client not found");
    expect(
        bid(&mut l, c.id, o.id, 3),
        ErrorKind::InvalidPayload,
        "Client cannot bid for credit order with lower offer_per_credit",
    );
    expect(
        bid(&mut l, 99, o.id, 3),
        ErrorKind::InvalidPayload,
        "Client cannot bid for credit order with lower offer_per_credit",
    );
    assert_eq!(l.get_credit_order_by_id(o.id).unwrap(), o);
    bid(&mut l, c.id, o.id, 4).unwrap();
    expect(
        bid(&mut l, c.id, o.id, 9),
        ErrorKind::InvalidPayload,
        "Client has already bid for credit order",
    );
    expect(
        bid(&mut l, c.id, o.id, 1),
        ErrorKind::InvalidPayload,
        "Client has already bid for credit order",
    );
    settle(&mut l, o.id, "hunter2").unwrap();
    expect(bid(&mut l, c.id, o.id, 9), ErrorKind::AlreadyPaid, "Credit order has already been paid");
    expect(bid(&mut l, 99, o.id, 0), ErrorKind::AlreadyPaid, "Credit order has already been paid");
}

#[test]
fn low_bid_leaves_the_order_unchanged() {
    let mut l = fresh();
    configure(&mut l, 5);
    let p = producer(&mut l, "Solar");
    let a = client(&mut l, "Alice");
    let b = client(&mut l, "Bruno");
    award(&mut l, p.id, 10).unwrap();
    let o = order(&mut l, p.id, 10, 4);
    assert!(bid(&mut l, a.id, o.id, 3).is_err());
    assert_eq!(l.get_credit_order_by_id(o.id).unwrap(), o);
    bid(&mut l, a.id, o.id, 6).unwrap();
    let claimed = l.get_credit_order_by_id(o.id).unwrap();
    assert!(bid(&mut l, b.id, o.id, 5).is_err());
    assert_eq!(l.get_credit_order_by_id(o.id).unwrap(), claimed);
    assert_eq!(claimed.client_id, Some(a.id));
    assert_eq!(claimed.min_offer_per_credit, 6);
}

#[test]
fn another_client_may_outbid() {
    let mut l = fresh();
    configure(&mut l, 5);
    let p = producer(&mut l, "Solar");
    let a = client(&mut l, "Alice");
    let b = client(&mut l, "Bruno");
    award(&mut l, p.id, 10).unwrap();
    let o = order(&mut l, p.id, 10, 4);
    bid(&mut l, a.id, o.id, 4).unwrap();
    bid(&mut l, b.id, o.id, 4).unwrap();
    bid(&mut l, a.id, o.id, 7).unwrap();
    let got = l.get_credit_order_by_id(o.id).unwrap();
    assert_eq!(got.client_id, Some(a.id));
    assert_eq!(got.min_offer_per_credit, 7);
    settle(&mut l, o.id, "hunter2").unwrap();
    assert_eq!(l.get_client(a.id).unwrap().credits, 7);
    assert_eq!(l.get_client(b.id).unwrap().credits, 0);
    assert_eq!(l.get_producer(p.id).unwrap().credits, 43);
}

#[test]
fn settle_failures_in_order() {
    let mut l = fresh();
    configure(&mut l, 5);
    let p = producer(&mut l, "Solar");
    let c = client(&mut l, "Alice");
    award(&mut l, p.id, 10).unwrap();
    let o = order(&mut l, p.id, 10, 4);
    expect(settle(&mut l, 99, "hunter2"), ErrorKind::NotFound, "Credit order not found");
    expect(
        settle(&mut l, o.id, "guess"),
        ErrorKind::Unauthorized,
        "Unauthorized, method only available to producers",
    );
    expect(settle(&mut l, o.id, "hunter2"), ErrorKind::InvalidPayload, "Client has not bid for credit order");
    bid(&mut l, c.id, o.id, 4).unwrap();
    expect(
        settle(&mut l, o.id, "guess"),
        ErrorKind::Unauthorized,
        "Unauthorized, method only available to producers",
    );
    settle(&mut l, o.id, "hunter2").unwrap();
    expect(
        settle(&mut l, o.id, "guess"),
        ErrorKind::Unauthorized,
        "Unauthorized, method only available to producers",
    );
    expect(settle(&mut l, o.id, "hunter2"), ErrorKind::AlreadyPaid, "Credit order has already been paid");
}

#[test]
fn settle_twice_moves_credits_once() {
    let mut l = fresh();
    configure(&mut l, 5);
    let p = producer(&mut l, "Solar");
    let c = client(&mut l, "Alice");
    award(&mut l, p.id, 10).unwrap();
    let o = order(&mut l, p.id, 10, 4);
    bid(&mut l, c.id, o.id, 5).unwrap();
    settle(&mut l, o.id, "hunter2").unwrap();
    let after = (l.get_producer(p.id).unwrap().credits, l.get_client(c.id).unwrap().credits);
    assert_eq!(after, (45, 5));
    let e = settle(&mut l, o.id, "hunter2").unwrap_err();
    assert!(matches!(e, Error::AlreadyPaid { .. }));
    assert_eq!(
        (l.get_producer(p.id).unwrap().credits, l.get_client(c.id).unwrap().credits),
        after
    );
    assert!(l.get_credit_order_by_id(o.id).unwrap().paid);
}

#[test]
fn settle_without_balance_changes_nothing() {
    let mut l = fresh();
    configure(&mut l, 5);
    let p = producer(&mut l, "Solar");
    let c = client(&mut l, "Alice");
    award(&mut l, p.id, 10).unwrap();
    let o = order(&mut l, p.id, 50, 2);
    bid(&mut l, c.id, o.id, 51).unwrap();
    let before = l.get_credit_order_by_id(o.id).unwrap();
    expect(
        settle(&mut l, o.id, "hunter2"),
        ErrorKind::InvalidPayload,
        "Producer does not have enough credits",
    );
    assert_eq!(l.get_producer(p.id).unwrap().credits, 50);
    assert_eq!(l.get_producer(p.id).unwrap().energy_supply, 10);
    assert_eq!(l.get_client(c.id).unwrap().credits, 0);
    assert_eq!(l.get_credit_order_by_id(o.id).unwrap(), before);
    assert!(!before.paid);
}

#[test]
fn two_orders_can_exhaust_a_producer() {
    let mut l = fresh();
    configure(&mut l, 1);
    let p = producer(&mut l, "Solar");
    let c = client(&mut l, "Alice");
    award(&mut l, p.id, 10).unwrap();
    let a = order(&mut l, p.id, 10, 6);
    let b = order(&mut l, p.id, 10, 6);
    bid(&mut l, c.id, a.id, 6).unwrap();
    bid(&mut l, c.id, b.id, 6).unwrap();
    settle(&mut l, a.id, "hunter2").unwrap();
    expect(
        settle(&mut l, b.id, "hunter2"),
        ErrorKind::InvalidPayload,
        "Producer does not have enough credits",
    );
    assert_eq!(l.get_producer(p.id).unwrap().credits, 4);
    assert_eq!(l.get_client(c.id).unwrap().credits, 6);
}

#[test]
fn settle_that_would_overflow_the_client_changes_nothing() {
    let mut l = fresh();
    configure(&mut l, 1);
    let p = producer(&mut l, "Solar");
    let c = client(&mut l, "Alice");
    award(&mut l, p.id, 10).unwrap();
    l.add_credit_to_client(Some(c.id), u64::MAX - 3).unwrap();
    let o = order(&mut l, p.id, 10, 4);
    bid(&mut l, c.id, o.id, 4).unwrap();
    expect(settle(&mut l, o.id, "hunter2"), ErrorKind::InvalidPayload, "Client balance would overflow");
    assert_eq!(l.get_producer(p.id).unwrap().credits, 10);
    assert_eq!(l.get_client(c.id).unwrap().credits, u64::MAX - 3);
    assert!(!l.get_credit_order_by_id(o.id).unwrap().paid);
}

#[test]
fn settlement_moves_the_price_not_the_lot() {
    let mut l = fresh();
    configure(&mut l, 10);
    let p = producer(&mut l, "Solar");
    let c = client(&mut l, "Alice");
    award(&mut l, p.id, 10).unwrap();
    let o = order(&mut l, p.id, 100, 1);
    bid(&mut l, c.id, o.id, 8).unwrap();
    settle(&mut l, o.id, "hunter2").unwrap();
    assert_eq!(l.get_producer(p.id).unwrap().credits, 92);
    assert_eq!(l.get_client(c.id).unwrap().credits, 8);
}

#[test]
fn only_awards_change_the_total() {
    let mut l = fresh();
    assert_eq!(total(&l), 0);
    configure(&mut l, 5);
    let p = producer(&mut l, "Solar");
    let q = producer(&mut l, "Wind");
    let a = client(&mut l, "Alice");
    let b = client(&mut l, "Bruno");
    assert_eq!(total(&l), 0);
    award(&mut l, p.id, 10).unwrap();
    assert_eq!(total(&l), 50);
    award(&mut l, q.id, 4).unwrap();
    assert_eq!(total(&l), 70);
    assert!(award(&mut l, 77, 4).is_err());
    assert_eq!(total(&l), 70);
    let o1 = order(&mut l, p.id, 50, 2);
    let o2 = order(&mut l, q.id, 20, 1);
    assert_eq!(total(&l), 70);
    bid(&mut l, a.id, o1.id, 30).unwrap();
    bid(&mut l, b.id, o2.id, 20).unwrap();
    assert!(bid(&mut l, b.id, o2.id, 1).is_err());
    assert_eq!(total(&l), 70);
    settle(&mut l, o1.id, "hunter2").unwrap();
    assert_eq!(total(&l), 70);
    settle(&mut l, o2.id, "hunter2").unwrap();
    assert_eq!(total(&l), 70);
    assert!(settle(&mut l, o2.id, "hunter2").is_err());
    l.update_client(UpdateClientPayload { id: a.id, name: "Al".to_string(), phone: "1".to_string() })
        .unwrap();
    configure(&mut l, 9);
    assert_eq!(total(&l), 70);
    assert_eq!(l.get_client(a.id).unwrap().credits, 30);
    assert_eq!(l.get_client(b.id).unwrap().credits, 20);
    assert_eq!(l.get_producer(p.id).unwrap().credits, 20);
    assert_eq!(l.get_producer(q.id).unwrap().credits, 0);
    assert!(l.audit());
}

#[test]
fn crediting_a_client() {
    let mut l = fresh();
    assert_eq!(l.add_credit_to_client(None, 5).unwrap(), "Order client not added");
    expect(l.add_credit_to_client(Some(0), 5), ErrorKind::NotFound, "Client not found");
    let c = client(&mut l, "Alice");
    assert_eq!(
        l.add_credit_to_client(Some(c.id), 5).unwrap(),
        format!("Client id: {} credited successfully", c.id)
    );
    assert_eq!(l.get_client(c.id).unwrap().credits, 5);
    l.add_credit_to_client(Some(c.id), u64::MAX - 5).unwrap();
    assert_eq!(l.get_client(c.id).unwrap().credits, u64::MAX);
    expect(
        l.add_credit_to_client(Some(c.id), 1),
        ErrorKind::InvalidPayload,
        "Client balance would overflow",
    );
    assert_eq!(l.get_client(c.id).unwrap().credits, u64::MAX);
    assert_eq!(l.add_credit_to_client(None, 1).unwrap(), "Order client not added");
    assert_eq!(l.get_client(c.id).unwrap().name, "Alice");
}

#[test]
fn debiting_a_producer() {
    let mut l = fresh();
    configure(&mut l, 5);
    expect(l.deduct_credit_from_producer(0, 0), ErrorKind::NotFound, "Producer not found");
    let p = producer(&mut l, "Solar");
    award(&mut l, p.id, 2).unwrap();
    expect(
        l.deduct_credit_from_producer(p.id, 11),
        ErrorKind::InvalidPayload,
        "Producer does not have enough credits",
    );
    assert_eq!(l.get_producer(p.id).unwrap().credits, 10);
    assert_eq!(
        l.deduct_credit_from_producer(p.id, 4).unwrap(),
        format!("Producer id: {} credited successfully", p.id)
    );
    assert_eq!(l.get_producer(p.id).unwrap().credits, 6);
    l.deduct_credit_from_producer(p.id, 6).unwrap();
    let got = l.get_producer(p.id).unwrap();
    assert_eq!((got.credits, got.energy_supply, got.name.as_str()), (0, 2, "Solar"));
    assert!(l.deduct_credit_from_producer(p.id, 1).is_err());
}
