//! What holds of the ledger whatever is asked of it: every operation keeps
//! the invariant, and credits come into being by awards alone.

use crate::entity::{client_wire_len, producer_wire_len, ClientModel, ProducerModel};
use crate::record::MAX_RECORD_BYTES;
use crate::error::{failure, ErrorKind};
use crate::protocol::{
    add_client_check, add_client_effect, add_order_check, add_order_effect, add_producer_check,
    add_producer_effect, admissible, admissible_run, award_check, award_effect, bid_check,
    bid_effect, client_balances, credit_check, credit_effect, debit_check, debit_effect, follows,
    init_contract_effect, issue, minted, minted_by, minted_in, producer_balances, run,
    settle_check, settle_effect, step, sum_all, sum_below, total_credits, update_client_check,
    update_client_effect, verdict, Operation, State, MIN_NAME_CHARS, MIN_PASSWORD_CHARS,
    MIN_PHONE_CHARS,
};
use vstd::utf8::encode_utf8;
use vstd::prelude::*;

verus! {

/// Writing the balance `v` under `k` changes the sum below `n` by the
/// difference between `v` and what was there, where `k` is below `n`.
pub proof fn sum_after_insert(m: Map<u64, u64>, k: u64, v: u64, n: nat)
    ensures
        sum_below(m.insert(k, v), n) + (if k < n && m.contains_key(k) {
            m[k] as nat
        } else {
            0
        }) == sum_below(m, n) + (if k < n {
            v as nat
        } else {
            0
        }),
    decreases n,
{
    if n > 0 {
        sum_after_insert(m, k, v, (n - 1) as nat);
    }
}

/// Writing a balance changes the sum of all balances by the difference
/// between it and what was there.
pub proof fn sum_all_after_insert(m: Map<u64, u64>, k: u64, v: u64)
    ensures
        sum_all(m.insert(k, v)) + (if m.contains_key(k) {
            m[k] as nat
        } else {
            0
        }) == sum_all(m) + v,
{
    sum_after_insert(m, k, v, 0x1_0000_0000_0000_0000);
}

/// Storing a client changes the clients' total by the difference between
/// its balance and the one it had.
pub proof fn total_after_client(s: State, c: ClientModel)
    ensures
        total_credits(State { clients: s.clients.insert(c.id, c), ..s }) + (
        if s.clients.contains_key(c.id) {
            s.clients[c.id].credits as nat
        } else {
            0
        }) == total_credits(s) + c.credits,
{
    let t = State { clients: s.clients.insert(c.id, c), ..s };
    assert(client_balances(t) =~= client_balances(s).insert(c.id, c.credits));
    sum_all_after_insert(client_balances(s), c.id, c.credits);
}

/// Storing a producer changes the producers' total by the difference
/// between its balance and the one it had.
pub proof fn total_after_producer(s: State, p: ProducerModel)
    ensures
        total_credits(State { producers: s.producers.insert(p.id, p), ..s }) + (
        if s.producers.contains_key(p.id) {
            s.producers[p.id].credits as nat
        } else {
            0
        }) == total_credits(s) + p.credits,
{
    let t = State { producers: s.producers.insert(p.id, p), ..s };
    assert(producer_balances(t) =~= producer_balances(s).insert(p.id, p.credits));
    sum_all_after_insert(producer_balances(s), p.id, p.credits);
}

/// The total depends on the balances alone.
pub proof fn total_of_balances(s: State, t: State)
    requires
        s.clients == t.clients,
        s.producers == t.producers,
    ensures
        total_credits(s) == total_credits(t),
{
}

/// Setting the contract keeps the invariant and every balance.
pub proof fn init_contract_law(s: State, password: Seq<char>, credit_per_energy: u64)
    requires
        s.wf(),
    ensures
        init_contract_effect(s, password, credit_per_energy).wf(),
        total_credits(init_contract_effect(s, password, credit_per_energy)) == total_credits(s),
{
    total_of_balances(s, init_contract_effect(s, password, credit_per_energy));
}

/// Registering a client keeps the invariant and the total: the new client
/// has an identifier that no entity had, and no credits.
pub proof fn add_client_law(s: State, name: Seq<char>, phone: Seq<char>)
    requires
        s.wf(),
        add_client_check(s, name, phone) is Ok ==> s.next_id < u64::MAX,
    ensures
        add_client_effect(s, name, phone).wf(),
        total_credits(add_client_effect(s, name, phone)) == total_credits(s),
        add_client_check(s, name, phone) is Ok ==> !s.issued(s.next_id) && add_client_effect(
            s,
            name,
            phone,
        ).issued(s.next_id),
{
    if add_client_check(s, name, phone) is Ok {
        let c = crate::protocol::new_client(s.next_id, name, phone);
        total_after_client(s, c);
        total_of_balances(
            State { clients: s.clients.insert(c.id, c), ..s },
            add_client_effect(s, name, phone),
        );
    }
}

/// Updating a client keeps the invariant and every balance.
pub proof fn update_client_law(s: State, id: u64, name: Seq<char>, phone: Seq<char>)
    requires
        s.wf(),
    ensures
        update_client_effect(s, id, name, phone).wf(),
        total_credits(update_client_effect(s, id, name, phone)) == total_credits(s),
{
    if update_client_check(s, id, name, phone) is Ok {
        total_after_client(s, crate::protocol::renamed_client(s.clients[id], name, phone));
    }
}

/// Registering a producer keeps the invariant and the total: the new
/// producer has an identifier that no entity had, and no credits.
pub proof fn add_producer_law(s: State, name: Seq<char>, phone: Seq<char>, password: Seq<char>)
    requires
        s.wf(),
        add_producer_check(s, name, phone, password) is Ok ==> s.next_id < u64::MAX,
    ensures
        add_producer_effect(s, name, phone, password).wf(),
        total_credits(add_producer_effect(s, name, phone, password)) == total_credits(s),
        add_producer_check(s, name, phone, password) is Ok ==> !s.issued(s.next_id)
            && add_producer_effect(s, name, phone, password).issued(s.next_id),
{
    if add_producer_check(s, name, phone, password) is Ok {
        let p = crate::protocol::new_producer(s.next_id, name, phone, password);
        total_after_producer(s, p);
        total_of_balances(
            State { producers: s.producers.insert(p.id, p), ..s },
            add_producer_effect(s, name, phone, password),
        );
    }
}

/// An award keeps the invariant and adds to the total exactly the credits
/// that the energy earns; a refused award adds nothing.
pub proof fn award_law(s: State, producer_id: u64, password: Seq<char>, energy: u64)
    requires
        s.wf(),
    ensures
        award_effect(s, producer_id, password, energy).wf(),
        total_credits(award_effect(s, producer_id, password, energy)) == total_credits(s) + (
        if award_check(s, producer_id, password, energy) is Ok {
            minted(energy, s.contract->0.credit_per_energy)
        } else {
            0
        }),
{
    if award_check(s, producer_id, password, energy) is Ok {
        total_after_producer(
            s,
            crate::protocol::awarded(
                s.producers[producer_id],
                energy,
                s.contract->0.credit_per_energy,
            ),
        );
    }
}

/// Crediting a client keeps the invariant and adds the amount to the
/// total, where there is a client to credit.
pub proof fn credit_law(s: State, client_id: Option<u64>, amount: u64)
    requires
        s.wf(),
    ensures
        credit_effect(s, client_id, amount).wf(),
        total_credits(credit_effect(s, client_id, amount)) == total_credits(s) + (
        if client_id is Some && credit_check(s, client_id, amount) is Ok {
            amount as nat
        } else {
            0
        }),
{
    if client_id is Some && credit_check(s, client_id, amount) is Ok {
        let id = client_id->0;
        total_after_client(
            s,
            ClientModel { credits: (s.clients[id].credits + amount) as u64, ..s.clients[id] },
        );
    }
}

/// Debiting a producer keeps the invariant and takes the amount from the
/// total; the balance never goes below zero.
pub proof fn debit_law(s: State, producer_id: u64, amount: u64)
    requires
        s.wf(),
    ensures
        debit_effect(s, producer_id, amount).wf(),
        total_credits(debit_effect(s, producer_id, amount)) + (if debit_check(
            s,
            producer_id,
            amount,
        ) is Ok {
            amount as nat
        } else {
            0
        }) == total_credits(s),
{
    if debit_check(s, producer_id, amount) is Ok {
        total_after_producer(
            s,
            ProducerModel {
                credits: (s.producers[producer_id].credits - amount) as u64,
                ..s.producers[producer_id]
            },
        );
    }
}

/// Placing an order keeps the invariant and every balance: nothing is
/// set aside for the order.
pub proof fn add_order_law(s: State, producer_id: u64, credits: u64, min_offer_per_credit: u64)
    requires
        s.wf(),
        add_order_check(s, producer_id, credits) is Ok ==> s.next_id < u64::MAX,
    ensures
        add_order_effect(s, producer_id, credits, min_offer_per_credit).wf(),
        total_credits(add_order_effect(s, producer_id, credits, min_offer_per_credit))
            == total_credits(s),
        add_order_check(s, producer_id, credits) is Ok ==> !s.issued(s.next_id)
            && add_order_effect(s, producer_id, credits, min_offer_per_credit).issued(s.next_id),
{
    total_of_balances(s, add_order_effect(s, producer_id, credits, min_offer_per_credit));
}

/// A bid keeps the invariant and every balance.
pub proof fn bid_law(s: State, client_id: u64, order_id: u64, offer: u64)
    requires
        s.wf(),
    ensures
        bid_effect(s, client_id, order_id, offer).wf(),
        total_credits(bid_effect(s, client_id, order_id, offer)) == total_credits(s),
{
    total_of_balances(s, bid_effect(s, client_id, order_id, offer));
}

/// A settlement keeps the invariant and the total: what the producer
/// loses the client gains.
pub proof fn settle_law(s: State, order_id: u64, password: Seq<char>)
    requires
        s.wf(),
    ensures
        settle_effect(s, order_id, password).wf(),
        total_credits(settle_effect(s, order_id, password)) == total_credits(s),
{
    if settle_check(s, order_id, password) is Ok {
        let o = s.orders[order_id];
        let a = o.min_offer_per_credit;
        let debited = debit_effect(s, o.producer_id, a);
        debit_law(s, o.producer_id, a);
        let moved = credit_effect(debited, o.client_id, a);
        credit_law(debited, o.client_id, a);
        total_of_balances(moved, settle_effect(s, order_id, password));
    }
}

/// Whatever is asked of the ledger, the invariant holds afterwards, and the
/// total of all balances has grown by exactly what the request brought
/// into being: by what it earns if it is a granted award, and by nothing
/// if it is anything else.
pub proof fn step_law(s: State, op: Operation)
    requires
        s.wf(),
        admissible(s, op),
    ensures
        step(s, op).wf(),
        total_credits(step(s, op)) == total_credits(s) + minted_by(s, op),
        !(op is Award) ==> total_credits(step(s, op)) == total_credits(s),
{
    match op {
        Operation::InitContract { password, credit_per_energy } => {
            init_contract_law(s, password, credit_per_energy);
        },
        Operation::AddClient { name, phone } => {
            add_client_law(s, name, phone);
        },
        Operation::UpdateClient { id, name, phone } => {
            update_client_law(s, id, name, phone);
        },
        Operation::AddProducer { name, phone, password } => {
            add_producer_law(s, name, phone, password);
        },
        Operation::Award { producer_id, password, energy } => {
            award_law(s, producer_id, password, energy);
        },
        Operation::AddOrder { producer_id, credits, min_offer_per_credit } => {
            add_order_law(s, producer_id, credits, min_offer_per_credit);
        },
        Operation::Bid { client_id, order_id, offer } => {
            bid_law(s, client_id, order_id, offer);
        },
        Operation::Settle { order_id, password } => {
            settle_law(s, order_id, password);
        },
    }
}

/// Over any history, the total of all balances changes by awards alone: it
/// ends as it began plus what the granted awards of the history earned. So
/// it never shrinks, and a history without awards leaves it as it was.
pub proof fn credits_change_by_awards_alone(s: State, ops: Seq<Operation>)
    requires
        s.wf(),
        admissible_run(s, ops),
    ensures
        run(s, ops).wf(),
        total_credits(run(s, ops)) == total_credits(s) + minted_in(s, ops),
        total_credits(run(s, ops)) >= total_credits(s),
        (forall|i: int| 0 <= i < ops.len() ==> !(#[trigger] ops[i] is Award)) ==> total_credits(
            run(s, ops),
        ) == total_credits(s),
    decreases ops.len(),
{
    if ops.len() > 0 {
        let before = ops.drop_last();
        credits_change_by_awards_alone(s, before);
        step_law(run(s, before), ops.last());
    }
}

/// A request is granted in full or not at all: one that is refused leaves
/// the whole ledger as it was.
pub proof fn refused_changes_nothing(s: State, op: Operation)
    requires
        verdict(s, op) is Err,
    ensures
        step(s, op) == s,
{
}

/// A settlement that was granted is not granted again: asked a second time
/// in the same words it is refused as already paid, asked with any other
/// password it is refused too, and either way nothing changes.
pub proof fn settle_once(s: State, order_id: u64, password: Seq<char>)
    requires
        s.wf(),
        settle_check(s, order_id, password) is Ok,
    ensures
        settle_check(settle_effect(s, order_id, password), order_id, password) == Err::<(), _>(
            failure(ErrorKind::AlreadyPaid, "Credit order has already been paid"@),
        ),
        settle_effect(settle_effect(s, order_id, password), order_id, password) == settle_effect(
            s,
            order_id,
            password,
        ),
        forall|other: Seq<char>|
            settle_check(settle_effect(s, order_id, password), order_id, other) is Err
                && #[trigger] settle_effect(settle_effect(s, order_id, password), order_id, other)
                == settle_effect(s, order_id, password),
{
}

/// A bid below the order's price is refused and changes nothing.
pub proof fn low_bid_refused(s: State, client_id: u64, order_id: u64, offer: u64)
    requires
        s.orders.contains_key(order_id),
        offer < s.orders[order_id].min_offer_per_credit,
    ensures
        bid_check(s, client_id, order_id, offer) is Err,
        bid_effect(s, client_id, order_id, offer) == s,
        !s.orders[order_id].paid && s.orders[order_id].client_id != Some(client_id) ==> bid_check(
            s,
            client_id,
            order_id,
            offer,
        ) == Err::<(), _>(
            failure(
                ErrorKind::InvalidPayload,
                "Client cannot bid for credit order with lower offer_per_credit"@,
            ),
        ),
{
}

/// A settlement whose producer holds less than the order's price is
/// refused and changes nothing: not the producer, not the client, not the
/// order. Where nothing else stands against it, it is refused for want of
/// credits.
pub proof fn settle_needs_balance(s: State, order_id: u64, password: Seq<char>)
    requires
        s.orders.contains_key(order_id),
        s.producers.contains_key(s.orders[order_id].producer_id),
        s.producers[s.orders[order_id].producer_id].credits
            < s.orders[order_id].min_offer_per_credit,
    ensures
        settle_check(s, order_id, password) is Err,
        settle_effect(s, order_id, password) == s,
        s.producers[s.orders[order_id].producer_id].password == password
            && !s.orders[order_id].paid && s.orders[order_id].client_id is Some ==> settle_check(
            s,
            order_id,
            password,
        ) == Err::<(), _>(
            failure(ErrorKind::InvalidPayload, "Producer does not have enough credits"@),
        ),
{
}

/// An identifier is issued once: the one that a new entity gets named no
/// entity of any kind before, and every identifier issued later is
/// greater.
pub proof fn identifiers_never_repeat(s: State)
    requires
        s.wf(),
        s.next_id < u64::MAX,
    ensures
        !s.issued(s.next_id),
        issue(s).next_id > s.next_id,
        forall|id: u64| s.issued(id) ==> id < s.next_id,
{
}

/// Whatever is asked of the ledger, nothing of its past is undone.
pub proof fn step_follows(s: State, op: Operation)
    requires
        s.wf(),
        admissible(s, op),
    ensures
        follows(s, step(s, op)),
        step(s, op).next_id == s.next_id || step(s, op).next_id == s.next_id + 1,
{
}

/// Over any history nothing of the past is undone: the counter only
/// advances, so identifiers come out in strictly increasing order and an
/// entity keeps the one it got; entities are never removed; a settled
/// order never changes again.
pub proof fn history_follows(s: State, ops: Seq<Operation>)
    requires
        s.wf(),
        admissible_run(s, ops),
    ensures
        run(s, ops).wf(),
        follows(s, run(s, ops)),
        forall|id: u64| s.issued(id) ==> id < run(s, ops).next_id && run(s, ops).issued(id),
    decreases ops.len(),
{
    if ops.len() > 0 {
        let before = ops.drop_last();
        history_follows(s, before);
        credits_change_by_awards_alone(s, before);
        step_follows(run(s, before), ops.last());
        step_law(run(s, before), ops.last());
    }
}

/// The identifier that a granted request gives to a new entity is greater
/// than every identifier issued before it and smaller than every
/// identifier issued after it, whatever is asked in between.
pub proof fn identifiers_increase(s: State, first: Operation, ops: Seq<Operation>)
    requires
        s.wf(),
        admissible(s, first),
        step(s, first).next_id != s.next_id,
        admissible_run(step(s, first), ops),
    ensures
        forall|id: u64| s.issued(id) ==> id < s.next_id,
        !s.issued(s.next_id),
        step(s, first).issued(s.next_id),
        s.next_id < run(step(s, first), ops).next_id,
{
    step_law(s, first);
    step_follows(s, first);
    history_follows(step(s, first), ops);
    match first {
        Operation::AddClient { name, phone } => {
            add_client_law(s, name, phone);
        },
        Operation::AddProducer { name, phone, password } => {
            add_producer_law(s, name, phone, password);
        },
        Operation::AddOrder { producer_id, credits, min_offer_per_credit } => {
            add_order_law(s, producer_id, credits, min_offer_per_credit);
        },
        _ => {},
    }
}

/// A client with a name of three characters or more and a phone number of
/// five or more, short enough to be stored, is registered: it gets the
/// counter's value, which named no entity of any kind before, with no
/// credits; the counter advances by one and stays above every identifier;
/// nothing else changes, and the total stays.
pub proof fn valid_client_is_registered(s: State, name: Seq<char>, phone: Seq<char>)
    requires
        s.wf(),
        s.next_id < u64::MAX,
        name.len() >= MIN_NAME_CHARS,
        phone.len() >= MIN_PHONE_CHARS,
        32 + encode_utf8(name).len() + encode_utf8(phone).len() <= MAX_RECORD_BYTES,
    ensures
        add_client_check(s, name, phone) is Ok,
        !s.issued(s.next_id),
        add_client_effect(s, name, phone) == (State {
            next_id: (s.next_id + 1) as u64,
            clients: s.clients.insert(
                s.next_id,
                crate::protocol::new_client(s.next_id, name, phone),
            ),
            ..s
        }),
        forall|id: u64| #[trigger]
            add_client_effect(s, name, phone).issued(id) ==> id < s.next_id + 1,
        total_credits(add_client_effect(s, name, phone)) == total_credits(s),
{
    client_wire_len(crate::protocol::new_client(s.next_id, name, phone));
    add_client_law(s, name, phone);
}

/// A producer with a name of three characters or more, a phone number of
/// five or more and a password of four or more, short enough to be stored,
/// is registered: it gets the counter's value, which named no entity of
/// any kind before, with no energy supplied and no credits; the counter
/// advances by one and stays above every identifier; nothing else changes,
/// and the total stays.
pub proof fn valid_producer_is_registered(
    s: State,
    name: Seq<char>,
    phone: Seq<char>,
    password: Seq<char>,
)
    requires
        s.wf(),
        s.next_id < u64::MAX,
        name.len() >= MIN_NAME_CHARS,
        phone.len() >= MIN_PHONE_CHARS,
        password.len() >= MIN_PASSWORD_CHARS,
        48 + encode_utf8(name).len() + encode_utf8(password).len() + encode_utf8(phone).len()
            <= MAX_RECORD_BYTES,
    ensures
        add_producer_check(s, name, phone, password) is Ok,
        !s.issued(s.next_id),
        add_producer_effect(s, name, phone, password) == (State {
            next_id: (s.next_id + 1) as u64,
            producers: s.producers.insert(
                s.next_id,
                crate::protocol::new_producer(s.next_id, name, phone, password),
            ),
            ..s
        }),
        forall|id: u64| #[trigger]
            add_producer_effect(s, name, phone, password).issued(id) ==> id < s.next_id + 1,
        total_credits(add_producer_effect(s, name, phone, password)) == total_credits(s),
{
    producer_wire_len(crate::protocol::new_producer(s.next_id, name, phone, password));
    add_producer_law(s, name, phone, password);
}

/// An update gives a known client its new name and phone number, where the
/// client is still short enough to be stored, and keeps its identifier and
/// its balance; an unknown client is not found and none is made. Either
/// way every balance, every other entity and the counter stay as they
/// were.
pub proof fn update_changes_name_and_phone_alone(
    s: State,
    id: u64,
    name: Seq<char>,
    phone: Seq<char>,
)
    requires
        s.wf(),
        s.clients.contains_key(id) ==> 32 + encode_utf8(name).len() + encode_utf8(phone).len()
            <= MAX_RECORD_BYTES,
    ensures
        s.clients.contains_key(id) ==> update_client_check(s, id, name, phone) is Ok
            && update_client_effect(s, id, name, phone).clients == s.clients.insert(
            id,
            ClientModel { name, phone, ..s.clients[id] },
        ),
        !s.clients.contains_key(id) ==> update_client_check(s, id, name, phone) == Err::<(), _>(
            failure(ErrorKind::NotFound, "Client not found"@),
        ) && update_client_effect(s, id, name, phone) == s,
        forall|k: u64|
            s.clients.contains_key(k) == #[trigger] update_client_effect(
                s,
                id,
                name,
                phone,
            ).clients.contains_key(k),
        forall|k: u64| #[trigger]
            s.clients.contains_key(k) ==> update_client_effect(
                s,
                id,
                name,
                phone,
            ).clients[k].credits == s.clients[k].credits && update_client_effect(
                s,
                id,
                name,
                phone,
            ).clients[k].id == k,
        update_client_effect(s, id, name, phone).producers == s.producers,
        update_client_effect(s, id, name, phone).orders == s.orders,
        update_client_effect(s, id, name, phone).contract == s.contract,
        update_client_effect(s, id, name, phone).next_id == s.next_id,
        total_credits(update_client_effect(s, id, name, phone)) == total_credits(s),
{
    if s.clients.contains_key(id) {
        client_wire_len(crate::protocol::renamed_client(s.clients[id], name, phone));
    }
    update_client_law(s, id, name, phone);
}

/// Registering a client or a producer moves no credits, whatever the
/// counter is at: the new entity has none, and no other balance changes.
pub proof fn registration_moves_no_credits(
    s: State,
    name: Seq<char>,
    phone: Seq<char>,
    password: Seq<char>,
)
    requires
        s.wf(),
    ensures
        total_credits(add_client_effect(s, name, phone)) == total_credits(s),
        total_credits(add_producer_effect(s, name, phone, password)) == total_credits(s),
        add_client_effect(s, name, phone).producers == s.producers,
        add_producer_effect(s, name, phone, password).clients == s.clients,
{
    if add_client_check(s, name, phone) is Ok {
        let c = crate::protocol::new_client(s.next_id, name, phone);
        total_after_client(s, c);
        total_of_balances(
            State { clients: s.clients.insert(c.id, c), ..s },
            add_client_effect(s, name, phone),
        );
    }
    if add_producer_check(s, name, phone, password) is Ok {
        let p = crate::protocol::new_producer(s.next_id, name, phone, password);
        total_after_producer(s, p);
        total_of_balances(
            State { producers: s.producers.insert(p.id, p), ..s },
            add_producer_effect(s, name, phone, password),
        );
    }
}

/// Placing an order changes no client and no producer, granted or
/// refused: nothing is debited and nothing is set aside.
pub proof fn order_moves_no_credits(
    s: State,
    producer_id: u64,
    credits: u64,
    min_offer_per_credit: u64,
)
    ensures
        add_order_effect(s, producer_id, credits, min_offer_per_credit).clients == s.clients,
        add_order_effect(s, producer_id, credits, min_offer_per_credit).producers == s.producers,
        total_credits(add_order_effect(s, producer_id, credits, min_offer_per_credit))
            == total_credits(s),
{
    total_of_balances(s, add_order_effect(s, producer_id, credits, min_offer_per_credit));
}

} // verus!
