//! The ledger as a state machine over mathematical values: what each
//! operation refuses, and what it changes where it does not refuse.

use crate::entity::{
    Client, ClientModel, Contract, ContractModel, CreditOrder, Producer, ProducerModel,
};
use crate::error::{failure, ErrorKind, Failure};
use crate::record::fits;
use vstd::prelude::*;

verus! {

/// The fewest characters a name may have.
pub const MIN_NAME_CHARS: u64 = 3;

/// The fewest characters a phone number may have.
pub const MIN_PHONE_CHARS: u64 = 5;

/// The fewest characters a producer's password may have.
pub const MIN_PASSWORD_CHARS: u64 = 4;

/// Everything the ledger holds.
#[verifier::ext_equal]
pub struct State {
    /// The identifier that the next new entity gets.
    pub next_id: u64,
    /// The administrator's settings, once they are set.
    pub contract: Option<ContractModel>,
    pub clients: Map<u64, ClientModel>,
    pub producers: Map<u64, ProducerModel>,
    pub orders: Map<u64, CreditOrder>,
}

impl State {
    /// The ledger before anything has happened.
    pub open spec fn empty() -> State {
        State {
            next_id: 0,
            contract: None,
            clients: Map::empty(),
            producers: Map::empty(),
            orders: Map::empty(),
        }
    }

    /// Whether `id` names an entity of any kind.
    pub open spec fn issued(self, id: u64) -> bool {
        self.clients.contains_key(id) || self.producers.contains_key(id)
            || self.orders.contains_key(id)
    }

    /// The client `id` is stored under its own identifier, which the
    /// counter has passed and no producer or order shares.
    pub open spec fn client_ok(self, id: u64) -> bool {
        &&& self.clients[id].id == id
        &&& id < self.next_id
        &&& !self.producers.contains_key(id)
        &&& !self.orders.contains_key(id)
    }

    /// The producer `id` is stored under its own identifier, which the
    /// counter has passed and no order shares.
    pub open spec fn producer_ok(self, id: u64) -> bool {
        &&& self.producers[id].id == id
        &&& id < self.next_id
        &&& !self.orders.contains_key(id)
    }

    /// The order `id` is stored under its own identifier, which the counter
    /// has passed; its producer exists, and so does its client once it has
    /// one; it has a client if it is settled.
    pub open spec fn order_ok(self, id: u64) -> bool {
        &&& self.orders[id].id == id
        &&& id < self.next_id
        &&& self.producers.contains_key(self.orders[id].producer_id)
        &&& self.orders[id].client_id matches Some(c) ==> self.clients.contains_key(c)
        &&& self.orders[id].paid ==> self.orders[id].client_id is Some
    }

    /// The invariant of the ledger: every entity of every kind is in order.
    pub open spec fn wf(self) -> bool {
        &&& forall|id: u64| #[trigger] self.clients.contains_key(id) ==> self.client_ok(id)
        &&& forall|id: u64| #[trigger] self.producers.contains_key(id) ==> self.producer_ok(id)
        &&& forall|id: u64| #[trigger] self.orders.contains_key(id) ==> self.order_ok(id)
    }
}

/// The sum of the balances that `m` holds under keys below `n`.
pub open spec fn sum_below(m: Map<u64, u64>, n: nat) -> nat
    decreases n,
{
    if n == 0 {
        0
    } else {
        let k = (n - 1) as nat;
        sum_below(m, k) + if k <= u64::MAX && m.contains_key(k as u64) {
            m[k as u64] as nat
        } else {
            0
        }
    }
}

/// The sum of all the balances that `m` holds.
pub open spec fn sum_all(m: Map<u64, u64>) -> nat {
    sum_below(m, 0x1_0000_0000_0000_0000)
}

/// The balance of each client.
pub open spec fn client_balances(s: State) -> Map<u64, u64> {
    Map::new(|id: u64| s.clients.contains_key(id), |id: u64| s.clients[id].credits)
}

/// The balance of each producer.
pub open spec fn producer_balances(s: State) -> Map<u64, u64> {
    Map::new(|id: u64| s.producers.contains_key(id), |id: u64| s.producers[id].credits)
}

/// All the credits in the ledger: the balances of the clients and of the
/// producers together.
pub open spec fn total_credits(s: State) -> nat {
    sum_all(client_balances(s)) + sum_all(producer_balances(s))
}

// ---------------------------------------------------------------------
// The identifier counter
// ---------------------------------------------------------------------

/// The state after one identifier has been issued. The identifier issued
/// is `s.next_id`.
pub open spec fn issue(s: State) -> State
    recommends
        s.next_id < u64::MAX,
{
    State { next_id: (s.next_id + 1) as u64, ..s }
}

// ---------------------------------------------------------------------
// The contract
// ---------------------------------------------------------------------

/// Why the settings cannot be set, if they cannot.
pub open spec fn init_contract_check(password: Seq<char>, credit_per_energy: u64) -> Result<
    (),
    Failure,
> {
    if !fits::<Contract>(ContractModel { password, credit_per_energy }) {
        Err(failure(ErrorKind::InvalidPayload, "Contract is too large to be stored"@))
    } else {
        Ok(())
    }
}

/// The state after the settings have been set: whatever was set before is
/// replaced.
pub open spec fn init_contract_effect(
    s: State,
    password: Seq<char>,
    credit_per_energy: u64,
) -> State {
    if init_contract_check(password, credit_per_energy) is Ok {
        State { contract: Some(ContractModel { password, credit_per_energy }), ..s }
    } else {
        s
    }
}

// ---------------------------------------------------------------------
// Clients
// ---------------------------------------------------------------------

/// The client that registration creates under `id`.
pub open spec fn new_client(id: u64, name: Seq<char>, phone: Seq<char>) -> ClientModel {
    ClientModel { id, name, phone, credits: 0 }
}

/// Why a registration names no acceptable client, if it does not.
pub open spec fn client_fields_check(name: Seq<char>, phone: Seq<char>) -> Result<(), Failure> {
    if name.len() < MIN_NAME_CHARS {
        Err(failure(ErrorKind::InvalidPayload, "name must have at least 3 characters"@))
    } else if phone.len() < MIN_PHONE_CHARS {
        Err(failure(ErrorKind::InvalidPayload, "phone must have at least 5 characters"@))
    } else {
        Ok(())
    }
}

/// Why a client cannot be registered, if it cannot.
pub open spec fn add_client_check(s: State, name: Seq<char>, phone: Seq<char>) -> Result<
    (),
    Failure,
> {
    if client_fields_check(name, phone) is Err {
        client_fields_check(name, phone)
    } else if !fits::<Client>(new_client(s.next_id, name, phone)) {
        Err(failure(ErrorKind::InvalidPayload, "Client is too large to be stored"@))
    } else {
        Ok(())
    }
}

/// The state after a registration: the new client has the next identifier
/// and no credits.
pub open spec fn add_client_effect(s: State, name: Seq<char>, phone: Seq<char>) -> State {
    if add_client_check(s, name, phone) is Ok {
        State {
            clients: s.clients.insert(s.next_id, new_client(s.next_id, name, phone)),
            ..issue(s)
        }
    } else {
        s
    }
}

/// The client `c` with a new name and phone number.
pub open spec fn renamed_client(c: ClientModel, name: Seq<char>, phone: Seq<char>) -> ClientModel {
    ClientModel { name, phone, ..c }
}

/// Why a client cannot be updated, if it cannot.
pub open spec fn update_client_check(
    s: State,
    id: u64,
    name: Seq<char>,
    phone: Seq<char>,
) -> Result<(), Failure> {
    if !s.clients.contains_key(id) {
        Err(failure(ErrorKind::NotFound, "Client not found"@))
    } else if !fits::<Client>(renamed_client(s.clients[id], name, phone)) {
        Err(failure(ErrorKind::InvalidPayload, "Client is too large to be stored"@))
    } else {
        Ok(())
    }
}

/// The state after an update: the client keeps its identifier and balance.
pub open spec fn update_client_effect(
    s: State,
    id: u64,
    name: Seq<char>,
    phone: Seq<char>,
) -> State {
    if update_client_check(s, id, name, phone) is Ok {
        State { clients: s.clients.insert(id, renamed_client(s.clients[id], name, phone)), ..s }
    } else {
        s
    }
}

// ---------------------------------------------------------------------
// Producers
// ---------------------------------------------------------------------

/// The producer that registration creates under `id`.
pub open spec fn new_producer(
    id: u64,
    name: Seq<char>,
    phone: Seq<char>,
    password: Seq<char>,
) -> ProducerModel {
    ProducerModel { id, name, password, phone, energy_supply: 0, credits: 0 }
}

/// Why a registration names no acceptable producer, if it does not.
pub open spec fn producer_fields_check(
    name: Seq<char>,
    phone: Seq<char>,
    password: Seq<char>,
) -> Result<(), Failure> {
    if name.len() < MIN_NAME_CHARS {
        Err(failure(ErrorKind::InvalidPayload, "name must have at least 3 characters"@))
    } else if phone.len() < MIN_PHONE_CHARS {
        Err(failure(ErrorKind::InvalidPayload, "phone must have at least 5 characters"@))
    } else if password.len() < MIN_PASSWORD_CHARS {
        Err(failure(ErrorKind::InvalidPayload, "password must have at least 4 characters"@))
    } else {
        Ok(())
    }
}

/// Why a producer cannot be registered, if it cannot.
pub open spec fn add_producer_check(
    s: State,
    name: Seq<char>,
    phone: Seq<char>,
    password: Seq<char>,
) -> Result<(), Failure> {
    if producer_fields_check(name, phone, password) is Err {
        producer_fields_check(name, phone, password)
    } else if !fits::<Producer>(new_producer(s.next_id, name, phone, password)) {
        Err(failure(ErrorKind::InvalidPayload, "Producer is too large to be stored"@))
    } else {
        Ok(())
    }
}

/// The state after a registration: the new producer has the next
/// identifier, no energy supplied and no credits.
pub open spec fn add_producer_effect(
    s: State,
    name: Seq<char>,
    phone: Seq<char>,
    password: Seq<char>,
) -> State {
    if add_producer_check(s, name, phone, password) is Ok {
        State {
            producers: s.producers.insert(
                s.next_id,
                new_producer(s.next_id, name, phone, password),
            ),
            ..issue(s)
        }
    } else {
        s
    }
}

/// The credits that `energy` units of energy earn at `rate` credits a unit.
pub open spec fn minted(energy: u64, rate: u64) -> nat {
    (energy * rate) as nat
}

/// Why an award cannot be made, if it cannot.
pub open spec fn award_check(
    s: State,
    producer_id: u64,
    password: Seq<char>,
    energy: u64,
) -> Result<(), Failure> {
    if !s.producers.contains_key(producer_id) {
        Err(failure(ErrorKind::NotFound, "Producer not found"@))
    } else if s.contract is None {
        Err(failure(ErrorKind::NotFound, "Contract not found, please initialize contract"@))
    } else if s.contract->0.password != password {
        Err(
            failure(
                ErrorKind::Unauthorized,
                "Unauthorized, method only available to contract Admins"@,
            ),
        )
    } else if s.producers[producer_id].energy_supply + energy > u64::MAX
        || s.producers[producer_id].credits + minted(energy, s.contract->0.credit_per_energy)
        > u64::MAX {
        Err(failure(ErrorKind::InvalidPayload, "Award exceeds what a producer can hold"@))
    } else {
        Ok(())
    }
}

/// The producer `p` after it has supplied `energy` more units at `rate`.
pub open spec fn awarded(p: ProducerModel, energy: u64, rate: u64) -> ProducerModel {
    ProducerModel {
        energy_supply: (p.energy_supply + energy) as u64,
        credits: (p.credits + minted(energy, rate)) as u64,
        ..p
    }
}

/// The state after an award: the producer's energy supply grows by
/// `energy` and its balance by the credits that earns.
pub open spec fn award_effect(
    s: State,
    producer_id: u64,
    password: Seq<char>,
    energy: u64,
) -> State {
    if award_check(s, producer_id, password, energy) is Ok {
        State {
            producers: s.producers.insert(
                producer_id,
                awarded(s.producers[producer_id], energy, s.contract->0.credit_per_energy),
            ),
            ..s
        }
    } else {
        s
    }
}

// ---------------------------------------------------------------------
// The two ledger primitives
// ---------------------------------------------------------------------

/// Why `amount` cannot be added to the balance of `client_id`, if it
/// cannot. Without a client there is nothing to do, which is no failure.
pub open spec fn credit_check(s: State, client_id: Option<u64>, amount: u64) -> Result<
    (),
    Failure,
> {
    match client_id {
        None => Ok(()),
        Some(id) => if !s.clients.contains_key(id) {
            Err(failure(ErrorKind::NotFound, "Client not found"@))
        } else if s.clients[id].credits + amount > u64::MAX {
            Err(failure(ErrorKind::InvalidPayload, "Client balance would overflow"@))
        } else {
            Ok(())
        },
    }
}

/// The state after `amount` has been added to the balance of `client_id`.
pub open spec fn credit_effect(s: State, client_id: Option<u64>, amount: u64) -> State {
    match client_id {
        Some(id) if credit_check(s, client_id, amount) is Ok => State {
            clients: s.clients.insert(
                id,
                ClientModel { credits: (s.clients[id].credits + amount) as u64, ..s.clients[id] },
            ),
            ..s
        },
        _ => s,
    }
}

/// Why `amount` cannot be taken from the balance of `producer_id`, if it
/// cannot.
pub open spec fn debit_check(s: State, producer_id: u64, amount: u64) -> Result<(), Failure> {
    if !s.producers.contains_key(producer_id) {
        Err(failure(ErrorKind::NotFound, "Producer not found"@))
    } else if s.producers[producer_id].credits < amount {
        Err(failure(ErrorKind::InvalidPayload, "Producer does not have enough credits"@))
    } else {
        Ok(())
    }
}

/// The state after `amount` has been taken from the balance of
/// `producer_id`.
pub open spec fn debit_effect(s: State, producer_id: u64, amount: u64) -> State {
    if debit_check(s, producer_id, amount) is Ok {
        State {
            producers: s.producers.insert(
                producer_id,
                ProducerModel {
                    credits: (s.producers[producer_id].credits - amount) as u64,
                    ..s.producers[producer_id]
                },
            ),
            ..s
        }
    } else {
        s
    }
}

// ---------------------------------------------------------------------
// Orders
// ---------------------------------------------------------------------

/// The open order that placement creates under `id`.
pub open spec fn new_order(
    id: u64,
    producer_id: u64,
    credits: u64,
    min_offer_per_credit: u64,
) -> CreditOrder {
    CreditOrder { id, client_id: None, producer_id, credits, min_offer_per_credit, paid: false }
}

/// Why an order cannot be placed, if it cannot. The producer's balance is
/// compared with the lot, and nothing is set aside: several open orders of
/// one producer may together exceed its balance.
pub open spec fn add_order_check(s: State, producer_id: u64, credits: u64) -> Result<(), Failure> {
    if !s.producers.contains_key(producer_id) {
        Err(failure(ErrorKind::NotFound, "Producer not found"@))
    } else if s.producers[producer_id].credits < credits {
        Err(failure(ErrorKind::InvalidPayload, "Producer does not have enough credits"@))
    } else {
        Ok(())
    }
}

/// The state after an order has been placed: the new order has the next
/// identifier, and no balance has changed.
pub open spec fn add_order_effect(
    s: State,
    producer_id: u64,
    credits: u64,
    min_offer_per_credit: u64,
) -> State {
    if add_order_check(s, producer_id, credits) is Ok {
        State {
            orders: s.orders.insert(
                s.next_id,
                new_order(s.next_id, producer_id, credits, min_offer_per_credit),
            ),
            ..issue(s)
        }
    } else {
        s
    }
}

/// Why a bid is refused, if it is. The conditions are tried in this order.
pub open spec fn bid_check(s: State, client_id: u64, order_id: u64, offer: u64) -> Result<
    (),
    Failure,
> {
    if !s.orders.contains_key(order_id) {
        Err(failure(ErrorKind::NotFound, "Credit order not found"@))
    } else if s.orders[order_id].paid {
        Err(failure(ErrorKind::AlreadyPaid, "Credit order has already been paid"@))
    } else if s.orders[order_id].client_id == Some(client_id) {
        Err(failure(ErrorKind::InvalidPayload, "Client has already bid for credit order"@))
    } else if s.orders[order_id].min_offer_per_credit > offer {
        Err(
            failure(
                ErrorKind::InvalidPayload,
                "Client cannot bid for credit order with lower offer_per_credit"@,
            ),
        )
    } else if !s.clients.contains_key(client_id) {
        Err(failure(ErrorKind::NotFound, "Client not found"@))
    } else {
        Ok(())
    }
}

/// The order `o` after `client_id` has bid `offer` for it: the bidder is
/// its client and the offer its price. An earlier bid is forgotten.
pub open spec fn claimed(o: CreditOrder, client_id: u64, offer: u64) -> CreditOrder {
    CreditOrder { client_id: Some(client_id), min_offer_per_credit: offer, ..o }
}

/// The state after a bid: only the order changes.
pub open spec fn bid_effect(s: State, client_id: u64, order_id: u64, offer: u64) -> State {
    if bid_check(s, client_id, order_id, offer) is Ok {
        State {
            orders: s.orders.insert(order_id, claimed(s.orders[order_id], client_id, offer)),
            ..s
        }
    } else {
        s
    }
}

/// Why a settlement is refused, if it is. The conditions are tried in this
/// order; the amount that would move is the order's price.
pub open spec fn settle_check(s: State, order_id: u64, password: Seq<char>) -> Result<(), Failure> {
    if !s.orders.contains_key(order_id) {
        Err(failure(ErrorKind::NotFound, "Credit order not found"@))
    } else {
        let o = s.orders[order_id];
        if !s.producers.contains_key(o.producer_id) {
            Err(failure(ErrorKind::NotFound, "Producer not found"@))
        } else if s.producers[o.producer_id].password != password {
            Err(
                failure(
                    ErrorKind::Unauthorized,
                    "Unauthorized, method only available to producers"@,
                ),
            )
        } else if o.paid {
            Err(failure(ErrorKind::AlreadyPaid, "Credit order has already been paid"@))
        } else if o.client_id is None {
            Err(failure(ErrorKind::InvalidPayload, "Client has not bid for credit order"@))
        } else if debit_check(s, o.producer_id, o.min_offer_per_credit) is Err {
            debit_check(s, o.producer_id, o.min_offer_per_credit)
        } else {
            credit_check(s, o.client_id, o.min_offer_per_credit)
        }
    }
}

/// The state after a settlement: the order's price has moved from its
/// producer to its client, and the order is paid.
pub open spec fn settle_effect(s: State, order_id: u64, password: Seq<char>) -> State {
    if settle_check(s, order_id, password) is Ok {
        let o = s.orders[order_id];
        let moved = credit_effect(
            debit_effect(s, o.producer_id, o.min_offer_per_credit),
            o.client_id,
            o.min_offer_per_credit,
        );
        State { orders: moved.orders.insert(order_id, CreditOrder { paid: true, ..o }), ..moved }
    } else {
        s
    }
}

// ---------------------------------------------------------------------
// Histories
// ---------------------------------------------------------------------

/// One request to change the ledger.
pub enum Operation {
    InitContract { password: Seq<char>, credit_per_energy: u64 },
    AddClient { name: Seq<char>, phone: Seq<char> },
    UpdateClient { id: u64, name: Seq<char>, phone: Seq<char> },
    AddProducer { name: Seq<char>, phone: Seq<char>, password: Seq<char> },
    Award { producer_id: u64, password: Seq<char>, energy: u64 },
    AddOrder { producer_id: u64, credits: u64, min_offer_per_credit: u64 },
    Bid { client_id: u64, order_id: u64, offer: u64 },
    Settle { order_id: u64, password: Seq<char> },
}

/// Whether `op` may be asked of `s`: a request that would be granted and
/// creates an entity needs an identifier, and the counter must not have
/// run out. A request that is refused may always be asked.
pub open spec fn admissible(s: State, op: Operation) -> bool {
    match op {
        Operation::AddClient { .. }
        | Operation::AddProducer { .. }
        | Operation::AddOrder { .. } => verdict(s, op) is Ok ==> s.next_id < u64::MAX,
        _ => true,
    }
}

/// The state after `op` has been asked of `s`, granted or refused.
pub open spec fn step(s: State, op: Operation) -> State {
    match op {
        Operation::InitContract { password, credit_per_energy } => init_contract_effect(
            s,
            password,
            credit_per_energy,
        ),
        Operation::AddClient { name, phone } => add_client_effect(s, name, phone),
        Operation::UpdateClient { id, name, phone } => update_client_effect(s, id, name, phone),
        Operation::AddProducer { name, phone, password } => add_producer_effect(
            s,
            name,
            phone,
            password,
        ),
        Operation::Award { producer_id, password, energy } => award_effect(
            s,
            producer_id,
            password,
            energy,
        ),
        Operation::AddOrder { producer_id, credits, min_offer_per_credit } => add_order_effect(
            s,
            producer_id,
            credits,
            min_offer_per_credit,
        ),
        Operation::Bid { client_id, order_id, offer } => bid_effect(s, client_id, order_id, offer),
        Operation::Settle { order_id, password } => settle_effect(s, order_id, password),
    }
}

/// Why `op` is refused when asked of `s`, if it is.
pub open spec fn verdict(s: State, op: Operation) -> Result<(), Failure> {
    match op {
        Operation::InitContract { password, credit_per_energy } => init_contract_check(
            password,
            credit_per_energy,
        ),
        Operation::AddClient { name, phone } => add_client_check(s, name, phone),
        Operation::UpdateClient { id, name, phone } => update_client_check(s, id, name, phone),
        Operation::AddProducer { name, phone, password } => add_producer_check(
            s,
            name,
            phone,
            password,
        ),
        Operation::Award { producer_id, password, energy } => award_check(
            s,
            producer_id,
            password,
            energy,
        ),
        Operation::AddOrder { producer_id, credits, .. } => add_order_check(
            s,
            producer_id,
            credits,
        ),
        Operation::Bid { client_id, order_id, offer } => bid_check(s, client_id, order_id, offer),
        Operation::Settle { order_id, password } => settle_check(s, order_id, password),
    }
}

/// The credits that `op` brings into being when asked of `s`: what a
/// granted award earns, and nothing otherwise.
pub open spec fn minted_by(s: State, op: Operation) -> nat {
    match op {
        Operation::Award { producer_id, password, energy } => if award_check(
            s,
            producer_id,
            password,
            energy,
        ) is Ok {
            minted(energy, s.contract->0.credit_per_energy)
        } else {
            0
        },
        _ => 0,
    }
}

/// The state after the requests `ops` have been asked of `s`, one after
/// another.
pub open spec fn run(s: State, ops: Seq<Operation>) -> State
    decreases ops.len(),
{
    if ops.len() == 0 {
        s
    } else {
        step(run(s, ops.drop_last()), ops.last())
    }
}

/// Whether each of `ops` may be asked in its turn, starting from `s`.
pub open spec fn admissible_run(s: State, ops: Seq<Operation>) -> bool
    decreases ops.len(),
{
    ops.len() > 0 ==> admissible_run(s, ops.drop_last()) && admissible(
        run(s, ops.drop_last()),
        ops.last(),
    )
}

/// All the credits that the requests `ops` bring into being, starting from
/// `s`.
pub open spec fn minted_in(s: State, ops: Seq<Operation>) -> nat
    decreases ops.len(),
{
    if ops.len() == 0 {
        0
    } else {
        minted_in(s, ops.drop_last()) + minted_by(run(s, ops.drop_last()), ops.last())
    }
}

/// What never changes from `s` to a later state `t`: the counter does not
/// go back; no entity disappears or changes its identifier; a producer's
/// energy supply does not shrink; an order keeps its producer and its lot,
/// keeps a client once it has one, never lowers its price, stays settled
/// once it is, and does not change at all after that.
pub open spec fn follows(s: State, t: State) -> bool {
    &&& s.next_id <= t.next_id
    &&& forall|id: u64| #[trigger]
        s.clients.contains_key(id) ==> t.clients.contains_key(id) && t.clients[id].id
            == s.clients[id].id
    &&& forall|id: u64| #[trigger]
        s.producers.contains_key(id) ==> t.producers.contains_key(id) && t.producers[id].id
            == s.producers[id].id && t.producers[id].energy_supply
            >= s.producers[id].energy_supply
    &&& forall|id: u64| #[trigger]
        s.orders.contains_key(id) ==> {
            &&& t.orders.contains_key(id)
            &&& t.orders[id].id == s.orders[id].id
            &&& t.orders[id].producer_id == s.orders[id].producer_id
            &&& t.orders[id].credits == s.orders[id].credits
            &&& t.orders[id].min_offer_per_credit >= s.orders[id].min_offer_per_credit
            &&& s.orders[id].client_id is Some ==> t.orders[id].client_id is Some
            &&& s.orders[id].paid ==> t.orders[id] == s.orders[id]
        }
}

} // verus!
