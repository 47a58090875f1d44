//! The operations on the contract, the clients and the producers, and the
//! two primitives that move a balance.

use crate::entity::{client_size, producer_size, shown, Client, Contract, Producer, ProducerReturn};
use crate::error::{failure, Error, ErrorKind};
use crate::laws::{
    add_client_law, add_producer_law, award_law, credit_law, debit_law, init_contract_law,
    update_client_law,
};
use crate::ledger::Ledger;
use crate::payload::{
    ClientPayload, InitPayload, ProducerEnergyPayload, ProducerPayload, UpdateClientPayload,
};
use crate::protocol::{
    add_client_check, add_client_effect, add_producer_check, add_producer_effect, award_check,
    award_effect, credit_check, credit_effect, debit_check, debit_effect, init_contract_check,
    init_contract_effect, new_client, new_producer, total_credits, update_client_check,
    update_client_effect,
};
use crate::table::{no_keys, ordered_values, ordered_values_empty, storable};
use crate::text::{frame, framed};
use vstd::prelude::*;
use vstd::string::StringExecFns;

verus! {

impl Ledger {
    /// Sets the administrator's password and the number of credits awarded
    /// per unit of energy, in place of what was set before.
    pub fn init_contract(&mut self, payload: InitPayload) -> (r: Result<String, Error>)
        requires
            old(self).wf(),
        ensures
            final(self).wf(),
            total_credits(final(self)@) == total_credits(old(self)@),
            final(self)@ =~= init_contract_effect(
                old(self)@,
                payload.password@,
                payload.credit_per_energy,
            ),
            match r {
                Ok(msg) => init_contract_check(payload.password@, payload.credit_per_energy) is Ok
                    && msg@ == "Contract initiated successfully"@,
                Err(e) => init_contract_check(payload.password@, payload.credit_per_energy)
                    == Err::<(), _>(e@),
            },
    {
        let contract = Contract {
            password: payload.password,
            credit_per_energy: payload.credit_per_energy,
        };
        if !storable(&contract) {
            return Err(
                Error::new(
                    ErrorKind::InvalidPayload,
                    String::from_str("Contract is too large to be stored"),
                ),
            );
        }
        self.save_contract(&contract);
        proof {
            init_contract_law(old(self)@, payload.password@, payload.credit_per_energy);
        }
        Ok(String::from_str("Contract initiated successfully"))
    }

    /// Registers a client under the next identifier, with no credits. The
    /// counter must not have run out where the request is granted; a
    /// request that is refused needs no identifier.
    pub fn add_client(&mut self, payload: ClientPayload) -> (r: Result<Client, Error>)
        requires
            old(self).wf(),
            add_client_check(old(self)@, payload.name@, payload.phone@) is Ok ==> old(self)@.next_id
                < u64::MAX,
        ensures
            final(self).wf(),
            total_credits(final(self)@) == total_credits(old(self)@),
            final(self)@ =~= add_client_effect(old(self)@, payload.name@, payload.phone@),
            match r {
                Ok(c) => add_client_check(old(self)@, payload.name@, payload.phone@) is Ok && c@
                    == new_client(old(self)@.next_id, payload.name@, payload.phone@),
                Err(e) => add_client_check(old(self)@, payload.name@, payload.phone@) == Err::<
                    (),
                    _,
                >(e@),
            },
    {
        if let Err(e) = payload.validate() {
            return Err(e);
        }
        let mut client = Client {
            id: self.peek_next_id(),
            name: payload.name,
            phone: payload.phone,
            credits: 0,
        };
        if !storable(&client) {
            return Err(
                Error::new(
                    ErrorKind::InvalidPayload,
                    String::from_str("Client is too large to be stored"),
                ),
            );
        }
        client.id = self.next_id();
        self.save_client(&client);
        proof {
            add_client_law(old(self)@, payload.name@, payload.phone@);
        }
        Ok(client)
    }

    /// The client `id`.
    pub fn get_client(&self, id: u64) -> (r: Result<Client, Error>)
        requires
            self.wf(),
        ensures
            match r {
                Ok(c) => self@.clients.contains_key(id) && c@ == self@.clients[id],
                Err(e) => !self@.clients.contains_key(id) && e@ == failure(
                    ErrorKind::NotFound,
                    framed("client with id: "@, id, " not found"@),
                ),
            },
    {
        match self.load_client(id) {
            Some(client) => Ok(client),
            None => Err(
                Error::new(ErrorKind::NotFound, frame("client with id: ", id, " not found")),
            ),
        }
    }

    /// All the clients, in ascending order of their identifiers; a failure
    /// where there is none.
    pub fn get_clients(&self) -> (r: Result<Vec<Client>, Error>)
        requires
            self.wf(),
        ensures
            match r {
                Ok(v) => !no_keys(self@.clients) && v@.map_values(|c: Client| c@)
                    == ordered_values(self@.clients),
                Err(e) => no_keys(self@.clients) && e@ == failure(
                    ErrorKind::NotFound,
                    "no clients found"@,
                ),
            },
    {
        let clients = self.scan_clients();
        proof {
            ordered_values_empty(self@.clients);
        }
        if clients.len() == 0 {
            Err(Error::new(ErrorKind::NotFound, String::from_str("no clients found")))
        } else {
            Ok(clients)
        }
    }

    /// Gives the client `payload.id` a new name and phone number.
    pub fn update_client(&mut self, payload: UpdateClientPayload) -> (r: Result<String, Error>)
        requires
            old(self).wf(),
        ensures
            final(self).wf(),
            total_credits(final(self)@) == total_credits(old(self)@),
            final(self)@ =~= update_client_effect(
                old(self)@,
                payload.id,
                payload.name@,
                payload.phone@,
            ),
            match r {
                Ok(msg) => update_client_check(
                    old(self)@,
                    payload.id,
                    payload.name@,
                    payload.phone@,
                ) is Ok && msg@ == framed("Client id: "@, payload.id, " updated successfully"@),
                Err(e) => update_client_check(
                    old(self)@,
                    payload.id,
                    payload.name@,
                    payload.phone@,
                ) == Err::<(), _>(e@),
            },
    {
        let client = match self.load_client(payload.id) {
            Some(client) => client,
            None => {
                return Err(Error::new(ErrorKind::NotFound, String::from_str("Client not found")));
            },
        };
        let updated = Client {
            id: client.id,
            name: payload.name,
            phone: payload.phone,
            credits: client.credits,
        };
        if !storable(&updated) {
            return Err(
                Error::new(
                    ErrorKind::InvalidPayload,
                    String::from_str("Client is too large to be stored"),
                ),
            );
        }
        self.save_client(&updated);
        proof {
            update_client_law(old(self)@, payload.id, payload.name@, payload.phone@);
        }
        Ok(frame("Client id: ", payload.id, " updated successfully"))
    }

    /// Registers a producer under the next identifier, with no energy
    /// supplied and no credits. The counter must not have run out where
    /// the request is granted.
    pub fn add_producer(&mut self, payload: ProducerPayload) -> (r: Result<Producer, Error>)
        requires
            old(self).wf(),
            add_producer_check(
                old(self)@,
                payload.name@,
                payload.phone@,
                payload.password@,
            ) is Ok ==> old(self)@.next_id < u64::MAX,
        ensures
            final(self).wf(),
            total_credits(final(self)@) == total_credits(old(self)@),
            final(self)@ =~= add_producer_effect(
                old(self)@,
                payload.name@,
                payload.phone@,
                payload.password@,
            ),
            match r {
                Ok(p) => add_producer_check(
                    old(self)@,
                    payload.name@,
                    payload.phone@,
                    payload.password@,
                ) is Ok && p@ == new_producer(
                    old(self)@.next_id,
                    payload.name@,
                    payload.phone@,
                    payload.password@,
                ),
                Err(e) => add_producer_check(
                    old(self)@,
                    payload.name@,
                    payload.phone@,
                    payload.password@,
                ) == Err::<(), _>(e@),
            },
    {
        if let Err(e) = payload.validate() {
            return Err(e);
        }
        let mut producer = Producer {
            id: self.peek_next_id(),
            name: payload.name,
            password: payload.password,
            phone: payload.phone,
            energy_supply: 0,
            credits: 0,
        };
        if !storable(&producer) {
            return Err(
                Error::new(
                    ErrorKind::InvalidPayload,
                    String::from_str("Producer is too large to be stored"),
                ),
            );
        }
        producer.id = self.next_id();
        self.save_producer(&producer);
        proof {
            add_producer_law(old(self)@, payload.name@, payload.phone@, payload.password@);
        }
        Ok(producer)
    }

    /// Awards the producer `payload.producer_id` credits for the energy it
    /// has supplied, at the contract's rate. This is the one operation that
    /// brings credits into being.
    pub fn award_producer_energy(&mut self, payload: ProducerEnergyPayload) -> (r: Result<
        String,
        Error,
    >)
        requires
            old(self).wf(),
        ensures
            final(self).wf(),
            total_credits(final(self)@) >= total_credits(old(self)@),
            final(self)@ =~= award_effect(
                old(self)@,
                payload.producer_id,
                payload.contract_password@,
                payload.energy_supply,
            ),
            match r {
                Ok(msg) => award_check(
                    old(self)@,
                    payload.producer_id,
                    payload.contract_password@,
                    payload.energy_supply,
                ) is Ok && msg@ == framed(
                    "Producer id: "@,
                    payload.producer_id,
                    " awarded successfully"@,
                ),
                Err(e) => award_check(
                    old(self)@,
                    payload.producer_id,
                    payload.contract_password@,
                    payload.energy_supply,
                ) == Err::<(), _>(e@),
            },
    {
        let producer = match self.load_producer(payload.producer_id) {
            Some(producer) => producer,
            None => {
                return Err(
                    Error::new(ErrorKind::NotFound, String::from_str("Producer not found")),
                );
            },
        };
        let contract = match self.load_contract() {
            Some(contract) => contract,
            None => {
                return Err(
                    Error::new(
                        ErrorKind::NotFound,
                        String::from_str("Contract not found, please initialize contract"),
                    ),
                );
            },
        };
        if !(contract.password == payload.contract_password) {
            return Err(
                Error::new(
                    ErrorKind::Unauthorized,
                    String::from_str("Unauthorized, method only available to contract Admins"),
                ),
            );
        }
        let energy_supply = producer.energy_supply.checked_add(payload.energy_supply);
        let credits = match payload.energy_supply.checked_mul(contract.credit_per_energy) {
            Some(minted) => producer.credits.checked_add(minted),
            None => None,
        };
        let (energy_supply, credits) = match (energy_supply, credits) {
            (Some(energy_supply), Some(credits)) => (energy_supply, credits),
            _ => {
                return Err(
                    Error::new(
                        ErrorKind::InvalidPayload,
                        String::from_str("Award exceeds what a producer can hold"),
                    ),
                );
            },
        };
        let awarded = Producer {
            id: producer.id,
            name: producer.name,
            password: producer.password,
            phone: producer.phone,
            energy_supply,
            credits,
        };
        proof {
            producer_size(old(self)@.producers[payload.producer_id], awarded@);
            award_law(
                old(self)@,
                payload.producer_id,
                payload.contract_password@,
                payload.energy_supply,
            );
        }
        self.save_producer(&awarded);
        Ok(frame("Producer id: ", payload.producer_id, " awarded successfully"))
    }

    /// All the producers without their passwords, in ascending order of
    /// their identifiers; a failure where there is none.
    pub fn get_producers(&self) -> (r: Result<Vec<ProducerReturn>, Error>)
        requires
            self.wf(),
        ensures
            match r {
                Ok(v) => !no_keys(self@.producers) && v@.map_values(|p: ProducerReturn| p@)
                    == ordered_values(self@.producers).map_values(|p| shown(p)),
                Err(e) => no_keys(self@.producers) && e@ == failure(
                    ErrorKind::NotFound,
                    "no producers found"@,
                ),
            },
    {
        let producers = self.scan_producers();
        proof {
            ordered_values_empty(self@.producers);
        }
        if producers.len() == 0 {
            return Err(Error::new(ErrorKind::NotFound, String::from_str("no producers found")));
        }
        let ghost all = producers@.map_values(|p: Producer| p@);
        let mut out: Vec<ProducerReturn> = Vec::new();
        let mut i: usize = 0;
        while i < producers.len()
            invariant
                i <= producers.len(),
                out@.len() == i,
                all == producers@.map_values(|p: Producer| p@),
                forall|j: int| 0 <= j < i ==> (#[trigger] out@[j])@ == shown(all[j]),
            decreases producers.len() - i,
        {
            out.push(producers[i].to_return());
            i += 1;
        }
        Ok(out)
    }

    /// The producer `id` without its password.
    pub fn get_producer(&self, id: u64) -> (r: Result<ProducerReturn, Error>)
        requires
            self.wf(),
        ensures
            match r {
                Ok(p) => self@.producers.contains_key(id) && p@ == shown(self@.producers[id]),
                Err(e) => !self@.producers.contains_key(id) && e@ == failure(
                    ErrorKind::NotFound,
                    framed("producer with id: "@, id, " not found"@),
                ),
            },
    {
        match self.load_producer(id) {
            Some(producer) => Ok(producer.to_return()),
            None => Err(
                Error::new(ErrorKind::NotFound, frame("producer with id: ", id, " not found")),
            ),
        }
    }

    /// Adds `credits` to the balance of the client `client_id`. Without a
    /// client nothing changes, which is no failure.
    pub fn add_credit_to_client(&mut self, client_id: Option<u64>, credits: u64) -> (r: Result<
        String,
        Error,
    >)
        requires
            old(self).wf(),
        ensures
            final(self).wf(),
            final(self)@ =~= credit_effect(old(self)@, client_id, credits),
            match r {
                Ok(msg) => credit_check(old(self)@, client_id, credits) is Ok && msg@ == (
                match client_id {
                    Some(id) => framed("Client id: "@, id, " credited successfully"@),
                    None => "Order client not added"@,
                }),
                Err(e) => credit_check(old(self)@, client_id, credits) == Err::<(), _>(e@),
            },
    {
        let id = match client_id {
            Some(id) => id,
            None => {
                return Ok(String::from_str("Order client not added"));
            },
        };
        let client = match self.load_client(id) {
            Some(client) => client,
            None => {
                return Err(Error::new(ErrorKind::NotFound, String::from_str("Client not found")));
            },
        };
        let balance = match client.credits.checked_add(credits) {
            Some(balance) => balance,
            None => {
                return Err(
                    Error::new(
                        ErrorKind::InvalidPayload,
                        String::from_str("Client balance would overflow"),
                    ),
                );
            },
        };
        let credited = Client {
            id: client.id,
            name: client.name,
            phone: client.phone,
            credits: balance,
        };
        proof {
            client_size(old(self)@.clients[id], credited@);
            credit_law(old(self)@, client_id, credits);
        }
        self.save_client(&credited);
        Ok(frame("Client id: ", id, " credited successfully"))
    }

    /// Takes `credits` from the balance of the producer `producer_id`,
    /// which must hold at least that much.
    pub fn deduct_credit_from_producer(&mut self, producer_id: u64, credits: u64) -> (r: Result<
        String,
        Error,
    >)
        requires
            old(self).wf(),
        ensures
            final(self).wf(),
            final(self)@ =~= debit_effect(old(self)@, producer_id, credits),
            match r {
                Ok(msg) => debit_check(old(self)@, producer_id, credits) is Ok && msg@ == framed(
                    "Producer id: "@,
                    producer_id,
                    " credited successfully"@,
                ),
                Err(e) => debit_check(old(self)@, producer_id, credits) == Err::<(), _>(e@),
            },
    {
        let producer = match self.load_producer(producer_id) {
            Some(producer) => producer,
            None => {
                return Err(
                    Error::new(ErrorKind::NotFound, String::from_str("Producer not found")),
                );
            },
        };
        if producer.credits < credits {
            return Err(
                Error::new(
                    ErrorKind::InvalidPayload,
                    String::from_str("Producer does not have enough credits"),
                ),
            );
        }
        let debited = Producer {
            id: producer.id,
            name: producer.name,
            password: producer.password,
            phone: producer.phone,
            energy_supply: producer.energy_supply,
            credits: producer.credits - credits,
        };
        proof {
            producer_size(old(self)@.producers[producer_id], debited@);
            debit_law(old(self)@, producer_id, credits);
        }
        self.save_producer(&debited);
        Ok(frame("Producer id: ", producer_id, " credited successfully"))
    }
}

} // verus!
