//! The four kinds of record the ledger keeps.

use crate::record::Record;
use crate::wire::{
    flag_reads_back, flag_wire, get_flag, get_maybe, get_text, get_u64, maybe_reads_back,
    maybe_wire, put_flag, put_maybe, put_text, put_u64, read_flag, read_maybe, read_text,
    read_u64, text_reads_back, text_wire, u64_reads_back, u64_wire,
};
use vstd::prelude::*;

verus! {

/// The model of a [`Client`].
pub struct ClientModel {
    pub id: u64,
    pub name: Seq<char>,
    pub phone: Seq<char>,
    pub credits: u64,
}

/// A buyer of credits.
#[derive(Clone, Debug, PartialEq, Eq)]
pub struct Client {
    pub id: u64,
    pub name: String,
    pub phone: String,
    pub credits: u64,
}

impl View for Client {
    type V = ClientModel;

    open spec fn view(&self) -> ClientModel {
        ClientModel { id: self.id, name: self.name@, phone: self.phone@, credits: self.credits }
    }
}

impl Record for Client {
    /// Identifier, name, phone number, balance.
    open spec fn wire(m: ClientModel) -> Seq<u8> {
        u64_wire(m.id) + text_wire(m.name) + text_wire(m.phone) + u64_wire(m.credits)
    }

    open spec fn parse(b: Seq<u8>) -> Option<ClientModel> {
        match read_u64(b, 0) {
            None => None,
            Some((id, a)) => match read_text(b, a) {
                None => None,
                Some((name, c)) => match read_text(b, c) {
                    None => None,
                    Some((phone, d)) => match read_u64(b, d) {
                        None => None,
                        Some((credits, end)) => if end == b.len() {
                            Some(ClientModel { id, name, phone, credits })
                        } else {
                            None
                        },
                    },
                },
            },
        }
    }

    proof fn wire_reads_back(m: ClientModel) {
        let w0 = u64_wire(m.id);
        let w1 = text_wire(m.name);
        let w2 = text_wire(m.phone);
        let w3 = u64_wire(m.credits);
        let all = w0 + w1 + w2 + w3;
        let none = Seq::<u8>::empty();
        assert(all =~= none + w0 + (w1 + w2 + w3));
        u64_reads_back(none, m.id, w1 + w2 + w3);
        assert(all =~= w0 + w1 + (w2 + w3));
        text_reads_back(w0, m.name, w2 + w3);
        assert(all =~= (w0 + w1) + w2 + w3);
        text_reads_back(w0 + w1, m.phone, w3);
        assert(all =~= (w0 + w1 + w2) + w3 + none);
        u64_reads_back(w0 + w1 + w2, m.credits, none);
    }

    fn to_bytes(&self) -> (b: Vec<u8>) {
        let mut b: Vec<u8> = Vec::new();
        put_u64(&mut b, self.id);
        put_text(&mut b, &self.name);
        put_text(&mut b, &self.phone);
        put_u64(&mut b, self.credits);
        b
    }

    fn from_bytes(b: &Vec<u8>) -> (r: Option<Self>) {
        let (id, at) = match get_u64(b, 0) {
            Some(x) => x,
            None => return None,
        };
        let (name, at) = match get_text(b, at) {
            Some(x) => x,
            None => return None,
        };
        let (phone, at) = match get_text(b, at) {
            Some(x) => x,
            None => return None,
        };
        let (credits, at) = match get_u64(b, at) {
            Some(x) => x,
            None => return None,
        };
        if at != b.len() {
            return None;
        }
        Some(Client { id, name, phone, credits })
    }
}

/// The model of a [`Producer`].
pub struct ProducerModel {
    pub id: u64,
    pub name: Seq<char>,
    pub password: Seq<char>,
    pub phone: Seq<char>,
    pub energy_supply: u64,
    pub credits: u64,
}

/// A supplier of renewable energy, who earns credits for it and sells them.
#[derive(Clone, Debug, PartialEq, Eq)]
pub struct Producer {
    pub id: u64,
    pub name: String,
    pub password: String,
    pub phone: String,
    pub energy_supply: u64,
    pub credits: u64,
}

impl View for Producer {
    type V = ProducerModel;

    open spec fn view(&self) -> ProducerModel {
        ProducerModel {
            id: self.id,
            name: self.name@,
            password: self.password@,
            phone: self.phone@,
            energy_supply: self.energy_supply,
            credits: self.credits,
        }
    }
}

impl Record for Producer {
    /// Identifier, name, password, phone number, energy supply, balance.
    open spec fn wire(m: ProducerModel) -> Seq<u8> {
        u64_wire(m.id) + text_wire(m.name) + text_wire(m.password) + text_wire(m.phone) + u64_wire(
            m.energy_supply,
        ) + u64_wire(m.credits)
    }

    open spec fn parse(b: Seq<u8>) -> Option<ProducerModel> {
        match read_u64(b, 0) {
            None => None,
            Some((id, a)) => match read_text(b, a) {
                None => None,
                Some((name, c)) => match read_text(b, c) {
                    None => None,
                    Some((password, d)) => match read_text(b, d) {
                        None => None,
                        Some((phone, e)) => match read_u64(b, e) {
                            None => None,
                            Some((energy_supply, f)) => match read_u64(b, f) {
                                None => None,
                                Some((credits, end)) => if end == b.len() {
                                    Some(
                                        ProducerModel {
                                            id,
                                            name,
                                            password,
                                            phone,
                                            energy_supply,
                                            credits,
                                        },
                                    )
                                } else {
                                    None
                                },
                            },
                        },
                    },
                },
            },
        }
    }

    proof fn wire_reads_back(m: ProducerModel) {
        let w0 = u64_wire(m.id);
        let w1 = text_wire(m.name);
        let w2 = text_wire(m.password);
        let w3 = text_wire(m.phone);
        let w4 = u64_wire(m.energy_supply);
        let w5 = u64_wire(m.credits);
        let all = w0 + w1 + w2 + w3 + w4 + w5;
        let none = Seq::<u8>::empty();
        assert(all =~= none + w0 + (w1 + w2 + w3 + w4 + w5));
        u64_reads_back(none, m.id, w1 + w2 + w3 + w4 + w5);
        assert(all =~= w0 + w1 + (w2 + w3 + w4 + w5));
        text_reads_back(w0, m.name, w2 + w3 + w4 + w5);
        assert(all =~= (w0 + w1) + w2 + (w3 + w4 + w5));
        text_reads_back(w0 + w1, m.password, w3 + w4 + w5);
        assert(all =~= (w0 + w1 + w2) + w3 + (w4 + w5));
        text_reads_back(w0 + w1 + w2, m.phone, w4 + w5);
        assert(all =~= (w0 + w1 + w2 + w3) + w4 + w5);
        u64_reads_back(w0 + w1 + w2 + w3, m.energy_supply, w5);
        assert(all =~= (w0 + w1 + w2 + w3 + w4) + w5 + none);
        u64_reads_back(w0 + w1 + w2 + w3 + w4, m.credits, none);
    }

    fn to_bytes(&self) -> (b: Vec<u8>) {
        let mut b: Vec<u8> = Vec::new();
        put_u64(&mut b, self.id);
        put_text(&mut b, &self.name);
        put_text(&mut b, &self.password);
        put_text(&mut b, &self.phone);
        put_u64(&mut b, self.energy_supply);
        put_u64(&mut b, self.credits);
        b
    }

    fn from_bytes(b: &Vec<u8>) -> (r: Option<Self>) {
        let (id, at) = match get_u64(b, 0) {
            Some(x) => x,
            None => return None,
        };
        let (name, at) = match get_text(b, at) {
            Some(x) => x,
            None => return None,
        };
        let (password, at) = match get_text(b, at) {
            Some(x) => x,
            None => return None,
        };
        let (phone, at) = match get_text(b, at) {
            Some(x) => x,
            None => return None,
        };
        let (energy_supply, at) = match get_u64(b, at) {
            Some(x) => x,
            None => return None,
        };
        let (credits, at) = match get_u64(b, at) {
            Some(x) => x,
            None => return None,
        };
        if at != b.len() {
            return None;
        }
        Some(Producer { id, name, password, phone, energy_supply, credits })
    }
}

/// A producer as it is shown to others: without its password.
#[derive(Clone, Debug, PartialEq, Eq)]
pub struct ProducerReturn {
    pub id: u64,
    pub name: String,
    pub phone: String,
    pub energy_supply: u64,
    pub credits: u64,
}

/// The model of a [`ProducerReturn`].
pub struct ProducerReturnModel {
    pub id: u64,
    pub name: Seq<char>,
    pub phone: Seq<char>,
    pub energy_supply: u64,
    pub credits: u64,
}

impl View for ProducerReturn {
    type V = ProducerReturnModel;

    open spec fn view(&self) -> ProducerReturnModel {
        ProducerReturnModel {
            id: self.id,
            name: self.name@,
            phone: self.phone@,
            energy_supply: self.energy_supply,
            credits: self.credits,
        }
    }
}

/// What is shown of the producer `p`.
pub open spec fn shown(p: ProducerModel) -> ProducerReturnModel {
    ProducerReturnModel {
        id: p.id,
        name: p.name,
        phone: p.phone,
        energy_supply: p.energy_supply,
        credits: p.credits,
    }
}

impl Producer {
    /// This producer without its password.
    pub fn to_return(&self) -> (r: ProducerReturn)
        ensures
            r@ == shown(self@),
    {
        ProducerReturn {
            id: self.id,
            name: self.name.clone(),
            phone: self.phone.clone(),
            energy_supply: self.energy_supply,
            credits: self.credits,
        }
    }
}

/// A producer's offer to sell a lot of credits. It is open while it has no
/// client, claimed once a client has bid, and settled once it is paid.
#[derive(Clone, Copy, Debug, PartialEq, Eq)]
pub struct CreditOrder {
    pub id: u64,
    pub client_id: Option<u64>,
    pub producer_id: u64,
    pub credits: u64,
    pub min_offer_per_credit: u64,
    pub paid: bool,
}

impl View for CreditOrder {
    type V = CreditOrder;

    open spec fn view(&self) -> CreditOrder {
        *self
    }
}

impl Record for CreditOrder {
    /// Identifier, client if any, producer, lot, price, whether it is paid.
    open spec fn wire(m: CreditOrder) -> Seq<u8> {
        u64_wire(m.id) + maybe_wire(m.client_id) + u64_wire(m.producer_id) + u64_wire(m.credits)
            + u64_wire(m.min_offer_per_credit) + flag_wire(m.paid)
    }

    open spec fn parse(b: Seq<u8>) -> Option<CreditOrder> {
        match read_u64(b, 0) {
            None => None,
            Some((id, a)) => match read_maybe(b, a) {
                None => None,
                Some((client_id, c)) => match read_u64(b, c) {
                    None => None,
                    Some((producer_id, d)) => match read_u64(b, d) {
                        None => None,
                        Some((credits, e)) => match read_u64(b, e) {
                            None => None,
                            Some((min_offer_per_credit, f)) => match read_flag(b, f) {
                                None => None,
                                Some((paid, end)) => if end == b.len() {
                                    Some(
                                        CreditOrder {
                                            id,
                                            client_id,
                                            producer_id,
                                            credits,
                                            min_offer_per_credit,
                                            paid,
                                        },
                                    )
                                } else {
                                    None
                                },
                            },
                        },
                    },
                },
            },
        }
    }

    proof fn wire_reads_back(m: CreditOrder) {
        let w0 = u64_wire(m.id);
        let w1 = maybe_wire(m.client_id);
        let w2 = u64_wire(m.producer_id);
        let w3 = u64_wire(m.credits);
        let w4 = u64_wire(m.min_offer_per_credit);
        let w5 = flag_wire(m.paid);
        let all = w0 + w1 + w2 + w3 + w4 + w5;
        let none = Seq::<u8>::empty();
        assert(all =~= none + w0 + (w1 + w2 + w3 + w4 + w5));
        u64_reads_back(none, m.id, w1 + w2 + w3 + w4 + w5);
        assert(all =~= w0 + w1 + (w2 + w3 + w4 + w5));
        maybe_reads_back(w0, m.client_id, w2 + w3 + w4 + w5);
        assert(all =~= (w0 + w1) + w2 + (w3 + w4 + w5));
        u64_reads_back(w0 + w1, m.producer_id, w3 + w4 + w5);
        assert(all =~= (w0 + w1 + w2) + w3 + (w4 + w5));
        u64_reads_back(w0 + w1 + w2, m.credits, w4 + w5);
        assert(all =~= (w0 + w1 + w2 + w3) + w4 + w5);
        u64_reads_back(w0 + w1 + w2 + w3, m.min_offer_per_credit, w5);
        assert(all =~= (w0 + w1 + w2 + w3 + w4) + w5 + none);
        flag_reads_back(w0 + w1 + w2 + w3 + w4, m.paid, none);
    }

    fn to_bytes(&self) -> (b: Vec<u8>) {
        let mut b: Vec<u8> = Vec::new();
        put_u64(&mut b, self.id);
        put_maybe(&mut b, self.client_id);
        put_u64(&mut b, self.producer_id);
        put_u64(&mut b, self.credits);
        put_u64(&mut b, self.min_offer_per_credit);
        put_flag(&mut b, self.paid);
        b
    }

    fn from_bytes(b: &Vec<u8>) -> (r: Option<Self>) {
        let (id, at) = match get_u64(b, 0) {
            Some(x) => x,
            None => return None,
        };
        let (client_id, at) = match get_maybe(b, at) {
            Some(x) => x,
            None => return None,
        };
        let (producer_id, at) = match get_u64(b, at) {
            Some(x) => x,
            None => return None,
        };
        let (credits, at) = match get_u64(b, at) {
            Some(x) => x,
            None => return None,
        };
        let (min_offer_per_credit, at) = match get_u64(b, at) {
            Some(x) => x,
            None => return None,
        };
        let (paid, at) = match get_flag(b, at) {
            Some(x) => x,
            None => return None,
        };
        if at != b.len() {
            return None;
        }
        Some(CreditOrder { id, client_id, producer_id, credits, min_offer_per_credit, paid })
    }
}

/// The model of a [`Contract`].
pub struct ContractModel {
    pub password: Seq<char>,
    pub credit_per_energy: u64,
}

/// The administrator's settings: the password that authorises awards and
/// the number of credits awarded per unit of energy.
#[derive(Clone, Debug, PartialEq, Eq)]
pub struct Contract {
    pub password: String,
    pub credit_per_energy: u64,
}

impl View for Contract {
    type V = ContractModel;

    open spec fn view(&self) -> ContractModel {
        ContractModel { password: self.password@, credit_per_energy: self.credit_per_energy }
    }
}

impl Record for Contract {
    /// Password, credits per unit of energy.
    open spec fn wire(m: ContractModel) -> Seq<u8> {
        text_wire(m.password) + u64_wire(m.credit_per_energy)
    }

    open spec fn parse(b: Seq<u8>) -> Option<ContractModel> {
        match read_text(b, 0) {
            None => None,
            Some((password, a)) => match read_u64(b, a) {
                None => None,
                Some((credit_per_energy, end)) => if end == b.len() {
                    Some(ContractModel { password, credit_per_energy })
                } else {
                    None
                },
            },
        }
    }

    proof fn wire_reads_back(m: ContractModel) {
        let w0 = text_wire(m.password);
        let w1 = u64_wire(m.credit_per_energy);
        let all = w0 + w1;
        let none = Seq::<u8>::empty();
        assert(all =~= none + w0 + w1);
        text_reads_back(none, m.password, w1);
        assert(all =~= w0 + w1 + none);
        u64_reads_back(w0, m.credit_per_energy, none);
    }

    fn to_bytes(&self) -> (b: Vec<u8>) {
        let mut b: Vec<u8> = Vec::new();
        put_text(&mut b, &self.password);
        put_u64(&mut b, self.credit_per_energy);
        b
    }

    fn from_bytes(b: &Vec<u8>) -> (r: Option<Self>) {
        let (password, at) = match get_text(b, 0) {
            Some(x) => x,
            None => return None,
        };
        let (credit_per_energy, at) = match get_u64(b, at) {
            Some(x) => x,
            None => return None,
        };
        if at != b.len() {
            return None;
        }
        Some(Contract { password, credit_per_energy })
    }
}

/// The byte form of a client is as long whatever its identifier and
/// balance are.
pub proof fn client_size(a: ClientModel, b: ClientModel)
    requires
        a.name == b.name,
        a.phone == b.phone,
    ensures
        Client::wire(a).len() == Client::wire(b).len(),
{
    vstd::bytes::lemma_auto_spec_u64_to_from_le_bytes();
}

/// The byte form of a producer is as long whatever its identifier, energy
/// supply and balance are.
pub proof fn producer_size(a: ProducerModel, b: ProducerModel)
    requires
        a.name == b.name,
        a.password == b.password,
        a.phone == b.phone,
    ensures
        Producer::wire(a).len() == Producer::wire(b).len(),
{
    vstd::bytes::lemma_auto_spec_u64_to_from_le_bytes();
}

/// The byte form of an order has at most 42 bytes.
pub proof fn order_size(o: CreditOrder)
    ensures
        CreditOrder::wire(o).len() <= 42,
{
    vstd::bytes::lemma_auto_spec_u64_to_from_le_bytes();
}

/// The byte form of a client has 32 bytes besides the UTF-8 forms of its
/// name and its phone number.
pub proof fn client_wire_len(m: ClientModel)
    ensures
        Client::wire(m).len() == 32 + vstd::utf8::encode_utf8(m.name).len()
            + vstd::utf8::encode_utf8(m.phone).len(),
{
    vstd::bytes::lemma_auto_spec_u64_to_from_le_bytes();
}

/// The byte form of a producer has 48 bytes besides the UTF-8 forms of its
/// name, its password and its phone number.
pub proof fn producer_wire_len(m: ProducerModel)
    ensures
        Producer::wire(m).len() == 48 + vstd::utf8::encode_utf8(m.name).len()
            + vstd::utf8::encode_utf8(m.password).len() + vstd::utf8::encode_utf8(m.phone).len(),
{
    vstd::bytes::lemma_auto_spec_u64_to_from_le_bytes();
}

/// The byte form of a contract has 16 bytes besides the UTF-8 form of its
/// password.
pub proof fn contract_wire_len(m: ContractModel)
    ensures
        Contract::wire(m).len() == 16 + vstd::utf8::encode_utf8(m.password).len(),
{
    vstd::bytes::lemma_auto_spec_u64_to_from_le_bytes();
}

} // verus!
