//! The life of an order: placed by a producer, claimed by a client's bid,
//! settled by the producer.

use crate::entity::CreditOrder;
use crate::error::{failure, Error, ErrorKind};
use crate::laws::{add_order_law, bid_law, credit_law, debit_law, settle_law};
use crate::ledger::Ledger;
use crate::payload::{BidPayload, CreditOrderPayload, PaidPayload};
use crate::protocol::{
    add_order_check, add_order_effect, bid_check, bid_effect, debit_effect, new_order,
    settle_check, settle_effect, total_credits,
};
use crate::table::{no_keys, ordered_values, ordered_values_empty};
use crate::text::{frame, framed};
use vstd::prelude::*;
use vstd::string::StringExecFns;

verus! {

/// Whether an order is not settled yet.
pub open spec fn unpaid() -> spec_fn(CreditOrder) -> bool {
    |o: CreditOrder| !o.paid
}

impl Ledger {
    /// Places an open order for `payload.credits` of the producer's
    /// credits under the next identifier. The producer must hold that many
    /// credits now; they are not set aside, and no balance changes. The
    /// counter must not have run out where the request is granted.
    pub fn add_credit_order(&mut self, payload: CreditOrderPayload) -> (r: Result<
        CreditOrder,
        Error,
    >)
        requires
            old(self).wf(),
            add_order_check(old(self)@, payload.producer_id, payload.credits) is Ok ==> old(
                self,
            )@.next_id < u64::MAX,
        ensures
            final(self).wf(),
            final(self)@.clients == old(self)@.clients,
            final(self)@.producers == old(self)@.producers,
            total_credits(final(self)@) == total_credits(old(self)@),
            final(self)@ =~= add_order_effect(
                old(self)@,
                payload.producer_id,
                payload.credits,
                payload.min_offer_per_credit,
            ),
            match r {
                Ok(o) => add_order_check(old(self)@, payload.producer_id, payload.credits) is Ok
                    && o == new_order(
                    old(self)@.next_id,
                    payload.producer_id,
                    payload.credits,
                    payload.min_offer_per_credit,
                ),
                Err(e) => add_order_check(old(self)@, payload.producer_id, payload.credits)
                    == Err::<(), _>(e@),
            },
    {
        let producer = match self.load_producer(payload.producer_id) {
            Some(producer) => producer,
            None => {
                return Err(
                    Error::new(ErrorKind::NotFound, String::from_str("Producer not found")),
                );
            },
        };
        if producer.credits < payload.credits {
            return Err(
                Error::new(
                    ErrorKind::InvalidPayload,
                    String::from_str("Producer does not have enough credits"),
                ),
            );
        }
        let id = self.next_id();
        let order = CreditOrder {
            id,
            client_id: None,
            producer_id: payload.producer_id,
            credits: payload.credits,
            min_offer_per_credit: payload.min_offer_per_credit,
            paid: false,
        };
        self.save_order(&order);
        proof {
            add_order_law(
                old(self)@,
                payload.producer_id,
                payload.credits,
                payload.min_offer_per_credit,
            );
        }
        Ok(order)
    }

    /// The orders that are not settled, in ascending order of their
    /// identifiers; a failure where the ledger has no order at all.
    pub fn get_all_incomplete_orders(&self) -> (r: Result<Vec<CreditOrder>, Error>)
        requires
            self.wf(),
        ensures
            match r {
                Ok(v) => !no_keys(self@.orders) && v@ == ordered_values(self@.orders).filter(
                    unpaid(),
                ),
                Err(e) => no_keys(self@.orders) && e@ == failure(
                    ErrorKind::NotFound,
                    "no incomplete credit orders found"@,
                ),
            },
    {
        let orders = self.scan_orders();
        proof {
            ordered_values_empty(self@.orders);
        }
        if orders.len() == 0 {
            return Err(
                Error::new(
                    ErrorKind::NotFound,
                    String::from_str("no incomplete credit orders found"),
                ),
            );
        }
        let mut out: Vec<CreditOrder> = Vec::new();
        let mut i: usize = 0;
        while i < orders.len()
            invariant
                i <= orders.len(),
                out@ == orders@.take(i as int).filter(unpaid()),
            decreases orders.len() - i,
        {
            proof {
                reveal(Seq::filter);
                assert(orders@.take(i + 1).drop_last() =~= orders@.take(i as int));
            }
            if !orders[i].paid {
                out.push(orders[i]);
            }
            i += 1;
        }
        assert(orders@.take(i as int) =~= orders@);
        Ok(out)
    }

    /// All the orders, in ascending order of their identifiers; a failure
    /// where there is none.
    pub fn get_all_credit_orders(&self) -> (r: Result<Vec<CreditOrder>, Error>)
        requires
            self.wf(),
        ensures
            match r {
                Ok(v) => !no_keys(self@.orders) && v@ == ordered_values(self@.orders),
                Err(e) => no_keys(self@.orders) && e@ == failure(
                    ErrorKind::NotFound,
                    "no credit orders found"@,
                ),
            },
    {
        let orders = self.scan_orders();
        proof {
            ordered_values_empty(self@.orders);
        }
        if orders.len() == 0 {
            Err(Error::new(ErrorKind::NotFound, String::from_str("no credit orders found")))
        } else {
            Ok(orders)
        }
    }

    /// The order `id`.
    pub fn get_credit_order_by_id(&self, id: u64) -> (r: Result<CreditOrder, Error>)
        requires
            self.wf(),
        ensures
            match r {
                Ok(o) => self@.orders.contains_key(id) && o == self@.orders[id],
                Err(e) => !self@.orders.contains_key(id) && e@ == failure(
                    ErrorKind::NotFound,
                    framed("credit order with id: "@, id, " not found"@),
                ),
            },
    {
        match self.load_order(id) {
            Some(order) => Ok(order),
            None => Err(
                Error::new(
                    ErrorKind::NotFound,
                    frame("credit order with id: ", id, " not found"),
                ),
            ),
        }
    }

    /// Records the bid of the client `payload.client_id` for the order
    /// `payload.credit_order_id`: the bidder becomes the order's client and
    /// the offer its price. A bid below the price, a second bid by the
    /// order's client and a bid for a settled order are refused, and a
    /// refused bid changes nothing. No credits move.
    pub fn bid(&mut self, payload: BidPayload) -> (r: Result<String, Error>)
        requires
            old(self).wf(),
        ensures
            final(self).wf(),
            total_credits(final(self)@) == total_credits(old(self)@),
            final(self)@ =~= bid_effect(
                old(self)@,
                payload.client_id,
                payload.credit_order_id,
                payload.offer_per_credit,
            ),
            match r {
                Ok(msg) => bid_check(
                    old(self)@,
                    payload.client_id,
                    payload.credit_order_id,
                    payload.offer_per_credit,
                ) is Ok && msg@ == framed("Client id: "@, payload.client_id, " bid successfully"@),
                Err(e) => bid_check(
                    old(self)@,
                    payload.client_id,
                    payload.credit_order_id,
                    payload.offer_per_credit,
                ) == Err::<(), _>(e@) && final(self)@ == old(self)@,
            },
    {
        let order = match self.load_order(payload.credit_order_id) {
            Some(order) => order,
            None => {
                return Err(
                    Error::new(ErrorKind::NotFound, String::from_str("Credit order not found")),
                );
            },
        };
        if order.paid {
            return Err(
                Error::new(
                    ErrorKind::AlreadyPaid,
                    String::from_str("Credit order has already been paid"),
                ),
            );
        }
        let already = match order.client_id {
            Some(client_id) => client_id == payload.client_id,
            None => false,
        };
        if already {
            return Err(
                Error::new(
                    ErrorKind::InvalidPayload,
                    String::from_str("Client has already bid for credit order"),
                ),
            );
        }
        if order.min_offer_per_credit > payload.offer_per_credit {
            return Err(
                Error::new(
                    ErrorKind::InvalidPayload,
                    String::from_str(
                        "Client cannot bid for credit order with lower offer_per_credit",
                    ),
                ),
            );
        }
        if self.load_client(payload.client_id).is_none() {
            return Err(Error::new(ErrorKind::NotFound, String::from_str("Client not found")));
        }
        let claimed = CreditOrder {
            id: order.id,
            client_id: Some(payload.client_id),
            producer_id: order.producer_id,
            credits: order.credits,
            min_offer_per_credit: payload.offer_per_credit,
            paid: order.paid,
        };
        proof {
            bid_law(
                old(self)@,
                payload.client_id,
                payload.credit_order_id,
                payload.offer_per_credit,
            );
        }
        self.save_order(&claimed);
        Ok(frame("Client id: ", payload.client_id, " bid successfully"))
    }

    /// Settles the order `payload.order_id` for its producer: the order's
    /// price moves from the producer's balance to the client's, and the
    /// order is paid. Either all of this happens or, where the settlement
    /// is refused, none of it: a producer that holds less than the price
    /// loses nothing, and a settled order is not settled again.
    pub fn mark_order_paid(&mut self, payload: PaidPayload) -> (r: Result<String, Error>)
        requires
            old(self).wf(),
        ensures
            final(self).wf(),
            total_credits(final(self)@) == total_credits(old(self)@),
            final(self)@ =~= settle_effect(old(self)@, payload.order_id, payload.password@),
            match r {
                Ok(msg) => settle_check(old(self)@, payload.order_id, payload.password@) is Ok
                    && msg@ == framed("Credit order id: "@, payload.order_id, " marked as paid"@),
                Err(e) => settle_check(old(self)@, payload.order_id, payload.password@) == Err::<
                    (),
                    _,
                >(e@) && final(self)@ == old(self)@,
            },
    {
        let order = match self.load_order(payload.order_id) {
            Some(order) => order,
            None => {
                return Err(
                    Error::new(ErrorKind::NotFound, String::from_str("Credit order not found")),
                );
            },
        };
        let producer = match self.load_producer(order.producer_id) {
            Some(producer) => producer,
            None => {
                return Err(
                    Error::new(ErrorKind::NotFound, String::from_str("Producer not found")),
                );
            },
        };
        if !(producer.password == payload.password) {
            return Err(
                Error::new(
                    ErrorKind::Unauthorized,
                    String::from_str("Unauthorized, method only available to producers"),
                ),
            );
        }
        if order.paid {
            return Err(
                Error::new(
                    ErrorKind::AlreadyPaid,
                    String::from_str("Credit order has already been paid"),
                ),
            );
        }
        let client_id = match order.client_id {
            Some(client_id) => client_id,
            None => {
                return Err(
                    Error::new(
                        ErrorKind::InvalidPayload,
                        String::from_str("Client has not bid for credit order"),
                    ),
                );
            },
        };
        let price = order.min_offer_per_credit;
        if producer.credits < price {
            return Err(
                Error::new(
                    ErrorKind::InvalidPayload,
                    String::from_str("Producer does not have enough credits"),
                ),
            );
        }
        match self.load_client(client_id) {
            None => {
                return Err(Error::new(ErrorKind::NotFound, String::from_str("Client not found")));
            },
            Some(client) => {
                if client.credits > u64::MAX - price {
                    return Err(
                        Error::new(
                            ErrorKind::InvalidPayload,
                            String::from_str("Client balance would overflow"),
                        ),
                    );
                }
            },
        }
        let ghost before = old(self)@;
        let ghost debited = debit_effect(before, order.producer_id, price);
        proof {
            debit_law(before, order.producer_id, price);
            credit_law(debited, order.client_id, price);
            settle_law(before, payload.order_id, payload.password@);
        }
        if let Err(e) = self.deduct_credit_from_producer(order.producer_id, price) {
            return Err(e);
        }
        if let Err(e) = self.add_credit_to_client(order.client_id, price) {
            return Err(e);
        }
        let settled = CreditOrder {
            id: order.id,
            client_id: order.client_id,
            producer_id: order.producer_id,
            credits: order.credits,
            min_offer_per_credit: order.min_offer_per_credit,
            paid: true,
        };
        self.save_order(&settled);
        Ok(frame("Credit order id: ", payload.order_id, " marked as paid"))
    }
}

} // verus!
