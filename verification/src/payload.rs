//! The requests that the operations take.

use crate::error::{Error, ErrorKind};
use crate::protocol::{
    client_fields_check, producer_fields_check, MIN_NAME_CHARS, MIN_PASSWORD_CHARS,
    MIN_PHONE_CHARS,
};
use validator::ValidateLength;
use vstd::prelude::*;
use vstd::string::StringExecFns;

verus! {

/// `validator`'s length rule with a lower bound alone: whether `value` has
/// at least `min` characters.
#[verifier::external_body]
fn length_at_least(value: &String, min: u64) -> (r: bool)
    ensures
        r == (value@.len() >= min),
{
    value.validate_length(Some(min), None, None)
}

/// A request to set the administrator's settings.
#[derive(Clone, Debug)]
pub struct InitPayload {
    pub password: String,
    pub credit_per_energy: u64,
}

/// A request to register a client.
#[derive(Clone, Debug)]
pub struct ClientPayload {
    pub name: String,
    pub phone: String,
}

/// A request to change a client's name and phone number.
#[derive(Clone, Debug)]
pub struct UpdateClientPayload {
    pub id: u64,
    pub name: String,
    pub phone: String,
}

/// A request to register a producer.
#[derive(Clone, Debug)]
pub struct ProducerPayload {
    pub name: String,
    pub phone: String,
    pub password: String,
}

/// A request to award a producer credits for energy it has supplied.
#[derive(Clone, Debug)]
pub struct ProducerEnergyPayload {
    pub contract_password: String,
    pub producer_id: u64,
    pub energy_supply: u64,
}

/// A request to offer a lot of a producer's credits for sale.
#[derive(Clone, Copy, Debug)]
pub struct CreditOrderPayload {
    pub producer_id: u64,
    pub credits: u64,
    pub min_offer_per_credit: u64,
}

/// A client's bid for an order.
#[derive(Clone, Copy, Debug)]
pub struct BidPayload {
    pub client_id: u64,
    pub credit_order_id: u64,
    pub offer_per_credit: u64,
}

/// A producer's request to settle an order.
#[derive(Clone, Debug)]
pub struct PaidPayload {
    pub order_id: u64,
    pub password: String,
}

impl ClientPayload {
    /// Checks the lengths of the name and the phone number, in this order.
    pub fn validate(&self) -> (r: Result<(), Error>)
        ensures
            match r {
                Ok(_) => client_fields_check(self.name@, self.phone@) is Ok,
                Err(e) => client_fields_check(self.name@, self.phone@) == Err::<(), _>(e@),
            },
    {
        if !length_at_least(&self.name, MIN_NAME_CHARS) {
            Err(
                Error::new(
                    ErrorKind::InvalidPayload,
                    String::from_str("name must have at least 3 characters"),
                ),
            )
        } else if !length_at_least(&self.phone, MIN_PHONE_CHARS) {
            Err(
                Error::new(
                    ErrorKind::InvalidPayload,
                    String::from_str("phone must have at least 5 characters"),
                ),
            )
        } else {
            Ok(())
        }
    }
}

impl ProducerPayload {
    /// Checks the lengths of the name, the phone number and the password,
    /// in this order.
    pub fn validate(&self) -> (r: Result<(), Error>)
        ensures
            match r {
                Ok(_) => producer_fields_check(self.name@, self.phone@, self.password@) is Ok,
                Err(e) => producer_fields_check(self.name@, self.phone@, self.password@) == Err::<
                    (),
                    _,
                >(e@),
            },
    {
        if !length_at_least(&self.name, MIN_NAME_CHARS) {
            Err(
                Error::new(
                    ErrorKind::InvalidPayload,
                    String::from_str("name must have at least 3 characters"),
                ),
            )
        } else if !length_at_least(&self.phone, MIN_PHONE_CHARS) {
            Err(
                Error::new(
                    ErrorKind::InvalidPayload,
                    String::from_str("phone must have at least 5 characters"),
                ),
            )
        } else if !length_at_least(&self.password, MIN_PASSWORD_CHARS) {
            Err(
                Error::new(
                    ErrorKind::InvalidPayload,
                    String::from_str("password must have at least 4 characters"),
                ),
            )
        } else {
            Ok(())
        }
    }
}

} // verus!
