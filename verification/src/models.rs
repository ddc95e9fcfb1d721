//! The records that the aggregator keeps: one plain value per observed
//! account, position, order and transaction.

use crate::live::{Account, Moment, Order, Position, Transaction};
use vstd::prelude::*;
use vstd::std_specs::cmp::PartialEqSpecImpl;
use vstd::std_specs::convert::FromSpecImpl;

verus! {

/// A monetary amount or quantity, carried as the 64 bits of an IEEE-754
/// double. The library stores and hands back amounts and never computes on them.
#[derive(Copy, Debug)]
pub struct Amount {
    pub bits: u64,
}

impl Clone for Amount {
    fn clone(&self) -> (res: Self)
        ensures
            res == *self,
    {
        Amount { bits: self.bits }
    }
}

impl Amount {
    /// The amount with the given bit pattern.
    pub fn from_bits(bits: u64) -> (amount: Self)
        ensures
            amount.bits == bits,
    {
        Amount { bits }
    }

    /// The bit pattern of the amount.
    pub fn to_bits(&self) -> (bits: u64)
        ensures
            bits == self.bits,
    {
        self.bits
    }
}

/// What an account showed at one instant.
#[derive(Debug)]
pub struct AccountRecord {
    pub name: String,
    pub id: u128,
    pub available_cash: Amount,
    pub frozen_cash: Amount,
    pub market_value: Amount,
    pub total_value: Amount,
    pub transaction_cost: Amount,
    pub updated_at: String,
    pub timestamp: i64,
}

impl Clone for AccountRecord {
    fn clone(&self) -> (res: Self)
        ensures
            res == *self,
    {
        AccountRecord {
            name: self.name.clone(),
            id: self.id,
            available_cash: self.available_cash,
            frozen_cash: self.frozen_cash,
            market_value: self.market_value,
            total_value: self.total_value,
            transaction_cost: self.transaction_cost,
            updated_at: self.updated_at.clone(),
            timestamp: self.timestamp,
        }
    }
}

impl<'a> FromSpecImpl<(&'a Account, &'a Moment)> for AccountRecord {
    open spec fn obeys_from_spec() -> bool {
        true
    }

    /// The record of `account` taken at `now`: the account's own figures,
    /// stamped with the instant.
    open spec fn from_spec(source: (&'a Account, &'a Moment)) -> Self {
        AccountRecord {
            name: source.0.name,
            id: source.0.id,
            available_cash: source.0.available_cash,
            frozen_cash: source.0.frozen_cash,
            market_value: source.0.market_value,
            total_value: source.0.total_value,
            transaction_cost: source.0.transaction_cost,
            updated_at: source.1.text,
            timestamp: source.1.timestamp,
        }
    }
}

impl<'a> From<(&'a Account, &'a Moment)> for AccountRecord {
    fn from(source: (&'a Account, &'a Moment)) -> (record: Self) {
        let (account, now) = source;
        AccountRecord {
            name: account.name.clone(),
            id: account.id,
            available_cash: account.available_cash,
            frozen_cash: account.frozen_cash,
            market_value: account.market_value,
            total_value: account.total_value,
            transaction_cost: account.transaction_cost,
            updated_at: now.text.clone(),
            timestamp: now.timestamp,
        }
    }
}

/// The figures of the whole portfolio at one instant.
#[derive(Debug)]
pub struct PortfolioRecord {
    pub market_value: Amount,
    pub total_value: Amount,
    pub transaction_cost: Amount,
    pub updated_at: String,
    pub timestamp: i64,
}

impl Clone for PortfolioRecord {
    fn clone(&self) -> (res: Self)
        ensures
            res == *self,
    {
        PortfolioRecord {
            market_value: self.market_value,
            total_value: self.total_value,
            transaction_cost: self.transaction_cost,
            updated_at: self.updated_at.clone(),
            timestamp: self.timestamp,
        }
    }
}

/// What a position showed at one instant, tagged with the account that owns it.
#[derive(Debug)]
pub struct PositionRecord {
    pub account_id: u128,
    pub code: String,
    pub direction: String,
    pub avg_price: Amount,
    pub quantity: Amount,
    pub closable_limited: Amount,
    pub closable: Amount,
    pub market_value: Amount,
    pub transaction_cost: Amount,
    pub updated_at: String,
    pub timestamp: i64,
}

impl Clone for PositionRecord {
    fn clone(&self) -> (res: Self)
        ensures
            res == *self,
    {
        PositionRecord {
            account_id: self.account_id,
            code: self.code.clone(),
            direction: self.direction.clone(),
            avg_price: self.avg_price,
            quantity: self.quantity,
            closable_limited: self.closable_limited,
            closable: self.closable,
            market_value: self.market_value,
            transaction_cost: self.transaction_cost,
            updated_at: self.updated_at.clone(),
            timestamp: self.timestamp,
        }
    }
}

impl<'a> FromSpecImpl<(u128, &'a Position, &'a Moment)> for PositionRecord {
    open spec fn obeys_from_spec() -> bool {
        true
    }

    /// The record of a position of account `source.0` taken at `source.2`.
    open spec fn from_spec(source: (u128, &'a Position, &'a Moment)) -> Self {
        PositionRecord {
            account_id: source.0,
            code: source.1.code,
            direction: source.1.direction,
            avg_price: source.1.avg_price,
            quantity: source.1.quantity,
            closable_limited: source.1.closable_limited,
            closable: source.1.closable,
            market_value: source.1.market_value,
            transaction_cost: source.1.transaction_cost,
            updated_at: source.2.text,
            timestamp: source.2.timestamp,
        }
    }
}

impl<'a> From<(u128, &'a Position, &'a Moment)> for PositionRecord {
    fn from(source: (u128, &'a Position, &'a Moment)) -> (record: Self) {
        let (account_id, position, now) = source;
        PositionRecord {
            account_id,
            code: position.code.clone(),
            direction: position.direction.clone(),
            avg_price: position.avg_price,
            quantity: position.quantity,
            closable_limited: position.closable_limited,
            closable: position.closable,
            market_value: position.market_value,
            transaction_cost: position.transaction_cost,
            updated_at: now.text.clone(),
            timestamp: now.timestamp,
        }
    }
}

/// An order as it stood when it was recorded. Two records are the same order
/// when their ids agree, whatever the other fields hold.
#[derive(Debug)]
pub struct OrderRecord {
    pub id: u128,
    pub account_id: u128,
    pub secondary_id: String,
    pub tag: String,
    pub code: String,
    pub side: String,
    pub position_effect: String,
    pub direction: String,
    pub frozen_price: Amount,
    pub init_frozen_cash: Amount,
    pub avg_price: Amount,
    pub quantity: Amount,
    pub filled_quantity: Amount,
    pub transaction_cost: Amount,
    pub created_at_ts: i64,
    pub updated_at_ts: i64,
    pub created_at: String,
    pub updated_at: String,
}

impl Clone for OrderRecord {
    fn clone(&self) -> (res: Self)
        ensures
            res == *self,
    {
        OrderRecord {
            id: self.id,
            account_id: self.account_id,
            secondary_id: self.secondary_id.clone(),
            tag: self.tag.clone(),
            code: self.code.clone(),
            side: self.side.clone(),
            position_effect: self.position_effect.clone(),
            direction: self.direction.clone(),
            frozen_price: self.frozen_price,
            init_frozen_cash: self.init_frozen_cash,
            avg_price: self.avg_price,
            quantity: self.quantity,
            filled_quantity: self.filled_quantity,
            transaction_cost: self.transaction_cost,
            created_at_ts: self.created_at_ts,
            updated_at_ts: self.updated_at_ts,
            created_at: self.created_at.clone(),
            updated_at: self.updated_at.clone(),
        }
    }
}

impl<'a> FromSpecImpl<&'a Order> for OrderRecord {
    open spec fn obeys_from_spec() -> bool {
        true
    }

    /// The projection of a live order: every field as the order holds it now.
    open spec fn from_spec(order: &'a Order) -> Self {
        OrderRecord {
            id: order.id,
            account_id: order.account_id,
            secondary_id: order.secondary_id,
            tag: order.tag,
            code: order.code,
            side: order.side,
            position_effect: order.position_effect,
            direction: order.direction,
            frozen_price: order.frozen_price,
            init_frozen_cash: order.init_frozen_cash,
            avg_price: order.avg_price,
            quantity: order.quantity,
            filled_quantity: order.filled_quantity,
            transaction_cost: order.transaction_cost,
            created_at_ts: order.created_at.timestamp,
            updated_at_ts: order.updated_at.timestamp,
            created_at: order.created_at.text,
            updated_at: order.updated_at.text,
        }
    }
}

impl<'a> From<&'a Order> for OrderRecord {
    fn from(order: &'a Order) -> (record: Self) {
        OrderRecord {
            id: order.id,
            account_id: order.account_id,
            secondary_id: order.secondary_id.clone(),
            tag: order.tag.clone(),
            code: order.code.clone(),
            side: order.side.clone(),
            position_effect: order.position_effect.clone(),
            direction: order.direction.clone(),
            frozen_price: order.frozen_price,
            init_frozen_cash: order.init_frozen_cash,
            avg_price: order.avg_price,
            quantity: order.quantity,
            filled_quantity: order.filled_quantity,
            transaction_cost: order.transaction_cost,
            created_at_ts: order.created_at.timestamp,
            updated_at_ts: order.updated_at.timestamp,
            created_at: order.created_at.text.clone(),
            updated_at: order.updated_at.text.clone(),
        }
    }
}

impl PartialEqSpecImpl for OrderRecord {
    open spec fn obeys_eq_spec() -> bool {
        true
    }

    open spec fn eq_spec(&self, other: &Self) -> bool {
        self.id == other.id
    }
}

impl PartialEq for OrderRecord {
    fn eq(&self, other: &Self) -> (same: bool) {
        self.id == other.id
    }
}

impl Eq for OrderRecord {

}

/// A trade as it was recorded. Two records are the same trade when their ids
/// agree.
#[derive(Debug)]
pub struct TransactionRecord {
    pub id: u128,
    pub account_id: u128,
    pub order_id: u128,
    pub secondary_id: String,
    pub code: String,
    pub side: String,
    pub position_effect: String,
    pub direction: String,
    pub price: Amount,
    pub frozen_price: Amount,
    pub amount: Amount,
    pub close_limited_amount: Amount,
    pub commission: Amount,
    pub tax: Amount,
    pub created_at: String,
    pub created_at_ts: i64,
}

impl Clone for TransactionRecord {
    fn clone(&self) -> (res: Self)
        ensures
            res == *self,
    {
        TransactionRecord {
            id: self.id,
            account_id: self.account_id,
            order_id: self.order_id,
            secondary_id: self.secondary_id.clone(),
            code: self.code.clone(),
            side: self.side.clone(),
            position_effect: self.position_effect.clone(),
            direction: self.direction.clone(),
            price: self.price,
            frozen_price: self.frozen_price,
            amount: self.amount,
            close_limited_amount: self.close_limited_amount,
            commission: self.commission,
            tax: self.tax,
            created_at: self.created_at.clone(),
            created_at_ts: self.created_at_ts,
        }
    }
}

impl<'a> FromSpecImpl<&'a Transaction> for TransactionRecord {
    open spec fn obeys_from_spec() -> bool {
        true
    }

    /// The projection of a trade: every field as the trade holds it.
    open spec fn from_spec(trade: &'a Transaction) -> Self {
        TransactionRecord {
            id: trade.id,
            account_id: trade.account_id,
            order_id: trade.order_id,
            secondary_id: trade.secondary_id,
            code: trade.code,
            side: trade.side,
            position_effect: trade.position_effect,
            direction: trade.direction,
            price: trade.price,
            frozen_price: trade.frozen_price,
            amount: trade.amount,
            close_limited_amount: trade.close_limited_amount,
            commission: trade.commission,
            tax: trade.tax,
            created_at: trade.created_at.text,
            created_at_ts: trade.created_at.timestamp,
        }
    }
}

impl<'a> From<&'a Transaction> for TransactionRecord {
    fn from(trade: &'a Transaction) -> (record: Self) {
        TransactionRecord {
            id: trade.id,
            account_id: trade.account_id,
            order_id: trade.order_id,
            secondary_id: trade.secondary_id.clone(),
            code: trade.code.clone(),
            side: trade.side.clone(),
            position_effect: trade.position_effect.clone(),
            direction: trade.direction.clone(),
            price: trade.price,
            frozen_price: trade.frozen_price,
            amount: trade.amount,
            close_limited_amount: trade.close_limited_amount,
            commission: trade.commission,
            tax: trade.tax,
            created_at: trade.created_at.text.clone(),
            created_at_ts: trade.created_at.timestamp,
        }
    }
}

impl PartialEqSpecImpl for TransactionRecord {
    open spec fn obeys_eq_spec() -> bool {
        true
    }

    open spec fn eq_spec(&self, other: &Self) -> bool {
        self.id == other.id
    }
}

impl PartialEq for TransactionRecord {
    fn eq(&self, other: &Self) -> (same: bool) {
        self.id == other.id
    }
}

impl Eq for TransactionRecord {

}

/// A record with an id that alone says which entity it stands for.
pub trait Identified: Sized {
    /// The record's id.
    spec fn identity(&self) -> u128;

    /// The record's id.
    fn id(&self) -> (id: u128)
        ensures
            id == self.identity(),
    ;
}

impl Identified for OrderRecord {
    open spec fn identity(&self) -> u128 {
        self.id
    }

    fn id(&self) -> (id: u128) {
        self.id
    }
}

impl Identified for TransactionRecord {
    open spec fn identity(&self) -> u128 {
        self.id
    }

    fn id(&self) -> (id: u128) {
        self.id
    }
}

/// The ids of `records`, in order.
pub open spec fn identities<R: Identified>(records: Seq<R>) -> Seq<u128> {
    records.map_values(|record: R| record.identity())
}

} // verus!
