//! What the host runtime shows of its live objects at one instant, as plain
//! values. The aggregator reads these and nothing else of the host.

use crate::models::Amount;
use vstd::prelude::*;

verus! {

/// An instant as the host gives it: the raw timestamp and the text that the
/// host formats it to.
#[derive(Debug)]
pub struct Moment {
    pub timestamp: i64,
    pub text: String,
}

impl Clone for Moment {
    fn clone(&self) -> (res: Self)
        ensures
            res == *self,
    {
        Moment { timestamp: self.timestamp, text: self.text.clone() }
    }
}

/// A live position of an account.
#[derive(Debug)]
pub struct Position {
    pub code: String,
    pub direction: String,
    pub avg_price: Amount,
    pub quantity: Amount,
    pub closable_limited: Amount,
    pub closable: Amount,
    pub market_value: Amount,
    pub transaction_cost: Amount,
}

/// A live account with all its positions, long and short alike.
#[derive(Debug)]
pub struct Account {
    pub name: String,
    pub id: u128,
    pub available_cash: Amount,
    pub frozen_cash: Amount,
    pub market_value: Amount,
    pub total_value: Amount,
    pub transaction_cost: Amount,
    pub positions: Vec<Position>,
}

/// A live order, with its mutable fields as they stand now.
#[derive(Debug)]
pub struct Order {
    pub id: u128,
    pub account_id: u128,
    pub secondary_id: String,
    pub tag: String,
    pub code: String,
    pub side: String,
    pub position_effect: String,
    pub direction: String,
    pub frozen_price: Amount,
    pub init_frozen_cash: Amount,
    pub avg_price: Amount,
    pub quantity: Amount,
    pub filled_quantity: Amount,
    pub transaction_cost: Amount,
    pub created_at: Moment,
    pub updated_at: Moment,
}

/// An executed trade.
#[derive(Debug)]
pub struct Transaction {
    pub id: u128,
    pub account_id: u128,
    pub order_id: u128,
    pub secondary_id: String,
    pub code: String,
    pub side: String,
    pub position_effect: String,
    pub direction: String,
    pub price: Amount,
    pub frozen_price: Amount,
    pub amount: Amount,
    pub close_limited_amount: Amount,
    pub commission: Amount,
    pub tax: Amount,
    pub created_at: Moment,
}

} // verus!
