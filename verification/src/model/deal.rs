//! Safe deals.

use vstd::prelude::*;
use crate::model::common::{DealId, Metadata, MonetaryAmount, TimeFilter, Timestamp};

verus! {

#[derive(Debug, Clone, Copy, PartialEq, Eq, Structural)]
pub enum DealType {
    SafeDeal,
}

#[derive(Debug, Clone, Copy, PartialEq, Eq, Structural)]
pub enum FeeMoment {
    PaymentSucceeded,
    DealClosed,
}

#[derive(Debug, Clone, Copy, PartialEq, Eq, Structural)]
pub enum DealStatus {
    Opened,
    Closed,
}

#[derive(Debug, Clone, PartialEq)]
pub struct CreateDealRequest {
    pub type_: DealType,
    pub fee_moment: FeeMoment,
    pub metadata: Option<Metadata>,
    pub description: Option<String>,
}

#[derive(Debug, Clone, PartialEq)]
pub struct DealListQuery {
    pub time: TimeFilter,
    pub expires_at_gte: Option<Timestamp>,
    pub expires_at_gt: Option<Timestamp>,
    pub expires_at_lte: Option<Timestamp>,
    pub expires_at_lt: Option<Timestamp>,
    pub status: Option<DealStatus>,
    pub full_text_search: Option<String>,
}

#[derive(Debug, Clone, PartialEq)]
pub struct Deal {
    pub type_: DealType,
    pub id: DealId,
    pub fee_moment: FeeMoment,
    pub description: Option<String>,
    pub balance: MonetaryAmount,
    pub payout_balance: MonetaryAmount,
    pub status: DealStatus,
    pub created_at: Timestamp,
    pub expires_at: Timestamp,
    pub metadata: Option<Metadata>,
    pub test: bool,
}

} // verus!
