//! Action domain types: what an upstream agent proposes to do.
//!
//! Monetary amounts are carried as integer cents, so `50_00` stands for
//! fifty units of the payload's currency. Identifiers are 128-bit values.

use vstd::prelude::*;
use vstd::string::StringExecFns;

use crate::ids::{fresh_id, fresh_trace_id, now_millis};

verus! {

/// Types of actions an agent can propose.
#[derive(Clone, Copy, PartialEq, Eq, Structural, Debug)]
pub enum ActionType {
    /// Query account balance.
    GetBalance,
    /// Transfer funds between accounts.
    TransferFunds,
    /// Pay a bill.
    PayBill,
    /// View transaction history.
    GetTransactions,
    /// Request a loan.
    RequestLoan,
    /// Add a new beneficiary.
    AddBeneficiary,
    /// Update user profile.
    UpdateProfile,
    /// Close an account.
    CloseAccount,
    /// Refund a transaction.
    RefundTransaction,
    /// Unknown or unclassified action.
    Unknown,
}

impl ActionType {
    /// The stable snake_case name of this action type.
    pub open spec fn label_spec(self) -> Seq<char> {
        match self {
            ActionType::GetBalance => "get_balance"@,
            ActionType::TransferFunds => "transfer_funds"@,
            ActionType::PayBill => "pay_bill"@,
            ActionType::GetTransactions => "get_transactions"@,
            ActionType::RequestLoan => "request_loan"@,
            ActionType::AddBeneficiary => "add_beneficiary"@,
            ActionType::UpdateProfile => "update_profile"@,
            ActionType::CloseAccount => "close_account"@,
            ActionType::RefundTransaction => "refund_transaction"@,
            ActionType::Unknown => "unknown"@,
        }
    }

    /// The stable snake_case name of this action type.
    pub fn label(&self) -> (r: String)
        ensures
            r@ == self.label_spec(),
    {
        match self {
            ActionType::GetBalance => String::from_str("get_balance"),
            ActionType::TransferFunds => String::from_str("transfer_funds"),
            ActionType::PayBill => String::from_str("pay_bill"),
            ActionType::GetTransactions => String::from_str("get_transactions"),
            ActionType::RequestLoan => String::from_str("request_loan"),
            ActionType::AddBeneficiary => String::from_str("add_beneficiary"),
            ActionType::UpdateProfile => String::from_str("update_profile"),
            ActionType::CloseAccount => String::from_str("close_account"),
            ActionType::RefundTransaction => String::from_str("refund_transaction"),
            ActionType::Unknown => String::from_str("unknown"),
        }
    }

    /// Action types that carry an amount in their payload.
    pub open spec fn carries_amount(self) -> bool {
        match self {
            ActionType::TransferFunds => true,
            ActionType::PayBill => true,
            ActionType::RequestLoan => true,
            ActionType::RefundTransaction => true,
            _ => false,
        }
    }
}

/// Structured view of an action payload.
///
/// The original request payload is free-form; the pipeline reads only the
/// fields below. `texts` holds every string-valued payload field, in
/// order, and is the part of the payload the firewall scans.
#[derive(Debug, Clone)]
pub struct Payload {
    /// Amount in cents, for monetary actions.
    pub amount: Option<i64>,
    /// Three-letter currency code.
    pub currency: Option<String>,
    /// Source account, for transfers.
    pub from_account_id: Option<String>,
    /// Destination account, for transfers.
    pub to_account_id: Option<String>,
    /// Every string-valued payload field, in order.
    pub texts: Vec<String>,
}

impl Payload {
    /// An empty payload.
    pub fn empty() -> (r: Payload)
        ensures
            r.amount is None,
            r.currency is None,
            r.from_account_id is None,
            r.to_account_id is None,
            r.texts@.len() == 0,
    {
        Payload {
            amount: None,
            currency: None,
            from_account_id: None,
            to_account_id: None,
            texts: Vec::new(),
        }
    }

    /// A transfer payload: source, destination, amount in cents, currency.
    pub fn transfer(from: &str, to: &str, amount: i64, currency: &str) -> (r: Payload)
        ensures
            r.amount == Some(amount),
            r.currency matches Some(c) && c@ == currency@,
            r.from_account_id matches Some(f) && f@ == from@,
            r.to_account_id matches Some(t) && t@ == to@,
            r.texts@.len() == 3,
            r.texts@[0]@ == from@,
            r.texts@[1]@ == to@,
            r.texts@[2]@ == currency@,
    {
        let mut texts: Vec<String> = Vec::new();
        texts.push(String::from_str(from));
        texts.push(String::from_str(to));
        texts.push(String::from_str(currency));
        Payload {
            amount: Some(amount),
            currency: Some(String::from_str(currency)),
            from_account_id: Some(String::from_str(from)),
            to_account_id: Some(String::from_str(to)),
            texts,
        }
    }

    /// A bill-payment payload: source account, biller, amount in cents,
    /// currency.
    pub fn bill(from: &str, biller: &str, amount: i64, currency: &str) -> (r: Payload)
        ensures
            r.amount == Some(amount),
            r.currency matches Some(c) && c@ == currency@,
            r.from_account_id matches Some(f) && f@ == from@,
            r.to_account_id is None,
            r.texts@.len() == 3,
            r.texts@[0]@ == from@,
            r.texts@[1]@ == biller@,
            r.texts@[2]@ == currency@,
    {
        let mut texts: Vec<String> = Vec::new();
        texts.push(String::from_str(from));
        texts.push(String::from_str(biller));
        texts.push(String::from_str(currency));
        Payload {
            amount: Some(amount),
            currency: Some(String::from_str(currency)),
            from_account_id: Some(String::from_str(from)),
            to_account_id: None,
            texts,
        }
    }

    /// A balance-query payload naming one account.
    pub fn balance(account_id: &str) -> (r: Payload)
        ensures
            r.amount is None,
            r.currency is None,
            r.from_account_id is None,
            r.to_account_id is None,
            r.texts@.len() == 1,
            r.texts@[0]@ == account_id@,
    {
        let mut texts: Vec<String> = Vec::new();
        texts.push(String::from_str(account_id));
        Payload {
            amount: None,
            currency: None,
            from_account_id: None,
            to_account_id: None,
            texts,
        }
    }
}

/// Payload for a TransferFunds action.
#[derive(Debug, Clone)]
pub struct TransferFundsPayload {
    pub from_account_id: String,
    pub to_account_id: String,
    /// Amount in cents.
    pub amount: i64,
    pub currency: String,
    pub description: Option<String>,
}

/// Payload for a GetBalance action.
#[derive(Debug, Clone)]
pub struct GetBalancePayload {
    pub account_id: String,
}

/// Payload for a PayBill action.
#[derive(Debug, Clone)]
pub struct PayBillPayload {
    pub from_account_id: String,
    pub biller_id: String,
    /// Amount in cents.
    pub amount: i64,
    pub currency: String,
    pub reference: Option<String>,
}

/// An action proposed by an LLM agent: the primary input to the
/// evaluation pipeline.
#[derive(Debug, Clone)]
pub struct AgentAction {
    /// Unique identifier for this action.
    pub id: u128,
    /// Trace identifier for correlation.
    pub trace_id: String,
    /// Identifier of the app that initiated this action.
    pub app_id: Option<u128>,
    /// Identifier of the user on whose behalf the action runs.
    pub user_id: String,
    /// Channel through which the action was initiated.
    pub channel: String,
    /// Name of the model that generated this action.
    pub model_name: String,
    /// Original natural-language request from the user.
    pub original_intent: String,
    /// Type of action being proposed.
    pub action_type: ActionType,
    /// Structured payload.
    pub payload: Payload,
    /// Chain-of-thought trace, if the agent supplied one.
    pub cot_trace: Option<String>,
    /// Free-form metadata, if any.
    pub metadata: Option<String>,
    /// Creation time, milliseconds since the Unix epoch.
    pub created_at: i64,
}

impl AgentAction {
    /// Create a new action with the required fields and fresh identifiers.
    pub fn new(
        user_id: &str,
        channel: &str,
        model_name: &str,
        original_intent: &str,
        action_type: ActionType,
        payload: Payload,
    ) -> (r: AgentAction)
        ensures
            r.user_id@ == user_id@,
            r.channel@ == channel@,
            r.model_name@ == model_name@,
            r.original_intent@ == original_intent@,
            r.action_type == action_type,
            r.payload == payload,
            r.app_id is None,
            r.cot_trace is None,
            r.metadata is None,
    {
        AgentAction {
            id: fresh_id(),
            trace_id: fresh_trace_id(),
            app_id: None,
            user_id: String::from_str(user_id),
            channel: String::from_str(channel),
            model_name: String::from_str(model_name),
            original_intent: String::from_str(original_intent),
            action_type,
            payload,
            cot_trace: None,
            metadata: None,
            created_at: now_millis(),
        }
    }

    /// Attach an app identifier.
    pub fn with_app_id(self, app_id: u128) -> (r: AgentAction)
        ensures
            r == (AgentAction { app_id: Some(app_id), ..self }),
    {
        AgentAction { app_id: Some(app_id), ..self }
    }

    /// The amount this action carries, when its type is monetary.
    pub open spec fn extract_amount_spec(self) -> Option<i64> {
        if self.action_type.carries_amount() {
            self.payload.amount
        } else {
            None
        }
    }

    /// Extract the amount in cents from the payload, for monetary actions.
    pub fn extract_amount(&self) -> (r: Option<i64>)
        ensures
            r == self.extract_amount_spec(),
    {
        match self.action_type {
            ActionType::TransferFunds
            | ActionType::PayBill
            | ActionType::RequestLoan
            | ActionType::RefundTransaction => self.payload.amount,
            _ => None,
        }
    }

    /// Extract the currency code from the payload.
    pub fn extract_currency(&self) -> (r: Option<&str>)
        ensures
            match r {
                Some(c) => self.payload.currency matches Some(cur) && c@ == cur@,
                None => self.payload.currency is None,
            },
    {
        match &self.payload.currency {
            Some(c) => Some(c.as_str()),
            None => None,
        }
    }
}

} // verus!
