//! Receipts as the backend stores them, the read access the bridge needs to a
//! receipt, and the receipt shape that reth expects.
use vstd::prelude::*;
use crate::block::{Log, LogView, clone_logs, logs_view};
use crate::primitives::{B256, TxType};

verus! {

/// The outcome field of a receipt: an EIP-658 status flag, or a pre-Byzantium state root.
#[derive(Clone, Copy, Debug, PartialEq, Eq, Structural)]
pub enum ReceiptStatus {
    Eip658(bool),
    PostState(B256),
}

impl ReceiptStatus {
    /// Success as a flag: the EIP-658 flag itself, and `true` for a state root.
    pub open spec fn spec_coerce_status(self) -> bool {
        match self {
            ReceiptStatus::Eip658(ok) => ok,
            ReceiptStatus::PostState(_) => true,
        }
    }

    pub fn coerce_status(&self) -> (r: bool)
        ensures
            r == self.spec_coerce_status(),
    {
        match self {
            ReceiptStatus::Eip658(ok) => *ok,
            ReceiptStatus::PostState(_) => true,
        }
    }
}

/// The common part of every receipt.
pub struct TxReceipt {
    pub status: ReceiptStatus,
    pub cumulative_gas_used: u64,
    pub logs: Vec<Log>,
}

/// An optimism-style deposit receipt.
pub struct DepositReceipt {
    pub inner: TxReceipt,
    pub deposit_nonce: Option<u64>,
    pub deposit_receipt_version: Option<u64>,
}

/// A receipt as the backend stores it, tagged by the kind of its transaction.
pub enum ReceiptEnvelope {
    Legacy(TxReceipt),
    Eip2930(TxReceipt),
    Eip1559(TxReceipt),
    Eip4844(TxReceipt),
    Eip7702(TxReceipt),
    Deposit(DepositReceipt),
    Tempo(TxReceipt),
}

/// What the bridge reads of a receipt.
pub struct ReceiptModel {
    pub tx_type: Option<TxType>,
    pub success: bool,
    pub cumulative_gas_used: u64,
    pub logs: Seq<LogView>,
}

/// Read access to a receipt that the bridge can turn into reth's receipt.
pub trait ReceiptView: Sized {
    /// The Ethereum transaction type, or `None` for a kind that has none.
    spec fn spec_tx_type(&self) -> Option<TxType>;

    spec fn spec_success(&self) -> bool;

    spec fn spec_cumulative_gas_used(&self) -> u64;

    spec fn spec_logs(&self) -> Seq<LogView>;

    /// Returns the Ethereum tx type, or `None` for non-standard types (Deposit, Tempo).
    fn tx_type(&self) -> (r: Option<TxType>)
        ensures
            r == self.spec_tx_type(),
    ;

    /// Whether the transaction was successful.
    fn success(&self) -> (r: bool)
        ensures
            r == self.spec_success(),
    ;

    /// Cumulative gas used up to and including this transaction.
    fn cumulative_gas_used(&self) -> (r: u64)
        ensures
            r == self.spec_cumulative_gas_used(),
    ;

    /// Logs emitted by this transaction.
    fn logs(&self) -> (r: Vec<Log>)
        ensures
            logs_view(r@) == self.spec_logs(),
    ;
}

/// Everything the bridge reads of a receipt, in one value.
pub open spec fn receipt_model<R: ReceiptView>(r: R) -> ReceiptModel {
    ReceiptModel {
        tx_type: r.spec_tx_type(),
        success: r.spec_success(),
        cumulative_gas_used: r.spec_cumulative_gas_used(),
        logs: r.spec_logs(),
    }
}

impl ReceiptEnvelope {
    /// The common receipt part of each kind.
    pub open spec fn spec_inner(&self) -> TxReceipt {
        match self {
            ReceiptEnvelope::Legacy(r) => *r,
            ReceiptEnvelope::Eip2930(r) => *r,
            ReceiptEnvelope::Eip1559(r) => *r,
            ReceiptEnvelope::Eip4844(r) => *r,
            ReceiptEnvelope::Eip7702(r) => *r,
            ReceiptEnvelope::Deposit(d) => d.inner,
            ReceiptEnvelope::Tempo(r) => *r,
        }
    }

    pub fn inner(&self) -> (r: &TxReceipt)
        ensures
            *r == self.spec_inner(),
    {
        match self {
            ReceiptEnvelope::Legacy(r) => r,
            ReceiptEnvelope::Eip2930(r) => r,
            ReceiptEnvelope::Eip1559(r) => r,
            ReceiptEnvelope::Eip4844(r) => r,
            ReceiptEnvelope::Eip7702(r) => r,
            ReceiptEnvelope::Deposit(d) => &d.inner,
            ReceiptEnvelope::Tempo(r) => r,
        }
    }
}

impl ReceiptView for ReceiptEnvelope {
    open spec fn spec_tx_type(&self) -> Option<TxType> {
        match self {
            ReceiptEnvelope::Legacy(_) => Some(TxType::Legacy),
            ReceiptEnvelope::Eip2930(_) => Some(TxType::Eip2930),
            ReceiptEnvelope::Eip1559(_) => Some(TxType::Eip1559),
            ReceiptEnvelope::Eip4844(_) => Some(TxType::Eip4844),
            ReceiptEnvelope::Eip7702(_) => Some(TxType::Eip7702),
            ReceiptEnvelope::Deposit(_) => None,
            ReceiptEnvelope::Tempo(_) => None,
        }
    }

    open spec fn spec_success(&self) -> bool {
        self.spec_inner().status.spec_coerce_status()
    }

    open spec fn spec_cumulative_gas_used(&self) -> u64 {
        self.spec_inner().cumulative_gas_used
    }

    open spec fn spec_logs(&self) -> Seq<LogView> {
        logs_view(self.spec_inner().logs@)
    }

    fn tx_type(&self) -> (r: Option<TxType>) {
        match self {
            ReceiptEnvelope::Legacy(_) => Some(TxType::Legacy),
            ReceiptEnvelope::Eip2930(_) => Some(TxType::Eip2930),
            ReceiptEnvelope::Eip1559(_) => Some(TxType::Eip1559),
            ReceiptEnvelope::Eip4844(_) => Some(TxType::Eip4844),
            ReceiptEnvelope::Eip7702(_) => Some(TxType::Eip7702),
            ReceiptEnvelope::Deposit(_) | ReceiptEnvelope::Tempo(_) => None,
        }
    }

    fn success(&self) -> (r: bool) {
        self.inner().status.coerce_status()
    }

    fn cumulative_gas_used(&self) -> (r: u64) {
        self.inner().cumulative_gas_used
    }

    fn logs(&self) -> (r: Vec<Log>) {
        clone_logs(&self.inner().logs)
    }
}

/// A receipt's common part, with its logs by their views.
pub struct TxReceiptView {
    pub status: ReceiptStatus,
    pub cumulative_gas_used: u64,
    pub logs: Seq<LogView>,
}

impl View for TxReceipt {
    type V = TxReceiptView;

    open spec fn view(&self) -> TxReceiptView {
        TxReceiptView {
            status: self.status,
            cumulative_gas_used: self.cumulative_gas_used,
            logs: logs_view(self.logs@),
        }
    }
}

/// A stored receipt: its kind, its common part, and a deposit's own fields.
pub enum ReceiptEnvelopeView {
    Legacy(TxReceiptView),
    Eip2930(TxReceiptView),
    Eip1559(TxReceiptView),
    Eip4844(TxReceiptView),
    Eip7702(TxReceiptView),
    Deposit(TxReceiptView, Option<u64>, Option<u64>),
    Tempo(TxReceiptView),
}

impl View for ReceiptEnvelope {
    type V = ReceiptEnvelopeView;

    open spec fn view(&self) -> ReceiptEnvelopeView {
        match self {
            ReceiptEnvelope::Legacy(r) => ReceiptEnvelopeView::Legacy(r@),
            ReceiptEnvelope::Eip2930(r) => ReceiptEnvelopeView::Eip2930(r@),
            ReceiptEnvelope::Eip1559(r) => ReceiptEnvelopeView::Eip1559(r@),
            ReceiptEnvelope::Eip4844(r) => ReceiptEnvelopeView::Eip4844(r@),
            ReceiptEnvelope::Eip7702(r) => ReceiptEnvelopeView::Eip7702(r@),
            ReceiptEnvelope::Deposit(d) => ReceiptEnvelopeView::Deposit(
                d.inner@,
                d.deposit_nonce,
                d.deposit_receipt_version,
            ),
            ReceiptEnvelope::Tempo(r) => ReceiptEnvelopeView::Tempo(r@),
        }
    }
}

impl Clone for TxReceipt {
    fn clone(&self) -> (r: Self)
        ensures
            r@ == self@,
    {
        TxReceipt {
            status: self.status,
            cumulative_gas_used: self.cumulative_gas_used,
            logs: clone_logs(&self.logs),
        }
    }
}

impl Clone for ReceiptEnvelope {
    /// A copy of the same kind, with the same status, gas, logs and deposit fields.
    fn clone(&self) -> (r: Self)
        ensures
            r@ == self@,
            receipt_model(r) == receipt_model(*self),
    {
        match self {
            ReceiptEnvelope::Legacy(x) => ReceiptEnvelope::Legacy(x.clone()),
            ReceiptEnvelope::Eip2930(x) => ReceiptEnvelope::Eip2930(x.clone()),
            ReceiptEnvelope::Eip1559(x) => ReceiptEnvelope::Eip1559(x.clone()),
            ReceiptEnvelope::Eip4844(x) => ReceiptEnvelope::Eip4844(x.clone()),
            ReceiptEnvelope::Eip7702(x) => ReceiptEnvelope::Eip7702(x.clone()),
            ReceiptEnvelope::Deposit(d) => ReceiptEnvelope::Deposit(
                DepositReceipt {
                    inner: d.inner.clone(),
                    deposit_nonce: d.deposit_nonce,
                    deposit_receipt_version: d.deposit_receipt_version,
                },
            ),
            ReceiptEnvelope::Tempo(x) => ReceiptEnvelope::Tempo(x.clone()),
        }
    }
}

/// A receipt in the form reth expects.
pub struct RethReceipt {
    pub tx_type: TxType,
    pub success: bool,
    pub cumulative_gas_used: u64,
    pub logs: Vec<Log>,
}

pub struct RethReceiptView {
    pub tx_type: TxType,
    pub success: bool,
    pub cumulative_gas_used: u64,
    pub logs: Seq<LogView>,
}

impl View for RethReceipt {
    type V = RethReceiptView;

    open spec fn view(&self) -> RethReceiptView {
        RethReceiptView {
            tx_type: self.tx_type,
            success: self.success,
            cumulative_gas_used: self.cumulative_gas_used,
            logs: logs_view(self.logs@),
        }
    }
}

pub open spec fn opt_receipt_view(r: Option<RethReceipt>) -> Option<RethReceiptView> {
    match r {
        Some(x) => Some(x@),
        None => None,
    }
}

} // verus!
