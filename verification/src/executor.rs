//! The transaction executor: turning a proposal that reached quorum
//! into exactly one concrete adapter call, and recording the outcome
//! of that call as one immutable history record. The suspension
//! between planning and recording is the caller's: the vault state
//! machine itself is pure.

use vstd::prelude::*;
use crate::adapters::{
    AdapterCall, AdapterKind, AdapterKindView, CallView, ICPNativeTransferAdapter,
    ICRC1TransferAdapter, Icrc1TransferArgsView, IcpTransferArgsView,
    RECOMMENDED_ICP_TRANSACTION_FEE, RECOMMENDED_ICRC1_TRANSACTION_FEE, spec_icp_destination,
};
use crate::ledger::spec_subaccount;
use crate::token_path::{derive_adapter_key, spec_adapter_key, spec_token_identifier};
use crate::types::{
    IntentStatus, ProposalView, RequestView, StatusView, Transaction, TransactionRequest,
    TransactionView, principal_of_text,
};
use crate::util::{spec_decimal, u64_to_decimal};
use crate::vault::{Vault, VaultView};

verus! {

/// What one execution attempt does next: stop with a status and no
/// record, stop with a status that becomes a record, or make exactly
/// one outbound adapter call and record its outcome.
pub enum ExecutionPlan {
    /// Terminal: return the status; nothing is dispatched or logged.
    Reject(IntentStatus),
    /// Terminal: return the status and log it; nothing is dispatched.
    RejectLogged(TransactionRequest, IntentStatus),
    /// Make the one outbound call, then log its outcome.
    Dispatch(TransactionRequest, AdapterCall),
}

/// The backend-agnostic transfer request carrying a proposal's fields.
pub open spec fn spec_request_of(p: ProposalView) -> RequestView {
    RequestView {
        transaction_type: p.transaction_type,
        amount: p.amount,
        token: p.token,
        to: p.to,
        network: p.network,
    }
}

/// The plan a native-asset adapter yields for a request: dispatch with
/// the parsed destination and fixed fee, or a logged validation
/// failure when the destination is not a valid checksummed address.
pub open spec fn spec_icp_plan(req: RequestView, r: ExecutionPlan) -> bool {
    match spec_icp_destination(req.to) {
        Some(acct) => r matches ExecutionPlan::Dispatch(q, AdapterCall::IcpTransfer(args)) && q@
            == req && args@ == (IcpTransferArgsView {
            memo: 0,
            amount: req.amount,
            fee: RECOMMENDED_ICP_TRANSACTION_FEE,
            from_subaccount: spec_subaccount(0),
            to: acct,
        }),
        None => r matches ExecutionPlan::RejectLogged(q, st) && q@ == req && st@
            == StatusView::Failed("Invalid ICP destination account"@),
    }
}

/// The plan a token-contract adapter yields for a request: dispatch to
/// the contract named by the token path with the parsed recipient, or
/// a logged validation failure naming what was malformed.
pub open spec fn spec_icrc1_plan(req: RequestView, r: ExecutionPlan) -> bool {
    match spec_token_identifier(req.token) {
        None => r matches ExecutionPlan::RejectLogged(q, st) && q@ == req && st@
            == StatusView::Failed("Invalid token format"@),
        Some(idt) => match principal_of_text(idt) {
            None => r matches ExecutionPlan::RejectLogged(q, st) && q@ == req && st@
                == StatusView::Failed("Invalid token contract principal"@),
            Some(ledger) => match principal_of_text(req.to) {
                None => r matches ExecutionPlan::RejectLogged(q, st) && q@ == req && st@
                    == StatusView::Failed("Invalid destination principal"@),
                Some(owner) => r matches ExecutionPlan::Dispatch(
                    q,
                    AdapterCall::Icrc1Transfer(args),
                ) && q@ == req && args@ == (Icrc1TransferArgsView {
                    ledger,
                    to_owner: owner,
                    amount: req.amount,
                    fee: RECOMMENDED_ICRC1_TRANSACTION_FEE,
                    from_subaccount: spec_subaccount(0),
                }),
            },
        },
    }
}

/// The plan for a proposal that reached quorum: resolve the adapter
/// registered for the request's derived key and let it build the
/// call; an unregistered key is rejected without a record.
pub open spec fn spec_dispatch_plan(v: VaultView, p: ProposalView, r: ExecutionPlan) -> bool {
    let req = spec_request_of(p);
    let key = spec_adapter_key(p.token, p.transaction_type);
    if !v.adapters.map.contains_key(key) {
        r matches ExecutionPlan::Reject(st) && st@ == StatusView::Failed(
            "Adapter not found for "@ + key,
        )
    } else {
        match v.adapters.map[key] {
            AdapterKindView::IcpNative(_) => spec_icp_plan(req, r),
            AdapterKindView::Icrc1(_) => spec_icrc1_plan(req, r),
        }
    }
}

/// The whole execution state machine for one attempt: an unknown id is
/// rejected, a proposal short of quorum is rejected with exactly
/// "Threshold not met", and a proposal at or above quorum yields the
/// adapter dispatch plan.
pub open spec fn spec_execution_plan(v: VaultView, proposal_id: u64, r: ExecutionPlan) -> bool {
    &&& (proposal_id >= v.proposals.len() ==> (r matches ExecutionPlan::Reject(st) && st@
        == StatusView::Failed("Proposal not found: "@ + spec_decimal(proposal_id as nat))))
    &&& (proposal_id < v.proposals.len() ==> {
        let p = v.proposals[proposal_id as int];
        &&& (p.signers.len() < v.threshold ==> (r matches ExecutionPlan::Reject(st) && st@
            == StatusView::Failed("Threshold not met"@)))
        &&& (p.signers.len() >= v.threshold ==> spec_dispatch_plan(v, p, r))
    })
}

impl Vault {
    /// Plans one execution attempt for a proposal id: checks the
    /// proposal exists, checks its approvals against the quorum
    /// threshold, resolves the adapter for its token path and
    /// operation kind, and builds the one outbound call. Nothing is
    /// mutated; the caller performs the call and records its outcome.
    pub fn begin_execution(&self, proposal_id: u64) -> (r: ExecutionPlan)
        requires
            self.wf(),
        ensures
            spec_execution_plan(self@, proposal_id, r),
    {
        let proposal = match self.get_proposed_transaction(proposal_id) {
            Some(p) => p,
            None => {
                let mut message = String::from_str("Proposal not found: ");
                message.append(u64_to_decimal(proposal_id).as_str());
                return ExecutionPlan::Reject(IntentStatus::Failed(message));
            },
        };
        if (proposal.signers.len() as u64) < self.get_threshold() {
            return ExecutionPlan::Reject(
                IntentStatus::Failed(String::from_str("Threshold not met")),
            );
        }
        let request = TransactionRequest {
            transaction_type: proposal.transaction_type,
            amount: proposal.amount,
            token: proposal.token,
            to: proposal.to,
            network: proposal.network,
        };
        proof {
            assert(request@ == spec_request_of(self@.proposals[proposal_id as int]));
        }
        let key = derive_adapter_key(request.token.as_str(), request.transaction_type);
        let adapter = match self.adapters().resolve(key.as_str()) {
            Some(a) => a,
            None => {
                let mut message = String::from_str("Adapter not found for ");
                message.append(key.as_str());
                return ExecutionPlan::Reject(IntentStatus::Failed(message));
            },
        };
        match adapter {
            AdapterKind::IcpNative(_) => {
                match ICPNativeTransferAdapter::build_transfer(&request) {
                    Ok(args) => ExecutionPlan::Dispatch(request, AdapterCall::IcpTransfer(args)),
                    Err(e) => ExecutionPlan::RejectLogged(request, IntentStatus::Failed(e)),
                }
            },
            AdapterKind::Icrc1(_) => {
                match ICRC1TransferAdapter::build_transfer(&request) {
                    Ok(args) => ExecutionPlan::Dispatch(request, AdapterCall::Icrc1Transfer(args)),
                    Err(e) => ExecutionPlan::RejectLogged(request, IntentStatus::Failed(e)),
                }
            },
        }
    }

    /// Appends the outcome of one execution attempt to the history:
    /// one record carrying the request's fields and the given status.
    /// Nothing else changes, and no earlier record is touched.
    pub fn record_outcome(&mut self, request: &TransactionRequest, status: IntentStatus)
        requires
            old(self).wf(),
        ensures
            final(self).wf(),
            final(self)@ == (VaultView {
                transactions: old(self)@.transactions.push(TransactionView {
                    status: status@,
                    to: request@.to,
                    token: request@.token,
                    network: request@.network,
                    amount: request@.amount,
                    transaction_type: request@.transaction_type,
                }),
                ..old(self)@
            }),
    {
        let record = Transaction {
            status,
            to: request.to.clone(),
            token: request.token.clone(),
            network: request.network,
            amount: request.amount,
            transaction_type: request.transaction_type,
        };
        self.append_transaction(record);
    }
}

/// The completion message an adapter reports for a successful call.
pub open spec fn spec_success_message(call: CallView) -> Seq<char> {
    match call {
        CallView::IcpTransfer(_) => "Successfully transferred native ICP."@,
        CallView::Icrc1Transfer(_) => "Successfully transferred an ICRC-1 token."@,
    }
}

/// The terminal status of a dispatched call: `Completed` with the
/// adapter's completion message when the call succeeded, `Failed`
/// with the adapter's error text when it did not.
pub fn settle_dispatch(call: &AdapterCall, outcome: Result<(), String>) -> (st: IntentStatus)
    ensures
        outcome is Ok ==> st@ == StatusView::Completed(spec_success_message(call@)),
        outcome matches Err(e) ==> st@ == StatusView::Failed(e@),
{
    match outcome {
        Ok(_) => match call {
            AdapterCall::IcpTransfer(_) => IntentStatus::Completed(
                String::from_str("Successfully transferred native ICP."),
            ),
            AdapterCall::Icrc1Transfer(_) => IntentStatus::Completed(
                String::from_str("Successfully transferred an ICRC-1 token."),
            ),
        },
        Err(e) => IntentStatus::Failed(e),
    }
}

/// Law: a proposal short of quorum never dispatches. Its execution
/// plan is a plain rejection carrying exactly "Threshold not met" —
/// no adapter call is planned and nothing is appended to the history.
pub proof fn lemma_threshold_gates_execution(v: VaultView, proposal_id: u64, r: ExecutionPlan)
    requires
        spec_execution_plan(v, proposal_id, r),
        proposal_id < v.proposals.len(),
        v.proposals[proposal_id as int].signers.len() < v.threshold,
    ensures
        r matches ExecutionPlan::Reject(st) && st@ == StatusView::Failed("Threshold not met"@),
        !(r is Dispatch),
        !(r is RejectLogged),
{
}

/// Law: an execution that reaches quorum and dispatches makes exactly
/// one adapter call, and its request carries the proposal's own
/// fields unchanged.
pub proof fn lemma_dispatch_carries_proposal_fields(
    v: VaultView,
    proposal_id: u64,
    r: ExecutionPlan,
)
    requires
        spec_execution_plan(v, proposal_id, r),
        proposal_id < v.proposals.len(),
        v.proposals[proposal_id as int].signers.len() >= v.threshold,
        r is Dispatch,
    ensures
        r matches ExecutionPlan::Dispatch(req, call) && req@ == spec_request_of(
            v.proposals[proposal_id as int],
        ),
{
}

/// Law: recording an outcome appends exactly one record — the history
/// grows by one, the new record carries the request's fields and the
/// given status, and every earlier record is unchanged.
pub proof fn lemma_record_appends_once(v: VaultView, v2: VaultView, req: RequestView, st: StatusView)
    requires
        v2 == (VaultView {
            transactions: v.transactions.push(TransactionView {
                status: st,
                to: req.to,
                token: req.token,
                network: req.network,
                amount: req.amount,
                transaction_type: req.transaction_type,
            }),
            ..v
        }),
    ensures
        v2.transactions.len() == v.transactions.len() + 1,
        v2.transactions.last().status == st,
        v2.transactions.last().to == req.to,
        v2.transactions.last().token == req.token,
        v2.transactions.last().network == req.network,
        v2.transactions.last().amount == req.amount,
        v2.transactions.last().transaction_type == req.transaction_type,
        forall|i: int|
            0 <= i < v.transactions.len() ==> v2.transactions[i] == v.transactions[i],
        v2.proposals == v.proposals,
        v2.signers == v.signers,
        v2.threshold == v.threshold,
{
}

} // verus!
