//! Properties that relate several calls of the bridge.
use vstd::prelude::*;
use crate::bridge::{
    deposit_error, deposit_post, fulfill_signed_post, resolve_post, recovers_relayer, signer_of, BridgeError,
    BridgeView, FulfillPlan, TransferOutcome,
};
use crate::transaction::{history, tx_hash_of, TransactionView};

verus! {

/// How many times `t` is recorded in `log`.
pub open spec fn occurrences(log: Seq<TransactionView>, t: TransactionView) -> nat
    decreases log.len(),
{
    if log.len() == 0 {
        0
    } else {
        occurrences(log.drop_last(), t) + if log.last() == t {
            1nat
        } else {
            0nat
        }
    }
}

/// Fulfilling the same signed transaction twice in a row: the second call is
/// rejected as a replay and changes nothing, and the log holds exactly one
/// more record of the transaction than before the first call.
pub proof fn lemma_fulfill_twice_rejects_replay(
    s0: BridgeView,
    s1: BridgeView,
    s2: BridgeView,
    r1: Result<FulfillPlan, BridgeError>,
    r2: Result<FulfillPlan, BridgeError>,
    attached_deposit: u128,
    t: TransactionView,
    signature: Seq<u8>,
)
    requires
        fulfill_signed_post(s0, s1, r1, attached_deposit, t, signature),
        r1 is Ok,
        fulfill_signed_post(s1, s2, r2, attached_deposit, t, signature),
    ensures
        r2 == Err::<FulfillPlan, BridgeError>(BridgeError::AlreadyFulfilled),
        s2 == s1,
        occurrences(s2.log, t) == occurrences(s0.log, t) + 1,
{
    assert(s1.log.drop_last() =~= s0.log);
}

/// A dispense transfer that fails reopens its transaction: reconciliation
/// reports the dispensed amount as reverted, the hash is no longer marked
/// fulfilled, and the same signed transaction is then fulfilled again.
pub proof fn lemma_failed_dispense_allows_retry(
    s0: BridgeView,
    s1: BridgeView,
    s2: BridgeView,
    s3: BridgeView,
    r1: Result<FulfillPlan, BridgeError>,
    reverted: u128,
    r3: Result<FulfillPlan, BridgeError>,
    attached_deposit: u128,
    t: TransactionView,
    signature: Seq<u8>,
)
    requires
        fulfill_signed_post(s0, s1, r1, attached_deposit, t, signature),
        r1 is Ok,
        resolve_post(
            s1,
            s2,
            reverted,
            r1->Ok_0.dispense.amount,
            r1->Ok_0.tx_hash@,
            TransferOutcome::Failed,
        ),
        fulfill_signed_post(s2, s3, r3, attached_deposit, t, signature),
    ensures
        reverted == r1->Ok_0.dispense.amount,
        !s2.fulfilled.contains(tx_hash_of(t)),
        r3 is Ok,
{
}

/// An accepted deposit keeps at most `limit_per_send`: above the limit the
/// excess is returned and the limit recorded; otherwise nothing is returned
/// and the whole amount is recorded. Either way one record from the sender
/// to the destination is added to the sender's history, under the current nonce, and the nonce
/// advances by one (`ft_on_transfer` is only called below the largest nonce).
pub proof fn lemma_deposit_clamps(
    s0: BridgeView,
    s1: BridgeView,
    r: Result<u128, BridgeError>,
    predecessor: Seq<char>,
    signer: Seq<char>,
    timestamp: u64,
    sender: Seq<char>,
    amount: u128,
    msg: Seq<char>,
)
    requires
        deposit_post(s0, s1, r, predecessor, signer, timestamp, sender, amount, msg),
        deposit_error(s0, predecessor, signer, sender) is None,
    ensures
        amount > s0.limit_per_send ==> r == Ok::<u128, BridgeError>(
            (amount - s0.limit_per_send) as u128,
        ) && s1.log.last().amount == s0.limit_per_send,
        amount <= s0.limit_per_send ==> r == Ok::<u128, BridgeError>(0) && s1.log.last().amount
            == amount,
        s1.log.len() == s0.log.len() + 1,
        s1.log.last().from == sender,
        s1.log.last().to == msg,
        s1.log.last().nonce == s0.nonce,
        history(s1.log, sender) == history(s0.log, sender).push(s1.log.last()),
        s0.nonce < u128::MAX ==> s1.nonce == s0.nonce + 1,
{
    assert(s1.log.drop_last() =~= s0.log);
}

/// A signature that does not recover the relayer key is rejected and changes
/// nothing.
pub proof fn lemma_wrong_signer_rejected(
    s0: BridgeView,
    s1: BridgeView,
    r: Result<FulfillPlan, BridgeError>,
    attached_deposit: u128,
    t: TransactionView,
    signature: Seq<u8>,
)
    requires
        fulfill_signed_post(s0, s1, r, attached_deposit, t, signature),
        !recovers_relayer(s0.relayer_key, signer_of(tx_hash_of(t), signature)),
    ensures
        r is Err,
        s1 == s0,
{
}

} // verus!
