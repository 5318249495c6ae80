//! The bridge: deposit intake, fulfillment of relayer-signed transactions and
//! the reconciliation that follows each dispense transfer.
use vstd::prelude::*;
use crate::chain::{
    account_id_valid, ecrecover, ecrecover_of, is_valid_account_id, opt_bytes, parse_public_key,
    public_key_of,
};
use crate::fee::{fee_of, split_fee, FEE_DENOMINATOR};
use crate::replay::{bytes_equal, ReplayGuard};
use crate::transaction::{history, tx_hash_of, Transaction, TransactionView};

verus! {

/// Recovery byte passed to signature recovery.
pub const ECRECOVER_V: u8 = 0;

/// Whether signature recovery rejects malleable signatures.
pub const ECRECOVER_MALLEABILITY: bool = false;

/// Curve byte that opens the bytes of a secp256k1 public key.
pub const SECP256K1_CURVE: u8 = 1;

/// Why a call was rejected. A rejected call changes nothing.
#[derive(Debug, Clone, Copy, PartialEq, Eq, Structural)]
pub enum BridgeError {
    /// The fee numerator is not below the fee denominator.
    FeeTooHigh,
    /// The relayer key is not a public key.
    InvalidRelayerKey,
    /// The deposit notification does not come from the bridged token.
    WrongToken,
    /// The deposit notification was not made through a cross-contract call.
    NotCrossContract,
    /// The notified sender is not the signer of the transaction.
    SenderNotSigner,
    /// Exactly one unit of the native asset must be attached.
    DepositRequired,
    /// The destination is not a valid account identifier.
    InvalidReceiver,
    /// The transaction has already been fulfilled.
    AlreadyFulfilled,
    /// The signature was not produced by the relayer key.
    WrongSignature,
}

/// Outcome of the dispense transfer, as seen by the reconciliation step.
#[derive(Debug, Clone, Copy, PartialEq, Eq, Structural)]
pub enum TransferOutcome {
    /// The transfer has not finished yet.
    NotReady,
    /// The tokens were transferred.
    Succeeded,
    /// The transfer failed and moved nothing.
    Failed,
}

/// What the host tells a call about itself.
pub struct CallContext {
    /// The account that made this call directly.
    pub predecessor: String,
    /// The account that signed the transaction this call belongs to.
    pub signer: String,
    /// Block time, in nanoseconds.
    pub timestamp: u64,
    /// Native asset attached to the call.
    pub attached_deposit: u128,
}

/// A token transfer that the bridge asks the ledger to make.
pub struct TransferRequest {
    pub receiver: String,
    pub amount: u128,
}

/// The transfers that a successful fulfillment asks for. The dispense transfer
/// is followed by reconciliation with its amount and `tx_hash`; the fee
/// transfer, where there is one, is not.
pub struct FulfillPlan {
    pub tx_hash: Vec<u8>,
    pub dispense: TransferRequest,
    pub fee: Option<TransferRequest>,
}

/// The bridge's state.
pub struct BridgeAssist {
    owner: String,
    relayer_key: Vec<u8>,
    token: String,
    fee_wallet: String,
    limit_per_send: u128,
    nonce: u128,
    fee_numerator: u16,
    transactions: Vec<Transaction>,
    fulfilled: ReplayGuard,
}

/// The mathematical value of a [`BridgeAssist`]: its configuration, the log of
/// recorded transactions in order, and the set of fulfilled hashes.
pub struct BridgeView {
    pub owner: Seq<char>,
    pub relayer_key: Seq<u8>,
    pub token: Seq<char>,
    pub fee_wallet: Seq<char>,
    pub limit_per_send: u128,
    pub nonce: u128,
    pub fee_numerator: u16,
    pub log: Seq<TransactionView>,
    pub fulfilled: Set<Seq<u8>>,
}

impl View for BridgeAssist {
    type V = BridgeView;

    closed spec fn view(&self) -> BridgeView {
        BridgeView {
            owner: self.owner@,
            relayer_key: self.relayer_key@,
            token: self.token@,
            fee_wallet: self.fee_wallet@,
            limit_per_send: self.limit_per_send,
            nonce: self.nonce,
            fee_numerator: self.fee_numerator,
            log: self.transactions@.map_values(|t: Transaction| t@),
            fulfilled: self.fulfilled@,
        }
    }
}

/// Whether `recovered` is the key that `relayer_key` (curve byte, then key
/// data) names. Signature recovery yields secp256k1 keys only, so a relayer
/// key on another curve is never matched.
pub open spec fn recovers_relayer(relayer_key: Seq<u8>, recovered: Option<Seq<u8>>) -> bool {
    &&& relayer_key.len() == 65
    &&& relayer_key[0] == SECP256K1_CURVE
    &&& recovered == Some(relayer_key.subrange(1, 65))
}

/// Why initialization fails, if it does.
pub open spec fn init_error(fee_numerator: u16, relayer_role: Seq<char>) -> Option<BridgeError> {
    if fee_numerator >= FEE_DENOMINATOR {
        Some(BridgeError::FeeTooHigh)
    } else if public_key_of(relayer_role) is None {
        Some(BridgeError::InvalidRelayerKey)
    } else {
        None
    }
}

/// The part of a deposit that the bridge keeps.
pub open spec fn accepted_of(amount: u128, limit: u128) -> u128 {
    if amount > limit {
        limit
    } else {
        amount
    }
}

/// The part of a deposit above the limit, handed back.
pub open spec fn excess_of(amount: u128, limit: u128) -> u128 {
    if amount > limit {
        (amount - limit) as u128
    } else {
        0
    }
}

/// Why a deposit notification is rejected, if it is.
pub open spec fn deposit_error(
    s: BridgeView,
    predecessor: Seq<char>,
    signer: Seq<char>,
    sender: Seq<char>,
) -> Option<BridgeError> {
    if predecessor != s.token {
        Some(BridgeError::WrongToken)
    } else if predecessor == signer {
        Some(BridgeError::NotCrossContract)
    } else if sender != signer {
        Some(BridgeError::SenderNotSigner)
    } else {
        None
    }
}

/// The transaction that an accepted deposit records.
pub open spec fn deposit_record(
    s: BridgeView,
    timestamp: u64,
    sender: Seq<char>,
    amount: u128,
    msg: Seq<char>,
) -> TransactionView {
    TransactionView {
        from: sender,
        to: msg,
        amount: accepted_of(amount, s.limit_per_send),
        timestamp,
        nonce: s.nonce,
    }
}

/// A deposit notification takes state `s0` to `s1` with result `r`.
pub open spec fn deposit_post(
    s0: BridgeView,
    s1: BridgeView,
    r: Result<u128, BridgeError>,
    predecessor: Seq<char>,
    signer: Seq<char>,
    timestamp: u64,
    sender: Seq<char>,
    amount: u128,
    msg: Seq<char>,
) -> bool {
    match deposit_error(s0, predecessor, signer, sender) {
        Some(e) => r == Err::<u128, BridgeError>(e) && s1 == s0,
        None => r == Ok::<u128, BridgeError>(excess_of(amount, s0.limit_per_send)) && s1 == (
        BridgeView {
            log: s0.log.push(deposit_record(s0, timestamp, sender, amount, msg)),
            nonce: (s0.nonce + 1) as u128,
            ..s0
        }),
    }
}

/// The key recovered from a signature over `hash`; a signature that is not 64
/// bytes long recovers nothing.
pub open spec fn signer_of(hash: Seq<u8>, signature: Seq<u8>) -> Option<Seq<u8>> {
    if signature.len() == 64 {
        ecrecover_of(hash, signature, ECRECOVER_V, ECRECOVER_MALLEABILITY)
    } else {
        None
    }
}

/// Why a fulfillment is rejected, if it is, given whether the destination is a
/// valid account, the transaction's hash and the key recovered from the signature.
pub open spec fn fulfill_error(
    s: BridgeView,
    attached_deposit: u128,
    receiver_ok: bool,
    hash: Seq<u8>,
    recovered: Option<Seq<u8>>,
) -> Option<BridgeError> {
    if attached_deposit != 1 {
        Some(BridgeError::DepositRequired)
    } else if !receiver_ok {
        Some(BridgeError::InvalidReceiver)
    } else if s.fulfilled.contains(hash) {
        Some(BridgeError::AlreadyFulfilled)
    } else if !recovers_relayer(s.relayer_key, recovered) {
        Some(BridgeError::WrongSignature)
    } else {
        None
    }
}

/// The transfers asked for when `t` with hash `h` is fulfilled in state `s`.
pub open spec fn plan_matches(p: FulfillPlan, s: BridgeView, t: TransactionView, h: Seq<u8>) -> bool {
    let fee = fee_of(t.amount, s.fee_numerator);
    &&& p.tx_hash@ == h
    &&& p.dispense.receiver@ == t.to
    &&& p.dispense.amount == t.amount - fee
    &&& match p.fee {
        Some(f) => fee > 0 && f.receiver@ == s.fee_wallet && f.amount == fee,
        None => fee == 0,
    }
}

/// A fulfillment of `t` takes state `s0` to `s1` with result `r`.
pub open spec fn fulfill_post(
    s0: BridgeView,
    s1: BridgeView,
    r: Result<FulfillPlan, BridgeError>,
    attached_deposit: u128,
    t: TransactionView,
    receiver_ok: bool,
    hash: Seq<u8>,
    recovered: Option<Seq<u8>>,
) -> bool {
    match fulfill_error(s0, attached_deposit, receiver_ok, hash, recovered) {
        Some(e) => r == Err::<FulfillPlan, BridgeError>(e) && s1 == s0,
        None => match r {
            Ok(p) => plan_matches(p, s0, t, hash) && s1 == (BridgeView {
                log: s0.log.push(t),
                fulfilled: s0.fulfilled.insert(hash),
                ..s0
            }),
            Err(_) => false,
        },
    }
}

/// `fulfill_post` with the destination check, the hash and the recovered key
/// taken from the transaction and signature themselves.
pub open spec fn fulfill_signed_post(
    s0: BridgeView,
    s1: BridgeView,
    r: Result<FulfillPlan, BridgeError>,
    attached_deposit: u128,
    t: TransactionView,
    signature: Seq<u8>,
) -> bool {
    fulfill_post(
        s0,
        s1,
        r,
        attached_deposit,
        t,
        account_id_valid(t.to),
        tx_hash_of(t),
        signer_of(tx_hash_of(t), signature),
    )
}

/// Reconciliation of a dispense transfer takes state `s0` to `s1` with result `r`.
pub open spec fn resolve_post(
    s0: BridgeView,
    s1: BridgeView,
    r: u128,
    amount: u128,
    tx_hash: Seq<u8>,
    outcome: TransferOutcome,
) -> bool {
    match outcome {
        TransferOutcome::Succeeded => r == 0 && s1 == s0,
        TransferOutcome::Failed => r == amount && s1 == (BridgeView {
            fulfilled: s0.fulfilled.remove(tx_hash),
            ..s0
        }),
        TransferOutcome::NotReady => false,
    }
}

impl BridgeAssist {
    /// The configuration is sound and no hash is held twice.
    pub closed spec fn wf(&self) -> bool {
        &&& self.fulfilled.wf()
        &&& self.fee_numerator < FEE_DENOMINATOR
    }

    /// Creates a bridge with an empty log, no fulfilled hashes and nonce 0.
    /// Fails where the fee numerator is not below the denominator, or where
    /// `relayer_role` is not a public key. A key on a curve other than
    /// secp256k1 is accepted, but no signature ever recovers it.
    pub fn init(
        owner: String,
        relayer_role: String,
        token: String,
        fee_wallet: String,
        limit_per_send: u128,
        fee_numerator: u16,
    ) -> (r: Result<BridgeAssist, BridgeError>)
        ensures
            match init_error(fee_numerator, relayer_role@) {
                Some(e) => r == Err::<BridgeAssist, BridgeError>(e),
                None => match r {
                    Ok(b) => b.wf() && b@ == (BridgeView {
                        owner: owner@,
                        relayer_key: public_key_of(relayer_role@)->0,
                        token: token@,
                        fee_wallet: fee_wallet@,
                        limit_per_send,
                        nonce: 0,
                        fee_numerator,
                        log: Seq::empty(),
                        fulfilled: Set::empty(),
                    }),
                    Err(_) => false,
                },
            },
    {
        if fee_numerator >= FEE_DENOMINATOR {
            return Err(BridgeError::FeeTooHigh);
        }
        let relayer_key = match parse_public_key(relayer_role.as_str()) {
            Some(k) => k,
            None => {
                return Err(BridgeError::InvalidRelayerKey);
            },
        };
        let b = BridgeAssist {
            owner,
            relayer_key,
            token,
            fee_wallet,
            limit_per_send,
            nonce: 0,
            fee_numerator,
            transactions: Vec::new(),
            fulfilled: ReplayGuard::new(),
        };
        assert(b@.log =~= Seq::<TransactionView>::empty());
        Ok(b)
    }

    /// Rebuilds a bridge from stored parts. Returns `None` where the parts
    /// cannot come from a bridge: a fee numerator not below the denominator,
    /// or a hash listed twice.
    pub fn restore(
        owner: String,
        relayer_key: Vec<u8>,
        token: String,
        fee_wallet: String,
        limit_per_send: u128,
        nonce: u128,
        fee_numerator: u16,
        transactions: Vec<Transaction>,
        fulfilled: Vec<Vec<u8>>,
    ) -> (r: Option<BridgeAssist>)
        ensures
            r is Some <==> (fee_numerator < FEE_DENOMINATOR && fulfilled@.map_values(|h: Vec<u8>| h@).no_duplicates()),
            r matches Some(b) ==> b.wf() && b@ == (BridgeView {
                owner: owner@,
                relayer_key: relayer_key@,
                token: token@,
                fee_wallet: fee_wallet@,
                limit_per_send,
                nonce,
                fee_numerator,
                log: transactions@.map_values(|t: Transaction| t@),
                fulfilled: Set::new(|h: Seq<u8>| fulfilled@.map_values(|v: Vec<u8>| v@).contains(h)),
            }),
    {
        let ghost views = fulfilled@.map_values(|h: Vec<u8>| h@);
        if fee_numerator >= FEE_DENOMINATOR {
            return None;
        }
        let mut guard = ReplayGuard::new();
        let mut i: usize = 0;
        while i < fulfilled.len()
            invariant
                i <= fulfilled@.len(),
                views == fulfilled@.map_values(|h: Vec<u8>| h@),
                guard.wf(),
                guard@ == Set::new(|h: Seq<u8>| views.subrange(0, i as int).contains(h)),
                views.subrange(0, i as int).no_duplicates(),
            decreases fulfilled@.len() - i,
        {
            let h = fulfilled[i].clone();
            if guard.contains(&h) {
                assert(!views.no_duplicates()) by {
                    let k = choose|k: int| 0 <= k < i && views.subrange(0, i as int)[k] == h@;
                    assert(views[k] == views[i as int]);
                }
                return None;
            }
            guard.insert(h);
            proof {
                let prev = views.subrange(0, i as int);
                let next = views.subrange(0, i + 1);
                assert(next =~= prev.push(views[i as int]));
                assert forall|x: Seq<u8>| #[trigger] next.contains(x) <==> (prev.contains(x) || x
                    == views[i as int]) by {
                    if prev.contains(x) {
                        let k = choose|k: int| 0 <= k < prev.len() && prev[k] == x;
                        assert(next[k] == x);
                    }
                    if x == views[i as int] {
                        assert(next[i as int] == x);
                    }
                    if next.contains(x) && x != views[i as int] {
                        let k = choose|k: int| 0 <= k < next.len() && next[k] == x;
                        assert(prev[k] == x);
                    }
                }
                assert(guard@ =~= Set::new(|x: Seq<u8>| next.contains(x)));
            }
            i = i + 1;
        }
        assert(views.subrange(0, i as int) =~= views);
        let b = BridgeAssist {
            owner,
            relayer_key,
            token,
            fee_wallet,
            limit_per_send,
            nonce,
            fee_numerator,
            transactions,
            fulfilled: guard,
        };
        assert(b@.fulfilled =~= Set::new(|h: Seq<u8>| fulfilled@.map_values(|v: Vec<u8>| v@).contains(h)));
        Some(b)
    }

    /// The fulfilled hashes, each once.
    pub fn fulfilled_hashes(&self) -> (r: &Vec<Vec<u8>>)
        requires
            self.wf(),
        ensures
            r@.map_values(|h: Vec<u8>| h@).no_duplicates(),
            forall|h: Seq<u8>| self@.fulfilled.contains(h) <==> r@.map_values(|v: Vec<u8>| v@).contains(h),
    {
        self.fulfilled.hashes()
    }

    /// Deposit intake: the bridged token notifies that `sender_id` sent
    /// `amount` towards `msg` on the other chain. Up to `limit_per_send` is
    /// kept and recorded under a fresh nonce; the rest is returned.
    pub fn ft_on_transfer(
        &mut self,
        ctx: &CallContext,
        sender_id: String,
        amount: u128,
        msg: String,
    ) -> (r: Result<u128, BridgeError>)
        requires
            old(self).wf(),
            old(self)@.nonce < u128::MAX,
        ensures
            final(self).wf(),
            deposit_post(
                old(self)@,
                final(self)@,
                r,
                ctx.predecessor@,
                ctx.signer@,
                ctx.timestamp,
                sender_id@,
                amount,
                msg@,
            ),
    {
        if ctx.predecessor != self.token {
            return Err(BridgeError::WrongToken);
        }
        if ctx.predecessor == ctx.signer {
            return Err(BridgeError::NotCrossContract);
        }
        if sender_id != ctx.signer {
            return Err(BridgeError::SenderNotSigner);
        }
        let mut accepted = amount;
        let mut excess: u128 = 0;
        if amount > self.limit_per_send {
            excess = amount - self.limit_per_send;
            accepted = self.limit_per_send;
        }
        let tx = Transaction::new(sender_id, msg, accepted, ctx.timestamp, self.nonce);
        let ghost old_log = self@.log;
        self.transactions.push(tx);
        self.nonce = self.nonce + 1;
        assert(self@.log =~= old_log.push(tx@));
        Ok(excess)
    }

    /// Fulfillment, given whether the destination is a valid account, the
    /// transaction's hash and the key recovered from the signature. On
    /// success the hash is marked fulfilled, the transaction is recorded, and
    /// the dispense and fee transfers are returned for the caller to issue.
    pub fn fulfill_checked(
        &mut self,
        attached_deposit: u128,
        transaction: Transaction,
        receiver_ok: bool,
        tx_hash: Vec<u8>,
        recovered: Option<Vec<u8>>,
    ) -> (r: Result<FulfillPlan, BridgeError>)
        requires
            old(self).wf(),
        ensures
            final(self).wf(),
            fulfill_post(
                old(self)@,
                final(self)@,
                r,
                attached_deposit,
                transaction@,
                receiver_ok,
                tx_hash@,
                opt_bytes(recovered),
            ),
    {
        if attached_deposit != 1 {
            return Err(BridgeError::DepositRequired);
        }
        if !receiver_ok {
            return Err(BridgeError::InvalidReceiver);
        }
        let hash = tx_hash;
        if self.fulfilled.contains(&hash) {
            return Err(BridgeError::AlreadyFulfilled);
        }
        let signed_by_relayer = match &recovered {
            Some(k) => self.relayer_key.len() == 65 && self.relayer_key[0] == SECP256K1_CURVE
                && bytes_equal(k, &key_data(&self.relayer_key)),
            None => false,
        };
        if !signed_by_relayer {
            return Err(BridgeError::WrongSignature);
        }
        let (fee, dispense) = split_fee(transaction.amount, self.fee_numerator);
        let receiver = transaction.to.clone();
        let plan_hash = hash.clone();
        let ghost t = transaction@;
        let ghost old_log = self@.log;
        self.fulfilled.insert(hash);
        self.transactions.push(transaction);
        assert(self@.log =~= old_log.push(t));
        // The fee goes out whatever becomes of the dispense transfer.
        let fee_transfer = if fee > 0 {
            Some(TransferRequest { receiver: self.fee_wallet.clone(), amount: fee })
        } else {
            None
        };
        Ok(FulfillPlan {
            tx_hash: plan_hash,
            dispense: TransferRequest { receiver, amount: dispense },
            fee: fee_transfer,
        })
    }

    /// Fulfills a transaction from the other chain that the relayer signed.
    /// Rejected, with nothing changed, unless exactly one unit is attached,
    /// the destination is a valid account, the transaction has not been
    /// fulfilled and the signature (64 bytes) recovers the relayer key.
    pub fn fulfill(&mut self, ctx: &CallContext, transaction: Transaction, signature: &Vec<u8>) -> (r:
        Result<FulfillPlan, BridgeError>)
        requires
            old(self).wf(),
        ensures
            final(self).wf(),
            fulfill_signed_post(
                old(self)@,
                final(self)@,
                r,
                ctx.attached_deposit,
                transaction@,
                signature@,
            ),
    {
        let receiver_ok = is_valid_account_id(transaction.to.as_str());
        let tx_hash = transaction.hash();
        let sig: &[u8] = signature.as_slice();
        let recovered = if sig.len() == 64 {
            ecrecover(&tx_hash, sig, ECRECOVER_V, ECRECOVER_MALLEABILITY)
        } else {
            None
        };
        self.fulfill_checked(ctx.attached_deposit, transaction, receiver_ok, tx_hash, recovered)
    }

    /// Reconciliation after the dispense transfer of `amount` for `tx_hash`
    /// has finished: on success nothing changes and 0 is returned; on failure
    /// the hash is no longer marked fulfilled and `amount` is returned as
    /// reverted. An unfinished transfer is never handed here.
    pub fn resolve_fulfill(&mut self, amount: u128, tx_hash: &Vec<u8>, outcome: TransferOutcome) -> (r:
        u128)
        requires
            old(self).wf(),
            !(outcome is NotReady),
        ensures
            final(self).wf(),
            resolve_post(old(self)@, final(self)@, r, amount, tx_hash@, outcome),
    {
        match outcome {
            TransferOutcome::Succeeded => 0,
            TransferOutcome::Failed => {
                self.fulfilled.remove(tx_hash);
                amount
            },
            TransferOutcome::NotReady => 0,
        }
    }

    pub fn owner(&self) -> (r: &String)
        ensures
            r@ == self@.owner,
    {
        &self.owner
    }

    /// The relayer's public key: its curve byte, then its key data.
    pub fn relayer_key(&self) -> (r: &Vec<u8>)
        ensures
            r@ == self@.relayer_key,
    {
        &self.relayer_key
    }

    pub fn token(&self) -> (r: &String)
        ensures
            r@ == self@.token,
    {
        &self.token
    }

    pub fn fee_wallet(&self) -> (r: &String)
        ensures
            r@ == self@.fee_wallet,
    {
        &self.fee_wallet
    }

    pub fn limit_per_send(&self) -> (r: u128)
        ensures
            r == self@.limit_per_send,
    {
        self.limit_per_send
    }

    /// The nonce that the next deposit will carry.
    pub fn nonce(&self) -> (r: u128)
        ensures
            r == self@.nonce,
    {
        self.nonce
    }

    pub fn fee_numerator(&self) -> (r: u16)
        ensures
            r == self@.fee_numerator,
            self.wf() ==> r < FEE_DENOMINATOR,
    {
        self.fee_numerator
    }

    /// Number of recorded transactions.
    pub fn log_len(&self) -> (r: usize)
        ensures
            r == self@.log.len(),
    {
        self.transactions.len()
    }

    /// The `i`-th recorded transaction, oldest first.
    pub fn log_entry(&self, i: usize) -> (r: &Transaction)
        requires
            i < self@.log.len(),
        ensures
            r@ == self@.log[i as int],
    {
        &self.transactions[i]
    }

    /// The transactions recorded under `account`, oldest first.
    pub fn transactions_of(&self, account: &String) -> (r: Vec<Transaction>)
        ensures
            r@.map_values(|t: Transaction| t@) == history(self@.log, account@),
    {
        let ghost log = self@.log;
        let mut r: Vec<Transaction> = Vec::new();
        let mut i: usize = 0;
        while i < self.transactions.len()
            invariant
                i <= self.transactions@.len(),
                log == self.transactions@.map_values(|t: Transaction| t@),
                r@.map_values(|t: Transaction| t@) == history(log.subrange(0, i as int), account@),
            decreases self.transactions@.len() - i,
        {
            let ghost before = r@.map_values(|t: Transaction| t@);
            assert(log.subrange(0, i + 1).drop_last() =~= log.subrange(0, i as int));
            if self.transactions[i].from == *account {
                r.push(self.transactions[i].duplicate());
                assert(r@.map_values(|t: Transaction| t@) =~= before.push(log[i as int]));
            }
            i = i + 1;
        }
        assert(log.subrange(0, i as int) =~= log);
        r
    }

    /// Whether the hash is marked fulfilled.
    pub fn is_fulfilled(&self, tx_hash: &Vec<u8>) -> (r: bool)
        ensures
            r == self@.fulfilled.contains(tx_hash@),
    {
        self.fulfilled.contains(tx_hash)
    }
}

/// The key data of a 65-byte public key: every byte after the curve byte.
fn key_data(k: &Vec<u8>) -> (r: Vec<u8>)
    requires
        k@.len() == 65,
    ensures
        r@ == k@.subrange(1, 65),
{
    let mut r: Vec<u8> = Vec::new();
    let mut i: usize = 1;
    while i < 65
        invariant
            k@.len() == 65,
            1 <= i <= 65,
            r@ == k@.subrange(1, i as int),
        decreases 65 - i,
    {
        r.push(k[i]);
        i = i + 1;
        assert(r@ =~= k@.subrange(1, i as int));
    }
    r
}

} // verus!
