//! The balance ledger service: deposit, confidential transfer, withdraw and
//! view, each a short protocol of fetch, homomorphic compute, store.
//!
//! A transfer debits the sender by the requested amount only where the
//! sender's (encrypted) balance covers it; otherwise the debit is clamped to
//! the ledger's zero record, entirely under encryption, and both accounts
//! are rewritten with their unchanged values. The service never learns
//! which of the two happened, and reports success either way.

use vstd::prelude::*;

use crate::LedgerError;
use crate::engine::EncryptedBalance;
use crate::engine::SchemeContext;
use crate::engine::clamp_debit;
use crate::engine::clamped;
use crate::engine::compress_serialize;
use crate::engine::decrypt;
use crate::engine::enc_add;
use crate::engine::enc_sub;
use crate::engine::encrypt;
use crate::engine::prepare_stored;
use crate::engine::StoredCiphertext;
use crate::store::CiphertextStore;
use crate::wrap_add;
use crate::wrap_sub;

verus! {

/// The reserved key of the ledger's zero record: 32 zero bytes. Transfer
/// and withdraw fetch the encrypted zero they clamp with from this record.
pub open spec fn zero_key_bytes() -> Seq<u8> {
    Seq::new(32, |i: int| 0u8)
}

/// The reserved account key under which the encrypted zero constant is
/// stored.
pub fn zero_account_key() -> (r: Vec<u8>)
    ensures
        r@ == zero_key_bytes(),
{
    let mut v: Vec<u8> = Vec::new();
    let mut i: usize = 0;
    while i < 32
        invariant
            i <= 32,
            v@.len() == i,
            forall|j: int| 0 <= j < i ==> v@[j] == 0u8,
        decreases 32 - i,
    {
        v.push(0u8);
        i = i + 1;
    }
    proof {
        assert(v@ =~= zero_key_bytes());
    }
    v
}

/// The balances after a transfer of `amount` from `sender` to `recipient`,
/// with `fallback` (the plaintext of the ledger's zero record) as the debit
/// where funds are insufficient. Both new values are computed from the
/// balances before the operation; the recipient's write lands last.
pub open spec fn transfer_updates(
    b: Map<Seq<u8>, u64>,
    sender: Seq<u8>,
    recipient: Seq<u8>,
    amount: u64,
    fallback: u64,
) -> Map<Seq<u8>, u64> {
    let debit = clamped(b[sender], amount, fallback);
    b.insert(sender, wrap_sub(b[sender], debit)).insert(recipient, wrap_add(b[recipient], debit))
}

/// The balances after only the sender's write of a transfer has landed:
/// the state a failure between the two independent writes leaves behind.
pub open spec fn debit_only(
    b: Map<Seq<u8>, u64>,
    sender: Seq<u8>,
    amount: u64,
    fallback: u64,
) -> Map<Seq<u8>, u64> {
    let debit = clamped(b[sender], amount, fallback);
    b.insert(sender, wrap_sub(b[sender], debit))
}

/// The balances after a withdrawal of `amount` from `key`, clamped the same
/// way a transfer is.
pub open spec fn withdraw_update(
    b: Map<Seq<u8>, u64>,
    key: Seq<u8>,
    amount: u64,
    fallback: u64,
) -> Map<Seq<u8>, u64> {
    b.insert(key, wrap_sub(b[key], clamped(b[key], amount, fallback)))
}

/// The balance ledger service: the ciphertext store together with the
/// scheme context every homomorphic operation runs under.
pub struct LedgerService {
    ctx: SchemeContext,
    store: CiphertextStore,
}

impl LedgerService {
    /// The (ghost) identity of the key pair the service operates under.
    pub closed spec fn scheme_id(&self) -> int {
        self.ctx.id()
    }

    /// The scheme's server key carries the compression and decompression
    /// keys, so every operation of the service is owed success on the
    /// inputs its contract names. Holds of a generated context; externally
    /// provisioned key material makes no such promise.
    pub closed spec fn scheme_ready(&self) -> bool {
        self.ctx.compression_ready()
    }

    /// The store is well formed and every stored blob was packed by this
    /// library under the service's own key pair.
    pub closed spec fn wf(&self) -> bool {
        &&& self.store.wf()
        &&& forall|k: Seq<u8>|
            #[trigger] self.store.contents().contains_key(k)
                ==> self.store.contents()[k].key_id() == self.ctx.id()
                && self.store.contents()[k].is_packed()
    }

    /// The plaintext balances the store holds, one per account key.
    pub closed spec fn balances(&self) -> Map<Seq<u8>, u64> {
        self.store.contents().map_values(|b: StoredCiphertext| b@)
    }

    /// The at-rest byte strings the store holds, one per account key; its
    /// domain is that of [`Self::balances`].
    pub closed spec fn stored_bytes(&self) -> Map<Seq<u8>, Seq<u8>> {
        self.store.contents().map_values(|b: StoredCiphertext| b.spec_bytes())
    }

    /// A fresh service over a newly generated key pair and an empty store.
    pub fn init() -> (r: LedgerService)
        ensures
            r.wf(),
            r.scheme_ready(),
            r.balances() == Map::<Seq<u8>, u64>::empty(),
    {
        let r = LedgerService { ctx: SchemeContext::generate(), store: CiphertextStore::new() };
        proof {
            assert(r.balances() =~= Map::<Seq<u8>, u64>::empty());
        }
        r
    }

    /// A service over externally provisioned key material and an empty
    /// store.
    pub fn from_key_pair(client_key: tfhe::ClientKey, server_key: tfhe::ServerKey) -> (r:
        LedgerService)
        ensures
            r.wf(),
            r.balances() == Map::<Seq<u8>, u64>::empty(),
    {
        let r = LedgerService {
            ctx: SchemeContext::from_key_pair(client_key, server_key),
            store: CiphertextStore::new(),
        };
        proof {
            assert(r.balances() =~= Map::<Seq<u8>, u64>::empty());
        }
        r
    }

    /// Encrypts an amount under the service's client key, yielding a live
    /// ciphertext usable with this service's operations.
    pub fn encrypt_amount(&self, v: u64) -> (r: EncryptedBalance)
        ensures
            r@ == v,
            r.key_id() == self.scheme_id(),
    {
        encrypt(v, &self.ctx)
    }

    /// Encrypts an amount and packs it to the at-rest form, ready to be
    /// placed in a ciphertext store.
    pub fn pack_amount(&self, v: u64) -> (r: Result<StoredCiphertext, LedgerError>)
        ensures
            r matches Ok(b) ==> b@ == v && b.key_id() == self.scheme_id(),
            self.scheme_ready() ==> r is Ok,
    {
        let live = encrypt(v, &self.ctx);
        compress_serialize(&live, &self.ctx)
    }

    /// The at-rest bytes currently stored under `key`, as the persistence
    /// mirror reads them; fails with `NotFound` if the key has no record.
    pub fn stored_blob(&self, key: &Vec<u8>) -> (r: Result<&Vec<u8>, LedgerError>)
        ensures
            r is Ok <==> self.balances().contains_key(key@),
            self.stored_bytes().contains_key(key@) == self.balances().contains_key(key@),
            r matches Ok(b) ==> b@ == self.stored_bytes()[key@],
            r matches Err(e) ==> e == LedgerError::NotFound,
    {
        match self.store.get_ciphertext(key) {
            Ok(b) => Ok(b.as_bytes()),
            Err(e) => Err(e),
        }
    }

    /// Deposit: encrypt `amount`, pack it, and upsert it under `key`. The
    /// account afterwards holds exactly `amount` — overwrite semantics, not
    /// additive; no prior balance is read or preserved.
    pub fn deposit(&mut self, key: Vec<u8>, amount: u64) -> (r: Result<(), LedgerError>)
        requires
            old(self).wf(),
        ensures
            final(self).wf(),
            final(self).scheme_id() == old(self).scheme_id(),
            final(self).scheme_ready() == old(self).scheme_ready(),
            r is Ok ==> final(self).balances() == old(self).balances().insert(key@, amount),
            r is Err ==> *final(self) == *old(self),
            r matches Err(e) ==> e == LedgerError::OperationError,
            old(self).scheme_ready() ==> r is Ok,
    {
        let live = encrypt(amount, &self.ctx);
        let blob = match compress_serialize(&live, &self.ctx) {
            Ok(b) => b,
            Err(e) => {
                return Err(e);
            },
        };
        self.store.insert_ciphertext(key, blob);
        proof {
            assert(self.balances() =~= old(self).balances().insert(key@, amount));
        }
        Ok(())
    }

    /// View: fetch the at-rest balance under `key`, prepare it, decrypt it
    /// and return the plaintext. Fails with `NotFound` if the key has no
    /// record.
    pub fn view_balance(&self, key: &Vec<u8>) -> (r: Result<u64, LedgerError>)
        requires
            self.wf(),
        ensures
            r matches Ok(v) ==> self.balances().contains_key(key@) && v == self.balances()[key@],
            !self.balances().contains_key(key@) ==> r == Err::<u64, LedgerError>(
                LedgerError::NotFound,
            ),
            r == Err::<u64, LedgerError>(LedgerError::NotFound) ==> !self.balances().contains_key(
                key@,
            ),
            r matches Err(e) ==> e == LedgerError::NotFound || e == LedgerError::DecodeError,
            self.scheme_ready() && self.balances().contains_key(key@) ==> r is Ok,
    {
        let blob = match self.store.get_ciphertext(key) {
            Ok(b) => b,
            Err(e) => {
                return Err(e);
            },
        };
        let live = match prepare_stored(blob, &self.ctx) {
            Ok(c) => c,
            Err(e) => {
                return Err(e);
            },
        };
        Ok(decrypt(&live, &self.ctx))
    }

    /// Transfer with a prepared (live) amount: fetch and prepare the sender
    /// balance, the recipient balance and the zero record; clamp the debit
    /// to zero where funds are insufficient, entirely under encryption;
    /// subtract and add; then rewrite sender and recipient in turn through
    /// the update-only store path. Success never reveals whether funds
    /// sufficed. The two writes are independent: a failure between them
    /// leaves the sender debited and the recipient untouched.
    pub fn transfer(
        &mut self,
        sender_key: &Vec<u8>,
        recipient_key: &Vec<u8>,
        amount: &EncryptedBalance,
    ) -> (r: Result<(), LedgerError>)
        requires
            old(self).wf(),
            amount.key_id() == old(self).scheme_id(),
        ensures
            final(self).wf(),
            final(self).scheme_id() == old(self).scheme_id(),
            r is Ok ==> old(self).balances().contains_key(sender_key@) && old(
                self,
            ).balances().contains_key(recipient_key@) && old(self).balances().contains_key(
                zero_key_bytes(),
            ) && final(self).balances() == transfer_updates(
                old(self).balances(),
                sender_key@,
                recipient_key@,
                amount@,
                old(self).balances()[zero_key_bytes()],
            ),
            !(old(self).balances().contains_key(sender_key@) && old(
                self,
            ).balances().contains_key(recipient_key@) && old(self).balances().contains_key(
                zero_key_bytes(),
            )) ==> r is Err && *final(self) == *old(self),
            r is Err ==> *final(self) == *old(self) || final(self).balances() == debit_only(
                old(self).balances(),
                sender_key@,
                amount@,
                old(self).balances()[zero_key_bytes()],
            ),
            r matches Err(e) && e == LedgerError::NotFound ==> !(old(
                self,
            ).balances().contains_key(sender_key@) && old(self).balances().contains_key(
                recipient_key@,
            ) && old(self).balances().contains_key(zero_key_bytes())),
            r matches Err(e) && e != LedgerError::OperationError ==> *final(self) == *old(self),
            final(self).scheme_ready() == old(self).scheme_ready(),
            old(self).scheme_ready() && old(self).balances().contains_key(sender_key@) && old(
                self,
            ).balances().contains_key(recipient_key@) && old(self).balances().contains_key(
                zero_key_bytes(),
            ) ==> r is Ok,
    {
        let ghost b0 = self.balances();
        let sender_live = {
            let b = match self.store.get_ciphertext(sender_key) {
                Ok(b) => b,
                Err(e) => {
                    return Err(e);
                },
            };
            match prepare_stored(b, &self.ctx) {
                Ok(c) => c,
                Err(e) => {
                    return Err(e);
                },
            }
        };
        let recipient_live = {
            let b = match self.store.get_ciphertext(recipient_key) {
                Ok(b) => b,
                Err(e) => {
                    return Err(e);
                },
            };
            match prepare_stored(b, &self.ctx) {
                Ok(c) => c,
                Err(e) => {
                    return Err(e);
                },
            }
        };
        let zkey = zero_account_key();
        let zero_live = {
            let b = match self.store.get_ciphertext(&zkey) {
                Ok(b) => b,
                Err(e) => {
                    return Err(e);
                },
            };
            match prepare_stored(b, &self.ctx) {
                Ok(c) => c,
                Err(e) => {
                    return Err(e);
                },
            }
        };
        let real_amount = clamp_debit(&sender_live, amount, &zero_live, &self.ctx);
        let new_sender = enc_sub(&sender_live, &real_amount, &self.ctx);
        let new_recipient = enc_add(&recipient_live, &real_amount, &self.ctx);
        let sender_blob = match compress_serialize(&new_sender, &self.ctx) {
            Ok(b) => b,
            Err(e) => {
                return Err(e);
            },
        };
        self.store.update_ciphertext(sender_key, sender_blob);
        proof {
            assert(self.balances() =~= debit_only(
                b0,
                sender_key@,
                amount@,
                b0[zero_key_bytes()],
            ));
        }
        let recipient_blob = match compress_serialize(&new_recipient, &self.ctx) {
            Ok(b) => b,
            Err(e) => {
                return Err(e);
            },
        };
        self.store.update_ciphertext(recipient_key, recipient_blob);
        proof {
            assert(self.balances() =~= transfer_updates(
                b0,
                sender_key@,
                recipient_key@,
                amount@,
                b0[zero_key_bytes()],
            ));
        }
        Ok(())
    }

    /// Transfer as the request surface sees it: the amount is itself an
    /// account reference — a key whose stored record holds the encrypted
    /// amount — and is fetched and prepared as one of the fetch steps,
    /// alongside the sender, the recipient and the zero record. The
    /// transferred amount is therefore the balance stored under
    /// `amount_key`.
    pub fn transfer_by_key(
        &mut self,
        sender_key: &Vec<u8>,
        recipient_key: &Vec<u8>,
        amount_key: &Vec<u8>,
    ) -> (r: Result<(), LedgerError>)
        requires
            old(self).wf(),
        ensures
            final(self).wf(),
            final(self).scheme_id() == old(self).scheme_id(),
            final(self).scheme_ready() == old(self).scheme_ready(),
            r is Ok ==> old(self).balances().contains_key(amount_key@) && old(
                self,
            ).balances().contains_key(sender_key@) && old(self).balances().contains_key(
                recipient_key@,
            ) && old(self).balances().contains_key(zero_key_bytes()) && final(self).balances()
                == transfer_updates(
                old(self).balances(),
                sender_key@,
                recipient_key@,
                old(self).balances()[amount_key@],
                old(self).balances()[zero_key_bytes()],
            ),
            !(old(self).balances().contains_key(amount_key@) && old(
                self,
            ).balances().contains_key(sender_key@) && old(self).balances().contains_key(
                recipient_key@,
            ) && old(self).balances().contains_key(zero_key_bytes())) ==> r is Err && *final(self)
                == *old(self),
            r is Err ==> *final(self) == *old(self) || final(self).balances() == debit_only(
                old(self).balances(),
                sender_key@,
                old(self).balances()[amount_key@],
                old(self).balances()[zero_key_bytes()],
            ),
            r matches Err(e) && e == LedgerError::NotFound ==> !(old(
                self,
            ).balances().contains_key(amount_key@) && old(self).balances().contains_key(
                sender_key@,
            ) && old(self).balances().contains_key(recipient_key@) && old(
                self,
            ).balances().contains_key(zero_key_bytes())),
            r matches Err(e) && e != LedgerError::OperationError ==> *final(self) == *old(self),
            old(self).scheme_ready() && old(self).balances().contains_key(amount_key@) && old(
                self,
            ).balances().contains_key(sender_key@) && old(self).balances().contains_key(
                recipient_key@,
            ) && old(self).balances().contains_key(zero_key_bytes()) ==> r is Ok,
    {
        let amount = {
            let b = match self.store.get_ciphertext(amount_key) {
                Ok(b) => b,
                Err(e) => {
                    return Err(e);
                },
            };
            match prepare_stored(b, &self.ctx) {
                Ok(c) => c,
                Err(e) => {
                    return Err(e);
                },
            }
        };
        self.transfer(sender_key, recipient_key, &amount)
    }

    /// Withdraw with a prepared (live) amount: the same clamped subtraction
    /// as a transfer, against a single account and with no recipient
    /// credit. After storing the new balance the service decrypts it and
    /// returns the plaintext — the one operation that exposes a plaintext
    /// to the caller.
    pub fn withdraw(&mut self, key: &Vec<u8>, amount: &EncryptedBalance) -> (r: Result<
        u64,
        LedgerError,
    >)
        requires
            old(self).wf(),
            amount.key_id() == old(self).scheme_id(),
        ensures
            final(self).wf(),
            final(self).scheme_id() == old(self).scheme_id(),
            r matches Ok(v) ==> old(self).balances().contains_key(key@) && old(
                self,
            ).balances().contains_key(zero_key_bytes()) && final(self).balances()
                == withdraw_update(
                old(self).balances(),
                key@,
                amount@,
                old(self).balances()[zero_key_bytes()],
            ) && v == wrap_sub(
                old(self).balances()[key@],
                clamped(
                    old(self).balances()[key@],
                    amount@,
                    old(self).balances()[zero_key_bytes()],
                ),
            ),
            !(old(self).balances().contains_key(key@) && old(self).balances().contains_key(
                zero_key_bytes(),
            )) ==> r is Err,
            r is Err ==> *final(self) == *old(self),
            r matches Err(e) && e == LedgerError::NotFound ==> !(old(
                self,
            ).balances().contains_key(key@) && old(self).balances().contains_key(
                zero_key_bytes(),
            )),
            final(self).scheme_ready() == old(self).scheme_ready(),
            old(self).scheme_ready() && old(self).balances().contains_key(key@) && old(
                self,
            ).balances().contains_key(zero_key_bytes()) ==> r is Ok,
    {
        let ghost b0 = self.balances();
        let balance_live = {
            let b = match self.store.get_ciphertext(key) {
                Ok(b) => b,
                Err(e) => {
                    return Err(e);
                },
            };
            match prepare_stored(b, &self.ctx) {
                Ok(c) => c,
                Err(e) => {
                    return Err(e);
                },
            }
        };
        let zkey = zero_account_key();
        let zero_live = {
            let b = match self.store.get_ciphertext(&zkey) {
                Ok(b) => b,
                Err(e) => {
                    return Err(e);
                },
            };
            match prepare_stored(b, &self.ctx) {
                Ok(c) => c,
                Err(e) => {
                    return Err(e);
                },
            }
        };
        let real_amount = clamp_debit(&balance_live, amount, &zero_live, &self.ctx);
        let new_balance = enc_sub(&balance_live, &real_amount, &self.ctx);
        let blob = match compress_serialize(&new_balance, &self.ctx) {
            Ok(b) => b,
            Err(e) => {
                return Err(e);
            },
        };
        self.store.update_ciphertext(key, blob);
        proof {
            assert(self.balances() =~= withdraw_update(b0, key@, amount@, b0[zero_key_bytes()]));
        }
        Ok(decrypt(&new_balance, &self.ctx))
    }

    /// Withdraw as the request surface sees it: the amount is an account
    /// reference — a key whose stored record holds the encrypted amount —
    /// fetched and prepared alongside the balance and the zero record. The
    /// withdrawn amount is therefore the balance stored under
    /// `amount_key`, and the new balance comes back as plaintext.
    pub fn withdraw_by_key(&mut self, key: &Vec<u8>, amount_key: &Vec<u8>) -> (r: Result<
        u64,
        LedgerError,
    >)
        requires
            old(self).wf(),
        ensures
            final(self).wf(),
            final(self).scheme_id() == old(self).scheme_id(),
            final(self).scheme_ready() == old(self).scheme_ready(),
            r matches Ok(v) ==> old(self).balances().contains_key(amount_key@) && old(
                self,
            ).balances().contains_key(key@) && old(self).balances().contains_key(
                zero_key_bytes(),
            ) && final(self).balances() == withdraw_update(
                old(self).balances(),
                key@,
                old(self).balances()[amount_key@],
                old(self).balances()[zero_key_bytes()],
            ) && v == wrap_sub(
                old(self).balances()[key@],
                clamped(
                    old(self).balances()[key@],
                    old(self).balances()[amount_key@],
                    old(self).balances()[zero_key_bytes()],
                ),
            ),
            !(old(self).balances().contains_key(amount_key@) && old(
                self,
            ).balances().contains_key(key@) && old(self).balances().contains_key(
                zero_key_bytes(),
            )) ==> r is Err,
            r is Err ==> *final(self) == *old(self),
            r matches Err(e) && e == LedgerError::NotFound ==> !(old(
                self,
            ).balances().contains_key(amount_key@) && old(self).balances().contains_key(key@)
                && old(self).balances().contains_key(zero_key_bytes())),
            old(self).scheme_ready() && old(self).balances().contains_key(amount_key@) && old(
                self,
            ).balances().contains_key(key@) && old(self).balances().contains_key(
                zero_key_bytes(),
            ) ==> r is Ok,
    {
        let amount = {
            let b = match self.store.get_ciphertext(amount_key) {
                Ok(b) => b,
                Err(e) => {
                    return Err(e);
                },
            };
            match prepare_stored(b, &self.ctx) {
                Ok(c) => c,
                Err(e) => {
                    return Err(e);
                },
            }
        };
        self.withdraw(key, &amount)
    }
}

/// Deposit overwrite: depositing `v2` to a key that already holds `v1`
/// leaves the key holding exactly `v2`, never an accumulation of the two.
pub proof fn lemma_deposit_overwrite(b: Map<Seq<u8>, u64>, key: Seq<u8>, v1: u64, v2: u64)
    ensures
        b.insert(key, v1).insert(key, v2) == b.insert(key, v2),
        b.insert(key, v1).insert(key, v2)[key] == v2,
{
    assert(b.insert(key, v1).insert(key, v2) =~= b.insert(key, v2));
}

/// Sufficient-funds transfer: where the sender's balance `S` covers the
/// amount `A` and the recipient's balance `R` leaves room for it, the
/// sender ends with `S - A`, the recipient with `R + A`, and every other
/// account is untouched — whatever the zero record holds, since the
/// fallback is not selected. Distinct sender and recipient keys are
/// assumed: when the two coincide, the recipient's write lands last and
/// the account ends with `S + A`.
pub proof fn lemma_sufficient_funds_transfer(
    b: Map<Seq<u8>, u64>,
    sender: Seq<u8>,
    recipient: Seq<u8>,
    amount: u64,
    fallback: u64,
)
    requires
        b.contains_key(sender),
        b.contains_key(recipient),
        sender != recipient,
        b[sender] >= amount,
        b[recipient] + amount <= u64::MAX,
    ensures
        transfer_updates(b, sender, recipient, amount, fallback)[sender] == b[sender] - amount,
        transfer_updates(b, sender, recipient, amount, fallback)[recipient] == b[recipient]
            + amount,
        forall|k: Seq<u8>|
            k != sender && k != recipient ==> #[trigger] transfer_updates(
                b,
                sender,
                recipient,
                amount,
                fallback,
            ).contains_key(k) == b.contains_key(k) && (b.contains_key(k) ==> transfer_updates(
                b,
                sender,
                recipient,
                amount,
                fallback,
            )[k] == b[k]),
{
}

/// Insufficient-funds transfer: where the sender's balance does not cover
/// the amount and the ledger's zero record holds zero, a transfer rewrites
/// both accounts with their unchanged values.
pub proof fn lemma_insufficient_funds_transfer(
    b: Map<Seq<u8>, u64>,
    sender: Seq<u8>,
    recipient: Seq<u8>,
    amount: u64,
)
    requires
        b.contains_key(sender),
        b.contains_key(recipient),
        b[sender] < amount,
    ensures
        transfer_updates(b, sender, recipient, amount, 0) == b,
{
    assert(transfer_updates(b, sender, recipient, amount, 0) =~= b);
}

/// Withdraw clamping: the new stored balance is `S - A` where the balance
/// `S` covers the amount `A`, and `S` unchanged where it does not, the
/// ledger's zero record holding zero.
pub proof fn lemma_withdraw_clamping(b: Map<Seq<u8>, u64>, key: Seq<u8>, amount: u64)
    requires
        b.contains_key(key),
    ensures
        b[key] >= amount ==> withdraw_update(b, key, amount, 0)[key] == b[key] - amount,
        b[key] < amount ==> withdraw_update(b, key, amount, 0) == b,
{
    if b[key] < amount {
        assert(withdraw_update(b, key, amount, 0) =~= b);
    }
}

} // verus!
