//! The account ledger: a balance plus an append-only transaction history.
//!
//! Monetary amounts are plain integers in minor currency units (for example
//! cents), so every amount the ledger handles is an exact value.  A
//! transaction's timestamp is a logical point in time: the position the
//! entry received when it was appended, recorded at append time.

use vstd::prelude::*;

verus! {

/// The kind of a recorded transaction.
///
/// A `Transfer` entry records money arriving from another account; the
/// debit leg of a transfer is recorded on the source account as a
/// `Withdrawal`, so the kind of an entry alone determines the sign of its
/// effect on the balance.
#[derive(Clone, Copy, Debug, PartialEq, Eq, Structural)]
pub enum TransactionType {
    Deposit,
    Withdrawal,
    Transfer,
}

/// Every way a ledger operation can fail.  All failures are reported to the
/// caller; no operation changes any state when it fails.
#[derive(Clone, Copy, Debug, PartialEq, Eq, Structural)]
pub enum LedgerError {
    /// A non-positive amount was supplied to deposit, withdraw or transfer.
    InvalidAmount,
    /// A withdrawal or transfer asked for more than the source balance.
    InsufficientFunds,
    /// An account was created with a negative opening balance.
    NegativeOpeningBalance,
    /// A transfer named the source account itself as the destination.
    SelfTransfer,
}

/// One immutable entry of an account's history, describing a single
/// completed deposit, withdrawal or transfer leg.
#[derive(Clone, Debug)]
pub struct Transaction {
    transaction_type: TransactionType,
    amount: i64,
    timestamp: u64,
    description: String,
}

/// The mathematical model of a [`Transaction`].
pub struct TransactionView {
    pub transaction_type: TransactionType,
    pub amount: int,
    pub timestamp: int,
    pub description: Seq<char>,
}

impl View for Transaction {
    type V = TransactionView;

    closed spec fn view(&self) -> TransactionView {
        TransactionView {
            transaction_type: self.transaction_type,
            amount: self.amount as int,
            timestamp: self.timestamp as int,
            description: self.description@,
        }
    }
}

impl Transaction {
    /// The kind of this entry.
    pub fn transaction_type(&self) -> (k: TransactionType)
        ensures
            k == self@.transaction_type,
    {
        self.transaction_type
    }

    /// The amount moved by this entry; always strictly positive.
    pub fn amount(&self) -> (a: i64)
        ensures
            a == self@.amount,
    {
        self.amount
    }

    /// The logical time at which this entry was appended: its position in
    /// the owning account's history.
    pub fn timestamp(&self) -> (t: u64)
        ensures
            t == self@.timestamp,
    {
        self.timestamp
    }

    /// The free-text description recorded with this entry.
    pub fn description(&self) -> (d: &String)
        ensures
            d@ == self@.description,
    {
        &self.description
    }
}

/// The sum of the amounts of all entries of kind `k` in `h`.
pub open spec fn kind_sum(h: Seq<TransactionView>, k: TransactionType) -> int
    decreases h.len(),
{
    if h.len() == 0 {
        0
    } else {
        kind_sum(h.drop_last(), k) + (if h.last().transaction_type == k {
            h.last().amount
        } else {
            0
        })
    }
}

/// The net effect of a history on the balance: deposits and incoming
/// transfers credit the account, withdrawals (including transfer debit
/// legs) debit it.
pub open spec fn net_effect(h: Seq<TransactionView>) -> int {
    kind_sum(h, TransactionType::Deposit) - kind_sum(h, TransactionType::Withdrawal)
        + kind_sum(h, TransactionType::Transfer)
}

/// Appending one entry moves every kind's sum by that entry's amount if
/// the kinds match, and leaves it unchanged otherwise.
pub proof fn lemma_kind_sum_push(h: Seq<TransactionView>, k: TransactionType, t: TransactionView)
    ensures
        kind_sum(h.push(t), k) == kind_sum(h, k) + (if t.transaction_type == k {
            t.amount
        } else {
            0
        }),
{
    assert(h.push(t).drop_last() =~= h);
    assert(h.push(t).last() == t);
}

/// Extending a prefix of `h` by one entry moves its kind sum by that
/// entry's contribution.
proof fn lemma_kind_sum_take_step(h: Seq<TransactionView>, k: TransactionType, i: int)
    requires
        0 <= i < h.len(),
    ensures
        kind_sum(h.take(i + 1), k) == kind_sum(h.take(i), k) + (if h[i].transaction_type == k {
            h[i].amount
        } else {
            0
        }),
{
    assert(h.take(i + 1).drop_last() =~= h.take(i));
    assert(h.take(i + 1).last() == h[i]);
}

/// When every recorded amount is non-negative, a prefix's kind sum never
/// exceeds the whole history's kind sum.
proof fn lemma_kind_sum_take_le(h: Seq<TransactionView>, k: TransactionType, i: int)
    requires
        0 <= i <= h.len(),
        forall|j: int| 0 <= j < h.len() ==> (#[trigger] h[j]).amount >= 0,
    ensures
        kind_sum(h.take(i), k) <= kind_sum(h, k),
    decreases h.len() - i,
{
    if i == h.len() {
        assert(h.take(i) =~= h);
    } else {
        lemma_kind_sum_take_step(h, k, i);
        lemma_kind_sum_take_le(h, k, i + 1);
    }
}

/// The model of the history entry appended by a successful operation.
pub open spec fn entry(
    k: TransactionType,
    amount: int,
    timestamp: int,
    description: Seq<char>,
) -> TransactionView {
    TransactionView { transaction_type: k, amount, timestamp, description }
}

/// An account: a unique number, an owner, a balance, and the append-only
/// ordered history of every completed operation on it.
#[derive(Debug)]
pub struct BankAccount {
    account_number: String,
    user_name: String,
    opening_balance: i64,
    balance: i64,
    transaction_history: Vec<Transaction>,
}

/// The mathematical model of a [`BankAccount`].
pub struct AccountView {
    pub account_number: Seq<char>,
    pub user_name: Seq<char>,
    pub opening_balance: int,
    pub balance: int,
    pub history: Seq<TransactionView>,
}

impl View for BankAccount {
    type V = AccountView;

    closed spec fn view(&self) -> AccountView {
        AccountView {
            account_number: self.account_number@,
            user_name: self.user_name@,
            opening_balance: self.opening_balance as int,
            balance: self.balance as int,
            history: self.transaction_history@.map_values(|t: Transaction| t@),
        }
    }
}

/// Two account states that agree on everything an operation may never
/// change: the account number, the owner name and the opening balance.
pub open spec fn same_identity(a: AccountView, b: AccountView) -> bool {
    &&& a.account_number == b.account_number
    &&& a.user_name == b.user_name
    &&& a.opening_balance == b.opening_balance
}

impl BankAccount {
    /// Well-formedness: the balance is never negative, always fits the
    /// machine word, and always equals the opening balance plus the net
    /// effect of the recorded history; every recorded amount is strictly
    /// positive, and the entries carry their positions as timestamps.
    pub open spec fn wf(&self) -> bool {
        &&& 0 <= self@.opening_balance
        &&& 0 <= self@.balance <= i64::MAX
        &&& self@.balance == self@.opening_balance + net_effect(self@.history)
        &&& forall|i: int|
            0 <= i < self@.history.len() ==> (#[trigger] self@.history[i]).amount > 0
        &&& forall|i: int|
            0 <= i < self@.history.len() ==> (#[trigger] self@.history[i]).timestamp == i
    }

    /// Creates an account with a zero balance and an empty history.
    pub fn new(account_number: String, user_name: String) -> (account: Self)
        ensures
            account.wf(),
            account@.account_number == account_number@,
            account@.user_name == user_name@,
            account@.opening_balance == 0,
            account@.balance == 0,
            account@.history == Seq::<TransactionView>::empty(),
    {
        let account = BankAccount {
            account_number,
            user_name,
            opening_balance: 0,
            balance: 0,
            transaction_history: Vec::new(),
        };
        proof {
            assert(account@.history =~= Seq::<TransactionView>::empty());
        }
        account
    }

    /// Creates an account with the given opening balance and an empty
    /// history.  Fails with `NegativeOpeningBalance` exactly when the
    /// opening balance is negative; no account is produced in that case.
    pub fn account_with_initial(
        account_number: String,
        user_name: String,
        balance: i64,
    ) -> (r: Result<Self, LedgerError>)
        ensures
            balance < 0 ==> r == Err::<Self, LedgerError>(LedgerError::NegativeOpeningBalance),
            balance >= 0 ==> (r matches Ok(account) && account.wf()
                && account@.account_number == account_number@
                && account@.user_name == user_name@
                && account@.opening_balance == balance
                && account@.balance == balance
                && account@.history == Seq::<TransactionView>::empty()),
    {
        if balance < 0 {
            return Err(LedgerError::NegativeOpeningBalance);
        }
        let account = BankAccount {
            account_number,
            user_name,
            opening_balance: balance,
            balance,
            transaction_history: Vec::new(),
        };
        proof {
            assert(account@.history =~= Seq::<TransactionView>::empty());
        }
        Ok(account)
    }

    /// The current balance; a pure read.
    pub fn get_current_balance(&self) -> (b: i64)
        ensures
            b == self@.balance,
    {
        self.balance
    }

    /// The account number; a pure read.
    pub fn get_account_number(&self) -> (n: &String)
        ensures
            n@ == self@.account_number,
    {
        &self.account_number
    }

    /// Deposits a strictly positive amount.
    ///
    /// Fails with `InvalidAmount` exactly when `amount <= 0`, leaving the
    /// account untouched.  On success the balance grows by `amount` and
    /// exactly one `Deposit` entry is appended to the history.
    pub fn make_deposit(&mut self, amount: i64, description: String) -> (r: Result<
        (),
        LedgerError,
    >)
        requires
            old(self).wf(),
            amount > 0 ==> old(self)@.balance + amount <= i64::MAX,
        ensures
            final(self).wf(),
            amount <= 0 ==> (r == Err::<(), LedgerError>(LedgerError::InvalidAmount)
                && *final(self) == *old(self)),
            amount > 0 ==> (r == Ok::<(), LedgerError>(())
                && same_identity(final(self)@, old(self)@)
                && final(self)@.balance == old(self)@.balance + amount
                && final(self)@.history == old(self)@.history.push(
                entry(
                    TransactionType::Deposit,
                    amount as int,
                    old(self)@.history.len() as int,
                    description@,
                ),
            )),
    {
        if amount <= 0 {
            return Err(LedgerError::InvalidAmount);
        }
        let timestamp: u64 = self.transaction_history.len() as u64;
        self.balance = self.balance + amount;
        let record = Transaction {
            transaction_type: TransactionType::Deposit,
            amount,
            timestamp,
            description,
        };
        let ghost recorded = record@;
        self.transaction_history.push(record);
        proof {
            self.lemma_history_view_push(*old(self), recorded);
            lemma_kind_sum_push(old(self)@.history, TransactionType::Deposit, recorded);
            lemma_kind_sum_push(old(self)@.history, TransactionType::Withdrawal, recorded);
            lemma_kind_sum_push(old(self)@.history, TransactionType::Transfer, recorded);
        }
        Ok(())
    }

    /// Withdraws a strictly positive amount no larger than the balance.
    ///
    /// Amount validity is checked before funds sufficiency: a non-positive
    /// amount always reports `InvalidAmount`; a positive amount above the
    /// balance reports `InsufficientFunds`.  Either failure leaves the
    /// account untouched.  On success the balance shrinks by `amount` and
    /// exactly one `Withdrawal` entry is appended to the history.
    pub fn make_withdraw(&mut self, amount: i64, description: String) -> (r: Result<
        (),
        LedgerError,
    >)
        requires
            old(self).wf(),
        ensures
            final(self).wf(),
            amount <= 0 ==> (r == Err::<(), LedgerError>(LedgerError::InvalidAmount)
                && *final(self) == *old(self)),
            amount > 0 && amount > old(self)@.balance ==> (r == Err::<(), LedgerError>(
                LedgerError::InsufficientFunds,
            ) && *final(self) == *old(self)),
            amount > 0 && amount <= old(self)@.balance ==> (r == Ok::<(), LedgerError>(())
                && same_identity(final(self)@, old(self)@)
                && final(self)@.balance == old(self)@.balance - amount
                && final(self)@.history == old(self)@.history.push(
                entry(
                    TransactionType::Withdrawal,
                    amount as int,
                    old(self)@.history.len() as int,
                    description@,
                ),
            )),
    {
        if amount <= 0 {
            return Err(LedgerError::InvalidAmount);
        }
        if self.balance < amount {
            return Err(LedgerError::InsufficientFunds);
        }
        let timestamp: u64 = self.transaction_history.len() as u64;
        self.balance = self.balance - amount;
        let record = Transaction {
            transaction_type: TransactionType::Withdrawal,
            amount,
            timestamp,
            description,
        };
        let ghost recorded = record@;
        self.transaction_history.push(record);
        proof {
            self.lemma_history_view_push(*old(self), recorded);
            lemma_kind_sum_push(old(self)@.history, TransactionType::Deposit, recorded);
            lemma_kind_sum_push(old(self)@.history, TransactionType::Withdrawal, recorded);
            lemma_kind_sum_push(old(self)@.history, TransactionType::Transfer, recorded);
        }
        Ok(())
    }

    /// Transfers a strictly positive amount to another account.
    ///
    /// Checks run in a fixed order before anything changes: a non-positive
    /// amount reports `InvalidAmount`; a destination with the same account
    /// number reports `SelfTransfer`; an amount above the source balance
    /// reports `InsufficientFunds`.  Any failure leaves both accounts
    /// untouched.  On success, as one indivisible step, the source balance
    /// shrinks by `amount` and gains a `Withdrawal` entry (its debit leg),
    /// and the destination balance grows by `amount` and gains a `Transfer`
    /// entry (its credit leg); both legs carry the given description.
    pub fn make_fund_transfer(
        &mut self,
        other_account: &mut BankAccount,
        amount: i64,
        description: String,
    ) -> (r: Result<(), LedgerError>)
        requires
            old(self).wf(),
            old(other_account).wf(),
            (amount > 0 && old(self)@.account_number != old(other_account)@.account_number
                && amount <= old(self)@.balance) ==> old(other_account)@.balance + amount
                <= i64::MAX,
        ensures
            final(self).wf(),
            final(other_account).wf(),
            amount <= 0 ==> (r == Err::<(), LedgerError>(LedgerError::InvalidAmount)
                && *final(self) == *old(self) && *final(other_account) == *old(other_account)),
            amount > 0 && old(self)@.account_number == old(other_account)@.account_number ==> (r
                == Err::<(), LedgerError>(LedgerError::SelfTransfer) && *final(self) == *old(self)
                && *final(other_account) == *old(other_account)),
            amount > 0 && old(self)@.account_number != old(other_account)@.account_number && amount
                > old(self)@.balance ==> (r == Err::<(), LedgerError>(LedgerError::InsufficientFunds)
                && *final(self) == *old(self) && *final(other_account) == *old(other_account)),
            amount > 0 && old(self)@.account_number != old(other_account)@.account_number && amount
                <= old(self)@.balance ==> (r == Ok::<(), LedgerError>(())
                && same_identity(final(self)@, old(self)@)
                && same_identity(final(other_account)@, old(other_account)@)
                && final(self)@.balance == old(self)@.balance - amount
                && final(other_account)@.balance == old(other_account)@.balance + amount
                && final(self)@.history == old(self)@.history.push(
                entry(
                    TransactionType::Withdrawal,
                    amount as int,
                    old(self)@.history.len() as int,
                    description@,
                ),
            ) && final(other_account)@.history == old(other_account)@.history.push(
                entry(
                    TransactionType::Transfer,
                    amount as int,
                    old(other_account)@.history.len() as int,
                    description@,
                ),
            )),
    {
        if amount <= 0 {
            return Err(LedgerError::InvalidAmount);
        }
        if self.account_number == other_account.account_number {
            return Err(LedgerError::SelfTransfer);
        }
        if self.balance < amount {
            return Err(LedgerError::InsufficientFunds);
        }
        let debit_timestamp: u64 = self.transaction_history.len() as u64;
        self.balance = self.balance - amount;
        let debit_leg = Transaction {
            transaction_type: TransactionType::Withdrawal,
            amount,
            timestamp: debit_timestamp,
            description: description.clone(),
        };
        let ghost debit_recorded = debit_leg@;
        self.transaction_history.push(debit_leg);

        let credit_timestamp: u64 = other_account.transaction_history.len() as u64;
        other_account.balance = other_account.balance + amount;
        let credit_leg = Transaction {
            transaction_type: TransactionType::Transfer,
            amount,
            timestamp: credit_timestamp,
            description,
        };
        let ghost credit_recorded = credit_leg@;
        other_account.transaction_history.push(credit_leg);

        proof {
            self.lemma_history_view_push(*old(self), debit_recorded);
            lemma_kind_sum_push(old(self)@.history, TransactionType::Deposit, debit_recorded);
            lemma_kind_sum_push(old(self)@.history, TransactionType::Withdrawal, debit_recorded);
            lemma_kind_sum_push(old(self)@.history, TransactionType::Transfer, debit_recorded);
            other_account.lemma_history_view_push(*old(other_account), credit_recorded);
            lemma_kind_sum_push(
                old(other_account)@.history,
                TransactionType::Deposit,
                credit_recorded,
            );
            lemma_kind_sum_push(
                old(other_account)@.history,
                TransactionType::Withdrawal,
                credit_recorded,
            );
            lemma_kind_sum_push(
                old(other_account)@.history,
                TransactionType::Transfer,
                credit_recorded,
            );
        }
        Ok(())
    }

    /// After one push on the underlying vector, the modelled history is the
    /// old modelled history with the new entry's model appended.
    proof fn lemma_history_view_push(self, prev: Self, recorded: TransactionView)
        requires
            self.transaction_history@.len() == prev.transaction_history@.len() + 1,
            forall|i: int|
                0 <= i < prev.transaction_history@.len() ==> self.transaction_history@[i]
                    == prev.transaction_history@[i],
            self.transaction_history@.last()@ == recorded,
        ensures
            self@.history == prev@.history.push(recorded),
    {
        assert(self@.history =~= prev@.history.push(recorded));
    }

    /// The sum of the amounts of all `Deposit` entries in the history,
    /// recomputed on demand; a pure read.  An empty history sums to zero.
    /// The bound on the sum is forced by the machine word the total is
    /// returned in.
    pub fn total_deposit(&self) -> (total: i64)
        requires
            self.wf(),
            kind_sum(self@.history, TransactionType::Deposit) <= i64::MAX,
        ensures
            total == kind_sum(self@.history, TransactionType::Deposit),
            total >= 0,
    {
        let ghost h = self@.history;
        let mut total: i64 = 0;
        let n: usize = self.transaction_history.len();
        let mut idx: usize = 0;
        proof {
            assert(h.take(0) =~= Seq::<TransactionView>::empty());
        }
        while idx < n
            invariant
                self.wf(),
                kind_sum(h, TransactionType::Deposit) <= i64::MAX,
                h == self@.history,
                n == self.transaction_history.len(),
                idx <= n,
                0 <= total,
                total == kind_sum(h.take(idx as int), TransactionType::Deposit),
            decreases n - idx,
        {
            proof {
                lemma_kind_sum_take_step(h, TransactionType::Deposit, idx as int);
                lemma_kind_sum_take_le(h, TransactionType::Deposit, idx as int + 1);
            }
            let record = &self.transaction_history[idx];
            if record.transaction_type == TransactionType::Deposit {
                total = total + record.amount;
            }
            idx = idx + 1;
        }
        proof {
            assert(h.take(n as int) =~= h);
        }
        total
    }

    /// The full history, oldest entry first; a pure read of the
    /// append-only log.
    pub fn get_transactions(&self) -> (h: &Vec<Transaction>)
        ensures
            h@.map_values(|t: Transaction| t@) == self@.history,
    {
        &self.transaction_history
    }
}

/// The ledger invariant, spelled out: after any sequence of successful
/// operations the current balance equals the opening balance, plus the sum
/// of all deposit amounts, minus the sum of all withdrawal amounts
/// (outgoing transfer legs among them), plus the sum of all incoming
/// transfer amounts.
pub proof fn lemma_balance_is_net_of_history(account: &BankAccount)
    requires
        account.wf(),
    ensures
        account@.balance == account@.opening_balance + kind_sum(
            account@.history,
            TransactionType::Deposit,
        ) - kind_sum(account@.history, TransactionType::Withdrawal) + kind_sum(
            account@.history,
            TransactionType::Transfer,
        ),
{
}

/// The history is append-only: appending an entry leaves every existing
/// entry in place, at its old position, and adds exactly one entry at the
/// end.  Every successful operation changes the history exactly this way,
/// and read-only queries take the account by shared reference and so can
/// change nothing.
pub proof fn lemma_append_preserves_prefix(h: Seq<TransactionView>, t: TransactionView)
    ensures
        h.push(t).len() == h.len() + 1,
        forall|i: int| 0 <= i < h.len() ==> h.push(t)[i] == h[i],
        h.push(t)[h.len() as int] == t,
{
}

/// The history is ordered: entries carry strictly increasing timestamps,
/// so the order of the log is the order in which the operations were
/// recorded.
pub proof fn lemma_history_ordered(account: &BankAccount)
    requires
        account.wf(),
    ensures
        forall|i: int, j: int|
            0 <= i < j < account@.history.len() ==> account@.history[i].timestamp
                < account@.history[j].timestamp,
{
}

} // verus!
