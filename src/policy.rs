use vstd::prelude::*;

verus! {

/// Divisor that turns a transferred amount into its one-percent burn share.
pub const BURN_DIVISOR: u64 = 100;

/// Reason reported to the host when a burn instruction was issued.
pub const BURNED_REASON: &'static str = "1% Spark burned";

/// Reason reported to the host when no burn applies.
pub const NOOP_REASON: &'static str = "";

/// Auxiliary status code that every disposition of this policy carries.
pub const ACCEPT_CODE: i32 = 0;

/// Read-only projection of the transaction under evaluation, as the host
/// exposes it. `transferred_amount` is meaningful only when
/// `is_qualifying_payment` holds.
#[derive(Clone, Copy, Debug, PartialEq, Eq, Structural)]
pub struct TransactionView {
    pub is_qualifying_payment: bool,
    pub transferred_amount: u64,
}

impl TransactionView {
    pub fn new(is_qualifying_payment: bool, transferred_amount: u64) -> (r: TransactionView)
        ensures
            r.is_qualifying_payment == is_qualifying_payment,
            r.transferred_amount == transferred_amount,
    {
        TransactionView { is_qualifying_payment, transferred_amount }
    }
}

/// Terminal outcome handed back to the host. This policy never rejects.
#[derive(Clone, Copy, Debug, PartialEq, Eq)]
pub enum Disposition {
    Accept { reason: &'static str, code: i32 },
}

impl Disposition {
    pub open spec fn reason_view(&self) -> Seq<char> {
        match self {
            Disposition::Accept { reason, .. } => reason@,
        }
    }

    pub open spec fn code_view(&self) -> i32 {
        match self {
            Disposition::Accept { code, .. } => *code,
        }
    }
}

/// Result of one evaluation: the disposition, and the burn instruction for the
/// host (`Some(units)`), if one is to be issued.
#[derive(Clone, Copy, Debug, PartialEq, Eq)]
pub struct Evaluation {
    pub disposition: Disposition,
    pub burn: Option<u64>,
}

impl View for Evaluation {
    type V = Outcome;

    open spec fn view(&self) -> Outcome {
        Outcome {
            reason: self.disposition.reason_view(),
            code: self.disposition.code_view(),
            burn: self.burn,
        }
    }
}

/// Mathematical model of an evaluation: reason text, status code and the burn
/// instruction issued, if any.
pub ghost struct Outcome {
    pub reason: Seq<char>,
    pub code: i32,
    pub burn: Option<u64>,
}

/// The burn share of a transfer: one percent, rounded down.
pub open spec fn burn_of(amount: u64) -> u64 {
    (amount / BURN_DIVISOR) as u64
}

/// A plain accept: no burn instruction, empty reason, code zero.
pub open spec fn noop_outcome() -> Outcome {
    Outcome { reason: NOOP_REASON@, code: ACCEPT_CODE, burn: None }
}

/// An accept after one burn instruction for `units`.
pub open spec fn burned_outcome(units: u64) -> Outcome {
    Outcome { reason: BURNED_REASON@, code: ACCEPT_CODE, burn: Some(units) }
}

/// What evaluating a qualifying payment of `amount` yields.
pub open spec fn settled_outcome(amount: u64) -> Outcome {
    if burn_of(amount) == 0 {
        noop_outcome()
    } else {
        burned_outcome(burn_of(amount))
    }
}

/// What evaluating a transaction yields: non-qualifying transactions are
/// accepted untouched, whatever amount they carry.
pub open spec fn expected_outcome(tx: TransactionView) -> Outcome {
    if tx.is_qualifying_payment {
        settled_outcome(tx.transferred_amount)
    } else {
        noop_outcome()
    }
}

/// One percent of `amount`, by floor division.
pub fn burn_amount(amount: u64) -> (r: u64)
    ensures
        r == burn_of(amount),
        r <= amount,
{
    amount / BURN_DIVISOR
}

/// Accept with no burn instruction.
pub fn accept_noop() -> (r: Evaluation)
    ensures
        r@ == noop_outcome(),
{
    Evaluation { disposition: Disposition::Accept { reason: NOOP_REASON, code: ACCEPT_CODE }, burn: None }
}

/// Accept after one burn instruction for `units`.
pub fn accept_with_burn(units: u64) -> (r: Evaluation)
    ensures
        r@ == burned_outcome(units),
{
    Evaluation {
        disposition: Disposition::Accept { reason: BURNED_REASON, code: ACCEPT_CODE },
        burn: Some(units),
    }
}

/// Qualification guard, run before any amount is read: `Some` with the final
/// disposition when the transaction does not qualify, `None` when evaluation
/// goes on with the transferred amount.
pub fn qualification_guard(is_qualifying_payment: bool) -> (r: Option<Evaluation>)
    ensures
        is_qualifying_payment <==> r.is_none(),
        r matches Some(e) ==> e@ == noop_outcome(),
{
    if is_qualifying_payment {
        None
    } else {
        Some(accept_noop())
    }
}

/// Evaluation of a qualifying payment of `amount`: burns one percent, rounded
/// down, unless that share is zero.
pub fn settle_payment(amount: u64) -> (r: Evaluation)
    ensures
        r@ == settled_outcome(amount),
{
    let burn = burn_amount(amount);
    if burn == 0 {
        accept_noop()
    } else {
        accept_with_burn(burn)
    }
}

/// Full evaluation of one transaction.
pub fn evaluate(tx: &TransactionView) -> (r: Evaluation)
    ensures
        r@ == expected_outcome(*tx),
{
    match qualification_guard(tx.is_qualifying_payment) {
        Some(done) => done,
        None => settle_payment(tx.transferred_amount),
    }
}

/// A transfer under one hundred units burns nothing and is accepted with the
/// empty reason and code zero.
pub proof fn lemma_small_transfer_not_burned(amount: u64)
    requires
        amount < BURN_DIVISOR,
    ensures
        burn_of(amount) == 0,
        settled_outcome(amount) == noop_outcome(),
        settled_outcome(amount).burn.is_none(),
{
}

/// A transfer of at least one hundred units issues exactly one burn
/// instruction, for the floor of one percent of the amount, and is accepted
/// with the burn reason and code zero.
pub proof fn lemma_large_transfer_burned(amount: u64)
    requires
        amount >= BURN_DIVISOR,
    ensures
        burn_of(amount) == amount / 100,
        burn_of(amount) > 0,
        settled_outcome(amount) == burned_outcome(amount / 100),
        settled_outcome(amount).burn == Some((amount / 100) as u64),
{
}

/// A transaction that is not a qualifying payment is accepted untouched, and
/// its amount has no bearing on the outcome.
pub proof fn lemma_non_qualifying_untouched(tx: TransactionView, other_amount: u64)
    requires
        !tx.is_qualifying_payment,
    ensures
        expected_outcome(tx) == noop_outcome(),
        expected_outcome(tx) == expected_outcome(
            TransactionView { is_qualifying_payment: false, transferred_amount: other_amount },
        ),
{
}

/// Evaluation is deterministic: identical transaction views give identical
/// dispositions and identical burn instructions.
pub proof fn lemma_evaluation_deterministic(a: TransactionView, b: TransactionView)
    requires
        a == b,
    ensures
        expected_outcome(a) == expected_outcome(b),
        expected_outcome(a).burn == expected_outcome(b).burn,
{
}

/// The burn share never exceeds the transferred amount, and any burn
/// instruction issued carries exactly that share.
pub proof fn lemma_burn_bounded(tx: TransactionView)
    ensures
        burn_of(tx.transferred_amount) <= tx.transferred_amount,
        expected_outcome(tx).burn matches Some(units) ==> units == burn_of(tx.transferred_amount)
            && 0 < units <= tx.transferred_amount,
{
}

} // verus!
