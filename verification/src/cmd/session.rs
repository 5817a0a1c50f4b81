//! The steps of a command. A command opens the wallet and asks the network
//! for the payer's account; builds the record; has its size measured and
//! sets the fee; has it signed; has it wrapped and, if it is to be
//! committed, submitted; and reports. The library decides each step from
//! what the step before brought; its caller does the work in between.
//!
//! Each step hands the caller an action and waits for the event that the
//! action brings. An event that does not answer the action ends the
//! command.

use crate::cmd::report::hash_index;
use crate::cmd::report::render_txn;
use crate::cmd::report::status_hash;
use crate::cmd::report::txn_report;
use crate::cmd::report::OutputFormat;
use crate::cmd::report::PendingTxnStatus;
use crate::cmd::report::Report;
use crate::cmd::report::ReportView;
use crate::fee::schedule_fee;
use crate::fee::FeeSchedule;
use crate::keypair::key_error;
use crate::keypair::PublicKey;
use crate::result::Error;
use crate::txn::fee_shape;
use crate::txn::new_transaction;
use crate::txn::with_fee;
use crate::txn::with_signature;
use crate::txn::Account;
use crate::txn::Transaction;
use crate::txn::TransactionView;
use crate::txn::TxnKind;
use vstd::prelude::*;

verus! {

/// What the caller brings back from the work that an action asked for.
#[derive(Debug, PartialEq, Eq)]
pub enum Event {
    /// The wallet is open and the network has told of its account.
    Account { payer: PublicKey, account: Account },
    /// The network has told its fee schedule, and the record that was to be
    /// measured takes `payload_size` bytes when it is encoded.
    Fees { schedule: FeeSchedule, payload_size: u64 },
    /// The wallet's key has signed the record.
    Signature { signature: Vec<u8> },
    /// The signed record was wrapped in `envelope`; `status` is the
    /// network's answer where the envelope was submitted.
    Envelope { envelope: Vec<u8>, status: Option<PendingTxnStatus> },
}

/// What the caller is to do next.
#[derive(Debug, PartialEq, Eq)]
pub enum Action {
    /// Open the wallet and ask the network for the account of its key.
    OpenAccount,
    /// Ask the network for its fee schedule, and measure the encoding of
    /// `shape`.
    FetchFees { shape: Transaction },
    /// Sign the encoding of `txn`.
    Sign { txn: Transaction },
    /// Wrap `txn` in its envelope, and submit the envelope if `commit` is
    /// set.
    Submit { txn: Transaction, commit: bool },
    /// Print the report: the command is done.
    Print { report: Report },
    /// Give up: the command has failed.
    Fail { error: Error },
}

/// How far a command has come.
#[derive(Clone, Copy, Debug, PartialEq, Eq, Structural)]
pub enum Phase {
    AwaitingAccount,
    AwaitingFees,
    AwaitingSignature,
    AwaitingEnvelope,
    Done,
    Failed,
}

/// An event as a mathematical value.
pub enum EventView {
    Account { payer: Seq<u8>, account: Account },
    Fees { schedule: FeeSchedule, payload_size: u64 },
    Signature { signature: Seq<u8> },
    Envelope { envelope: Seq<u8>, hash: Option<Seq<char>> },
}

/// An action as a mathematical value.
pub enum ActionView {
    OpenAccount,
    FetchFees { shape: TransactionView },
    Sign { txn: TransactionView },
    Submit { txn: TransactionView, commit: bool },
    Print { report: ReportView },
    Fail { error: Error },
}

/// The state of a command as a mathematical value: how far it has come,
/// the record as it stands, and the fee quote that the record's fee came
/// from.
pub enum SessionView {
    AwaitingAccount,
    AwaitingFees { txn: TransactionView },
    AwaitingSignature { txn: TransactionView, schedule: FeeSchedule, payload_size: u64 },
    AwaitingEnvelope { txn: TransactionView, schedule: FeeSchedule, payload_size: u64 },
    Done,
    Failed,
}

impl View for Event {
    type V = EventView;

    open spec fn view(&self) -> EventView {
        match self {
            Event::Account { payer, account } => EventView::Account {
                payer: payer@,
                account: *account,
            },
            Event::Fees { schedule, payload_size } => EventView::Fees {
                schedule: *schedule,
                payload_size: *payload_size,
            },
            Event::Signature { signature } => EventView::Signature { signature: signature@ },
            Event::Envelope { envelope, status } => EventView::Envelope {
                envelope: envelope@,
                hash: status_hash(*status),
            },
        }
    }
}

impl View for Action {
    type V = ActionView;

    open spec fn view(&self) -> ActionView {
        match self {
            Action::OpenAccount => ActionView::OpenAccount,
            Action::FetchFees { shape } => ActionView::FetchFees { shape: shape@ },
            Action::Sign { txn } => ActionView::Sign { txn: txn@ },
            Action::Submit { txn, commit } => ActionView::Submit { txn: txn@, commit: *commit },
            Action::Print { report } => ActionView::Print { report: report@ },
            Action::Fail { error } => ActionView::Fail { error: *error },
        }
    }
}

impl SessionView {
    /// How far the command has come.
    pub open spec fn phase(self) -> Phase {
        match self {
            SessionView::AwaitingAccount => Phase::AwaitingAccount,
            SessionView::AwaitingFees { .. } => Phase::AwaitingFees,
            SessionView::AwaitingSignature { .. } => Phase::AwaitingSignature,
            SessionView::AwaitingEnvelope { .. } => Phase::AwaitingEnvelope,
            SessionView::Done => Phase::Done,
            SessionView::Failed => Phase::Failed,
        }
    }

    /// What holds of the record at each step: its keys are well formed; it
    /// has no fee and no signature before the fee is set; from then on its
    /// fee is the schedule's fee for the measured size; and it has a
    /// signature only once it was signed, after the fee was set.
    pub open spec fn well_formed(self) -> bool {
        match self {
            SessionView::AwaitingFees { txn } => {
                &&& key_error(txn.payer) is None
                &&& key_error(txn.payee) is None
                &&& txn.fee == 0
                &&& txn.signature.len() == 0
            },
            SessionView::AwaitingSignature { txn, schedule, payload_size } => {
                &&& key_error(txn.payer) is None
                &&& key_error(txn.payee) is None
                &&& schedule_fee(schedule, payload_size) == Ok::<u64, Error>(txn.fee)
                &&& txn.signature.len() == 0
            },
            SessionView::AwaitingEnvelope { txn, schedule, payload_size } => {
                &&& key_error(txn.payer) is None
                &&& key_error(txn.payee) is None
                &&& schedule_fee(schedule, payload_size) == Ok::<u64, Error>(txn.fee)
                &&& txn.signature.len() > 0
            },
            _ => true,
        }
    }
}

/// The end of a command that has failed.
pub open spec fn failed(error: Error) -> (SessionView, ActionView) {
    (SessionView::Failed, ActionView::Fail { error })
}

/// One step of a command that is to make a transaction of `kind` to
/// `payee` over `amount`: the state that follows `session` on `event`, and
/// what the caller is to do next. `kind` is an error where the command's
/// own arguments do not give one.
pub open spec fn step(
    kind: Result<TxnKind, Error>,
    payee: Seq<u8>,
    amount: u64,
    commit: bool,
    format: OutputFormat,
    session: SessionView,
    event: EventView,
) -> (SessionView, ActionView) {
    match (session, event) {
        (SessionView::AwaitingAccount, EventView::Account { payer, account }) => match kind {
            Err(e) => failed(e),
            Ok(k) => match new_transaction(k, payer, payee, amount, account) {
                Err(e) => failed(e),
                Ok(txn) => (
                    SessionView::AwaitingFees { txn },
                    ActionView::FetchFees { shape: fee_shape(txn) },
                ),
            },
        },
        (SessionView::AwaitingFees { txn }, EventView::Fees { schedule, payload_size }) => {
            match schedule_fee(schedule, payload_size) {
                Err(e) => failed(e),
                Ok(fee) => (
                    SessionView::AwaitingSignature {
                        txn: with_fee(txn, fee),
                        schedule,
                        payload_size,
                    },
                    ActionView::Sign { txn: with_fee(txn, fee) },
                ),
            }
        },
        (
            SessionView::AwaitingSignature { txn, schedule, payload_size },
            EventView::Signature { signature },
        ) => {
            if signature.len() == 0 {
                failed(Error::SignatureEmpty)
            } else {
                (
                    SessionView::AwaitingEnvelope {
                        txn: with_signature(txn, signature),
                        schedule,
                        payload_size,
                    },
                    ActionView::Submit { txn: with_signature(txn, signature), commit },
                )
            }
        },
        (SessionView::AwaitingEnvelope { txn, .. }, EventView::Envelope { envelope, hash }) => {
            if (hash is Some) != commit {
                failed(Error::StatusMismatch)
            } else {
                match txn_report(txn, envelope, hash, format) {
                    Err(e) => failed(e),
                    Ok(report) => (SessionView::Done, ActionView::Print { report }),
                }
            }
        },
        _ => failed(Error::UnexpectedEvent),
    }
}

/// A step keeps the state well formed: from a well-formed state, with
/// well-formed keys for payer and payee, the next state is well formed.
pub proof fn lemma_step_well_formed(
    kind: Result<TxnKind, Error>,
    payee: Seq<u8>,
    amount: u64,
    commit: bool,
    format: OutputFormat,
    session: SessionView,
    event: EventView,
)
    requires
        session.well_formed(),
        key_error(payee) is None,
        event matches EventView::Account { payer, .. } ==> key_error(payer) is None,
    ensures
        step(kind, payee, amount, commit, format, session, event).0.well_formed(),
{
}

/// The fee is set after the record is built and before it is signed, and
/// never again. A record goes out to be signed only in the step that sets
/// its fee: it is the built record with the schedule's fee for the measured
/// size, and has no signature. A record goes out to be wrapped only in the
/// step that takes its signature: it is the record that went out to be
/// signed, fee and all, with that signature. A fee schedule that arrives
/// at any other step than the one that waits for it ends the command.
pub proof fn lemma_fee_before_signature(
    kind: Result<TxnKind, Error>,
    payee: Seq<u8>,
    amount: u64,
    commit: bool,
    format: OutputFormat,
    session: SessionView,
    event: EventView,
)
    requires
        session.well_formed(),
    ensures
        step(kind, payee, amount, commit, format, session, event).1 matches ActionView::Sign {
            txn,
        } ==> {
            &&& session matches SessionView::AwaitingFees { txn: built }
            &&& event matches EventView::Fees { schedule, payload_size }
            &&& built.fee == 0
            &&& schedule_fee(schedule, payload_size) == Ok::<u64, Error>(txn.fee)
            &&& txn == with_fee(built, txn.fee)
            &&& txn.signature.len() == 0
        },
        step(kind, payee, amount, commit, format, session, event).1 matches ActionView::Submit {
            txn,
            ..
        } ==> {
            &&& session matches SessionView::AwaitingSignature { txn: priced, schedule, payload_size }
            &&& event matches EventView::Signature { signature }
            &&& schedule_fee(schedule, payload_size) == Ok::<u64, Error>(txn.fee)
            &&& txn == with_signature(priced, signature)
            &&& txn.signature.len() > 0
        },
        event is Fees && !(session is AwaitingFees) ==> step(
            kind,
            payee,
            amount,
            commit,
            format,
            session,
            event,
        ) == failed(Error::UnexpectedEvent),
{
}

/// Whether a command is to commit decides nothing before the signed record
/// is handed out, and nothing of that record: up to there a command that
/// commits and one that does not go through the same states and hand out
/// the same records.
pub proof fn lemma_commit_leaves_the_record(
    kind: Result<TxnKind, Error>,
    payee: Seq<u8>,
    amount: u64,
    format: OutputFormat,
    session: SessionView,
    event: EventView,
)
    requires
        !(event is Envelope),
    ensures
        ({
            let committed = step(kind, payee, amount, true, format, session, event);
            let previewed = step(kind, payee, amount, false, format, session, event);
            &&& committed.0 == previewed.0
            &&& match committed.1 {
                ActionView::Submit { txn, commit } => commit && previewed.1
                    == ActionView::Submit { txn, commit: false },
                action => previewed.1 == action,
            }
        }),
{
}

/// The report of a submitted transaction and that of the same transaction
/// not submitted differ in the hash, and in saying whether the transaction
/// was submitted, and in nothing else: both are there or neither, they
/// have the same fields in the same order, and every field but the hash
/// holds the same value.
pub proof fn lemma_commit_shows_in_the_hash(
    txn: TransactionView,
    envelope: Seq<u8>,
    hash: Seq<char>,
    format: OutputFormat,
)
    ensures
        ({
            let committed = txn_report(txn, envelope, Some(hash), format);
            let previewed = txn_report(txn, envelope, None, format);
            &&& committed is Err ==> previewed == committed
            &&& committed matches Ok(c) ==> {
                &&& previewed matches Ok(p)
                &&& c.submitted && !p.submitted
                &&& c.format == p.format
                &&& c.fields.len() == p.fields.len()
                &&& forall|i: int|
                    0 <= i < c.fields.len() ==> (#[trigger] c.fields[i]).key == p.fields[i].key
                &&& forall|i: int|
                    0 <= i < c.fields.len() && i != hash_index(txn.kind) ==> (
                    #[trigger] c.fields[i]) == p.fields[i]
            }
        }),
{
}

/// A record that goes out to be signed or wrapped has well-formed keys: a
/// malformed payee never comes that far.
pub proof fn lemma_signed_keys_well_formed(
    kind: Result<TxnKind, Error>,
    payee: Seq<u8>,
    amount: u64,
    commit: bool,
    format: OutputFormat,
    session: SessionView,
    event: EventView,
)
    requires
        session.well_formed(),
    ensures
        step(kind, payee, amount, commit, format, session, event).1 matches ActionView::Sign {
            txn,
        } ==> key_error(txn.payee) is None && key_error(txn.payer) is None,
        step(kind, payee, amount, commit, format, session, event).1 matches ActionView::Submit {
            txn,
            ..
        } ==> key_error(txn.payee) is None && key_error(txn.payer) is None,
{
}

enum Stage {
    AwaitingAccount,
    AwaitingFees { txn: Transaction },
    AwaitingSignature { txn: Transaction, schedule: FeeSchedule, payload_size: u64 },
    AwaitingEnvelope { txn: Transaction, schedule: FeeSchedule, payload_size: u64 },
    Done,
    Failed,
}

/// The state of a command.
pub struct Session {
    stage: Stage,
}

impl View for Session {
    type V = SessionView;

    closed spec fn view(&self) -> SessionView {
        match self.stage {
            Stage::AwaitingAccount => SessionView::AwaitingAccount,
            Stage::AwaitingFees { txn } => SessionView::AwaitingFees { txn: txn@ },
            Stage::AwaitingSignature { txn, schedule, payload_size } => {
                SessionView::AwaitingSignature { txn: txn@, schedule, payload_size }
            },
            Stage::AwaitingEnvelope { txn, schedule, payload_size } => {
                SessionView::AwaitingEnvelope { txn: txn@, schedule, payload_size }
            },
            Stage::Done => SessionView::Done,
            Stage::Failed => SessionView::Failed,
        }
    }
}

impl Session {
    #[verifier::type_invariant]
    pub open spec fn well_formed(&self) -> bool {
        self@.well_formed()
    }

    /// The state of a command that has not begun, and its first action.
    pub fn start() -> (step: (Session, Action))
        ensures
            step.0@ == SessionView::AwaitingAccount,
            step.1@ == ActionView::OpenAccount,
    {
        (Session { stage: Stage::AwaitingAccount }, Action::OpenAccount)
    }

    /// How far the command has come.
    pub fn phase(&self) -> (phase: Phase)
        ensures
            phase == self@.phase(),
    {
        match &self.stage {
            Stage::AwaitingAccount => Phase::AwaitingAccount,
            Stage::AwaitingFees { .. } => Phase::AwaitingFees,
            Stage::AwaitingSignature { .. } => Phase::AwaitingSignature,
            Stage::AwaitingEnvelope { .. } => Phase::AwaitingEnvelope,
            Stage::Done => Phase::Done,
            Stage::Failed => Phase::Failed,
        }
    }

    fn fail(error: Error) -> (step: (Session, Action))
        ensures
            (step.0@, step.1@) == failed(error),
    {
        (Session { stage: Stage::Failed }, Action::Fail { error })
    }

    /// Takes one step.
    pub fn advance(
        self,
        kind: Result<TxnKind, Error>,
        payee: &PublicKey,
        amount: u64,
        commit: bool,
        format: OutputFormat,
        event: Event,
    ) -> (next: (Session, Action))
        ensures
            (next.0@, next.1@) == step(kind, payee@, amount, commit, format, self@, event@),
            next.0@.well_formed(),
    {
        proof {
            use_type_invariant(&self);
            use_type_invariant(payee);
            match &event {
                Event::Account { payer, .. } => {
                    use_type_invariant(payer);
                },
                _ => {},
            }
            lemma_step_well_formed(kind, payee@, amount, commit, format, self@, event@);
        }
        match (self.stage, event) {
            (Stage::AwaitingAccount, Event::Account { payer, account }) => {
                let k = match kind {
                    Ok(k) => k,
                    Err(e) => {
                        return Session::fail(e);
                    },
                };
                match Transaction::new(k, &payer, payee, amount, &account) {
                    Err(e) => Session::fail(e),
                    Ok(txn) => {
                        let shape = txn.fee_shape();
                        (
                            Session { stage: Stage::AwaitingFees { txn } },
                            Action::FetchFees { shape },
                        )
                    },
                }
            },
            (Stage::AwaitingFees { txn }, Event::Fees { schedule, payload_size }) => {
                match schedule.txn_fee(payload_size) {
                    Err(e) => Session::fail(e),
                    Ok(fee) => {
                        let mut txn = txn;
                        txn.fee = fee;
                        let copy = txn.copy();
                        (
                            Session {
                                stage: Stage::AwaitingSignature { txn, schedule, payload_size },
                            },
                            Action::Sign { txn: copy },
                        )
                    },
                }
            },
            (
                Stage::AwaitingSignature { txn, schedule, payload_size },
                Event::Signature { signature },
            ) => {
                if signature.len() == 0 {
                    return Session::fail(Error::SignatureEmpty);
                }
                let mut txn = txn;
                txn.signature = signature;
                let copy = txn.copy();
                (
                    Session { stage: Stage::AwaitingEnvelope { txn, schedule, payload_size } },
                    Action::Submit { txn: copy, commit },
                )
            },
            (Stage::AwaitingEnvelope { txn, .. }, Event::Envelope { envelope, status }) => {
                if status.is_some() != commit {
                    return Session::fail(Error::StatusMismatch);
                }
                match render_txn(&txn, envelope.as_slice(), &status, format) {
                    Err(e) => Session::fail(e),
                    Ok(report) => (Session { stage: Stage::Done }, Action::Print { report }),
                }
            },
            _ => Session::fail(Error::UnexpectedEvent),
        }
    }
}

} // verus!
