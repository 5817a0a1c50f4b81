use helium_wallet::cmd::burn::Cmd;
use helium_wallet::cmd::report::{Field, Opts, OutputFormat, PendingTxnStatus, Value};
use helium_wallet::cmd::securities::{Cmd as SecuritiesCmd, Transfer};
use helium_wallet::cmd::session::{Action, Event, Phase, Session};
use helium_wallet::fee::FeeSchedule;
use helium_wallet::keypair::PublicKey;
use helium_wallet::result::Error;
use helium_wallet::txn::{Account, Transaction, TxnKind};

fn key(tag: u8, fill: u8) -> PublicKey {
    let mut bytes = vec![tag];
    bytes.extend([fill; 32]);
    PublicKey::from_bytes(&bytes).unwrap()
}

fn payer() -> PublicKey {
    key(1, 0xaa)
}

fn payee() -> PublicKey {
    key(1, 0xbb)
}

fn table() -> Opts {
    Opts { format: OutputFormat::Table }
}

fn json() -> Opts {
    Opts { format: OutputFormat::Json }
}

fn schedule() -> FeeSchedule {
    FeeSchedule { txn_fees: true, txn_fee_multiplier: 5000, dc_payload_size: 24 }
}

fn account_event(nonce: u64, sec_nonce: u64) -> Event {
    Event::Account {
        payer: payer(),
        account: Account { speculative_nonce: nonce, speculative_sec_nonce: sec_nonce },
    }
}

fn burn_cmd(commit: bool) -> Cmd {
    Cmd { payee: payee(), memo: None, amount: 100, commit }
}

fn text(key: &str, value: &str) -> Field {
    Field { key: key.to_string(), value: Value::Text(value.to_string()) }
}

/// Runs a burn up to the signed record, and hands back the state and the
/// record that goes out to be wrapped.
fn signed_burn(cmd: &Cmd, opts: Opts) -> (Session, Transaction) {
    let (session, action) = Session::start();
    assert_eq!(action, Action::OpenAccount);
    let (session, action) = cmd.run(opts, session, account_event(5, 70));
    let shape = match action {
        Action::FetchFees { shape } => shape,
        other => panic!("{:?}", other),
    };
    assert_eq!(shape.signature, vec![0u8; 64]);
    let (session, action) =
        cmd.run(opts, session, Event::Fees { schedule: schedule(), payload_size: 153 });
    let unsigned = match action {
        Action::Sign { txn } => txn,
        other => panic!("{:?}", other),
    };
    assert_eq!(unsigned.fee, 35_000);
    assert!(unsigned.signature.is_empty());
    let (session, action) =
        cmd.run(opts, session, Event::Signature { signature: vec![0x5a; 64] });
    match action {
        Action::Submit { txn, commit } => {
            assert_eq!(commit, cmd.commit);
            (session, txn)
        },
        other => panic!("{:?}", other),
    }
}

#[test]
fn a_burn_that_is_not_committed() {
    let cmd = burn_cmd(false);
    let (session, action) = Session::start();
    assert_eq!(session.phase(), Phase::AwaitingAccount);
    assert_eq!(action, Action::OpenAccount);

    let (session, action) = cmd.run(table(), session, account_event(5, 70));
    assert_eq!(session.phase(), Phase::AwaitingFees);
    let built = Transaction {
        kind: TxnKind::TokenBurn { memo: 0 },
        payer: payer().to_vec(),
        payee: payee().to_vec(),
        amount: 100,
        nonce: 6,
        fee: 0,
        signature: vec![0u8; 64],
    };
    assert_eq!(action, Action::FetchFees { shape: built });

    let (session, action) =
        cmd.run(table(), session, Event::Fees { schedule: schedule(), payload_size: 153 });
    assert_eq!(session.phase(), Phase::AwaitingSignature);
    let priced = Transaction {
        kind: TxnKind::TokenBurn { memo: 0 },
        payer: payer().to_vec(),
        payee: payee().to_vec(),
        amount: 100,
        nonce: 6,
        fee: 35_000,
        signature: vec![],
    };
    assert_eq!(action, Action::Sign { txn: priced });

    let signature = vec![0x5a; 64];
    let (session, action) =
        cmd.run(table(), session, Event::Signature { signature: signature.clone() });
    assert_eq!(session.phase(), Phase::AwaitingEnvelope);
    let signed = Transaction {
        kind: TxnKind::TokenBurn { memo: 0 },
        payer: payer().to_vec(),
        payee: payee().to_vec(),
        amount: 100,
        nonce: 6,
        fee: 35_000,
        signature,
    };
    assert!(signed.signature.len() >= 64);
    assert_eq!(action, Action::Submit { txn: signed, commit: false });

    let (session, action) =
        cmd.run(table(), session, Event::Envelope { envelope: vec![1, 2, 3], status: None });
    assert_eq!(session.phase(), Phase::Done);
    match action {
        Action::Print { report } => {
            assert_eq!(report.format, OutputFormat::Table);
            assert!(!report.submitted);
            assert_eq!(
                report.fields,
                vec![
                    text("Payee", &payee().to_b58()),
                    text("Memo", "AAAAAAAAAAA="),
                    text("Amount", "0.00000100"),
                    text("Fee", "35000"),
                    text("Nonce", "6"),
                    text("Hash", "none"),
                ]
            );
        },
        other => panic!("{:?}", other),
    }
}

#[test]
fn a_burn_that_is_committed() {
    let cmd = burn_cmd(true);
    let (session, txn) = signed_burn(&cmd, table());
    assert_eq!(txn.nonce, 6);
    assert_eq!(txn.amount, 100);
    assert_eq!(txn.kind, TxnKind::TokenBurn { memo: 0 });
    let status = Some(PendingTxnStatus { hash: "abc123".to_string() });
    let (session, action) =
        cmd.run(table(), session, Event::Envelope { envelope: vec![1, 2, 3], status });
    assert_eq!(session.phase(), Phase::Done);
    match action {
        Action::Print { report } => {
            assert!(report.submitted);
            assert_eq!(report.fields[5], text("Hash", "abc123"));
        },
        other => panic!("{:?}", other),
    }
}

#[test]
fn a_committed_burn_as_a_document() {
    let cmd = burn_cmd(true);
    let (session, _) = signed_burn(&cmd, json());
    let status = Some(PendingTxnStatus { hash: "abc123".to_string() });
    let (_, action) =
        cmd.run(json(), session, Event::Envelope { envelope: vec![1, 2, 3], status });
    match action {
        Action::Print { report } => {
            assert_eq!(report.format, OutputFormat::Json);
            assert_eq!(report.fields[5], text("hash", "abc123"));
            assert_eq!(report.fields[6], text("txn", "AQID"));
        },
        other => panic!("{:?}", other),
    }
}

#[test]
fn committing_does_not_change_the_signed_record() {
    let (_, committed) = signed_burn(&burn_cmd(true), table());
    let (_, previewed) = signed_burn(&burn_cmd(false), table());
    assert_eq!(committed, previewed);
}

#[test]
fn a_burn_with_a_memo() {
    let cmd = Cmd { payee: payee(), memo: Some("AQAAAAAAAAA=".to_string()), amount: 1, commit: false };
    let (_, txn) = signed_burn(&cmd, table());
    assert_eq!(txn.kind, TxnKind::TokenBurn { memo: 1 });
}

#[test]
fn a_memo_that_cannot_be_read_ends_the_burn() {
    let cmd = Cmd { payee: payee(), memo: Some("????".to_string()), amount: 1, commit: false };
    let (session, _) = Session::start();
    let (session, action) = cmd.run(table(), session, account_event(5, 70));
    assert_eq!(session.phase(), Phase::Failed);
    assert_eq!(action, Action::Fail { error: Error::MemoEncoding });

    let cmd = Cmd { payee: payee(), memo: Some("AAAAAAAAAAAA".to_string()), amount: 1, commit: false };
    let (session, _) = Session::start();
    let (_, action) = cmd.run(table(), session, account_event(5, 70));
    assert_eq!(action, Action::Fail { error: Error::MemoLength });
}

#[test]
fn a_transfer_of_security_tokens() {
    let cmd = SecuritiesCmd::Transfer(Transfer { payee: payee(), amount: 3, commit: true });
    let (session, _) = Session::start();
    let (session, action) = cmd.run(json(), session, account_event(5, 70));
    match action {
        Action::FetchFees { shape } => {
            assert_eq!(shape.kind, TxnKind::SecurityExchange);
            assert_eq!(shape.nonce, 71);
            assert_eq!(shape.amount, 3);
        },
        other => panic!("{:?}", other),
    }
    let (session, action) =
        cmd.run(json(), session, Event::Fees { schedule: schedule(), payload_size: 140 });
    match action {
        Action::Sign { txn } => assert_eq!(txn.fee, 30_000),
        other => panic!("{:?}", other),
    }
    let (session, action) =
        cmd.run(json(), session, Event::Signature { signature: vec![1; 70] });
    match action {
        Action::Submit { txn, commit } => {
            assert!(commit);
            assert_eq!(txn.signature, vec![1; 70]);
            assert_eq!(txn.fee, 30_000);
            assert_eq!(txn.nonce, 71);
        },
        other => panic!("{:?}", other),
    }
    let status = Some(PendingTxnStatus { hash: "xyz".to_string() });
    let (session, action) =
        cmd.run(json(), session, Event::Envelope { envelope: vec![0xff], status });
    assert_eq!(session.phase(), Phase::Done);
    match action {
        Action::Print { report } => {
            assert_eq!(report.fields.len(), 6);
            assert_eq!(report.fields[1], Field { key: "amount".to_string(), value: Value::Number(3) });
            assert_eq!(report.fields[4], text("hash", "xyz"));
            assert_eq!(report.fields[5], text("txn", "/w=="));
        },
        other => panic!("{:?}", other),
    }
}

#[test]
fn an_account_at_its_last_nonce_ends_the_command() {
    let cmd = burn_cmd(false);
    let (session, _) = Session::start();
    let (session, action) = cmd.run(table(), session, account_event(u64::MAX, 0));
    assert_eq!(session.phase(), Phase::Failed);
    assert_eq!(action, Action::Fail { error: Error::NonceExhausted });
}

#[test]
fn a_fee_that_cannot_be_computed_ends_the_command() {
    let cmd = burn_cmd(false);
    let (session, _) = Session::start();
    let (session, _) = cmd.run(table(), session, account_event(5, 70));
    let bad = FeeSchedule { txn_fees: true, txn_fee_multiplier: 5000, dc_payload_size: 0 };
    let (session, action) =
        cmd.run(table(), session, Event::Fees { schedule: bad, payload_size: 153 });
    assert_eq!(session.phase(), Phase::Failed);
    assert_eq!(action, Action::Fail { error: Error::FeeSchedule });

    let (session, _) = Session::start();
    let (session, _) = cmd.run(table(), session, account_event(5, 70));
    let huge = FeeSchedule { txn_fees: true, txn_fee_multiplier: u64::MAX, dc_payload_size: 24 };
    let (_, action) =
        cmd.run(table(), session, Event::Fees { schedule: huge, payload_size: 153 });
    assert_eq!(action, Action::Fail { error: Error::FeeOverflow });
}

#[test]
fn an_empty_signature_ends_the_command() {
    let cmd = burn_cmd(false);
    let (session, _) = Session::start();
    let (session, _) = cmd.run(table(), session, account_event(5, 70));
    let (session, _) =
        cmd.run(table(), session, Event::Fees { schedule: schedule(), payload_size: 153 });
    let (session, action) = cmd.run(table(), session, Event::Signature { signature: vec![] });
    assert_eq!(session.phase(), Phase::Failed);
    assert_eq!(action, Action::Fail { error: Error::SignatureEmpty });
}

#[test]
fn a_status_must_be_there_exactly_when_the_command_commits() {
    let cmd = burn_cmd(false);
    let (session, _) = signed_burn(&cmd, table());
    let status = Some(PendingTxnStatus { hash: "abc123".to_string() });
    let (session, action) =
        cmd.run(table(), session, Event::Envelope { envelope: vec![], status });
    assert_eq!(session.phase(), Phase::Failed);
    assert_eq!(action, Action::Fail { error: Error::StatusMismatch });

    let cmd = burn_cmd(true);
    let (session, _) = signed_burn(&cmd, table());
    let (_, action) =
        cmd.run(table(), session, Event::Envelope { envelope: vec![], status: None });
    assert_eq!(action, Action::Fail { error: Error::StatusMismatch });
}

#[test]
fn a_signature_cannot_come_before_the_fee() {
    let cmd = burn_cmd(false);
    let (session, _) = Session::start();
    let (session, _) = cmd.run(table(), session, account_event(5, 70));
    let (session, action) =
        cmd.run(table(), session, Event::Signature { signature: vec![1; 64] });
    assert_eq!(session.phase(), Phase::Failed);
    assert_eq!(action, Action::Fail { error: Error::UnexpectedEvent });
}

#[test]
fn an_event_out_of_turn_ends_the_command() {
    let cmd = burn_cmd(false);
    let (session, _) = Session::start();
    let (session, action) =
        cmd.run(table(), session, Event::Fees { schedule: schedule(), payload_size: 1 });
    assert_eq!(action, Action::Fail { error: Error::UnexpectedEvent });
    // a command that has failed stays failed
    let (session, action) = cmd.run(table(), session, account_event(5, 70));
    assert_eq!(session.phase(), Phase::Failed);
    assert_eq!(action, Action::Fail { error: Error::UnexpectedEvent });

    // the fee is set once
    let (session, _) = Session::start();
    let (session, _) = cmd.run(table(), session, account_event(5, 70));
    let (session, _) =
        cmd.run(table(), session, Event::Fees { schedule: schedule(), payload_size: 153 });
    let (_, action) =
        cmd.run(table(), session, Event::Fees { schedule: schedule(), payload_size: 10 });
    assert_eq!(action, Action::Fail { error: Error::UnexpectedEvent });

    // a command that is done takes no more events
    let (session, _) = signed_burn(&cmd, table());
    let (session, _) =
        cmd.run(table(), session, Event::Envelope { envelope: vec![], status: None });
    assert_eq!(session.phase(), Phase::Done);
    let (session, action) =
        cmd.run(table(), session, Event::Envelope { envelope: vec![], status: None });
    assert_eq!(session.phase(), Phase::Failed);
    assert_eq!(action, Action::Fail { error: Error::UnexpectedEvent });
}
