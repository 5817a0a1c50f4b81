//! The report of a command: the fields of the transaction, in a fixed
//! order, as a table for people or as a document for programs.

use crate::amount::token_digits;
use crate::amount::token_text;
use crate::base64::encode;
use crate::base64::encoded;
use crate::keypair::key_address;
use crate::keypair::key_error;
use crate::keypair::PublicKey;
use crate::memo::memo_text;
use crate::memo::memo_to_b64;
use crate::result::Error;
use crate::text::decimal_digits;
use crate::text::decimal_text;
use crate::txn::Transaction;
use crate::txn::TransactionView;
use crate::txn::TxnKind;
use vstd::prelude::*;

verus! {

/// How a command reports.
#[derive(Clone, Copy, Debug, PartialEq, Eq, Structural)]
pub enum OutputFormat {
    Table,
    Json,
}

/// The options that every command takes.
#[derive(Clone, Copy, Debug, PartialEq, Eq, Structural)]
pub struct Opts {
    pub format: OutputFormat,
}

/// What the network answers when it accepts a transaction for processing.
#[derive(Debug, PartialEq, Eq)]
pub struct PendingTxnStatus {
    pub hash: String,
}

/// The value of a field.
#[derive(Debug, PartialEq, Eq)]
pub enum Value {
    Null,
    Number(u64),
    Text(String),
}

/// A named value.
#[derive(Debug, PartialEq, Eq)]
pub struct Field {
    pub key: String,
    pub value: Value,
}

/// A report. In a table every value is text; in a document a value is a
/// number, text, or null.
#[derive(Debug, PartialEq, Eq)]
pub struct Report {
    pub format: OutputFormat,
    pub fields: Vec<Field>,
    /// Whether the transaction went to the network.
    pub submitted: bool,
}

/// The value of a field as a mathematical value.
pub enum ValueView {
    Null,
    Number(u64),
    Text(Seq<char>),
}

/// A named value as a mathematical value.
pub struct FieldView {
    pub key: Seq<char>,
    pub value: ValueView,
}

/// A report as a mathematical value.
pub struct ReportView {
    pub format: OutputFormat,
    pub fields: Seq<FieldView>,
    pub submitted: bool,
}

impl View for Value {
    type V = ValueView;

    open spec fn view(&self) -> ValueView {
        match self {
            Value::Null => ValueView::Null,
            Value::Number(n) => ValueView::Number(*n),
            Value::Text(t) => ValueView::Text(t@),
        }
    }
}

impl View for Field {
    type V = FieldView;

    open spec fn view(&self) -> FieldView {
        FieldView { key: self.key@, value: self.value@ }
    }
}

impl View for Report {
    type V = ReportView;

    open spec fn view(&self) -> ReportView {
        ReportView {
            format: self.format,
            fields: Seq::new(self.fields@.len(), |i: int| self.fields@[i]@),
            submitted: self.submitted,
        }
    }
}

/// The hash of a status, where there is a status.
pub open spec fn status_hash(status: Option<PendingTxnStatus>) -> Option<Seq<char>> {
    match status {
        Some(s) => Some(s.hash@),
        None => None,
    }
}

/// What a table shows for the hash: the hash, or the word `none` for a
/// transaction that was not submitted.
pub open spec fn hash_text(hash: Option<Seq<char>>) -> Seq<char> {
    match hash {
        Some(h) => h,
        None => "none"@,
    }
}

/// What a document holds for the hash: the hash, or null for a transaction
/// that was not submitted.
pub open spec fn hash_value(hash: Option<Seq<char>>) -> ValueView {
    match hash {
        Some(h) => ValueView::Text(h),
        None => ValueView::Null,
    }
}

/// A field that holds text.
pub open spec fn text_field(key: Seq<char>, text: Seq<char>) -> FieldView {
    FieldView { key, value: ValueView::Text(text) }
}

/// A field that holds a number.
pub open spec fn number_field(key: Seq<char>, n: u64) -> FieldView {
    FieldView { key, value: ValueView::Number(n) }
}

/// The hash as a table shows it.
pub fn status_str(status: &Option<PendingTxnStatus>) -> (text: String)
    ensures
        text@ == hash_text(status_hash(*status)),
{
    match status {
        Some(s) => s.hash.clone(),
        None => "none".to_owned(),
    }
}

/// The hash as a document holds it.
pub fn status_json(status: &Option<PendingTxnStatus>) -> (value: Value)
    ensures
        value@ == hash_value(status_hash(*status)),
{
    match status {
        Some(s) => Value::Text(s.hash.clone()),
        None => Value::Null,
    }
}

/// Makes a field that holds text.
pub fn make_text(key: &str, text: String) -> (field: Field)
    ensures
        field@ == text_field(key@, text@),
{
    Field { key: key.to_owned(), value: Value::Text(text) }
}

/// Makes a field that holds a number.
pub fn make_number(key: &str, n: u64) -> (field: Field)
    ensures
        field@ == number_field(key@, n),
{
    Field { key: key.to_owned(), value: Value::Number(n) }
}

/// The view of a result that holds a report.
pub open spec fn report_result(r: Result<Report, Error>) -> Result<ReportView, Error> {
    match r {
        Ok(report) => Ok(report@),
        Err(e) => Err(e),
    }
}

/// The rows of a table: the payee's address, what only this kind of
/// transaction carries, then amount, fee, nonce and hash. A burn shows its
/// amount in tokens, a transfer of security tokens in smallest units.
pub open spec fn table_fields(txn: TransactionView, hash: Option<Seq<char>>) -> Seq<FieldView> {
    match txn.kind {
        TxnKind::TokenBurn { memo } => seq![
            text_field("Payee"@, key_address(txn.payee)),
            text_field("Memo"@, memo_text(memo)),
            text_field("Amount"@, token_digits(txn.amount)),
            text_field("Fee"@, decimal_digits(txn.fee as nat)),
            text_field("Nonce"@, decimal_digits(txn.nonce as nat)),
            text_field("Hash"@, hash_text(hash)),
        ],
        TxnKind::SecurityExchange => seq![
            text_field("Payee"@, key_address(txn.payee)),
            text_field("Amount"@, decimal_digits(txn.amount as nat)),
            text_field("Fee"@, decimal_digits(txn.fee as nat)),
            text_field("Nonce"@, decimal_digits(txn.nonce as nat)),
            text_field("Hash"@, hash_text(hash)),
        ],
    }
}

/// The members of a document: the fields of the table under their lower
/// case names, numbers as numbers and the amount in smallest units, and
/// after them the envelope in base64.
pub open spec fn json_fields(
    txn: TransactionView,
    envelope: Seq<u8>,
    hash: Option<Seq<char>>,
) -> Seq<FieldView> {
    match txn.kind {
        TxnKind::TokenBurn { memo } => seq![
            text_field("payee"@, key_address(txn.payee)),
            number_field("amount"@, txn.amount),
            text_field("memo"@, memo_text(memo)),
            number_field("fee"@, txn.fee),
            number_field("nonce"@, txn.nonce),
            FieldView { key: "hash"@, value: hash_value(hash) },
            text_field("txn"@, encoded(envelope)),
        ],
        TxnKind::SecurityExchange => seq![
            text_field("payee"@, key_address(txn.payee)),
            number_field("amount"@, txn.amount),
            number_field("fee"@, txn.fee),
            number_field("nonce"@, txn.nonce),
            FieldView { key: "hash"@, value: hash_value(hash) },
            text_field("txn"@, encoded(envelope)),
        ],
    }
}

/// Where the hash stands among the fields.
pub open spec fn hash_index(kind: TxnKind) -> int {
    match kind {
        TxnKind::TokenBurn { .. } => 5,
        TxnKind::SecurityExchange => 4,
    }
}

/// The report on a transaction, its envelope and the hash under which the
/// network took it, if it did. There is none where the payee is no
/// well-formed key.
pub open spec fn txn_report(
    txn: TransactionView,
    envelope: Seq<u8>,
    hash: Option<Seq<char>>,
    format: OutputFormat,
) -> Result<ReportView, Error> {
    match key_error(txn.payee) {
        Some(e) => Err(e),
        None => Ok(
            ReportView {
                format,
                fields: match format {
                    OutputFormat::Table => table_fields(txn, hash),
                    OutputFormat::Json => json_fields(txn, envelope, hash),
                },
                submitted: hash is Some,
            },
        ),
    }
}

/// Reports on a transaction.
pub fn render_txn(
    txn: &Transaction,
    envelope: &[u8],
    status: &Option<PendingTxnStatus>,
    format: OutputFormat,
) -> (report: Result<Report, Error>)
    ensures
        report_result(report) == txn_report(txn@, envelope@, status_hash(*status), format),
{
    let payee: String = match PublicKey::from_bytes(txn.payee.as_slice()) {
        Ok(key) => key.to_b58(),
        Err(e) => {
            return Err(e);
        },
    };
    let mut fields: Vec<Field> = Vec::new();
    match format {
        OutputFormat::Table => {
            fields.push(make_text("Payee", payee));
            match txn.kind {
                TxnKind::TokenBurn { memo } => {
                    fields.push(make_text("Memo", memo_to_b64(memo)));
                    fields.push(make_text("Amount", token_text(txn.amount)));
                },
                TxnKind::SecurityExchange => {
                    fields.push(make_text("Amount", decimal_text(txn.amount)));
                },
            }
            fields.push(make_text("Fee", decimal_text(txn.fee)));
            fields.push(make_text("Nonce", decimal_text(txn.nonce)));
            fields.push(make_text("Hash", status_str(status)));
        },
        OutputFormat::Json => {
            fields.push(make_text("payee", payee));
            fields.push(make_number("amount", txn.amount));
            match txn.kind {
                TxnKind::TokenBurn { memo } => {
                    fields.push(make_text("memo", memo_to_b64(memo)));
                },
                TxnKind::SecurityExchange => {},
            }
            fields.push(make_number("fee", txn.fee));
            fields.push(make_number("nonce", txn.nonce));
            fields.push(Field { key: "hash".to_owned(), value: status_json(status) });
            fields.push(make_text("txn", encode(envelope)));
        },
    }
    let report = Report { format, fields, submitted: status.is_some() };
    proof {
        let expected = txn_report(txn@, envelope@, status_hash(*status), format).unwrap();
        assert(report@.fields =~= expected.fields);
    }
    Ok(report)
}

} // verus!
