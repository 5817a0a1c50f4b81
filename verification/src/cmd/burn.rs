//! Burn tokens of this wallet into data credits of the payee's.

use crate::amount::decimal_units;
use crate::amount::units_from_decimal;
use crate::cmd::report::Opts;
use crate::cmd::session::step;
use crate::cmd::session::Action;
use crate::cmd::session::Event;
use crate::cmd::session::Session;
use crate::keypair::address_key;
use crate::keypair::PublicKey;
use crate::memo::memo_or_default;
use crate::memo::requested_memo;
use crate::result::Error;
use crate::txn::TxnKind;
use vstd::prelude::*;

verus! {

/// The arguments of a burn.
#[derive(Debug, PartialEq, Eq)]
pub struct Cmd {
    /// The account that gets the data credits.
    pub payee: PublicKey,
    /// The memo to include, as base64 text.
    pub memo: Option<String>,
    /// The amount to burn, in the token's smallest unit.
    pub amount: u64,
    /// Whether to submit the transaction to the network.
    pub commit: bool,
}

/// The kind of transaction that a burn with the memo text `memo` makes, or
/// why the text gives no memo.
pub open spec fn burn_kind(memo: Option<Seq<char>>) -> Result<TxnKind, Error> {
    match requested_memo(memo) {
        Ok(m) => Ok(TxnKind::TokenBurn { memo: m }),
        Err(e) => Err(e),
    }
}

impl Cmd {
    /// The memo text, if the command has one.
    pub open spec fn memo_text(&self) -> Option<Seq<char>> {
        match self.memo {
            Some(text) => Some(text@),
            None => None,
        }
    }

    /// Reads the arguments of a burn: the payee's address, the memo text
    /// if there is one, the amount as the decimal number
    /// `mantissa / 10^scale` of tokens, and whether to commit. A malformed
    /// address is refused first, then an amount that is no amount. The
    /// memo is taken as it is, and read when the record is built.
    pub fn parse(
        payee: &str,
        memo: Option<String>,
        mantissa: i128,
        scale: u32,
        commit: bool,
    ) -> (cmd: Result<Cmd, Error>)
        ensures
            match cmd {
                Ok(c) => {
                    &&& address_key(payee@) == Ok::<Seq<u8>, Error>(c.payee@)
                    &&& decimal_units(mantissa as int, scale as nat) == Ok::<u64, Error>(c.amount)
                    &&& c.memo == memo
                    &&& c.commit == commit
                },
                Err(e) => if address_key(payee@) is Err {
                    address_key(payee@) == Err::<Seq<u8>, Error>(e)
                } else {
                    decimal_units(mantissa as int, scale as nat) == Err::<u64, Error>(e)
                },
            },
    {
        let payee = match PublicKey::from_b58(payee) {
            Ok(key) => key,
            Err(e) => {
                return Err(e);
            },
        };
        let amount = match units_from_decimal(mantissa, scale) {
            Ok(units) => units,
            Err(e) => {
                return Err(e);
            },
        };
        Ok(Cmd { payee, memo, amount, commit })
    }

    /// Takes one step of the command: see `step`. The memo is read when the
    /// record is built, and a memo that cannot be read ends the command
    /// there.
    pub fn run(&self, opts: Opts, session: Session, event: Event) -> (next: (Session, Action))
        ensures
            (next.0@, next.1@) == step(
                burn_kind(self.memo_text()),
                self.payee@,
                self.amount,
                self.commit,
                opts.format,
                session@,
                event@,
            ),
            next.0@.well_formed(),
    {
        let text: Option<&str> = match &self.memo {
            Some(text) => Some(text.as_str()),
            None => None,
        };
        let kind: Result<TxnKind, Error> = match memo_or_default(text) {
            Ok(memo) => Ok(TxnKind::TokenBurn { memo }),
            Err(e) => Err(e),
        };
        session.advance(kind, &self.payee, self.amount, self.commit, opts.format, event)
    }
}

} // verus!
