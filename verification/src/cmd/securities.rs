//! Work with security tokens.

use crate::amount::decimal_units;
use crate::amount::units_from_decimal;
use crate::cmd::report::Opts;
use crate::cmd::session::step;
use crate::cmd::session::Action;
use crate::cmd::session::Event;
use crate::cmd::session::Session;
use crate::keypair::address_key;
use crate::keypair::PublicKey;
use crate::result::Error;
use crate::txn::TxnKind;
use vstd::prelude::*;

verus! {

/// The commands on security tokens.
#[derive(Debug, PartialEq, Eq)]
pub enum Cmd {
    Transfer(Transfer),
}

/// The arguments of a transfer of security tokens to the payee's account.
#[derive(Debug, PartialEq, Eq)]
pub struct Transfer {
    /// The account that gets the security tokens.
    pub payee: PublicKey,
    /// The amount to transfer, in the token's smallest unit.
    pub amount: u64,
    /// Whether to submit the transaction to the network.
    pub commit: bool,
}

impl Cmd {
    /// The transfer that the command stands for.
    pub open spec fn transfer(&self) -> Transfer {
        match self {
            Cmd::Transfer(cmd) => *cmd,
        }
    }

    /// Takes one step of the command: that of the transfer.
    pub fn run(&self, opts: Opts, session: Session, event: Event) -> (next: (Session, Action))
        ensures
            (next.0@, next.1@) == step(
                Ok(TxnKind::SecurityExchange),
                self.transfer().payee@,
                self.transfer().amount,
                self.transfer().commit,
                opts.format,
                session@,
                event@,
            ),
            next.0@.well_formed(),
    {
        match self {
            Cmd::Transfer(cmd) => cmd.run(opts, session, event),
        }
    }
}

impl Transfer {
    /// Reads the arguments of a transfer: the payee's address, the amount
    /// as the decimal number `mantissa / 10^scale` of security tokens, and
    /// whether to commit. A malformed address is refused first, then an
    /// amount that is no amount.
    pub fn parse(payee: &str, mantissa: i128, scale: u32, commit: bool) -> (cmd: Result<
        Transfer,
        Error,
    >)
        ensures
            match cmd {
                Ok(c) => {
                    &&& address_key(payee@) == Ok::<Seq<u8>, Error>(c.payee@)
                    &&& decimal_units(mantissa as int, scale as nat) == Ok::<u64, Error>(c.amount)
                    &&& c.commit == commit
                },
                Err(e) => if address_key(payee@) is Err {
                    address_key(payee@) == Err::<Seq<u8>, Error>(e)
                } else {
                    decimal_units(mantissa as int, scale as nat) == Err::<u64, Error>(e)
                },
            },
    {
        let payee = match PublicKey::from_b58(payee) {
            Ok(key) => key,
            Err(e) => {
                return Err(e);
            },
        };
        let amount = match units_from_decimal(mantissa, scale) {
            Ok(units) => units,
            Err(e) => {
                return Err(e);
            },
        };
        Ok(Transfer { payee, amount, commit })
    }

    /// Takes one step of the transfer: see `step`.
    pub fn run(&self, opts: Opts, session: Session, event: Event) -> (next: (Session, Action))
        ensures
            (next.0@, next.1@) == step(
                Ok(TxnKind::SecurityExchange),
                self.payee@,
                self.amount,
                self.commit,
                opts.format,
                session@,
                event@,
            ),
            next.0@.well_formed(),
    {
        session.advance(
            Ok(TxnKind::SecurityExchange),
            &self.payee,
            self.amount,
            self.commit,
            opts.format,
            event,
        )
    }
}

} // verus!
