use helium_wallet::cmd::burn::Cmd;
use helium_wallet::cmd::securities::Transfer;
use helium_wallet::keypair::PublicKey;
use helium_wallet::result::Error;

const ADDRESS: &str = "11263KvqW3GZPAvag5sQYtBJSjb25azSTSwoi5Tza9kboaLRxcsv";

#[test]
fn reads_the_arguments_of_a_burn() {
    let cmd = Cmd::parse(ADDRESS, Some("AQAAAAAAAAA=".to_string()), 15, 1, true).unwrap();
    assert_eq!(cmd.payee, PublicKey::from_b58(ADDRESS).unwrap());
    assert_eq!(cmd.memo, Some("AQAAAAAAAAA=".to_string()));
    assert_eq!(cmd.amount, 150_000_000);
    assert!(cmd.commit);
    let cmd = Cmd::parse(ADDRESS, None, 100, 8, false).unwrap();
    assert_eq!(cmd.memo, None);
    assert_eq!(cmd.amount, 100);
    assert!(!cmd.commit);
}

#[test]
fn refuses_a_burn_to_a_malformed_address() {
    assert_eq!(Cmd::parse("", None, 1, 0, false).err(), Some(Error::KeyEncoding));
    assert_eq!(Cmd::parse("payee", None, 1, 0, false).err(), Some(Error::KeyEncoding));
    // the address is looked at first
    assert_eq!(Cmd::parse("payee", None, -1, 0, false).err(), Some(Error::KeyEncoding));
}

#[test]
fn refuses_a_burn_of_no_amount() {
    assert_eq!(Cmd::parse(ADDRESS, None, -1, 0, false).err(), Some(Error::AmountNegative));
    assert_eq!(Cmd::parse(ADDRESS, None, 1, 9, false).err(), Some(Error::AmountPrecision));
    assert_eq!(
        Cmd::parse(ADDRESS, None, i128::MAX, 0, false).err(),
        Some(Error::AmountOverflow)
    );
}

#[test]
fn reads_the_arguments_of_a_transfer() {
    let cmd = Transfer::parse(ADDRESS, 25, 1, true).unwrap();
    assert_eq!(cmd.payee, PublicKey::from_b58(ADDRESS).unwrap());
    assert_eq!(cmd.amount, 250_000_000);
    assert!(cmd.commit);
}

#[test]
fn refuses_a_transfer_that_is_none() {
    assert_eq!(Transfer::parse("x", 1, 0, false).err(), Some(Error::KeyEncoding));
    assert_eq!(Transfer::parse(ADDRESS, -5, 0, false).err(), Some(Error::AmountNegative));
    assert_eq!(Transfer::parse(ADDRESS, 5, 20, false).err(), Some(Error::AmountPrecision));
    assert_eq!(
        Transfer::parse(ADDRESS, 184_467_440_738, 0, false).err(),
        Some(Error::AmountOverflow)
    );
}
