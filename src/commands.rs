//! The commands the daemon is called with, and the shapes of their results.

use crate::decode::{field_bool, field_i64, field_string, optional, required, FromJson};
use crate::error::SchemaError;
use crate::json::{field_of, find_field, Json};
use vstd::prelude::*;

verus! {

/// A remote call: its method name on the wire and the shape of its result.
pub trait BitcoinCommand {
    type OutputFormat: FromJson;

    /// The method name sent on the wire.
    spec fn spec_command() -> Seq<char>;

    fn command() -> (r: &'static str)
        ensures
            r@ == Self::spec_command(),
    ;
}

/// Asks the wallet for a fresh receiving address.
pub enum GetNewAddress {
    Call,
}

impl BitcoinCommand for GetNewAddress {
    type OutputFormat = String;

    open spec fn spec_command() -> Seq<char> {
        "getnewaddress"@
    }

    fn command() -> (r: &'static str) {
        "getnewaddress"
    }
}

/// Turns an address of the wallet into its witness form.
pub enum AddWitnessAddress {
    Call,
}

impl BitcoinCommand for AddWitnessAddress {
    type OutputFormat = String;

    open spec fn spec_command() -> Seq<char> {
        "addwitnessaddress"@
    }

    fn command() -> (r: &'static str) {
        "addwitnessaddress"
    }
}

/// What the daemon knows of an address. Only `isvalid` is always there: an
/// absent member means that the daemon did not report it (the address is
/// invalid, or not the wallet's own).
#[allow(non_snake_case)]
#[derive(Debug)]
pub struct ValidateAddressOutput {
    pub isvalid: bool,
    pub address: Option<String>,
    pub scriptPubKey: Option<String>,
    pub ismine: Option<bool>,
    pub iswatchonly: Option<bool>,
    pub isscript: Option<bool>,
    pub pubkey: Option<String>,
    pub iscompressed: Option<bool>,
    pub account: Option<String>,
    pub timestamp: Option<i64>,
    pub hdkeypath: Option<String>,
    pub hdmasterkeyid: Option<String>,
}

/// Checks an address and reports what the wallet knows of it.
pub enum ValidateAddress {
    Call,
}

impl BitcoinCommand for ValidateAddress {
    type OutputFormat = ValidateAddressOutput;

    open spec fn spec_command() -> Seq<char> {
        "validateaddress"@
    }

    fn command() -> (r: &'static str) {
        "validateaddress"
    }
}

/// An object with a mandatory boolean `isvalid`; the other members are
/// optional, may be null, and members of other names are ignored.
impl FromJson for ValidateAddressOutput {
    open spec fn decoded(j: Json) -> Result<ValidateAddressOutput, SchemaError> {
        match j {
            Json::Object(es) => {
                let isvalid = required::<bool>(field_of(es@, "isvalid"@), "isvalid");
                let address = optional::<String>(field_of(es@, "address"@));
                let scriptPubKey = optional::<String>(field_of(es@, "scriptPubKey"@));
                let ismine = optional::<bool>(field_of(es@, "ismine"@));
                let iswatchonly = optional::<bool>(field_of(es@, "iswatchonly"@));
                let isscript = optional::<bool>(field_of(es@, "isscript"@));
                let pubkey = optional::<String>(field_of(es@, "pubkey"@));
                let iscompressed = optional::<bool>(field_of(es@, "iscompressed"@));
                let account = optional::<String>(field_of(es@, "account"@));
                let timestamp = optional::<i64>(field_of(es@, "timestamp"@));
                let hdkeypath = optional::<String>(field_of(es@, "hdkeypath"@));
                let hdmasterkeyid = optional::<String>(field_of(es@, "hdmasterkeyid"@));
                if isvalid is Err {
                    Err(isvalid->Err_0)
                } else if address is Err {
                    Err(address->Err_0)
                } else if scriptPubKey is Err {
                    Err(scriptPubKey->Err_0)
                } else if ismine is Err {
                    Err(ismine->Err_0)
                } else if iswatchonly is Err {
                    Err(iswatchonly->Err_0)
                } else if isscript is Err {
                    Err(isscript->Err_0)
                } else if pubkey is Err {
                    Err(pubkey->Err_0)
                } else if iscompressed is Err {
                    Err(iscompressed->Err_0)
                } else if account is Err {
                    Err(account->Err_0)
                } else if timestamp is Err {
                    Err(timestamp->Err_0)
                } else if hdkeypath is Err {
                    Err(hdkeypath->Err_0)
                } else if hdmasterkeyid is Err {
                    Err(hdmasterkeyid->Err_0)
                } else {
                    Ok(ValidateAddressOutput {
                        isvalid: isvalid->Ok_0,
                        address: address->Ok_0,
                        scriptPubKey: scriptPubKey->Ok_0,
                        ismine: ismine->Ok_0,
                        iswatchonly: iswatchonly->Ok_0,
                        isscript: isscript->Ok_0,
                        pubkey: pubkey->Ok_0,
                        iscompressed: iscompressed->Ok_0,
                        account: account->Ok_0,
                        timestamp: timestamp->Ok_0,
                        hdkeypath: hdkeypath->Ok_0,
                        hdmasterkeyid: hdmasterkeyid->Ok_0,
                    })
                }
            },
            _ => Err(SchemaError::WrongType),
        }
    }

    fn from_json(j: Json) -> (r: Result<ValidateAddressOutput, SchemaError>) {
        match j {
            Json::Object(es) => {
                let isvalid = match find_field(&es, &String::from_str("isvalid")) {
                    Some(i) => match &es[i].1 {
                        Json::Bool(b) => *b,
                        _ => {
                            return Err(SchemaError::WrongType);
                        },
                    },
                    None => {
                        return Err(SchemaError::MissingField("isvalid"));
                    },
                };
                let address = match field_string(&es, &String::from_str("address")) {
                    Ok(v) => v,
                    Err(e) => {
                        return Err(e);
                    },
                };
                let scriptPubKey = match field_string(&es, &String::from_str("scriptPubKey")) {
                    Ok(v) => v,
                    Err(e) => {
                        return Err(e);
                    },
                };
                let ismine = match field_bool(&es, &String::from_str("ismine")) {
                    Ok(v) => v,
                    Err(e) => {
                        return Err(e);
                    },
                };
                let iswatchonly = match field_bool(&es, &String::from_str("iswatchonly")) {
                    Ok(v) => v,
                    Err(e) => {
                        return Err(e);
                    },
                };
                let isscript = match field_bool(&es, &String::from_str("isscript")) {
                    Ok(v) => v,
                    Err(e) => {
                        return Err(e);
                    },
                };
                let pubkey = match field_string(&es, &String::from_str("pubkey")) {
                    Ok(v) => v,
                    Err(e) => {
                        return Err(e);
                    },
                };
                let iscompressed = match field_bool(&es, &String::from_str("iscompressed")) {
                    Ok(v) => v,
                    Err(e) => {
                        return Err(e);
                    },
                };
                let account = match field_string(&es, &String::from_str("account")) {
                    Ok(v) => v,
                    Err(e) => {
                        return Err(e);
                    },
                };
                let timestamp = match field_i64(&es, &String::from_str("timestamp")) {
                    Ok(v) => v,
                    Err(e) => {
                        return Err(e);
                    },
                };
                let hdkeypath = match field_string(&es, &String::from_str("hdkeypath")) {
                    Ok(v) => v,
                    Err(e) => {
                        return Err(e);
                    },
                };
                let hdmasterkeyid = match field_string(&es, &String::from_str("hdmasterkeyid")) {
                    Ok(v) => v,
                    Err(e) => {
                        return Err(e);
                    },
                };
                Ok(ValidateAddressOutput {
                    isvalid,
                    address,
                    scriptPubKey,
                    ismine,
                    iswatchonly,
                    isscript,
                    pubkey,
                    iscompressed,
                    account,
                    timestamp,
                    hdkeypath,
                    hdmasterkeyid,
                })
            },
            _ => Err(SchemaError::WrongType),
        }
    }
}

} // verus!
