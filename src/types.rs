use vstd::prelude::*;

use crate::text::{decimal, push_decimal};

verus! {

/// The identity of a principal (a canister or a user): its raw bytes.
#[derive(Clone, Debug)]
pub struct Principal {
    pub bytes: Vec<u8>,
}

impl View for Principal {
    type V = Seq<u8>;

    open spec fn view(&self) -> Seq<u8> {
        self.bytes@
    }
}

impl Principal {
    /// A second value with the same identity.
    pub fn duplicate(&self) -> (r: Principal)
        ensures
            r@ == self@,
    {
        Principal { bytes: self.bytes.clone() }
    }
}

/// An unbounded natural number, held as its bytes in little-endian order.
#[derive(Clone, Debug)]
pub struct Natural {
    pub le_bytes: Vec<u8>,
}

/// A wasm module that a canister keeps, if any.
pub struct WalletWASMBytes(pub Option<Vec<u8>>);

impl Default for WalletWASMBytes {
    fn default() -> (r: Self)
        ensures
            r.0 is None,
    {
        WalletWASMBytes(None)
    }
}

/// The settings of a canister; each one left out takes the platform's default.
#[derive(Clone, Debug)]
pub struct CanisterSettings {
    pub controllers: Option<Vec<Principal>>,
    pub compute_allocation: Option<Natural>,
    pub memory_allocation: Option<Natural>,
    pub freezing_threshold: Option<Natural>,
}

/// The cycles paid for a new canister, and its initial settings.
#[derive(Clone, Debug)]
pub struct CreateCanisterArgs {
    pub cycles: u64,
    pub settings: CanisterSettings,
}

/// New settings for an existing canister.
#[derive(Debug)]
pub struct UpdateSettingsArgs {
    pub canister_id: Principal,
    pub settings: CanisterSettings,
}

/// The identity of a canister that was created.
#[derive(Debug)]
pub struct CreateResult {
    pub canister_id: Principal,
}

pub type IssueResult = CreateResult;

/// The module that a freshly installed canister is asked to keep.
#[derive(Debug)]
pub struct TokenStoreWASMArgs {
    pub wasm_module: Vec<u8>,
}

/// What a token is issued with.
#[derive(Debug)]
pub struct IssueTokenArgs {
    pub subaccount: Option<Vec<u8>>,
    pub logo: Vec<u8>,
    pub name: String,
    pub symbol: String,
    pub decimals: u8,
    pub total_supply: u128,
    pub fee: Fee,
}

/// A transfer fee: a fixed amount, or a rate (in hundred-millionths) with the
/// lowest fee that it may come to.
#[derive(Debug, Clone, Copy)]
pub enum Fee {
    Fixed(u128),
    RateWithLowestLimit(u128, u8),
}

/// The text form of a fee: the amount alone, or `{lowest:<amount>,rate:<rate>}`.
pub open spec fn fee_text(f: Fee) -> Seq<char> {
    match f {
        Fee::Fixed(a) => decimal(a as nat),
        Fee::RateWithLowestLimit(a, r) => "{lowest:"@ + decimal(a as nat) + ",rate:"@ + decimal(
            r as nat,
        ) + "}"@,
    }
}

impl Fee {
    /// The text form of this fee.
    pub fn to_string(&self) -> (r: String)
        ensures
            r@ == fee_text(*self),
    {
        let mut s = String::new();
        match self {
            Fee::Fixed(a) => {
                push_decimal(&mut s, *a);
            },
            Fee::RateWithLowestLimit(a, r) => {
                s.append("{lowest:");
                push_decimal(&mut s, *a);
                s.append(",rate:");
                push_decimal(&mut s, *r as u128);
                s.append("}");
                proof {
                    reveal_strlit("{lowest:");
                    reveal_strlit(",rate:");
                    reveal_strlit("}");
                }
            },
        }
        proof {
            assert(s@ =~= fee_text(*self));
        }
        s
    }
}

/// The record of an issued token.
#[derive(Debug)]
pub struct TokenInfo {
    pub issuer: Principal,
    pub token_id: String,
    pub name: String,
    pub symbol: String,
    pub decimals: u8,
    pub total_supply: u128,
    pub fee: Fee,
    pub timestamp: u64,
}

} // verus!
