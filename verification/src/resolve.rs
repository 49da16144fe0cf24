//! The asset and currency resolver: narrows a transfer's 32-byte token word
//! to a 20-byte address, maps it to a canonical account identifier, looks up
//! the destination-chain currency registered for that account, and narrows
//! the raw transfer amount into the destination balance type.
//!
//! Every step either yields a fully valid value or fails with its specific
//! reason; no narrowing is silently truncated and no absent asset is given a
//! default.

use vstd::prelude::*;
use crate::abi::{TransferRecord, TransferRecordV, uint256_val};
use crate::bytes::{bytes_eq, copy_range, range_is_zero};
use crate::errors::{Failure, FailureV};

verus! {

/// A destination-chain currency identifier, distinct from the source
/// chain's raw contract address.
#[derive(Debug, Clone, Copy, PartialEq, Eq, Structural)]
pub struct CurrencyId(pub u64);

/// One registered asset: the canonical account an asset address maps to,
/// and the currency identifier the destination chain knows it by.
#[derive(Debug, PartialEq, Eq)]
pub struct AssetEntry {
    /// The canonical account identifier (20 bytes).
    pub account: Vec<u8>,
    /// The registered currency.
    pub currency: CurrencyId,
}

/// The injected currency-lookup collaborator: a finite table from canonical
/// account identifiers to currency identifiers.  Absence of an account means
/// the asset is unsupported.
#[derive(Debug, PartialEq, Eq)]
pub struct AssetRegistry {
    pub entries: Vec<AssetEntry>,
}

/// A transfer with everything the outbound dispatcher needs resolved:
/// the destination currency and the amount in the destination balance type.
#[derive(Debug, Clone, Copy, PartialEq, Eq, Structural)]
pub struct ResolvedTransfer {
    pub currency: CurrencyId,
    pub amount: u128,
}

/// The first currency registered for `account`, if any.
pub open spec fn spec_lookup(entries: Seq<AssetEntry>, account: Seq<u8>) -> Option<CurrencyId>
    decreases entries.len(),
{
    if entries.len() == 0 {
        None
    } else if entries[0].account@ == account {
        Some(entries[0].currency)
    } else {
        spec_lookup(entries.drop_first(), account)
    }
}

/// The canonical account identifier of a 20-byte address under the hosting
/// environment's address-to-account mapping: the canonical embedding, which
/// keeps the address's own 20 bytes.
pub open spec fn spec_account_of_address(address: Seq<u8>) -> Seq<u8> {
    address
}

/// The 20-byte address held in a 32-byte token word, when the word's upper
/// 12 bytes are zero; `None` otherwise.
pub open spec fn spec_narrow_address(token: Seq<u8>) -> Option<Seq<u8>> {
    if token.len() == 32 && (forall|i: int| 0 <= i < 12 ==> token[i] == 0) {
        Some(token.subrange(12, 32))
    } else {
        None
    }
}

/// What resolving a transfer must yield: the narrowing, mapping, lookup and
/// amount-narrowing steps in order, each failure with its own reason.
pub open spec fn spec_resolve(record: TransferRecordV, entries: Seq<AssetEntry>) -> Result<
    ResolvedTransfer,
    FailureV,
> {
    match spec_narrow_address(record.token_address) {
        None => Err(FailureV::TokenAddressTooWide),
        Some(address) => match spec_lookup(entries, spec_account_of_address(address)) {
            None => Err(FailureV::UnsupportedAsset),
            Some(currency) => if record.amount.hi != 0 {
                Err(FailureV::AmountOverflow)
            } else {
                Ok(ResolvedTransfer { currency, amount: record.amount.lo })
            },
        },
    }
}

/// Maps a 20-byte address to its canonical account identifier.
pub fn account_of_address(address: &Vec<u8>) -> (r: Vec<u8>)
    requires
        address@.len() == 20,
    ensures
        r@ == spec_account_of_address(address@),
{
    copy_range(address, 0, 20)
}

/// Narrows a 32-byte token word to the 20-byte address it holds, failing
/// when the word does not fit one.
pub fn narrow_token_address(token: &Vec<u8>) -> (r: Option<Vec<u8>>)
    ensures
        match r {
            Some(address) => spec_narrow_address(token@) == Some(address@),
            None => spec_narrow_address(token@) is None,
        },
{
    if token.len() != 32 {
        return None;
    }
    if !range_is_zero(token, 0, 12) {
        return None;
    }
    Some(copy_range(token, 12, 32))
}

/// Looks the account up in the registry; the first matching entry counts.
pub fn lookup_currency(registry: &AssetRegistry, account: &Vec<u8>) -> (r: Option<CurrencyId>)
    ensures
        r == spec_lookup(registry.entries@, account@),
{
    let n: usize = registry.entries.len();
    let mut i: usize = 0;
    proof {
        assert(registry.entries@.skip(0) =~= registry.entries@);
    }
    while i < n
        invariant
            i <= n == registry.entries@.len(),
            spec_lookup(registry.entries@, account@) == spec_lookup(
                registry.entries@.skip(i as int),
                account@,
            ),
        decreases n - i,
    {
        if bytes_eq(&registry.entries[i].account, account) {
            proof {
                assert(registry.entries@.skip(i as int)[0] == registry.entries@[i as int]);
            }
            return Some(registry.entries[i].currency);
        }
        proof {
            assert(registry.entries@.skip(i as int)[0] == registry.entries@[i as int]);
            assert(registry.entries@.skip(i as int).drop_first() =~= registry.entries@.skip(
                i + 1,
            ));
        }
        i = i + 1;
    }
    proof {
        assert(registry.entries@.skip(n as int).len() == 0);
    }
    None
}

/// Resolves a transfer record against the registry.
///
/// Succeeds exactly when the token word narrows to an address, that
/// address's canonical account is registered, and the amount fits the
/// destination balance type; each failure carries its specific reason, and
/// a successful amount equals the record's full 256-bit amount.
pub fn resolve_transfer(record: &TransferRecord, registry: &AssetRegistry) -> (r: Result<
    ResolvedTransfer,
    Failure,
>)
    ensures
        match r {
            Ok(v) => spec_resolve(record@, registry.entries@) == Ok::<ResolvedTransfer, FailureV>(
                v,
            ) && v.amount == uint256_val(record@.amount),
            Err(f) => spec_resolve(record@, registry.entries@) == Err::<ResolvedTransfer, FailureV>(
                f@,
            ),
        },
{
    let address: Vec<u8> = match narrow_token_address(&record.token_address) {
        Some(a) => a,
        None => {
            return Err(Failure::TokenAddressTooWide);
        },
    };
    let account: Vec<u8> = account_of_address(&address);
    let currency: CurrencyId = match lookup_currency(registry, &account) {
        Some(c) => c,
        None => {
            return Err(Failure::UnsupportedAsset);
        },
    };
    if record.amount.hi != 0 {
        return Err(Failure::AmountOverflow);
    }
    Ok(ResolvedTransfer { currency, amount: record.amount.lo })
}

} // verus!
