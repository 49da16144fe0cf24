use gmp_relay::abi::TransferRecord;
use gmp_relay::abi::Uint256;
use gmp_relay::errors::Failure;
use gmp_relay::errors::failure_message;
use gmp_relay::resolve::AssetEntry;
use gmp_relay::resolve::AssetRegistry;
use gmp_relay::resolve::CurrencyId;
use gmp_relay::resolve::ResolvedTransfer;
use gmp_relay::resolve::account_of_address;
use gmp_relay::resolve::lookup_currency;
use gmp_relay::resolve::narrow_token_address;
use gmp_relay::resolve::resolve_transfer;

fn resolve_token_word(address_byte: u8) -> Vec<u8> {
    let mut token = vec![0u8; 12];
    token.extend_from_slice(&[address_byte; 20]);
    token
}

fn resolve_registry(address_byte: u8, currency: u64) -> AssetRegistry {
    AssetRegistry {
        entries: vec![
            AssetEntry { account: vec![address_byte; 20], currency: CurrencyId(currency) },
        ],
    }
}

#[test]
fn test_narrow_token_address() {
    assert_eq!(narrow_token_address(&resolve_token_word(0xaa)), Some(vec![0xaau8; 20]));
    let mut wide = resolve_token_word(0xaa);
    wide[5] = 1;
    assert_eq!(narrow_token_address(&wide), None);
    assert_eq!(narrow_token_address(&vec![0u8; 31]), None);
}

#[test]
fn test_account_of_address_is_canonical_embedding() {
    let address = vec![0x17u8; 20];
    assert_eq!(account_of_address(&address), address);
}

#[test]
fn test_lookup_currency_first_match() {
    let registry = AssetRegistry {
        entries: vec![
            AssetEntry { account: vec![1u8; 20], currency: CurrencyId(10) },
            AssetEntry { account: vec![2u8; 20], currency: CurrencyId(20) },
            AssetEntry { account: vec![1u8; 20], currency: CurrencyId(30) },
        ],
    };
    assert_eq!(lookup_currency(&registry, &vec![1u8; 20]), Some(CurrencyId(10)));
    assert_eq!(lookup_currency(&registry, &vec![2u8; 20]), Some(CurrencyId(20)));
    assert_eq!(lookup_currency(&registry, &vec![3u8; 20]), None);
}

#[test]
fn test_resolve_transfer_success() {
    let record = TransferRecord {
        token_address: resolve_token_word(0xaa),
        amount: Uint256 { hi: 0, lo: 1000 },
        payload: vec![],
    };
    let r = resolve_transfer(&record, &resolve_registry(0xaa, 7));
    assert_eq!(r, Ok(ResolvedTransfer { currency: CurrencyId(7), amount: 1000 }));
}

#[test]
fn test_resolve_transfer_wide_address() {
    let mut token = resolve_token_word(0xaa);
    token[0] = 1;
    let record = TransferRecord {
        token_address: token,
        amount: Uint256 { hi: 0, lo: 1 },
        payload: vec![],
    };
    let r = resolve_transfer(&record, &resolve_registry(0xaa, 7));
    assert_eq!(r, Err(Failure::TokenAddressTooWide));
    assert_eq!(
        failure_message(&Failure::TokenAddressTooWide),
        Some("Asset address is not a H160")
    );
}

#[test]
fn test_resolve_transfer_unsupported_asset() {
    let record = TransferRecord {
        token_address: resolve_token_word(0xbb),
        amount: Uint256 { hi: 0, lo: 1 },
        payload: vec![],
    };
    let r = resolve_transfer(&record, &resolve_registry(0xaa, 7));
    assert_eq!(r, Err(Failure::UnsupportedAsset));
    assert_eq!(
        failure_message(&Failure::UnsupportedAsset),
        Some("Unsupported asset, not a valid currency id")
    );
}

#[test]
fn test_resolve_transfer_amount_overflow() {
    let record = TransferRecord {
        token_address: resolve_token_word(0xaa),
        amount: Uint256 { hi: 1, lo: 0 },
        payload: vec![],
    };
    let r = resolve_transfer(&record, &resolve_registry(0xaa, 7));
    assert_eq!(r, Err(Failure::AmountOverflow));
    assert_eq!(failure_message(&Failure::AmountOverflow), Some("Amount overflows balance"));
}
