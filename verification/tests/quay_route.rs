use titan_integration_template::quay::quay_program_id;
use titan_integration_template::route_venues::quay::{program_id, swap, SWAP_DISCRIMINATOR};
use titan_integration_template::trading_venue::{AccountMeta, Pubkey};

fn unique() -> Pubkey {
    Pubkey(solana_pubkey::Pubkey::new_unique().to_bytes())
}

#[test]
fn route_leg_encodes_swap_data_and_keeps_accounts() {
    let metas = vec![AccountMeta::new(unique(), false), AccountMeta::new_readonly(unique(), true)];
    let ixs = swap(true, 1_234_567, &metas).unwrap();
    assert_eq!(ixs.len(), 1);
    assert_eq!(ixs[0].program_id, program_id());
    assert_eq!(ixs[0].program_id, quay_program_id());
    assert_eq!(ixs[0].accounts, metas);
    let mut expected = vec![SWAP_DISCRIMINATOR];
    expected.extend_from_slice(&1_234_567u64.to_le_bytes());
    expected.extend_from_slice(&0u64.to_le_bytes());
    expected.push(0);
    assert_eq!(ixs[0].data, expected);
}

#[test]
fn route_leg_buy_side_is_one() {
    let ixs = swap(false, 5, &[]).unwrap();
    assert_eq!(ixs[0].data.len(), 18);
    assert_eq!(ixs[0].data[17], 1);
    assert!(ixs[0].accounts.is_empty());
}
