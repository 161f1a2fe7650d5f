use nft_vault::address::Address;
use nft_vault::vault::{Initialize, TransferPlan};

#[test]
fn init_plans_transfer_from_house_to_vault() {
    let ix = Initialize {
        house: Address { bytes: [1; 32] },
        vault: Address { bytes: [2; 32] },
        system_program: Address { bytes: [0; 32] },
    };
    let plan = ix.init(1_000_000_000);
    assert_eq!(
        plan,
        TransferPlan {
            program: Address { bytes: [0; 32] },
            from: Address { bytes: [1; 32] },
            to: Address { bytes: [2; 32] },
            lamports: 1_000_000_000,
        }
    );
}

#[test]
fn init_with_zero_and_largest_amount() {
    let ix = Initialize {
        house: Address { bytes: [7; 32] },
        vault: Address { bytes: [8; 32] },
        system_program: Address { bytes: [0; 32] },
    };
    assert_eq!(ix.init(0).lamports, 0);
    assert_eq!(ix.init(u64::MAX).lamports, u64::MAX);
    assert_eq!(ix.init(u64::MAX).to, Address { bytes: [8; 32] });
    assert_eq!(ix.init(5).from, Address { bytes: [7; 32] });
    assert_eq!(ix.init(5).program, Address { bytes: [0; 32] });
}
