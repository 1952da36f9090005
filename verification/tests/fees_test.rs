use auction_house::errors::AuctionHouseError;
use auction_house::fees::{fee_in_basis_points, fee_in_percent};

#[test]
fn basis_points_round_down() {
    assert_eq!(fee_in_basis_points(250, 1_000_000), Ok(25_000));
    assert_eq!(fee_in_basis_points(500, 1_000_000), Ok(50_000));
    assert_eq!(fee_in_basis_points(250, 39), Ok(0));
    assert_eq!(fee_in_basis_points(250, 40), Ok(1));
    assert_eq!(fee_in_basis_points(250, 79), Ok(1));
    assert_eq!(fee_in_basis_points(1, 9_999), Ok(0));
    assert_eq!(fee_in_basis_points(0, u64::MAX), Ok(0));
    assert_eq!(fee_in_basis_points(10_000, 0), Ok(0));
}

#[test]
fn basis_points_of_the_largest_amount() {
    assert_eq!(fee_in_basis_points(10_000, u64::MAX), Ok(u64::MAX));
    assert_eq!(fee_in_basis_points(5_000, u64::MAX), Ok(u64::MAX / 2));
    assert_eq!(fee_in_basis_points(10_001, u64::MAX), Err(AuctionHouseError::NumericalOverflow));
    assert_eq!(fee_in_basis_points(u16::MAX, u64::MAX), Err(AuctionHouseError::NumericalOverflow));
    // more than the whole is a fee as long as it is a 64-bit number
    assert_eq!(fee_in_basis_points(20_000, 10), Ok(20));
}

#[test]
fn percent_rounds_down() {
    assert_eq!(fee_in_percent(100, 25_000), Ok(25_000));
    assert_eq!(fee_in_percent(33, 100), Ok(33));
    assert_eq!(fee_in_percent(33, 10), Ok(3));
    assert_eq!(fee_in_percent(50, 1), Ok(0));
    assert_eq!(fee_in_percent(0, u64::MAX), Ok(0));
    assert_eq!(fee_in_percent(100, u64::MAX), Ok(u64::MAX));
    assert_eq!(fee_in_percent(101, u64::MAX), Err(AuctionHouseError::NumericalOverflow));
    assert_eq!(fee_in_percent(255, 100), Ok(255));
}

fn creators(shares: &[u8]) -> Option<Vec<auction_house::state::Creator>> {
    Some(
        shares
            .iter()
            .enumerate()
            .map(|(place, share)| auction_house::state::Creator {
                address: auction_house::state::Pubkey { bytes: [place as u8 + 50; 32] },
                verified: true,
                share: *share,
            })
            .collect(),
    )
}

fn parts(royalty_total: u64, creator_cuts: &[u64], marketplace_fee: u64, seller_remainder: u64) -> auction_house::fees::Distribution {
    auction_house::fees::Distribution {
        royalty_total,
        creator_cuts: creator_cuts.to_vec(),
        marketplace_fee,
        seller_remainder,
    }
}

#[test]
fn price_divides_between_creator_marketplace_and_seller() {
    let divided = auction_house::fees::distribute(1_000_000, 250, 500, &creators(&[100])).unwrap();
    assert_eq!(divided, parts(25_000, &[25_000], 50_000, 925_000));
    let sum: u64 = divided.creator_cuts.iter().sum::<u64>() + divided.marketplace_fee + divided.seller_remainder;
    assert_eq!(sum, 1_000_000);
}

#[test]
fn price_of_zero_divides_into_nothing() {
    assert_eq!(auction_house::fees::distribute(0, 250, 500, &creators(&[100])), Ok(parts(0, &[0], 0, 0)));
    assert_eq!(auction_house::fees::distribute(0, 10_000, 10_000, &None), Ok(parts(0, &[], 0, 0)));
}

#[test]
fn rounding_of_the_royalty_is_the_sellers() {
    // a royalty of 10 among 33, 33 and 34 percent: one unit is left over
    let divided = auction_house::fees::distribute(100, 1_000, 500, &creators(&[33, 33, 34])).unwrap();
    assert_eq!(divided, parts(10, &[3, 3, 3], 5, 86));
    assert_eq!(3 + 3 + 3 + 5 + 86, 100);
    // a royalty of 1 among two creators: nobody is owed a unit
    let divided = auction_house::fees::distribute(40, 250, 0, &creators(&[50, 50])).unwrap();
    assert_eq!(divided, parts(1, &[0, 0], 0, 40));
}

#[test]
fn asset_without_creators_leaves_the_royalty_to_the_seller() {
    assert_eq!(auction_house::fees::distribute(1_000_000, 250, 500, &None), Ok(parts(25_000, &[], 50_000, 950_000)));
    assert_eq!(
        auction_house::fees::distribute(1_000_000, 250, 500, &creators(&[])),
        Ok(parts(25_000, &[], 50_000, 950_000))
    );
}

#[test]
fn distribution_of_the_largest_price() {
    let divided = auction_house::fees::distribute(u64::MAX, 5_000, 5_000, &creators(&[60, 40])).unwrap();
    let royalty = u64::MAX / 2;
    let first = (royalty as u128 * 60 / 100) as u64;
    let second = (royalty as u128 * 40 / 100) as u64;
    assert_eq!(divided.royalty_total, royalty);
    assert_eq!(divided.creator_cuts, vec![first, second]);
    assert_eq!(divided.marketplace_fee, royalty);
    assert_eq!(
        first as u128 + second as u128 + divided.marketplace_fee as u128 + divided.seller_remainder as u128,
        u64::MAX as u128
    );
}

#[test]
fn price_that_does_not_divide() {
    let overflow = Err(AuctionHouseError::NumericalOverflow);
    // a royalty of more than the price
    assert_eq!(auction_house::fees::distribute(1_000_000, 10_001, 0, &None), overflow);
    // shares of more than the whole
    assert_eq!(auction_house::fees::distribute(1_000_000, 250, 500, &creators(&[60, 60])), overflow);
    assert_eq!(auction_house::fees::distribute(u64::MAX, 10_000, 0, &creators(&[255])), overflow);
    // royalty and fee of more than the price
    assert_eq!(auction_house::fees::distribute(1_000_000, 250, 9_751, &creators(&[100])), overflow);
    assert_eq!(auction_house::fees::distribute(u64::MAX, 0, u16::MAX, &None), overflow);
    // together the whole price
    assert_eq!(
        auction_house::fees::distribute(1_000_000, 250, 9_750, &creators(&[100])),
        Ok(parts(25_000, &[25_000], 975_000, 0))
    );
    // the rounding of the royalty may pay a fee that the price less the royalty cannot
    assert_eq!(
        auction_house::fees::distribute(1_000_000, 10_000, 1, &creators(&[50])),
        Ok(parts(1_000_000, &[500_000], 100, 499_900))
    );
}
