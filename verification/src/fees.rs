//! How the price of a sale divides between the creators of the asset, the
//! marketplace and the seller.

use vstd::prelude::*;
use crate::errors::AuctionHouseError;
use crate::state::Creator;

verus! {

/// `basis_points` hundredths of a percent of `amount`, rounded down.
pub open spec fn basis_points_of(basis_points: u16, amount: u64) -> int {
    basis_points * amount / 10000
}

/// `share` percent of `amount`, rounded down.
pub open spec fn percent_of(share: u8, amount: u64) -> int {
    share * amount / 100
}

/// An amount as a 64-bit number, or `NumericalOverflow` where it is none.
pub open spec fn checked(amount: int) -> Result<u64, AuctionHouseError> {
    if 0 <= amount <= u64::MAX {
        Ok(amount as u64)
    } else {
        Err(AuctionHouseError::NumericalOverflow)
    }
}

/// What the first `n` creators are owed together of a royalty of `total_fee`.
pub open spec fn creator_fees(creators: Seq<Creator>, total_fee: u64, n: int) -> int
    decreases n,
{
    if n <= 0 {
        0
    } else {
        creator_fees(creators, total_fee, n - 1) + percent_of(creators[n - 1].share, total_fee)
    }
}

/// The shares of the first `n` creators together, in percent.
pub open spec fn shares(creators: Seq<Creator>, n: int) -> int
    decreases n,
{
    if n <= 0 {
        0
    } else {
        shares(creators, n - 1) + creators[n - 1].share
    }
}

/// What the creators are paid together: nothing where the asset names none.
pub open spec fn royalties_paid(creators: Option<Seq<Creator>>, total_fee: u64) -> int {
    match creators {
        Some(list) => creator_fees(list, total_fee, list.len() as int),
        None => 0,
    }
}

/// What is left of the price for the marketplace and the seller when the creators
/// have been paid: the price less the royalty, and with it the part of the
/// royalty that the division among the creators has left over.
pub open spec fn after_royalties(size: u64, basis_points: u16, creators: Option<Seq<Creator>>) -> int {
    let total_fee = basis_points_of(basis_points, size);
    (size - total_fee) + (total_fee - royalties_paid(creators, total_fee as u64))
}

/// What the seller receives: what is left after the royalties, less the
/// marketplace's fee.
pub open spec fn seller_remainder(
    size: u64,
    royalty_basis_points: u16,
    marketplace_basis_points: u16,
    creators: Option<Seq<Creator>>,
) -> int {
    after_royalties(size, royalty_basis_points, creators) - basis_points_of(marketplace_basis_points, size)
}

/// A fee in basis points of an amount, where it is a 64-bit number.
pub fn fee_in_basis_points(basis_points: u16, amount: u64) -> (result: Result<u64, AuctionHouseError>)
    ensures
        result == checked(basis_points_of(basis_points, amount)),
{
    assert(basis_points * amount <= 0xffff * 0xffff_ffff_ffff_ffff) by (nonlinear_arith)
        requires
            basis_points <= 0xffff,
            amount <= 0xffff_ffff_ffff_ffff,
    ;
    let product: u128 = (basis_points as u128) * (amount as u128);
    let fee: u128 = product / 10000;
    if fee > u64::MAX as u128 {
        Err(AuctionHouseError::NumericalOverflow)
    } else {
        Ok(fee as u64)
    }
}

/// A share in percent of an amount, where it is a 64-bit number.
pub fn fee_in_percent(share: u8, amount: u64) -> (result: Result<u64, AuctionHouseError>)
    ensures
        result == checked(percent_of(share, amount)),
{
    assert(share * amount <= 0xff * 0xffff_ffff_ffff_ffff) by (nonlinear_arith)
        requires
            share <= 0xff,
            amount <= 0xffff_ffff_ffff_ffff,
    ;
    let product: u128 = (share as u128) * (amount as u128);
    let fee: u128 = product / 100;
    if fee > u64::MAX as u128 {
        Err(AuctionHouseError::NumericalOverflow)
    } else {
        Ok(fee as u64)
    }
}

/// The parts into which the price of a sale divides.
#[derive(Clone, Debug, PartialEq, Eq)]
pub struct Distribution {
    /// The royalty: what the creators can be owed together.
    pub royalty_total: u64,
    /// What each creator is owed, in the order of the creators.
    pub creator_cuts: Vec<u64>,
    /// What the marketplace is owed.
    pub marketplace_fee: u64,
    /// What is left for the seller.
    pub seller_remainder: u64,
}

/// A distribution as a mathematical value.
#[verifier::ext_equal]
pub struct DistributionView {
    pub royalty_total: u64,
    pub creator_cuts: Seq<u64>,
    pub marketplace_fee: u64,
    pub seller_remainder: u64,
}

impl View for Distribution {
    type V = DistributionView;

    open spec fn view(&self) -> DistributionView {
        DistributionView {
            royalty_total: self.royalty_total,
            creator_cuts: self.creator_cuts@,
            marketplace_fee: self.marketplace_fee,
            seller_remainder: self.seller_remainder,
        }
    }
}

/// What each of the creators is owed of a royalty of `total_fee`; nobody where
/// the asset names no creators.
pub open spec fn creator_cuts(creators: Option<Seq<Creator>>, total_fee: u64) -> Seq<u64> {
    match creators {
        Some(list) => Seq::new(list.len(), |i: int| percent_of(list[i].share, total_fee) as u64),
        None => Seq::empty(),
    }
}

/// How the price of a sale divides. The royalty is `royalty_basis_points` of
/// the price, rounded down; each creator is owed their share of it in percent,
/// rounded down; the marketplace is owed `marketplace_basis_points` of the
/// price, rounded down; the seller is left with the rest, and so with what the
/// rounding has left of the royalty. There is no distribution
/// (`NumericalOverflow`) where the royalty is more than the price, the creators
/// are owed more than the royalty, or the marketplace is owed more than is left
/// when the creators have been paid.
pub open spec fn distribution(
    total_price: u64,
    royalty_basis_points: u16,
    marketplace_basis_points: u16,
    creators: Option<Seq<Creator>>,
) -> Result<DistributionView, AuctionHouseError> {
    let royalty = basis_points_of(royalty_basis_points, total_price);
    let remainder = seller_remainder(total_price, royalty_basis_points, marketplace_basis_points, creators);
    if royalty <= total_price && royalties_paid(creators, royalty as u64) <= royalty && remainder >= 0 {
        Ok(
            DistributionView {
                royalty_total: royalty as u64,
                creator_cuts: creator_cuts(creators, royalty as u64),
                marketplace_fee: basis_points_of(marketplace_basis_points, total_price) as u64,
                seller_remainder: remainder as u64,
            },
        )
    } else {
        Err(AuctionHouseError::NumericalOverflow)
    }
}

/// Divides the price of a sale between the creators of the asset, the
/// marketplace and the seller.
pub fn distribute(
    total_price: u64,
    royalty_basis_points: u16,
    marketplace_basis_points: u16,
    creators: &Option<Vec<Creator>>,
) -> (result: Result<Distribution, AuctionHouseError>)
    ensures
        match distribution(
            total_price,
            royalty_basis_points,
            marketplace_basis_points,
            match creators {
                Some(list) => Some(list@),
                None => None,
            },
        ) {
            Ok(parts) => result is Ok && result->Ok_0@ == parts,
            Err(e) => result == Err::<Distribution, AuctionHouseError>(e),
        },
{
    let ghost named = match creators {
        Some(list) => Some(list@),
        None => None,
    };
    let royalty_total = fee_in_basis_points(royalty_basis_points, total_price)?;
    let remaining_size = match total_price.checked_sub(royalty_total) {
        Some(rest) => rest,
        None => {
            return Err(AuctionHouseError::NumericalOverflow);
        },
    };
    let mut remaining_fee = royalty_total;
    let mut cuts: Vec<u64> = Vec::new();
    match creators {
        Some(list) => {
            let mut i: usize = 0;
            while i < list.len()
                invariant
                    i <= list.len(),
                    *creators == Some(*list),
                    named == Some(list@),
                    cuts.len() == i,
                    forall|j: int| 0 <= j < i ==> cuts[j] == percent_of(list[j].share, royalty_total),
                    remaining_fee == royalty_total - creator_fees(list@, royalty_total, i as int),
                    royalty_total == basis_points_of(royalty_basis_points, total_price),
                    royalty_total <= total_price,
                decreases list.len() - i,
            {
                proof {
                    // the creators are owed no less together than the first of them
                    lemma_creator_fees_bounded(list@, royalty_total, list.len() as int);
                    assert(creator_fees(list@, royalty_total, i + 1) <= creator_fees(
                        list@,
                        royalty_total,
                        list.len() as int,
                    ));
                }
                let cut = fee_in_percent(list[i].share, royalty_total)?;
                remaining_fee = match remaining_fee.checked_sub(cut) {
                    Some(rest) => rest,
                    None => {
                        return Err(AuctionHouseError::NumericalOverflow);
                    },
                };
                cuts.push(cut);
                i += 1;
            }
            proof {
                lemma_creator_fees_bounded(list@, royalty_total, list.len() as int);
            }
        },
        None => {},
    }
    let left = match remaining_size.checked_add(remaining_fee) {
        Some(left) => left,
        None => {
            return Err(AuctionHouseError::NumericalOverflow);
        },
    };
    let marketplace_fee = fee_in_basis_points(marketplace_basis_points, total_price)?;
    match left.checked_sub(marketplace_fee) {
        Some(seller_remainder) => Ok(
            Distribution { royalty_total, creator_cuts: cuts, marketplace_fee, seller_remainder },
        ),
        None => Err(AuctionHouseError::NumericalOverflow),
    }
}

/// A fee of no more than 10000 basis points is no more than the amount.
pub proof fn lemma_basis_points_bounded(basis_points: u16, amount: u64)
    requires
        basis_points <= 10000,
    ensures
        0 <= basis_points_of(basis_points, amount) <= amount,
{
    assert(0 <= basis_points * amount <= 10000 * amount) by (nonlinear_arith)
        requires
            0 <= basis_points <= 10000,
            0 <= amount,
    ;
}

/// The creators are owed no less the more of them are counted, and together no
/// more than their shares taken as one share.
pub proof fn lemma_creator_fees_bounded(creators: Seq<Creator>, total_fee: u64, n: int)
    requires
        0 <= n <= creators.len(),
    ensures
        0 <= creator_fees(creators, total_fee, n),
        0 <= shares(creators, n),
        creator_fees(creators, total_fee, n) <= shares(creators, n) * total_fee / 100,
        forall|m: int| 0 <= m <= n ==> creator_fees(creators, total_fee, m) <= creator_fees(creators, total_fee, n),
    decreases n,
{
    if n > 0 {
        lemma_creator_fees_bounded(creators, total_fee, n - 1);
        let share = creators[n - 1].share;
        let before = shares(creators, n - 1);
        assert((before + share) * total_fee == before * total_fee + share * total_fee) by (nonlinear_arith);
    }
}

/// The sum of the first `n` of the amounts.
pub open spec fn sum_of_first(amounts: Seq<u64>, n: int) -> int
    decreases n,
{
    if n <= 0 {
        0
    } else {
        sum_of_first(amounts, n - 1) + amounts[n - 1]
    }
}

/// The sum of the amounts.
pub open spec fn sum(amounts: Seq<u64>) -> int {
    sum_of_first(amounts, amounts.len() as int)
}

/// In a distribution every part is the amount that its definition gives, none
/// is negative or more than the price, and what the creators are owed one by
/// one is together what they are paid.
pub proof fn lemma_distribution_parts(
    total_price: u64,
    royalty_basis_points: u16,
    marketplace_basis_points: u16,
    creators: Option<Seq<Creator>>,
)
    requires
        distribution(total_price, royalty_basis_points, marketplace_basis_points, creators) is Ok,
    ensures
        ({
            let parts = distribution(total_price, royalty_basis_points, marketplace_basis_points, creators)->Ok_0;
            &&& parts.royalty_total == basis_points_of(royalty_basis_points, total_price)
            &&& parts.marketplace_fee == basis_points_of(marketplace_basis_points, total_price)
            &&& parts.seller_remainder == seller_remainder(
                total_price,
                royalty_basis_points,
                marketplace_basis_points,
                creators,
            )
            &&& sum(parts.creator_cuts) == royalties_paid(creators, parts.royalty_total)
            &&& 0 <= sum(parts.creator_cuts) <= parts.royalty_total <= total_price
        }),
{
    let royalty = basis_points_of(royalty_basis_points, total_price) as u64;
    match creators {
        Some(list) => {
            lemma_cuts_sum(list, royalty, list.len() as int);
            lemma_creator_fees_bounded(list, royalty, list.len() as int);
        },
        None => {},
    }
}

/// What the creators are owed one by one is together what they are paid.
proof fn lemma_cuts_sum(creators: Seq<Creator>, total_fee: u64, n: int)
    requires
        0 <= n <= creators.len(),
        creator_fees(creators, total_fee, creators.len() as int) <= total_fee,
    ensures
        sum_of_first(creator_cuts(Some(creators), total_fee), n) == creator_fees(creators, total_fee, n),
    decreases n,
{
    if n > 0 {
        lemma_cuts_sum(creators, total_fee, n - 1);
        lemma_creator_fees_bounded(creators, total_fee, creators.len() as int);
        lemma_creator_fees_bounded(creators, total_fee, n - 1);
        assert(creator_fees(creators, total_fee, n) <= creator_fees(creators, total_fee, creators.len() as int));
    }
}

/// No unit of the price is made or lost: in every distribution, what the
/// creators, the marketplace and the seller receive is together the price.
pub proof fn lemma_distribution_is_exact(
    total_price: u64,
    royalty_basis_points: u16,
    marketplace_basis_points: u16,
    creators: Option<Seq<Creator>>,
)
    requires
        distribution(total_price, royalty_basis_points, marketplace_basis_points, creators) is Ok,
    ensures
        ({
            let parts = distribution(total_price, royalty_basis_points, marketplace_basis_points, creators)->Ok_0;
            sum(parts.creator_cuts) + parts.marketplace_fee + parts.seller_remainder == total_price
        }),
{
    lemma_distribution_parts(total_price, royalty_basis_points, marketplace_basis_points, creators);
}

/// What the division of the royalty among the creators leaves over goes to the
/// seller: in every distribution the marketplace receives its basis points of
/// the price and no more, and the seller the price less the royalty and less
/// that fee, and with it what of the royalty the creators are not owed.
pub proof fn lemma_remainder_goes_to_seller(
    total_price: u64,
    royalty_basis_points: u16,
    marketplace_basis_points: u16,
    creators: Option<Seq<Creator>>,
)
    requires
        distribution(total_price, royalty_basis_points, marketplace_basis_points, creators) is Ok,
    ensures
        ({
            let parts = distribution(total_price, royalty_basis_points, marketplace_basis_points, creators)->Ok_0;
            let rounding = parts.royalty_total - sum(parts.creator_cuts);
            &&& rounding >= 0
            &&& parts.marketplace_fee == basis_points_of(marketplace_basis_points, total_price)
            &&& parts.seller_remainder == (total_price - parts.royalty_total - parts.marketplace_fee) + rounding
        }),
{
    lemma_distribution_parts(total_price, royalty_basis_points, marketplace_basis_points, creators);
}

/// A valid sale has a distribution. Where the royalty is no more than the whole
/// price, the creators' shares are together the whole royalty or the asset
/// names no creators, and royalty and marketplace fee are together no more than
/// the whole price, the price divides, and no part is more than the price.
pub proof fn lemma_valid_sale_divides(
    total_price: u64,
    royalty_basis_points: u16,
    marketplace_basis_points: u16,
    creators: Option<Seq<Creator>>,
)
    requires
        royalty_basis_points <= 10000,
        royalty_basis_points + marketplace_basis_points <= 10000,
        creators matches Some(list) ==> shares(list, list.len() as int) == 100,
    ensures
        distribution(total_price, royalty_basis_points, marketplace_basis_points, creators) is Ok,
{
    let royalty = basis_points_of(royalty_basis_points, total_price) as u64;
    match creators {
        Some(list) => {
            lemma_creator_fees_bounded(list, royalty, list.len() as int);
        },
        None => {},
    }
    assert(royalty_basis_points * total_price + marketplace_basis_points * total_price == (royalty_basis_points
        + marketplace_basis_points) * total_price) by (nonlinear_arith);
    assert((royalty_basis_points + marketplace_basis_points) * total_price <= 10000 * total_price)
        by (nonlinear_arith)
        requires
            royalty_basis_points + marketplace_basis_points <= 10000,
            0 <= total_price,
    ;
}

} // verus!
