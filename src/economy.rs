use crate::error::RoboatError;
use crate::pagination::Page;
use vstd::prelude::*;
use vstd::string::StringExecFns;

verus! {

/// Why a purchase of a limited item was refused.
#[derive(Clone, Debug, Default, PartialEq, Eq, PartialOrd, Ord, Hash)]
pub enum PurchaseLimitedError {
    /// The account has a pending transaction.
    #[default]
    PendingTransaction,
    /// The item is not for sale.
    ItemNotForSale,
    /// The balance is too low for the price.
    NotEnoughRobux,
    /// The price changed before the purchase.
    PriceChanged,
    /// The buyer already owns the item.
    CannotBuyOwnItem,
    /// A refusal whose message is not one of the known ones; holds it verbatim.
    UnknownRobloxErrorMsg(String),
}

/// The refusal that a purchase's error message stands for: one of the known
/// messages, matched exactly, or the message itself.
pub open spec fn spec_purchase_error(msg: String) -> PurchaseLimitedError {
    if msg@ == "You have a pending transaction. Please wait 1 minute and try again."@ {
        PurchaseLimitedError::PendingTransaction
    } else if msg@ == "You already own this item."@ {
        PurchaseLimitedError::CannotBuyOwnItem
    } else if msg@ == "This item is not for sale."@ {
        PurchaseLimitedError::ItemNotForSale
    } else if msg@ == "You do not have enough Robux to purchase this item."@ {
        PurchaseLimitedError::NotEnoughRobux
    } else if msg@ == "This item has changed price. Please try again."@ {
        PurchaseLimitedError::PriceChanged
    } else {
        PurchaseLimitedError::UnknownRobloxErrorMsg(msg)
    }
}

/// Whether `msg` is exactly `known`.
fn is_message(msg: &String, known: &str) -> (r: bool)
    ensures
        r == (msg@ == known@),
{
    let known = <String as StringExecFns>::from_str(known);
    msg.eq(&known)
}

/// Maps a purchase's error message to its refusal; an unknown message is kept
/// verbatim.
pub fn purchase_limited_error_from_msg(msg: String) -> (r: PurchaseLimitedError)
    ensures
        r == spec_purchase_error(msg),
{
    if is_message(&msg, "You have a pending transaction. Please wait 1 minute and try again.") {
        PurchaseLimitedError::PendingTransaction
    } else if is_message(&msg, "You already own this item.") {
        PurchaseLimitedError::CannotBuyOwnItem
    } else if is_message(&msg, "This item is not for sale.") {
        PurchaseLimitedError::ItemNotForSale
    } else if is_message(&msg, "You do not have enough Robux to purchase this item.") {
        PurchaseLimitedError::NotEnoughRobux
    } else if is_message(&msg, "This item has changed price. Please try again.") {
        PurchaseLimitedError::PriceChanged
    } else {
        PurchaseLimitedError::UnknownRobloxErrorMsg(msg)
    }
}

/// The exact not-for-sale message is that refusal, and any message that is not
/// one of the known ones is carried unchanged.
pub proof fn lemma_purchase_message_mapping(msg: String)
    ensures
        msg@ == "This item is not for sale."@ ==> spec_purchase_error(msg)
            == PurchaseLimitedError::ItemNotForSale,
        (msg@ != "You have a pending transaction. Please wait 1 minute and try again."@ && msg@
            != "You already own this item."@ && msg@ != "This item is not for sale."@ && msg@
            != "You do not have enough Robux to purchase this item."@ && msg@
            != "This item has changed price. Please try again."@) ==> spec_purchase_error(msg)
            == PurchaseLimitedError::UnknownRobloxErrorMsg(msg),
{
    reveal_strlit("This item is not for sale.");
    reveal_strlit("You have a pending transaction. Please wait 1 minute and try again.");
    reveal_strlit("You already own this item.");
    assert("This item is not for sale."@[0] != "You already own this item."@[0]);
    assert("This item is not for sale."@[0]
        != "You have a pending transaction. Please wait 1 minute and try again."@[0]);
}

/// The decoded answer to a purchase attempt.
#[derive(Clone, Debug, PartialEq, Eq)]
pub struct PurchaseLimitedResponse {
    pub purchased: bool,
    /// Why the purchase was refused; meaningful when `purchased` is false.
    pub error_msg: String,
}

/// What a purchase attempt that was answered with status 200 comes to.
pub open spec fn spec_purchase_result(raw: PurchaseLimitedResponse) -> Result<(), RoboatError> {
    if raw.purchased {
        Ok(())
    } else {
        Err(RoboatError::PurchaseLimitedError(spec_purchase_error(raw.error_msg)))
    }
}

/// Success when the item was purchased, else the refusal its message stands for.
pub fn purchase_result(raw: PurchaseLimitedResponse) -> (r: Result<(), RoboatError>)
    ensures
        r == spec_purchase_result(raw),
{
    if raw.purchased {
        Ok(())
    } else {
        Err(RoboatError::PurchaseLimitedError(purchase_limited_error_from_msg(raw.error_msg)))
    }
}

/// A reseller of a resale listing.
#[derive(Clone, Debug, PartialEq, Eq, PartialOrd, Ord, Hash, Default)]
pub struct Reseller {
    pub user_id: u64,
    pub name: String,
}

/// A resale listing of a limited item.
#[derive(Clone, Debug, PartialEq, Eq, PartialOrd, Ord, Hash, Default)]
pub struct Listing {
    /// The unique asset id of the copy for sale.
    pub uaid: u64,
    pub price: u64,
    pub reseller: Reseller,
    /// The serial number, which only numbered items have.
    pub serial_number: Option<u64>,
}

/// A sale from the account's transaction history.
#[derive(Clone, Debug, PartialEq, Eq, PartialOrd, Ord, Hash, Default)]
pub struct UserSale {
    pub sale_id: u64,
    pub is_pending: bool,
    /// The buyer.
    pub user_id: u64,
    pub user_display_name: String,
    /// What the account received, after tax.
    pub robux_received: u64,
    pub asset_id: u64,
    pub asset_name: String,
}

/// The seller as the resellers endpoint returns it.
#[derive(Clone, Debug, PartialEq, Eq)]
pub struct SellerRaw {
    pub id: u64,
    pub name: String,
}

/// A listing as the resellers endpoint returns it.
#[derive(Clone, Debug, PartialEq, Eq)]
pub struct ListingRaw {
    pub user_asset_id: u64,
    pub seller: SellerRaw,
    pub price: u64,
    pub serial_number: Option<u64>,
}

/// A page of the resellers endpoint.
#[derive(Clone, Debug, PartialEq, Eq)]
pub struct ResellersResponse {
    pub next_page_cursor: Option<String>,
    pub data: Vec<ListingRaw>,
}

/// A party to a transaction, as the transactions endpoint returns it.
#[derive(Clone, Debug, PartialEq, Eq)]
pub struct AgentRaw {
    pub id: u64,
    pub name: String,
}

/// The asset of a transaction.
#[derive(Clone, Debug, PartialEq, Eq)]
pub struct DetailsRaw {
    pub id: u64,
    pub name: String,
}

/// The amount of a transaction.
#[derive(Clone, Debug, PartialEq, Eq)]
pub struct CurrencyRaw {
    pub amount: u64,
}

/// A sale as the transactions endpoint returns it.
#[derive(Clone, Debug, PartialEq, Eq)]
pub struct UserSaleRaw {
    pub id: u64,
    pub is_pending: bool,
    pub agent: AgentRaw,
    pub details: DetailsRaw,
    pub currency: CurrencyRaw,
}

/// A page of the transactions endpoint.
#[derive(Clone, Debug, PartialEq, Eq)]
pub struct UserSalesResponse {
    pub next_page_cursor: Option<String>,
    pub data: Vec<UserSaleRaw>,
}

/// The balance as the currency endpoint returns it.
#[derive(Clone, Debug, PartialEq, Eq)]
pub struct CurrencyResponse {
    pub robux: u64,
}

/// The listing that a raw listing describes.
pub open spec fn spec_listing(raw: ListingRaw) -> Listing {
    Listing {
        uaid: raw.user_asset_id,
        price: raw.price,
        reseller: Reseller { user_id: raw.seller.id, name: raw.seller.name },
        serial_number: raw.serial_number,
    }
}

/// The sale that a raw transaction describes.
pub open spec fn spec_user_sale(raw: UserSaleRaw) -> UserSale {
    UserSale {
        sale_id: raw.id,
        is_pending: raw.is_pending,
        user_id: raw.agent.id,
        user_display_name: raw.agent.name,
        robux_received: raw.currency.amount,
        asset_id: raw.details.id,
        asset_name: raw.details.name,
    }
}

fn listing_from_raw(raw: &ListingRaw) -> (r: Listing)
    ensures
        r == spec_listing(*raw),
{
    Listing {
        uaid: raw.user_asset_id,
        price: raw.price,
        reseller: Reseller { user_id: raw.seller.id, name: raw.seller.name.clone() },
        serial_number: raw.serial_number,
    }
}

fn user_sale_from_raw(raw: &UserSaleRaw) -> (r: UserSale)
    ensures
        r == spec_user_sale(*raw),
{
    UserSale {
        sale_id: raw.id,
        is_pending: raw.is_pending,
        user_id: raw.agent.id,
        user_display_name: raw.agent.name.clone(),
        robux_received: raw.currency.amount,
        asset_id: raw.details.id,
        asset_name: raw.details.name.clone(),
    }
}

/// The listings of a resellers page, in order, with the page's cursor kept.
pub fn listings_from_raw(raw: ResellersResponse) -> (r: Page<Listing>)
    ensures
        r.next_cursor == raw.next_page_cursor,
        r.items@ == raw.data@.map_values(|l: ListingRaw| spec_listing(l)),
{
    let mut items: Vec<Listing> = Vec::new();
    let mut i: usize = 0;
    while i < raw.data.len()
        invariant
            i <= raw.data@.len(),
            items@ == raw.data@.subrange(0, i as int).map_values(|l: ListingRaw| spec_listing(l)),
        decreases raw.data@.len() - i,
    {
        items.push(listing_from_raw(&raw.data[i]));
        proof {
            assert(raw.data@.subrange(0, i + 1) == raw.data@.subrange(0, i as int).push(
                raw.data@[i as int],
            ));
        }
        i = i + 1;
        assert(items@ =~= raw.data@.subrange(0, i as int).map_values(
            |l: ListingRaw| spec_listing(l),
        ));
    }
    assert(raw.data@.subrange(0, i as int) =~= raw.data@);
    Page { items, next_cursor: raw.next_page_cursor }
}

/// The sales of a transactions page, in order, with the page's cursor kept.
pub fn user_sales_from_raw(raw: UserSalesResponse) -> (r: Page<UserSale>)
    ensures
        r.next_cursor == raw.next_page_cursor,
        r.items@ == raw.data@.map_values(|s: UserSaleRaw| spec_user_sale(s)),
{
    let mut items: Vec<UserSale> = Vec::new();
    let mut i: usize = 0;
    while i < raw.data.len()
        invariant
            i <= raw.data@.len(),
            items@ == raw.data@.subrange(0, i as int).map_values(
                |s: UserSaleRaw| spec_user_sale(s),
            ),
        decreases raw.data@.len() - i,
    {
        items.push(user_sale_from_raw(&raw.data[i]));
        proof {
            assert(raw.data@.subrange(0, i + 1) == raw.data@.subrange(0, i as int).push(
                raw.data@[i as int],
            ));
        }
        i = i + 1;
        assert(items@ =~= raw.data@.subrange(0, i as int).map_values(
            |s: UserSaleRaw| spec_user_sale(s),
        ));
    }
    assert(raw.data@.subrange(0, i as int) =~= raw.data@);
    Page { items, next_cursor: raw.next_page_cursor }
}

} // verus!
