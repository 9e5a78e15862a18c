//! The marketplace as a value: configuration, listing counter and open
//! listings, with the operations of the listing registry.
//!
//! Contracts speak of the marketplace through [`MarketView`], which presents
//! the listings as two maps keyed by listing identifier.

use vstd::prelude::*;
use crate::decimal::{decimal, decimal_string, lemma_decimal_injective, parse_decimal};
use crate::error::ContractError;
use crate::royalty::SHARE_ONE;
use crate::state::{
    BidOffering, BidOfferingView, ContractInfo, ContractInfoView, Offering, OfferingView, SaleType,
};

verus! {

/// What holds of every stored offering: a fixed price is above zero and a
/// royalty share is at most one.
pub open spec fn offering_valid(offering: OfferingView) -> bool {
    &&& offering.sale_type matches SaleType::FixedPrice(price) ==> price > 0
    &&& offering.royalty_info matches Some(royalty) ==> royalty.share <= SHARE_ONE
}

/// The marketplace as contracts see it.
#[verifier::ext_equal]
pub struct MarketView {
    /// Who may extend the set of trusted collections.
    pub admin: Seq<char>,
    pub contract_info: ContractInfoView,
    /// The collections from which tokens are accepted, in the order in which
    /// they were added.
    pub nft_contracts: Seq<Seq<char>>,
    /// How many listing identifiers have been issued.
    pub offerings_count: nat,
    /// The open listings, by identifier.
    pub offerings: Map<Seq<char>, OfferingView>,
    /// The bidding on each open auction, by identifier.
    pub bid_offerings: Map<Seq<char>, BidOfferingView>,
}

impl MarketView {
    /// Whether `id` has been issued: it is the numeral of a number from one to
    /// the counter.
    pub open spec fn issued(self, id: Seq<char>) -> bool {
        exists|n: nat| 1 <= n <= self.offerings_count && id == #[trigger] decimal(n)
    }

    /// The identifier that the next listing gets.
    pub open spec fn next_id(self) -> Seq<char> {
        decimal(self.offerings_count + 1)
    }

    /// The invariant of the marketplace: every open listing has an issued
    /// identifier and a valid offering, the auctions are exactly the listings
    /// with a bidding state, every bidding state is consistent, and no
    /// collection is trusted twice.
    pub open spec fn valid(self) -> bool {
        &&& forall|id: Seq<char>| #[trigger]
            self.offerings.contains_key(id) ==> self.issued(id) && offering_valid(
                self.offerings[id],
            )
        &&& forall|id: Seq<char>| #[trigger]
            self.bid_offerings.contains_key(id) ==> self.offerings.contains_key(id)
                && self.offerings[id].sale_type is Auction && self.bid_offerings[id].consistent()
        &&& forall|id: Seq<char>| #[trigger]
            self.offerings.contains_key(id) && self.offerings[id].sale_type is Auction
                ==> self.bid_offerings.contains_key(id)
        &&& self.nft_contracts.no_duplicates()
    }

    /// The marketplace with the counter moved on by one.
    pub open spec fn with_next_count(self) -> MarketView {
        MarketView { offerings_count: self.offerings_count + 1, ..self }
    }

    /// The marketplace after `offering` was listed under the next identifier;
    /// an auction starts with no bid.
    pub open spec fn with_listing(self, offering: OfferingView) -> MarketView {
        MarketView {
            offerings_count: self.offerings_count + 1,
            offerings: self.offerings.insert(self.next_id(), offering),
            bid_offerings: if offering.sale_type is Auction {
                self.bid_offerings.insert(
                    self.next_id(),
                    BidOfferingView::fresh(offering.listing_time),
                )
            } else {
                self.bid_offerings
            },
            ..self
        }
    }

    /// The marketplace without the listing `id` and its bidding state.
    pub open spec fn without_listing(self, id: Seq<char>) -> MarketView {
        MarketView {
            offerings: self.offerings.remove(id),
            bid_offerings: self.bid_offerings.remove(id),
            ..self
        }
    }

    /// The marketplace with the fixed price of listing `id` set to `price`.
    pub open spec fn with_price(self, id: Seq<char>, price: u128) -> MarketView {
        MarketView {
            offerings: self.offerings.insert(
                id,
                OfferingView { sale_type: SaleType::FixedPrice(price), ..self.offerings[id] },
            ),
            ..self
        }
    }

    /// The marketplace after `bidder` has bid `price` on auction `id`.
    pub open spec fn with_bid(self, id: Seq<char>, price: u128, bidder: Seq<char>) -> MarketView {
        MarketView {
            bid_offerings: self.bid_offerings.insert(
                id,
                self.bid_offerings[id].with_bid(price, bidder),
            ),
            ..self
        }
    }

    /// The marketplace that also trusts `address`, unless it already does.
    pub open spec fn with_trusted(self, address: Seq<char>) -> MarketView {
        if self.nft_contracts.contains(address) {
            self
        } else {
            MarketView { nft_contracts: self.nft_contracts.push(address), ..self }
        }
    }

    /// The marketplace that also trusts each of `addresses`: they are added in
    /// their order, each one once.
    pub open spec fn with_all_trusted(self, addresses: Seq<Seq<char>>) -> MarketView
        decreases addresses.len(),
    {
        if addresses.len() == 0 {
            self
        } else {
            self.with_all_trusted(addresses.drop_last()).with_trusted(addresses.last())
        }
    }

    /// A marketplace with no open listing.
    pub open spec fn without_listings(
        admin: Seq<char>,
        contract_info: ContractInfoView,
        offerings_count: nat,
    ) -> MarketView {
        MarketView {
            admin,
            contract_info,
            nft_contracts: Seq::empty(),
            offerings_count,
            offerings: Map::empty(),
            bid_offerings: Map::empty(),
        }
    }

    /// Whether a listing that was stored under `id` can be taken in again: the
    /// identifier was issued and is not in use, the offering is valid, and
    /// there is a bidding state, a consistent one, if and only if the listing
    /// is an auction.
    pub open spec fn admits(
        self,
        id: Seq<char>,
        offering: OfferingView,
        bid: Option<BidOfferingView>,
    ) -> bool {
        &&& self.issued(id)
        &&& !self.offerings.contains_key(id)
        &&& offering_valid(offering)
        &&& bid is Some <==> offering.sale_type is Auction
        &&& bid matches Some(bidding) ==> bidding.consistent()
    }

    /// The marketplace with a stored listing taken in again.
    pub open spec fn with_restored(
        self,
        id: Seq<char>,
        offering: OfferingView,
        bid: Option<BidOfferingView>,
    ) -> MarketView {
        MarketView {
            offerings: self.offerings.insert(id, offering),
            bid_offerings: match bid {
                Some(bidding) => self.bid_offerings.insert(id, bidding),
                None => self.bid_offerings,
            },
            ..self
        }
    }
}

/// The bidding state of a listing as contracts see it, if it has one.
pub open spec fn bid_view(bid: Option<BidOffering>) -> Option<BidOfferingView> {
    match bid {
        Some(bidding) => Some(bidding@),
        None => None,
    }
}

/// The views of a sequence of addresses, in order.
pub open spec fn addresses_view(addresses: Seq<String>) -> Seq<Seq<char>> {
    addresses.map_values(|a: String| a@)
}

/// One open listing: the offering and, for an auction, the bidding.
#[derive(Debug, Clone, PartialEq, Eq)]
struct Listing {
    id: String,
    offering: Offering,
    bid: Option<BidOffering>,
}

/// Whether one of `listings` has the identifier `id`.
spec fn holds(listings: Seq<Listing>, id: Seq<char>) -> bool {
    exists|i: int| 0 <= i < listings.len() && (#[trigger] listings[i]).id@ == id
}

/// Where in `listings` the listing `id` is.
spec fn slot(listings: Seq<Listing>, id: Seq<char>) -> int {
    choose|i: int| 0 <= i < listings.len() && (#[trigger] listings[i]).id@ == id
}

/// No two of `listings` share an identifier.
spec fn distinct(listings: Seq<Listing>) -> bool {
    forall|i: int, j: int|
        0 <= i < j < listings.len() ==> (#[trigger] listings[i]).id@ != (#[trigger] listings[j]).id@
}

/// What holds of each stored listing under a counter of `count`.
spec fn listing_ok(listing: Listing, count: nat) -> bool {
    &&& exists|n: nat| 1 <= n <= count && listing.id@ == #[trigger] decimal(n)
    &&& listing.bid is Some <==> listing.offering.sale_type is Auction
    &&& listing.bid matches Some(bid) ==> bid@.consistent()
    &&& offering_valid(listing.offering@)
}

spec fn offerings_of(listings: Seq<Listing>) -> Map<Seq<char>, OfferingView> {
    Map::new(
        |id: Seq<char>| holds(listings, id),
        |id: Seq<char>| listings[slot(listings, id)].offering@,
    )
}

spec fn bid_offerings_of(listings: Seq<Listing>) -> Map<Seq<char>, BidOfferingView> {
    Map::new(
        |id: Seq<char>| holds(listings, id) && listings[slot(listings, id)].bid is Some,
        |id: Seq<char>| listings[slot(listings, id)].bid->0@,
    )
}

/// Among distinct listings, the listing at `i` is the one that its identifier
/// finds.
proof fn lemma_slot(listings: Seq<Listing>, i: int)
    requires
        distinct(listings),
        0 <= i < listings.len(),
    ensures
        holds(listings, listings[i].id@),
        slot(listings, listings[i].id@) == i,
{
    let id = listings[i].id@;
    assert(holds(listings, id));
    let j = slot(listings, id);
    assert(0 <= j < listings.len() && listings[j].id@ == id);
    if j < i {
        assert(listings[j].id@ != listings[i].id@);
    } else if i < j {
        assert(listings[i].id@ != listings[j].id@);
    }
}

/// Among distinct listings, the maps hold at the identifier of the listing at
/// `i` what that listing holds.
proof fn lemma_lookup(listings: Seq<Listing>, i: int)
    requires
        distinct(listings),
        0 <= i < listings.len(),
    ensures
        offerings_of(listings).contains_key(listings[i].id@),
        offerings_of(listings)[listings[i].id@] == listings[i].offering@,
        bid_offerings_of(listings).contains_key(listings[i].id@) <==> listings[i].bid is Some,
        listings[i].bid is Some ==> bid_offerings_of(listings)[listings[i].id@]
            == listings[i].bid->0@,
{
    lemma_slot(listings, i);
}

/// Putting a listing with a new identifier at `at` adds its entries to the
/// maps and changes nothing else.
proof fn lemma_insert(listings: Seq<Listing>, at: int, listing: Listing)
    requires
        distinct(listings),
        !holds(listings, listing.id@),
        0 <= at <= listings.len(),
    ensures
        distinct(listings.insert(at, listing)),
        offerings_of(listings.insert(at, listing)) == offerings_of(listings).insert(
            listing.id@,
            listing.offering@,
        ),
        bid_offerings_of(listings.insert(at, listing)) == (match listing.bid {
            Some(bid) => bid_offerings_of(listings).insert(listing.id@, bid@),
            None => bid_offerings_of(listings),
        }),
{
    let after = listings.insert(at, listing);
    let id = listing.id@;
    // where the listing at `j` of `after` was in `listings`
    let origin = |j: int| if j < at { j } else { j - 1 };
    assert forall|j: int| 0 <= j < after.len() && j != at implies #[trigger] after[j]
        == listings[origin(j)] by {}
    assert forall|j: int| 0 <= j < listings.len() implies (#[trigger] listings[j]).id@ != id by {
        if listings[j].id@ == id {
            assert(holds(listings, id));
        }
    }
    assert forall|a: int, b: int| 0 <= a < b < after.len() implies (#[trigger] after[a]).id@ != (
    #[trigger] after[b]).id@ by {
        if a == at {
            assert(after[b] == listings[origin(b)]);
        } else if b == at {
            assert(after[a] == listings[origin(a)]);
        } else {
            assert(after[a] == listings[origin(a)]);
            assert(after[b] == listings[origin(b)]);
        }
    }
    assert(after[at] == listing);
    lemma_lookup(after, at);
    assert forall|k: Seq<char>| k != id implies (holds(after, k) <==> holds(listings, k)) && (
    holds(listings, k) ==> after[slot(after, k)] == listings[slot(listings, k)]) by {
        if holds(after, k) {
            let j = slot(after, k);
            assert(after[j] == listings[origin(j)]);
            assert(listings[origin(j)].id@ == k);
        }
        if holds(listings, k) {
            let j = slot(listings, k);
            let j2 = if j < at { j } else { j + 1 };
            assert(after[j2] == listings[j]);
            assert(after[j2].id@ == k);
            lemma_slot(after, j2);
        }
    }
    assert(offerings_of(after) =~= offerings_of(listings).insert(id, listing.offering@));
    match listing.bid {
        Some(bid) => {
            assert(bid_offerings_of(after) =~= bid_offerings_of(listings).insert(id, bid@));
        },
        None => {
            assert(bid_offerings_of(after) =~= bid_offerings_of(listings));
        },
    }
}

/// Taking out the listing at `at` takes its entries out of the maps and
/// changes nothing else.
proof fn lemma_remove(listings: Seq<Listing>, at: int)
    requires
        distinct(listings),
        0 <= at < listings.len(),
    ensures
        distinct(listings.remove(at)),
        !holds(listings.remove(at), listings[at].id@),
        offerings_of(listings.remove(at)) == offerings_of(listings).remove(listings[at].id@),
        bid_offerings_of(listings.remove(at)) == bid_offerings_of(listings).remove(
            listings[at].id@,
        ),
{
    let after = listings.remove(at);
    let id = listings[at].id@;
    // where the listing at `j` of `after` was in `listings`
    let origin = |j: int| if j < at { j } else { j + 1 };
    assert forall|j: int| 0 <= j < after.len() implies #[trigger] after[j] == listings[origin(
        j,
    )] by {}
    assert forall|a: int, b: int| 0 <= a < b < after.len() implies (#[trigger] after[a]).id@ != (
    #[trigger] after[b]).id@ by {
        assert(after[a] == listings[origin(a)]);
        assert(after[b] == listings[origin(b)]);
    }
    assert forall|j: int| 0 <= j < after.len() implies (#[trigger] after[j]).id@ != id by {
        assert(after[j] == listings[origin(j)]);
        if origin(j) < at {
            assert(listings[origin(j)].id@ != listings[at].id@);
        } else {
            assert(listings[at].id@ != listings[origin(j)].id@);
        }
    }
    assert(!holds(after, id));
    assert forall|k: Seq<char>| k != id implies (holds(after, k) <==> holds(listings, k)) && (
    holds(listings, k) ==> after[slot(after, k)] == listings[slot(listings, k)]) by {
        if holds(after, k) {
            let j = slot(after, k);
            assert(after[j] == listings[origin(j)]);
            assert(listings[origin(j)].id@ == k);
        }
        if holds(listings, k) {
            let j = slot(listings, k);
            let j2 = if j < at { j } else { j - 1 };
            assert(after[j2] == listings[j]);
            assert(after[j2].id@ == k);
            lemma_slot(after, j2);
        }
    }
    lemma_lookup(listings, at);
    assert(offerings_of(after) =~= offerings_of(listings).remove(id));
    assert(bid_offerings_of(after) =~= bid_offerings_of(listings).remove(id));
}

/// Listings that are in order under one counter are in order under the next.
proof fn lemma_count_grows(listings: Seq<Listing>, count: nat)
    requires
        forall|i: int| 0 <= i < listings.len() ==> listing_ok(#[trigger] listings[i], count),
    ensures
        forall|i: int| 0 <= i < listings.len() ==> listing_ok(#[trigger] listings[i], count + 1),
{
    assert forall|i: int| 0 <= i < listings.len() implies listing_ok(
        #[trigger] listings[i],
        count + 1,
    ) by {
        assert(listing_ok(listings[i], count));
        let n = choose|n: nat| 1 <= n <= count && listings[i].id@ == #[trigger] decimal(n);
        assert(1 <= n <= count + 1 && listings[i].id@ == decimal(n));
    }
}

/// The marketplace: who administers it, what it is called and which currency
/// it takes, which collections it trusts, how many listings it has issued, and
/// the listings that are open.
#[derive(Debug, Clone, PartialEq, Eq)]
pub struct Marketplace {
    admin: String,
    contract_info: ContractInfo,
    nft_contracts: Vec<String>,
    offerings_count: u64,
    listings: Vec<Listing>,
}

impl View for Marketplace {
    type V = MarketView;

    closed spec fn view(&self) -> MarketView {
        MarketView {
            admin: self.admin@,
            contract_info: self.contract_info@,
            nft_contracts: addresses_view(self.nft_contracts@),
            offerings_count: self.offerings_count as nat,
            offerings: offerings_of(self.listings@),
            bid_offerings: bid_offerings_of(self.listings@),
        }
    }
}

impl Marketplace {
    /// The representation invariant: listings have distinct, issued
    /// identifiers, an auction has its bidding state and nothing else has one,
    /// and the trusted collections are distinct.
    pub closed spec fn wf(&self) -> bool {
        &&& distinct(self.listings@)
        &&& forall|i: int|
            0 <= i < self.listings@.len() ==> listing_ok(
                #[trigger] self.listings@[i],
                self.offerings_count as nat,
            )
        &&& addresses_view(self.nft_contracts@).no_duplicates()
    }

    /// A well-formed marketplace has a valid view, and its counter fits in
    /// `u64`.
    pub proof fn lemma_wf_valid(&self)
        requires
            self.wf(),
        ensures
            self@.valid(),
            self@.offerings_count <= u64::MAX,
    {
        let ls = self.listings@;
        let v = self@;
        assert forall|id: Seq<char>| #[trigger] v.offerings.contains_key(id) implies v.issued(id)
            && offering_valid(v.offerings[id]) by {
            let i = slot(ls, id);
            assert(listing_ok(ls[i], v.offerings_count));
        }
        assert forall|id: Seq<char>| #[trigger] v.bid_offerings.contains_key(id) implies (
        v.offerings.contains_key(id) && v.offerings[id].sale_type is Auction
            && v.bid_offerings[id].consistent()) by {
            let i = slot(ls, id);
            assert(listing_ok(ls[i], v.offerings_count));
        }
        assert forall|id: Seq<char>| #[trigger]
            v.offerings.contains_key(id) && v.offerings[id].sale_type is Auction implies (
        v.bid_offerings.contains_key(id)) by {
            let i = slot(ls, id);
            assert(listing_ok(ls[i], v.offerings_count));
        }
    }

    /// Where the listing `id` is kept, if it is open.
    fn find(&self, id: &String) -> (found: Option<usize>)
        requires
            self.wf(),
        ensures
            match found {
                Some(i) => i < self.listings@.len() && self.listings@[i as int].id@ == id@
                    && holds(self.listings@, id@) && slot(self.listings@, id@) == i,
                None => !holds(self.listings@, id@),
            },
    {
        let mut i: usize = 0;
        while i < self.listings.len()
            invariant
                distinct(self.listings@),
                i <= self.listings@.len(),
                forall|j: int| 0 <= j < i ==> (#[trigger] self.listings@[j]).id@ != id@,
            decreases self.listings@.len() - i,
        {
            if self.listings[i].id == *id {
                proof {
                    lemma_slot(self.listings@, i as int);
                }
                return Some(i);
            }
            i += 1;
        }
        None
    }

    /// The administrator.
    pub fn admin(&self) -> (admin: &String)
        ensures
            admin@ == self@.admin,
    {
        &self.admin
    }

    /// The name and the currency.
    pub fn contract_info(&self) -> (info: &ContractInfo)
        ensures
            info@ == self@.contract_info,
    {
        &self.contract_info
    }

    /// The trusted collections, in the order in which they were added.
    pub fn nft_contracts(&self) -> (trusted: &Vec<String>)
        ensures
            addresses_view(trusted@) == self@.nft_contracts,
    {
        &self.nft_contracts
    }

    /// The offering of listing `id`, if it is open.
    pub fn offering(&self, id: &String) -> (found: Option<&Offering>)
        requires
            self.wf(),
        ensures
            match found {
                Some(offering) => self@.offerings.contains_key(id@) && offering@
                    == self@.offerings[id@],
                None => !self@.offerings.contains_key(id@),
            },
    {
        match self.find(id) {
            Some(i) => Some(&self.listings[i].offering),
            None => None,
        }
    }

    /// The bidding on listing `id`, if it is an open auction.
    pub fn bid_offering(&self, id: &String) -> (found: Option<&BidOffering>)
        requires
            self.wf(),
        ensures
            match found {
                Some(bid) => self@.bid_offerings.contains_key(id@) && bid@
                    == self@.bid_offerings[id@],
                None => !self@.bid_offerings.contains_key(id@),
            },
    {
        match self.find(id) {
            Some(i) => match &self.listings[i].bid {
                Some(bid) => Some(bid),
                None => None,
            },
            None => None,
        }
    }

    /// A new marketplace with this administrator and configuration. It trusts
    /// the collections given, each once, and has issued no listing.
    pub fn new(admin: String, contract_info: ContractInfo, nft_contracts: Vec<String>) -> (market:
        Marketplace)
        ensures
            market.wf(),
            market@ == MarketView::without_listings(admin@, contract_info@, 0).with_all_trusted(
                addresses_view(nft_contracts@),
            ),
    {
        Marketplace::restore(admin, contract_info, nft_contracts, 0)
    }

    /// A marketplace as it was stored, but for its listings: with this
    /// administrator and configuration, trusting the collections given, each
    /// once, and with `offerings_count` listings issued. The open listings are
    /// taken in one by one with [`Marketplace::restore_listing`].
    pub fn restore(
        admin: String,
        contract_info: ContractInfo,
        nft_contracts: Vec<String>,
        offerings_count: u64,
    ) -> (market: Marketplace)
        ensures
            market.wf(),
            market@ == MarketView::without_listings(
                admin@,
                contract_info@,
                offerings_count as nat,
            ).with_all_trusted(addresses_view(nft_contracts@)),
    {
        let mut market = Marketplace {
            admin,
            contract_info,
            nft_contracts: Vec::new(),
            offerings_count,
            listings: Vec::new(),
        };
        let ghost empty = MarketView::without_listings(
            admin@,
            contract_info@,
            offerings_count as nat,
        );
        let ghost addresses = addresses_view(nft_contracts@);
        assert(market@ =~= empty);
        let mut i: usize = 0;
        while i < nft_contracts.len()
            invariant
                market.wf(),
                i <= nft_contracts@.len(),
                addresses == addresses_view(nft_contracts@),
                market@ == empty.with_all_trusted(addresses.take(i as int)),
            decreases nft_contracts@.len() - i,
        {
            proof {
                let next = addresses.take(i + 1);
                assert(next.drop_last() =~= addresses.take(i as int));
                assert(next.last() == nft_contracts@[i as int]@);
            }
            market.trust(nft_contracts[i].clone());
            i += 1;
        }
        assert(addresses.take(i as int) =~= addresses);
        market
    }

    /// Takes a stored listing in again, if the marketplace admits it.
    pub fn restore_listing(&mut self, id: String, offering: Offering, bid: Option<BidOffering>) -> (
        restored: bool)
        requires
            old(self).wf(),
        ensures
            final(self).wf(),
            restored == old(self)@.admits(id@, offering@, bid_view(bid)),
            restored ==> final(self)@ == old(self)@.with_restored(id@, offering@, bid_view(bid)),
            !restored ==> final(self)@ == old(self)@,
    {
        let issued = match parse_decimal(id.as_str()) {
            Some(n) => {
                proof {
                    if self@.issued(id@) {
                        let m = choose|m: nat|
                            1 <= m <= self@.offerings_count && id@ == #[trigger] decimal(m);
                        lemma_decimal_injective(m, n as nat);
                    }
                    if 1 <= n <= self.offerings_count {
                        assert(id@ == decimal(n as nat));
                    }
                }
                1 <= n && n <= self.offerings_count
            },
            None => false,
        };
        if !issued || self.find(&id).is_some() {
            return false;
        }
        let well_formed = match &offering.sale_type {
            SaleType::FixedPrice(price) => *price > 0 && bid.is_none(),
            SaleType::Auction(_) => match &bid {
                Some(bidding) => bidding.highest_bid_price.is_some() == bidding.address.is_some(),
                None => false,
            },
        };
        if !well_formed {
            return false;
        }
        if let Some(royalty) = &offering.royalty_info {
            let share = &royalty.share;
            proof {
                use_type_invariant(share);
            }
        }
        let listing = Listing { id, offering, bid };
        proof {
            let ls = self.listings@;
            lemma_insert(ls, ls.len() as int, listing);
            assert(ls.insert(ls.len() as int, listing) =~= ls.push(listing));
            assert(listing_ok(listing, self.offerings_count as nat));
        }
        self.listings.push(listing);
        true
    }

    /// Whether tokens are accepted from the collection `address`.
    pub fn is_trusted(&self, address: &String) -> (trusted: bool)
        ensures
            trusted == self@.nft_contracts.contains(address@),
    {
        let mut i: usize = 0;
        while i < self.nft_contracts.len()
            invariant
                i <= self.nft_contracts@.len(),
                forall|j: int| 0 <= j < i ==> #[trigger] self@.nft_contracts[j] != address@,
            decreases self.nft_contracts@.len() - i,
        {
            if self.nft_contracts[i] == *address {
                assert(self@.nft_contracts[i as int] == address@);
                return true;
            }
            i += 1;
        }
        false
    }

    /// Adds `address` to the trusted collections, unless it is one already.
    pub(crate) fn trust(&mut self, address: String)
        requires
            old(self).wf(),
        ensures
            final(self).wf(),
            final(self)@ == old(self)@.with_trusted(address@),
    {
        if !self.is_trusted(&address) {
            self.nft_contracts.push(address);
            assert(self@.nft_contracts =~= old(self)@.nft_contracts.push(address@));
        }
    }

    /// Issues the next listing identifier.
    pub fn next_id(&mut self) -> (id: String)
        requires
            old(self).wf(),
            old(self)@.offerings_count < u64::MAX,
        ensures
            final(self).wf(),
            id@ == old(self)@.next_id(),
            final(self)@ == old(self)@.with_next_count(),
    {
        let count = increment_offerings(self);
        decimal_string(count as u128)
    }

    /// Lists `offering` under the next identifier and returns that identifier.
    /// An auction starts with no bid, at the offering's listing time. A fixed
    /// price of zero is refused.
    pub fn create_listing(&mut self, offering: Offering) -> (res: Result<String, ContractError>)
        requires
            old(self).wf(),
            old(self)@.offerings_count < u64::MAX,
        ensures
            final(self).wf(),
            match res {
                Ok(id) => {
                    &&& offering.sale_type != SaleType::FixedPrice(0)
                    &&& id@ == old(self)@.next_id()
                    &&& final(self)@ == old(self)@.with_listing(offering@)
                },
                Err(e) => {
                    &&& offering.sale_type == SaleType::FixedPrice(0)
                    &&& e == ContractError::PriceMustBePosiTive
                    &&& final(self)@ == old(self)@
                },
            },
    {
        let bid = match offering.sale_type {
            SaleType::FixedPrice(price) => {
                if price == 0 {
                    return Err(ContractError::PriceMustBePosiTive);
                }
                None
            },
            SaleType::Auction(_) => Some(
                BidOffering {
                    highest_bid_price: None,
                    address: None,
                    start_timestamp: offering.listing_time,
                },
            ),
        };
        if let Some(royalty) = &offering.royalty_info {
            let share = &royalty.share;
            proof {
                use_type_invariant(share);
            }
        }
        proof {
            lemma_count_grows(self.listings@, self.offerings_count as nat);
        }
        self.offerings_count = self.offerings_count + 1;
        let id = decimal_string(self.offerings_count as u128);
        let listing = Listing { id: id.clone(), offering, bid };
        proof {
            let ls = self.listings@;
            assert forall|i: int| 0 <= i < ls.len() implies (#[trigger] ls[i]).id@ != id@ by {
                assert(listing_ok(ls[i], old(self).offerings_count as nat));
                let n = choose|n: nat|
                    1 <= n <= old(self).offerings_count && ls[i].id@ == #[trigger] decimal(n);
                if ls[i].id@ == id@ {
                    lemma_decimal_injective(n, (old(self).offerings_count + 1) as nat);
                }
            }
            assert(!holds(ls, id@));
            lemma_insert(ls, ls.len() as int, listing);
            assert(ls.insert(ls.len() as int, listing) =~= ls.push(listing));
            assert(listing.id@ == decimal(self.offerings_count as nat));
            assert(listing_ok(listing, self.offerings_count as nat));
        }
        self.listings.push(listing);
        Ok(id)
    }

    /// Closes the listing `id`: takes out its offering and, for an auction,
    /// its bidding state. Where no such listing is open, nothing changes.
    pub fn remove_listing(&mut self, id: &String)
        requires
            old(self).wf(),
        ensures
            final(self).wf(),
            final(self)@ == old(self)@.without_listing(id@),
    {
        match self.find(id) {
            Some(i) => {
                proof {
                    lemma_remove(self.listings@, i as int);
                }
                let _ = self.listings.remove(i);
            },
            None => {
                assert(self@.offerings.remove(id@) =~= self@.offerings);
                assert(self@.bid_offerings.remove(id@) =~= self@.bid_offerings);
            },
        }
    }

    /// Sets the price of the fixed-price listing `id`.
    pub(crate) fn set_price(&mut self, id: &String, price: u128)
        requires
            old(self).wf(),
            old(self)@.offerings.contains_key(id@),
            old(self)@.offerings[id@].sale_type is FixedPrice,
            price > 0,
        ensures
            final(self).wf(),
            final(self)@ == old(self)@.with_price(id@, price),
    {
        let found = self.find(id);
        let i = found.unwrap();
        proof {
            lemma_lookup(self.listings@, i as int);
            lemma_remove(self.listings@, i as int);
        }
        let mut listing = self.listings.remove(i);
        listing.offering.sale_type = SaleType::FixedPrice(price);
        proof {
            let rest = old(self).listings@.remove(i as int);
            assert(listing_ok(old(self).listings@[i as int], self.offerings_count as nat));
            lemma_insert(rest, i as int, listing);
            assert(self@.offerings.remove(id@).insert(id@, listing.offering@) =~= old(
                self,
            )@.offerings.insert(id@, listing.offering@));
            assert(old(self)@.bid_offerings.remove(id@) =~= old(self)@.bid_offerings);
        }
        self.listings.insert(i, listing);
    }

    /// Makes `price`, bid by `bidder`, the highest bid on the auction `id`.
    pub(crate) fn record_bid(&mut self, id: &String, price: u128, bidder: String)
        requires
            old(self).wf(),
            old(self)@.bid_offerings.contains_key(id@),
        ensures
            final(self).wf(),
            final(self)@ == old(self)@.with_bid(id@, price, bidder@),
    {
        let found = self.find(id);
        let i = found.unwrap();
        proof {
            lemma_lookup(self.listings@, i as int);
            lemma_remove(self.listings@, i as int);
        }
        let Listing { id: listing_id, offering, bid } = self.listings.remove(i);
        let mut bidding = bid.unwrap();
        bidding.new(price, bidder);
        let listing = Listing { id: listing_id, offering, bid: Some(bidding) };
        proof {
            let rest = old(self).listings@.remove(i as int);
            assert(listing_ok(old(self).listings@[i as int], self.offerings_count as nat));
            lemma_insert(rest, i as int, listing);
            assert(self@.offerings.remove(id@).insert(id@, listing.offering@) =~= old(
                self,
            )@.offerings);
            assert(self@.bid_offerings.remove(id@).insert(id@, bidding@) =~= old(
                self,
            )@.bid_offerings.insert(id@, bidding@));
        }
        self.listings.insert(i, listing);
    }
}

/// How many listing identifiers the marketplace has issued.
pub fn num_offerings(market: &Marketplace) -> (count: u64)
    ensures
        count == market@.offerings_count,
{
    market.offerings_count
}

/// Moves the listing counter on by one and returns its new value.
pub fn increment_offerings(market: &mut Marketplace) -> (count: u64)
    requires
        old(market).wf(),
        old(market)@.offerings_count < u64::MAX,
    ensures
        final(market).wf(),
        count == old(market)@.offerings_count + 1,
        final(market)@ == old(market)@.with_next_count(),
{
    proof {
        lemma_count_grows(market.listings@, market.offerings_count as nat);
    }
    market.offerings_count = market.offerings_count + 1;
    market.offerings_count
}

} // verus!
