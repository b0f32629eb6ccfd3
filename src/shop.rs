use vstd::prelude::*;

verus! {

/// What a shop price or a crafting requirement is paid in.
#[derive(Clone, Copy, Debug, PartialEq, Eq, Structural)]
pub enum ShopCurrency {
    Coins,
    Gems,
    Tech,
    Utility,
    Production,
    Coal,
    Iron,
    Gold,
    Redstone,
    Lapis,
    Diamonds,
    Emeralds,
}

impl ShopCurrency {
    /// The packs that can be crafted from mined resources.
    pub open spec fn craftable(self) -> bool {
        self == ShopCurrency::Tech || self == ShopCurrency::Utility || self == ShopCurrency::Production
    }

    /// The resources, and how many of each, that one pack takes.
    pub open spec fn requirements(self) -> Seq<Option<(ShopCurrency, u16)>> {
        match self {
            ShopCurrency::Tech => seq![
                Some((ShopCurrency::Coal, 10u16)),
                Some((ShopCurrency::Iron, 5u16)),
                None,
                None,
            ],
            ShopCurrency::Utility => seq![
                Some((ShopCurrency::Coal, 15u16)),
                Some((ShopCurrency::Gold, 10u16)),
                Some((ShopCurrency::Diamonds, 5u16)),
                Some((ShopCurrency::Emeralds, 1u16)),
            ],
            _ => seq![
                Some((ShopCurrency::Gold, 100u16)),
                Some((ShopCurrency::Lapis, 500u16)),
                Some((ShopCurrency::Redstone, 125u16)),
                None,
            ],
        }
    }

    pub fn craft_req(&self) -> (r: [Option<(ShopCurrency, u16)>; 4])
        requires
            self.craftable(),
        ensures
            r@ == self.requirements(),
    {
        let r = match self {
            ShopCurrency::Tech => [Some((ShopCurrency::Coal, 10)), Some((ShopCurrency::Iron, 5)), None, None],
            ShopCurrency::Utility => [
                Some((ShopCurrency::Coal, 15)),
                Some((ShopCurrency::Gold, 10)),
                Some((ShopCurrency::Diamonds, 5)),
                Some((ShopCurrency::Emeralds, 1)),
            ],
            _ => [
                Some((ShopCurrency::Gold, 100)),
                Some((ShopCurrency::Lapis, 500)),
                Some((ShopCurrency::Redstone, 125)),
                None,
            ],
        };
        assert(r@ =~= self.requirements());
        r
    }
}

/// The pages of the shop.
#[derive(Clone, Copy, Debug, PartialEq, Eq, Structural)]
pub enum ShopPage {
    Item,
    Boost1,
    Boost2,
    Mine1,
    Mine2,
}

impl ShopPage {
    /// All pages, in display order.
    pub fn pages() -> (r: [ShopPage; 5])
        ensures
            r@ == seq![ShopPage::Item, ShopPage::Boost1, ShopPage::Boost2, ShopPage::Mine1, ShopPage::Mine2],
    {
        let r = [ShopPage::Item, ShopPage::Boost1, ShopPage::Boost2, ShopPage::Mine1, ShopPage::Mine2];
        assert(r@ =~= seq![ShopPage::Item, ShopPage::Boost1, ShopPage::Boost2, ShopPage::Mine1, ShopPage::Mine2]);
        r
    }

    pub open spec fn title(self) -> Seq<char> {
        match self {
            ShopPage::Item => "Item"@,
            ShopPage::Boost1 => "Boost 1"@,
            ShopPage::Boost2 => "Boost 2"@,
            ShopPage::Mine1 => "Mine 1"@,
            ShopPage::Mine2 => "Mine 2"@,
        }
    }

    /// The page's title.
    pub fn name(&self) -> (r: &'static str)
        ensures
            r@ == self.title(),
    {
        match self {
            ShopPage::Item => "Item",
            ShopPage::Boost1 => "Boost 1",
            ShopPage::Boost2 => "Boost 2",
            ShopPage::Mine1 => "Mine 1",
            ShopPage::Mine2 => "Mine 2",
        }
    }

    /// The page with the given title.
    pub fn from_name(s: &str) -> (r: Option<ShopPage>)
        ensures
            r matches Some(p) ==> p.title() == s@,
            r is None ==> forall|p: ShopPage| p.title() != s@,
    {
        let wanted = s.to_owned();
        let pages = ShopPage::pages();
        let mut i: usize = 0;
        while i < 5
            invariant
                0 <= i <= 5,
                wanted@ == s@,
                pages@ == seq![ShopPage::Item, ShopPage::Boost1, ShopPage::Boost2, ShopPage::Mine1, ShopPage::Mine2],
                forall|j: int| 0 <= j < i ==> #[trigger] pages@[j].title() != s@,
            decreases 5 - i,
        {
            if pages[i].name().to_owned() == wanted {
                return Some(pages[i]);
            }
            i += 1;
        }
        assert forall|p: ShopPage| p.title() != s@ by {
            match p {
                ShopPage::Item => assert(pages@[0].title() != s@),
                ShopPage::Boost1 => assert(pages@[1].title() != s@),
                ShopPage::Boost2 => assert(pages@[2].title() != s@),
                ShopPage::Mine1 => assert(pages@[3].title() != s@),
                ShopPage::Mine2 => assert(pages@[4].title() != s@),
            }
        }
        None
    }
}

/// Price of one lottery ticket, in coins.
pub const LOTTO_TICKET_COST: i64 = 5_000;

/// Smallest lottery jackpot, in coins.
pub const MIN_JACKPOT: i64 = 1_000_000;

/// The lottery jackpot for `tickets` tickets sold: their price, but at
/// least `MIN_JACKPOT`.
pub fn jackpot(tickets: i64) -> (r: i64)
    requires
        i64::MIN <= tickets * LOTTO_TICKET_COST <= i64::MAX,
    ensures
        r == if tickets * LOTTO_TICKET_COST > MIN_JACKPOT { tickets * LOTTO_TICKET_COST } else { MIN_JACKPOT as int },
{
    let pot = tickets * LOTTO_TICKET_COST;
    if pot > MIN_JACKPOT { pot } else { MIN_JACKPOT }
}

} // verus!
