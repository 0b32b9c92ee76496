//! The store's price list and publisher ledger, kept in one account: a
//! bounded list of prices by game id, and a bounded list of balances owed
//! to publishers by token.
use vstd::prelude::*;
use crate::address::{keys_eq, Address};
use crate::store::constants::{MAX_PRICE_CONFIGS, MAX_PUBLISHER_BALANCES};

verus! {

/// Errors of the price list and ledger.
#[derive(Clone, Copy, Debug, PartialEq, Eq, Structural)]
pub enum GameStoreError {
    Unauthorized,
    InvalidGovernance,
    InvalidTreasury,
    InvalidDiscountBps,
    PriceConfigLimitReached,
    PriceConfigNotFound,
    PublisherBalanceLimitReached,
    PublisherBalanceNotFound,
    EmptyPublisherBalance,
    InsufficientStoreLamports,
}

/// A game's price: amount, currency and discount.
#[derive(Debug)]
pub struct PriceConfig {
    pub game_id: String,
    pub price: u64,
    pub currency: Address,
    pub discount_bps: u16,
}

/// What the store owes a publisher in a token.
#[derive(Clone, Copy, Debug)]
pub struct PublisherBalance {
    pub publisher: Address,
    pub token: Address,
    pub amount: u64,
}

/// The price list and the ledger.
#[derive(Debug)]
pub struct StoreState {
    pub bump: u8,
    pub registry: Address,
    pub governance: Address,
    pub treasury: Address,
    pub platform_fee_bps: u16,
    pub prices: Vec<PriceConfig>,
    pub publisher_balances: Vec<PublisherBalance>,
}

/// Whether two strings hold the same characters.
fn str_eq(a: &str, b: &str) -> (r: bool)
    ensures
        r == (a@ == b@),
{
    let n = a.unicode_len();
    if n != b.unicode_len() {
        return false;
    }
    let mut i: usize = 0;
    while i < n
        invariant
            i <= n,
            n == a@.len(),
            n == b@.len(),
            forall|j: int| 0 <= j < i ==> a@[j] == b@[j],
        decreases n - i,
    {
        if a.get_char(i) != b.get_char(i) {
            return false;
        }
        i = i + 1;
    }
    assert(a@ =~= b@);
    true
}

/// Whether entry `i` is the first price of the game.
pub open spec fn is_first_price(prices: Seq<PriceConfig>, game_id: Seq<char>, i: int) -> bool {
    &&& 0 <= i < prices.len()
    &&& prices[i].game_id@ == game_id
    &&& forall|j: int| 0 <= j < i ==> prices[j].game_id@ != game_id
}

/// Whether the list prices the game.
pub open spec fn has_price(prices: Seq<PriceConfig>, game_id: Seq<char>) -> bool {
    exists|i: int| 0 <= i < prices.len() && prices[i].game_id@ == game_id
}

/// The first price of the game (meaningful where there is one).
pub open spec fn first_price(prices: Seq<PriceConfig>, game_id: Seq<char>) -> int {
    choose|i: int| is_first_price(prices, game_id, i)
}

/// The game's price, currency and discount, if the list prices it.
pub open spec fn price_of(prices: Seq<PriceConfig>, game_id: Seq<char>) -> Option<(u64, Address, u16)> {
    if has_price(prices, game_id) {
        let c = prices[first_price(prices, game_id)];
        Some((c.price, c.currency, c.discount_bps))
    } else {
        None
    }
}

/// The price list after setting the game's price and currency: the
/// first entry of the game changes, or a new entry without discount is
/// added where the list has room.
pub open spec fn upserted(prices: Seq<PriceConfig>, game_id: String, price: u64, currency: Address) -> Result<
    Seq<PriceConfig>,
    GameStoreError,
> {
    if has_price(prices, game_id@) {
        let i = first_price(prices, game_id@);
        Ok(prices.update(i, PriceConfig { price, currency, ..prices[i] }))
    } else if prices.len() >= MAX_PRICE_CONFIGS {
        Err(GameStoreError::PriceConfigLimitReached)
    } else {
        Ok(prices.push(PriceConfig { game_id, price, currency, discount_bps: 0 }))
    }
}

/// The price list after setting the discount of the game's first entry.
pub open spec fn discounted(prices: Seq<PriceConfig>, game_id: Seq<char>, discount_bps: u16) -> Result<
    Seq<PriceConfig>,
    GameStoreError,
> {
    if has_price(prices, game_id) {
        let i = first_price(prices, game_id);
        Ok(prices.update(i, PriceConfig { discount_bps, ..prices[i] }))
    } else {
        Err(GameStoreError::PriceConfigNotFound)
    }
}

/// Where a first price exists, it is the one that `choose` picks.
proof fn lemma_first_price_unique(prices: Seq<PriceConfig>, game_id: Seq<char>, i: int)
    requires
        is_first_price(prices, game_id, i),
    ensures
        has_price(prices, game_id),
        first_price(prices, game_id) == i,
{
    let k = choose|k: int| is_first_price(prices, game_id, k);
    assert(is_first_price(prices, game_id, k));
    if k < i {
        assert(prices[k].game_id@ != game_id);
    } else if k > i {
        assert(prices[i].game_id@ != game_id);
    }
}

/// Whether entry `i` is the first balance of the publisher in the token.
pub open spec fn is_first_balance(
    balances: Seq<PublisherBalance>,
    publisher: Seq<u8>,
    token: Seq<u8>,
    i: int,
) -> bool {
    &&& 0 <= i < balances.len()
    &&& balances[i].publisher@ == publisher && balances[i].token@ == token
    &&& forall|j: int|
        0 <= j < i ==> !(balances[j].publisher@ == publisher && balances[j].token@ == token)
}

/// Whether the ledger holds a balance of the publisher in the token.
pub open spec fn has_balance(balances: Seq<PublisherBalance>, publisher: Seq<u8>, token: Seq<u8>) -> bool {
    exists|i: int|
        0 <= i < balances.len() && balances[i].publisher@ == publisher && balances[i].token@
            == token
}

/// What the ledger owes the publisher in the token: the first matching
/// balance, or 0.
pub open spec fn balance_of(balances: Seq<PublisherBalance>, publisher: Seq<u8>, token: Seq<u8>) -> u64 {
    if has_balance(balances, publisher, token) {
        let i = choose|i: int| is_first_balance(balances, publisher, token, i);
        balances[i].amount
    } else {
        0
    }
}

/// A price list and a ledger where no game and no (publisher, token) pair
/// appears twice, within their limits.
pub open spec fn ledger_valid(s: StoreState) -> bool {
    &&& s.prices@.len() <= MAX_PRICE_CONFIGS
    &&& s.publisher_balances@.len() <= MAX_PUBLISHER_BALANCES
    &&& prices_unique(s.prices@)
    &&& balances_unique(s.publisher_balances@)
}

/// The first balance of the publisher in the token (meaningful where
/// there is one).
pub open spec fn first_balance(balances: Seq<PublisherBalance>, publisher: Seq<u8>, token: Seq<u8>) -> int {
    choose|i: int| is_first_balance(balances, publisher, token, i)
}

/// `a + b`, capped at `u64::MAX`.
pub open spec fn saturating_sum(a: u64, b: u64) -> u64 {
    if a + b > u64::MAX {
        u64::MAX
    } else {
        (a + b) as u64
    }
}

/// The ledger after crediting `amount` to the publisher in the token.
pub open spec fn credited(
    balances: Seq<PublisherBalance>,
    publisher: Address,
    token: Address,
    amount: u64,
) -> Result<Seq<PublisherBalance>, GameStoreError> {
    if amount == 0 {
        Ok(balances)
    } else if has_balance(balances, publisher@, token@) {
        let i = first_balance(balances, publisher@, token@);
        Ok(
            balances.update(
                i,
                PublisherBalance { amount: saturating_sum(balances[i].amount, amount), ..balances[i] },
            ),
        )
    } else if balances.len() >= MAX_PUBLISHER_BALANCES {
        Err(GameStoreError::PublisherBalanceLimitReached)
    } else {
        Ok(balances.push(PublisherBalance { publisher, token, amount }))
    }
}

/// What taking the publisher's balance in the token yields: the amount and
/// the ledger with that balance at 0.
pub open spec fn taken(balances: Seq<PublisherBalance>, publisher: Seq<u8>, token: Seq<u8>) -> Result<
    (u64, Seq<PublisherBalance>),
    GameStoreError,
> {
    if !has_balance(balances, publisher, token) {
        Err(GameStoreError::PublisherBalanceNotFound)
    } else {
        let i = first_balance(balances, publisher, token);
        if balances[i].amount == 0 {
            Err(GameStoreError::EmptyPublisherBalance)
        } else {
            Ok((balances[i].amount, balances.update(i, PublisherBalance { amount: 0, ..balances[i] })))
        }
    }
}

/// Where a first match exists, it is the one that `choose` picks.
proof fn lemma_first_balance_unique(
    balances: Seq<PublisherBalance>,
    publisher: Seq<u8>,
    token: Seq<u8>,
    i: int,
)
    requires
        is_first_balance(balances, publisher, token, i),
    ensures
        has_balance(balances, publisher, token),
        first_balance(balances, publisher, token) == i,
        balance_of(balances, publisher, token) == balances[i].amount,
{
    let k = choose|k: int| is_first_balance(balances, publisher, token, k);
    assert(is_first_balance(balances, publisher, token, k));
    if k < i {
        assert(!(balances[k].publisher@ == publisher && balances[k].token@ == token));
    } else if k > i {
        assert(!(balances[i].publisher@ == publisher && balances[i].token@ == token));
    }
}

impl StoreState {
    /// The index of the game's first price.
    pub fn price_index(&self, game_id: &str) -> (r: Option<usize>)
        ensures
            match r {
                Some(i) => is_first_price(self.prices@, game_id@, i as int),
                None => !has_price(self.prices@, game_id@),
            },
    {
        let mut i: usize = 0;
        while i < self.prices.len()
            invariant
                i <= self.prices@.len(),
                forall|j: int| 0 <= j < i ==> self.prices@[j].game_id@ != game_id@,
            decreases self.prices@.len() - i,
        {
            if str_eq(self.prices[i].game_id.as_str(), game_id) {
                return Some(i);
            }
            i = i + 1;
        }
        None
    }

    /// The game's first price, if the list has one.
    pub fn price_config(&self, game_id: &str) -> (r: Option<&PriceConfig>)
        ensures
            match r {
                Some(c) => exists|i: int| is_first_price(self.prices@, game_id@, i) && *c
                    == self.prices@[i],
                None => !has_price(self.prices@, game_id@),
            },
    {
        match self.price_index(game_id) {
            None => None,
            Some(i) => Some(&self.prices[i]),
        }
    }

    /// Sets the game's price and currency; a new game is added with no
    /// discount, unless the list is full.
    pub fn upsert_price(&mut self, game_id: String, price: u64, currency: Address) -> (r: Result<
        (),
        GameStoreError,
    >)
        ensures
            final(self).publisher_balances@ == old(self).publisher_balances@,
            final(self).platform_fee_bps == old(self).platform_fee_bps,
            final(self).bump == old(self).bump,
            final(self).registry == old(self).registry,
            final(self).governance == old(self).governance,
            final(self).treasury == old(self).treasury,
            match upserted(old(self).prices@, game_id, price, currency) {
                Ok(p) => r is Ok && final(self).prices@ == p,
                Err(e) => r == Err::<(), GameStoreError>(e) && final(self).prices@ == old(self).prices@,
            },
            ledger_valid(*old(self)) ==> ledger_valid(*final(self)),
    {
        proof {
            if ledger_valid(*self) && upserted(self.prices@, game_id, price, currency) is Ok {
                lemma_upsert_keeps_prices_valid(self.prices@, game_id, price, currency);
            }
        }
        match self.price_index(game_id.as_str()) {
            Some(index) => {
                proof {
                    lemma_first_price_unique(self.prices@, game_id@, index as int);
                }
                self.prices[index].price = price;
                self.prices[index].currency = currency;
                proof {
                    assert(self.prices@ =~= old(self).prices@.update(
                        index as int,
                        PriceConfig { price, currency, ..old(self).prices@[index as int] },
                    ));
                }
                Ok(())
            },
            None => {
                if self.prices.len() >= MAX_PRICE_CONFIGS {
                    return Err(GameStoreError::PriceConfigLimitReached);
                }
                self.prices.push(PriceConfig { game_id, price, currency, discount_bps: 0 });
                Ok(())
            },
        }
    }

    /// Sets the discount of the game's price, which must exist.
    pub fn set_discount(&mut self, game_id: &str, discount_bps: u16) -> (r: Result<(), GameStoreError>)
        ensures
            final(self).publisher_balances@ == old(self).publisher_balances@,
            final(self).platform_fee_bps == old(self).platform_fee_bps,
            final(self).bump == old(self).bump,
            final(self).registry == old(self).registry,
            final(self).governance == old(self).governance,
            final(self).treasury == old(self).treasury,
            match discounted(old(self).prices@, game_id@, discount_bps) {
                Ok(p) => r is Ok && final(self).prices@ == p,
                Err(e) => r == Err::<(), GameStoreError>(e) && final(self).prices@ == old(self).prices@,
            },
            ledger_valid(*old(self)) ==> ledger_valid(*final(self)),
    {
        proof {
            if ledger_valid(*self) && discounted(self.prices@, game_id@, discount_bps) is Ok {
                lemma_discount_keeps_prices_valid(self.prices@, game_id@, discount_bps);
            }
        }
        let index = match self.price_index(game_id) {
            None => return Err(GameStoreError::PriceConfigNotFound),
            Some(i) => i,
        };
        proof {
            lemma_first_price_unique(self.prices@, game_id@, index as int);
        }
        self.prices[index].discount_bps = discount_bps;
        proof {
            assert(self.prices@ =~= old(self).prices@.update(
                index as int,
                PriceConfig { discount_bps, ..old(self).prices@[index as int] },
            ));
        }
        Ok(())
    }

    /// The price less its discount, rounded in the buyer's favour of the
    /// discount: `price - price * discount_bps / 10000`.
    pub fn final_price(price: &PriceConfig) -> (r: u64)
        requires
            price.price * price.discount_bps / 10_000 <= price.price,
        ensures
            r == price.price - price.price * price.discount_bps / 10_000,
    {
        let p = price.price as u128;
        let d = price.discount_bps as u128;
        assert(p * d <= 0xFFFF_FFFF_FFFF_FFFFu128 * 0xFFFFu128) by (nonlinear_arith)
            requires
                p <= 0xFFFF_FFFF_FFFF_FFFFu128,
                d <= 0xFFFFu128,
        ;
        let discount = (p * d) / 10_000;
        (p - discount) as u64
    }

    /// What the ledger owes the publisher in the token (0 without a
    /// balance).
    pub fn publisher_balance(&self, publisher: &Address, token: &Address) -> (r: u64)
        ensures
            r == balance_of(self.publisher_balances@, publisher@, token@),
    {
        let mut i: usize = 0;
        while i < self.publisher_balances.len()
            invariant
                i <= self.publisher_balances@.len(),
                forall|j: int|
                    0 <= j < i ==> !(self.publisher_balances@[j].publisher@ == publisher@
                        && self.publisher_balances@[j].token@ == token@),
            decreases self.publisher_balances@.len() - i,
        {
            let entry = &self.publisher_balances[i];
            if keys_eq(&entry.publisher, publisher) && keys_eq(&entry.token, token) {
                proof {
                    lemma_first_balance_unique(self.publisher_balances@, publisher@, token@, i as int);
                }
                return entry.amount;
            }
            i = i + 1;
        }
        0
    }

    /// The index of the first balance of the publisher in the token.
    fn balance_index(&self, publisher: &Address, token: &Address) -> (r: Option<usize>)
        ensures
            match r {
                Some(i) => is_first_balance(self.publisher_balances@, publisher@, token@, i as int),
                None => !has_balance(self.publisher_balances@, publisher@, token@),
            },
    {
        let mut i: usize = 0;
        while i < self.publisher_balances.len()
            invariant
                i <= self.publisher_balances@.len(),
                forall|j: int|
                    0 <= j < i ==> !(self.publisher_balances@[j].publisher@ == publisher@
                        && self.publisher_balances@[j].token@ == token@),
            decreases self.publisher_balances@.len() - i,
        {
            if keys_eq(&self.publisher_balances[i].publisher, publisher) && keys_eq(
                &self.publisher_balances[i].token,
                token,
            ) {
                return Some(i);
            }
            i = i + 1;
        }
        None
    }

    /// Adds to what the ledger owes the publisher in the token, saturating
    /// at `u64::MAX`; a new pair is added unless the ledger is full. A zero
    /// amount changes nothing.
    pub fn credit_publisher_balance(&mut self, publisher: Address, token: Address, amount: u64) -> (r:
        Result<(), GameStoreError>)
        ensures
            final(self).prices@ == old(self).prices@,
            final(self).platform_fee_bps == old(self).platform_fee_bps,
            final(self).bump == old(self).bump,
            final(self).registry == old(self).registry,
            final(self).governance == old(self).governance,
            final(self).treasury == old(self).treasury,
            match credited(old(self).publisher_balances@, publisher, token, amount) {
                Ok(b) => r is Ok && final(self).publisher_balances@ == b,
                Err(e) => r == Err::<(), GameStoreError>(e) && final(self).publisher_balances@
                    == old(self).publisher_balances@,
            },
            ledger_valid(*old(self)) ==> ledger_valid(*final(self)),
    {
        proof {
            if ledger_valid(*self) && credited(self.publisher_balances@, publisher, token, amount) is Ok {
                lemma_credit_keeps_ledger_valid(self.publisher_balances@, publisher, token, amount);
            }
        }
        if amount == 0 {
            return Ok(());
        }
        match self.balance_index(&publisher, &token) {
            Some(i) => {
                let current = self.publisher_balances[i].amount;
                self.publisher_balances[i].amount = current.saturating_add(amount);
                proof {
                    assert(self.publisher_balances@ =~= old(self).publisher_balances@.update(
                        i as int,
                        PublisherBalance {
                            amount: (if current + amount > u64::MAX {
                                u64::MAX
                            } else {
                                (current + amount) as u64
                            }),
                            ..old(self).publisher_balances@[i as int]
                        },
                    ));
                }
                Ok(())
            },
            None => {
                if self.publisher_balances.len() >= MAX_PUBLISHER_BALANCES {
                    return Err(GameStoreError::PublisherBalanceLimitReached);
                }
                self.publisher_balances.push(PublisherBalance { publisher, token, amount });
                Ok(())
            },
        }
    }

    /// Takes all that the ledger owes the publisher in the token, leaving 0;
    /// fails where there is no balance or it is empty.
    pub fn take_publisher_balance(&mut self, publisher: Address, token: Address) -> (r: Result<
        u64,
        GameStoreError,
    >)
        ensures
            final(self).prices@ == old(self).prices@,
            final(self).platform_fee_bps == old(self).platform_fee_bps,
            final(self).bump == old(self).bump,
            final(self).registry == old(self).registry,
            final(self).governance == old(self).governance,
            final(self).treasury == old(self).treasury,
            match taken(old(self).publisher_balances@, publisher@, token@) {
                Ok((amount, b)) => r == Ok::<u64, GameStoreError>(amount)
                    && final(self).publisher_balances@ == b,
                Err(e) => r == Err::<u64, GameStoreError>(e) && final(self).publisher_balances@
                    == old(self).publisher_balances@,
            },
            ledger_valid(*old(self)) ==> ledger_valid(*final(self)),
    {
        proof {
            if ledger_valid(*self) && taken(self.publisher_balances@, publisher@, token@) is Ok {
                lemma_take_keeps_ledger_valid(self.publisher_balances@, publisher@, token@);
            }
        }
        let i = match self.balance_index(&publisher, &token) {
            None => return Err(GameStoreError::PublisherBalanceNotFound),
            Some(i) => i,
        };
        proof {
            lemma_first_balance_unique(self.publisher_balances@, publisher@, token@, i as int);
        }
        let amount = self.publisher_balances[i].amount;
        if amount == 0 {
            return Err(GameStoreError::EmptyPublisherBalance);
        }
        self.publisher_balances[i].amount = 0;
        proof {
            assert(self.publisher_balances@ =~= old(self).publisher_balances@.update(
                i as int,
                PublisherBalance { amount: 0, ..old(self).publisher_balances@[i as int] },
            ));
        }
        Ok(amount)
    }
}

} // verus!

verus! {

/// No (publisher, token) pair appears twice in the ledger.
pub open spec fn balances_unique(balances: Seq<PublisherBalance>) -> bool {
    forall|i: int, j: int|
        0 <= i < j < balances.len() ==> !(balances[i].publisher@ == balances[j].publisher@
            && balances[i].token@ == balances[j].token@)
}

/// No game appears twice in the price list.
pub open spec fn prices_unique(prices: Seq<PriceConfig>) -> bool {
    forall|i: int, j: int| 0 <= i < j < prices.len() ==> prices[i].game_id@ != prices[j].game_id@
}

/// Crediting a publisher in a token adds the amount to what the ledger
/// then owes them in that token (saturating at `u64::MAX`), and leaves
/// every other publisher and token as it was.
pub proof fn lemma_credit_then_balance(
    balances: Seq<PublisherBalance>,
    publisher: Address,
    token: Address,
    amount: u64,
    other_publisher: Address,
    other_token: Address,
)
    requires
        credited(balances, publisher, token, amount) is Ok,
    ensures
        balance_of(credited(balances, publisher, token, amount)->Ok_0, publisher@, token@)
            == saturating_sum(balance_of(balances, publisher@, token@), amount),
        !(other_publisher@ == publisher@ && other_token@ == token@) ==> balance_of(
            credited(balances, publisher, token, amount)->Ok_0,
            other_publisher@,
            other_token@,
        ) == balance_of(balances, other_publisher@, other_token@),
{
    let after = credited(balances, publisher, token, amount)->Ok_0;
    let (p, t) = (publisher@, token@);
    let (q, u) = (other_publisher@, other_token@);
    if amount == 0 {
        return;
    }
    if has_balance(balances, p, t) {
        let i = first_balance(balances, p, t);
        let k = choose|k: int| 0 <= k < balances.len() && balances[k].publisher@ == p && balances[k].token@ == t;
        lemma_first_exists(balances, p, t, k);
        assert(is_first_balance(balances, p, t, i));
        assert(is_first_balance(after, p, t, i));
        lemma_first_balance_unique(after, p, t, i);
        lemma_first_balance_unique(balances, p, t, i);
        if !(q == p && u == t) {
            lemma_balance_unchanged_elsewhere(balances, after, q, u, i);
        }
    } else {
        let n = balances.len() as int;
        assert(after[n].publisher@ == p && after[n].token@ == t);
        assert(is_first_balance(after, p, t, n));
        lemma_first_balance_unique(after, p, t, n);
        if !(q == p && u == t) {
            if has_balance(after, q, u) {
                let k = choose|k: int| 0 <= k < after.len() && after[k].publisher@ == q && after[k].token@ == u;
                lemma_first_exists(after, q, u, k);
                let f = first_balance(after, q, u);
                assert(is_first_balance(after, q, u, f));
                assert(f < n);
                assert(after[f] == balances[f]);
                assert forall|j: int| 0 <= j < f implies !(balances[j].publisher@ == q
                    && balances[j].token@ == u) by {
                    assert(after[j] == balances[j]);
                }
                assert(is_first_balance(balances, q, u, f));
                lemma_first_balance_unique(balances, q, u, f);
            } else {
                assert forall|k: int| 0 <= k < balances.len() implies !(balances[k].publisher@ == q
                    && balances[k].token@ == u) by {
                    assert(after[k] == balances[k]);
                }
            }
        }
    }
}

/// Where some entry matches, a first one does.
proof fn lemma_first_exists(balances: Seq<PublisherBalance>, p: Seq<u8>, t: Seq<u8>, k: int)
    requires
        0 <= k < balances.len(),
        balances[k].publisher@ == p && balances[k].token@ == t,
    ensures
        is_first_balance(balances, p, t, first_balance(balances, p, t)),
    decreases k,
{
    if is_first_balance(balances, p, t, k) {
    } else {
        let j = choose|j: int| 0 <= j < k && balances[j].publisher@ == p && balances[j].token@ == t;
        lemma_first_exists(balances, p, t, j);
    }
}

/// Changing the entry at `i` leaves the balance of another pair alone,
/// where entry `i` is of another pair before and after.
proof fn lemma_balance_unchanged_elsewhere(
    before: Seq<PublisherBalance>,
    after: Seq<PublisherBalance>,
    q: Seq<u8>,
    u: Seq<u8>,
    i: int,
)
    requires
        before.len() == after.len(),
        0 <= i < before.len(),
        forall|k: int| 0 <= k < before.len() && k != i ==> after[k] == before[k],
        !(before[i].publisher@ == q && before[i].token@ == u),
        !(after[i].publisher@ == q && after[i].token@ == u),
    ensures
        balance_of(after, q, u) == balance_of(before, q, u),
{
    if has_balance(before, q, u) {
        let k = choose|k: int| 0 <= k < before.len() && before[k].publisher@ == q && before[k].token@ == u;
        lemma_first_exists(before, q, u, k);
        let f = first_balance(before, q, u);
        assert(is_first_balance(after, q, u, f));
        lemma_first_balance_unique(after, q, u, f);
    } else {
        assert forall|k: int| 0 <= k < after.len() implies !(after[k].publisher@ == q
            && after[k].token@ == u) by {
            if k != i {
                assert(after[k] == before[k]);
            }
        }
    }
}

/// Taking a publisher's balance in a token yields what the ledger owed
/// them there, and leaves it owing 0 there and the same elsewhere.
pub proof fn lemma_take_then_balance(
    balances: Seq<PublisherBalance>,
    publisher: Address,
    token: Address,
    other_publisher: Address,
    other_token: Address,
)
    requires
        taken(balances, publisher@, token@) is Ok,
    ensures
        (taken(balances, publisher@, token@)->Ok_0).0 == balance_of(balances, publisher@, token@),
        balance_of((taken(balances, publisher@, token@)->Ok_0).1, publisher@, token@) == 0,
        !(other_publisher@ == publisher@ && other_token@ == token@) ==> balance_of(
            (taken(balances, publisher@, token@)->Ok_0).1,
            other_publisher@,
            other_token@,
        ) == balance_of(balances, other_publisher@, other_token@),
{
    let (p, t) = (publisher@, token@);
    let k = choose|k: int| 0 <= k < balances.len() && balances[k].publisher@ == p && balances[k].token@ == t;
    lemma_first_exists(balances, p, t, k);
    let i = first_balance(balances, p, t);
    lemma_first_balance_unique(balances, p, t, i);
    let after = (taken(balances, p, t)->Ok_0).1;
    assert(is_first_balance(after, p, t, i));
    lemma_first_balance_unique(after, p, t, i);
    if !(other_publisher@ == p && other_token@ == t) {
        lemma_balance_unchanged_elsewhere(balances, after, other_publisher@, other_token@, i);
    }
}

/// Crediting keeps every (publisher, token) pair once and the ledger within
/// its limit.
pub proof fn lemma_credit_keeps_ledger_valid(
    balances: Seq<PublisherBalance>,
    publisher: Address,
    token: Address,
    amount: u64,
)
    requires
        balances_unique(balances),
        balances.len() <= MAX_PUBLISHER_BALANCES,
        credited(balances, publisher, token, amount) is Ok,
    ensures
        balances_unique(credited(balances, publisher, token, amount)->Ok_0),
        credited(balances, publisher, token, amount)->Ok_0.len() <= MAX_PUBLISHER_BALANCES,
{
    let after = credited(balances, publisher, token, amount)->Ok_0;
    if amount > 0 && has_balance(balances, publisher@, token@) {
        let k = choose|k: int| 0 <= k < balances.len() && balances[k].publisher@ == publisher@ && balances[k].token@ == token@;
        lemma_first_exists(balances, publisher@, token@, k);
        let i = first_balance(balances, publisher@, token@);
        assert forall|a: int, b: int| 0 <= a < b < after.len() implies !(after[a].publisher@
            == after[b].publisher@ && after[a].token@ == after[b].token@) by {
            assert(after[a].publisher@ == balances[a].publisher@ && after[a].token@ == balances[a].token@);
            assert(after[b].publisher@ == balances[b].publisher@ && after[b].token@ == balances[b].token@);
        }
    }
}

/// Setting a game's price makes the list report that price and currency
/// for the game, keeping its discount (none for a new game).
pub proof fn lemma_upsert_then_price(prices: Seq<PriceConfig>, game_id: String, price: u64, currency: Address)
    requires
        upserted(prices, game_id, price, currency) is Ok,
    ensures
        price_of(upserted(prices, game_id, price, currency)->Ok_0, game_id@) == Some(
            (
                price,
                currency,
                if has_price(prices, game_id@) {
                    prices[first_price(prices, game_id@)].discount_bps
                } else {
                    0u16
                },
            ),
        ),
{
    let after = upserted(prices, game_id, price, currency)->Ok_0;
    if has_price(prices, game_id@) {
        let k = choose|k: int| 0 <= k < prices.len() && prices[k].game_id@ == game_id@;
        lemma_first_price_exists(prices, game_id@, k);
        let i = first_price(prices, game_id@);
        assert(is_first_price(after, game_id@, i));
        lemma_first_price_unique(after, game_id@, i);
    } else {
        let n = prices.len() as int;
        assert(is_first_price(after, game_id@, n));
        lemma_first_price_unique(after, game_id@, n);
    }
}

/// Where some entry prices the game, a first one does.
proof fn lemma_first_price_exists(prices: Seq<PriceConfig>, game_id: Seq<char>, k: int)
    requires
        0 <= k < prices.len(),
        prices[k].game_id@ == game_id,
    ensures
        is_first_price(prices, game_id, first_price(prices, game_id)),
    decreases k,
{
    if is_first_price(prices, game_id, k) {
    } else {
        let j = choose|j: int| 0 <= j < k && prices[j].game_id@ == game_id;
        lemma_first_price_exists(prices, game_id, j);
    }
}

/// Setting a price keeps every game once and the list within its limit.
pub proof fn lemma_upsert_keeps_prices_valid(
    prices: Seq<PriceConfig>,
    game_id: String,
    price: u64,
    currency: Address,
)
    requires
        prices_unique(prices),
        prices.len() <= MAX_PRICE_CONFIGS,
        upserted(prices, game_id, price, currency) is Ok,
    ensures
        prices_unique(upserted(prices, game_id, price, currency)->Ok_0),
        upserted(prices, game_id, price, currency)->Ok_0.len() <= MAX_PRICE_CONFIGS,
{
    let after = upserted(prices, game_id, price, currency)->Ok_0;
    if has_price(prices, game_id@) {
        let k = choose|k: int| 0 <= k < prices.len() && prices[k].game_id@ == game_id@;
        lemma_first_price_exists(prices, game_id@, k);
        assert forall|a: int, b: int| 0 <= a < b < after.len() implies after[a].game_id@
            != after[b].game_id@ by {
            assert(after[a].game_id@ == prices[a].game_id@);
            assert(after[b].game_id@ == prices[b].game_id@);
        }
    }
}

/// Setting a discount keeps every game once and the list's length.
pub proof fn lemma_discount_keeps_prices_valid(prices: Seq<PriceConfig>, game_id: Seq<char>, discount_bps: u16)
    requires
        prices_unique(prices),
        discounted(prices, game_id, discount_bps) is Ok,
    ensures
        prices_unique(discounted(prices, game_id, discount_bps)->Ok_0),
        discounted(prices, game_id, discount_bps)->Ok_0.len() == prices.len(),
{
    let after = discounted(prices, game_id, discount_bps)->Ok_0;
    let k = choose|k: int| 0 <= k < prices.len() && prices[k].game_id@ == game_id;
    lemma_first_price_exists(prices, game_id, k);
    assert forall|a: int, b: int| 0 <= a < b < after.len() implies after[a].game_id@ != after[b].game_id@ by {
        assert(after[a].game_id@ == prices[a].game_id@);
        assert(after[b].game_id@ == prices[b].game_id@);
    }
}

/// Taking a balance keeps every (publisher, token) pair once and the
/// ledger's length.
pub proof fn lemma_take_keeps_ledger_valid(balances: Seq<PublisherBalance>, publisher: Seq<u8>, token: Seq<u8>)
    requires
        balances_unique(balances),
        taken(balances, publisher, token) is Ok,
    ensures
        balances_unique((taken(balances, publisher, token)->Ok_0).1),
        (taken(balances, publisher, token)->Ok_0).1.len() == balances.len(),
{
    let after = (taken(balances, publisher, token)->Ok_0).1;
    let k = choose|k: int| 0 <= k < balances.len() && balances[k].publisher@ == publisher && balances[k].token@ == token;
    lemma_first_exists(balances, publisher, token, k);
    assert forall|a: int, b: int| 0 <= a < b < after.len() implies !(after[a].publisher@
        == after[b].publisher@ && after[a].token@ == after[b].token@) by {
        assert(after[a].publisher@ == balances[a].publisher@ && after[a].token@ == balances[a].token@);
        assert(after[b].publisher@ == balances[b].publisher@ && after[b].token@ == balances[b].token@);
    }
}

/// Setting a game's discount makes the list report that discount for the
/// game, with its price and currency as they were, and leaves what it
/// reports for every other game as it was.
pub proof fn lemma_discount_then_price(
    prices: Seq<PriceConfig>,
    game_id: Seq<char>,
    discount_bps: u16,
    other: Seq<char>,
)
    requires
        discounted(prices, game_id, discount_bps) is Ok,
    ensures
        price_of(discounted(prices, game_id, discount_bps)->Ok_0, game_id) == (match price_of(
            prices,
            game_id,
        ) {
            Some((price, currency, _)) => Some((price, currency, discount_bps)),
            None => None,
        }),
        price_of(prices, game_id) is Some,
        other != game_id ==> price_of(discounted(prices, game_id, discount_bps)->Ok_0, other)
            == price_of(prices, other),
{
    let after = discounted(prices, game_id, discount_bps)->Ok_0;
    let k = choose|k: int| 0 <= k < prices.len() && prices[k].game_id@ == game_id;
    lemma_first_price_exists(prices, game_id, k);
    let i = first_price(prices, game_id);
    assert(is_first_price(after, game_id, i));
    lemma_first_price_unique(after, game_id, i);
    lemma_first_price_unique(prices, game_id, i);
    if other != game_id {
        if has_price(prices, other) {
            let k2 = choose|k: int| 0 <= k < prices.len() && prices[k].game_id@ == other;
            lemma_first_price_exists(prices, other, k2);
            let j = first_price(prices, other);
            assert(j != i);
            assert(is_first_price(after, other, j));
            lemma_first_price_unique(after, other, j);
        } else {
            assert forall|m: int| 0 <= m < after.len() implies after[m].game_id@ != other by {
                assert(after[m].game_id@ == prices[m].game_id@);
            }
        }
    }
}

} // verus!
