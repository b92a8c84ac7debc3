//! Spot market data schemas, and the order-book depth choices with their
//! request weights.
use vstd::prelude::*;

use rust_decimal::Decimal;

use vstd::string::StringExecFns;

use crate::order_book::{Ask, Bid, OrderBook};
use crate::text::{
    contains, decimal_string, decimal_text, has_infix, parse_u16, parse_u16_str, str_eq,
    trim_prefixes, trim_start_matches, zero_pad,
};

verus! {

/// rust_decimal's `Decimal`, carried through the schemas as an opaque value.
#[verifier::external_type_specification]
#[verifier::external_body]
pub struct ExDecimal(Decimal);

/// Relies on `Decimal`'s derived `Clone` (it is `Copy`): the clone is the same value.
pub assume_specification[ <Decimal as Clone>::clone ](d: &Decimal) -> (r: Decimal)
    ensures
        r == *d,
;

/// Reply of the connectivity check.
#[derive(Debug, Copy, Clone, PartialEq, Eq)]
pub struct Pong {}

#[derive(Debug, Copy, Clone, PartialEq, Eq)]
pub struct ServerTime {
    pub server_time: u64,
}

#[derive(Debug, Clone)]
pub struct ExchangeInformation {
    pub timezone: String,
    pub server_time: u64,
    pub rate_limits: Vec<RateLimit>,
    pub symbols: Vec<Symbol>,
}

/// One of the exchange's published rate limits.
#[derive(Debug, Copy, Clone, PartialEq, Eq)]
pub struct RateLimit {
    pub rate_limit_type: RateLimitType,
    pub interval: RateLimitInterval,
    pub interval_num: u32,
    pub limit: u32,
}

#[derive(Debug, Copy, Clone, PartialEq, Eq)]
pub enum RateLimitType {
    RequestWeight,
    Orders,
    RawRequests,
}

#[derive(Debug, Copy, Clone, PartialEq, Eq)]
pub enum RateLimitInterval {
    Second,
    Minute,
    Day,
}

#[derive(Debug, Copy, Clone, PartialEq, Eq)]
pub enum OrderType {
    Limit,
    Market,
    StopLoss,
    StopLossLimit,
    TakeProfit,
    TakeProfitLimit,
    LimitMaker,
}

#[derive(Debug, Clone)]
pub struct Symbol {
    pub symbol: String,
    pub status: SymbolStatus,
    pub base_asset: String,
    pub base_asset_precision: u16,
    pub quote_asset: String,
    pub quote_precision: u16,
    pub quote_asset_precision: u16,
    pub base_commission_precision: u16,
    pub quote_commission_precision: u16,
    pub order_types: Vec<OrderType>,
    pub iceberg_allowed: bool,
    pub oco_allowed: bool,
    pub quote_order_qty_market_allowed: bool,
    pub is_spot_trading_allowed: bool,
    pub is_margin_trading_allowed: bool,
    pub filters: Vec<Filter>,
    pub permissions: Vec<SymbolPermission>,
}

#[derive(Debug, Copy, Clone, PartialEq, Eq)]
pub enum SymbolStatus {
    PreTrading,
    Trading,
    PostTrading,
    EndOfDay,
    Halt,
    AuctionMatch,
    Break,
}

/// The trading rules of a symbol.
#[derive(Debug, Copy, Clone)]
pub enum Filter {
    Price(PriceFilter),
    PercentPrice(PercentPriceFilter),
    PercentPriceBySide(PercentPriceBySideFilter),
    LotSize(LotSizeFilter),
    MinNotional(MinNotionalFilter),
    Notional(NotionalFilter),
    IcebergParts(IcebergPartsFilter),
    MarketLotSize(MarketLotSizeFilter),
    MaxNumOrders(MaxNumOrdersFilter),
    MaxNumAlgoOrders(MaxNumAlgoOrdersFilter),
    MaxNumIcebergOrders(MaxNumIcebergOrdersFilter),
    MaxPosition(MaxPositionFilter),
    TrailingDelta(TrailingDeltaFilter),
}

/// Bounds and tick of the price.
#[derive(Debug, Copy, Clone)]
pub struct PriceFilter {
    pub min_price: Decimal,
    pub max_price: Decimal,
    pub tick_size: Decimal,
}

/// How far the price may stray from the recent average.
#[derive(Debug, Copy, Clone)]
pub struct PercentPriceFilter {
    pub multiplier_up: Decimal,
    pub multiplier_down: Decimal,
    pub avg_price_mins: u64,
}

/// How far the price may stray from the recent average, by side.
#[derive(Debug, Copy, Clone)]
pub struct PercentPriceBySideFilter {
    pub bid_multiplier_up: Decimal,
    pub bid_multiplier_down: Decimal,
    pub ask_multiplier_up: Decimal,
    pub ask_multiplier_down: Decimal,
    pub avg_price_mins: u64,
}

/// Bounds and step of the quantity.
#[derive(Debug, Copy, Clone)]
pub struct LotSizeFilter {
    pub min_qty: Decimal,
    pub max_qty: Decimal,
    pub step_size: Decimal,
}

/// Least notional value of an order.
#[derive(Debug, Copy, Clone)]
pub struct MinNotionalFilter {
    pub min_notional: Decimal,
    pub apply_to_market: bool,
    pub avg_price_mins: u64,
}

/// Bounds of the notional value of an order.
#[derive(Debug, Copy, Clone)]
pub struct NotionalFilter {
    pub min_notional: Decimal,
    pub max_notional: Decimal,
    pub apply_to_market: bool,
    pub avg_price_mins: u64,
}

#[derive(Debug, Copy, Clone, PartialEq, Eq)]
pub struct IcebergPartsFilter {
    pub limit: u64,
}

/// Bounds and step of the quantity of market orders.
#[derive(Debug, Copy, Clone)]
pub struct MarketLotSizeFilter {
    pub min_qty: Decimal,
    pub max_qty: Decimal,
    pub step_size: Decimal,
}

#[derive(Debug, Copy, Clone, PartialEq, Eq)]
pub struct MaxNumOrdersFilter {
    pub max_num_orders: u64,
}

#[derive(Debug, Copy, Clone, PartialEq, Eq)]
pub struct MaxNumAlgoOrdersFilter {
    pub max_num_algo_orders: u64,
}

#[derive(Debug, Copy, Clone, PartialEq, Eq)]
pub struct MaxNumIcebergOrdersFilter {
    pub max_num_iceberg_orders: u64,
}

/// Largest position an account may hold in the base asset.
#[derive(Debug, Copy, Clone)]
pub struct MaxPositionFilter {
    pub max_position: Decimal,
}

/// Bounds of the trailing delta of trailing-stop orders.
#[derive(Debug, Copy, Clone)]
pub struct TrailingDeltaFilter {
    pub min_trailing_above_delta: Decimal,
    pub max_trailing_above_delta: Decimal,
    pub min_trailing_below_delta: Decimal,
    pub max_trailing_below_delta: Decimal,
}

#[derive(Debug, Copy, Clone, PartialEq, Eq)]
pub enum SymbolPermission {
    Spot,
    Margin,
    Leveraged,
    TradeGroup(u16),
}

/// Text form of a permission: `SPOT`, `MARGIN`, `LEVERAGED`, or `TRD_GRP_`
/// followed by the group number zero-padded to four digits.
pub open spec fn permission_code(p: SymbolPermission) -> Seq<char> {
    match p {
        SymbolPermission::Spot => "SPOT"@,
        SymbolPermission::Margin => "MARGIN"@,
        SymbolPermission::Leveraged => "LEVERAGED"@,
        SymbolPermission::TradeGroup(n) => "TRD_GRP_"@ + zero_pad(decimal_text(n as nat), 4),
    }
}

/// The permission a text form stands for: one of the three names exactly, or
/// a text containing `TRD_GRP` that reads as a `u16` once its leading
/// `TRD_GRP_` copies are removed.
pub open spec fn permission_from_code(s: Seq<char>) -> Option<SymbolPermission> {
    if s == "SPOT"@ {
        Some(SymbolPermission::Spot)
    } else if s == "MARGIN"@ {
        Some(SymbolPermission::Margin)
    } else if s == "LEVERAGED"@ {
        Some(SymbolPermission::Leveraged)
    } else if has_infix(s, "TRD_GRP"@) {
        match parse_u16(trim_prefixes(s, "TRD_GRP_"@)) {
            Some(n) => Some(SymbolPermission::TradeGroup(n)),
            None => None,
        }
    } else {
        None
    }
}

impl SymbolPermission {
    /// The text form the exchange uses.
    pub fn code(&self) -> (r: String)
        ensures
            r@ == permission_code(*self),
    {
        match self {
            SymbolPermission::Spot => String::from_str("SPOT"),
            SymbolPermission::Margin => String::from_str("MARGIN"),
            SymbolPermission::Leveraged => String::from_str("LEVERAGED"),
            SymbolPermission::TradeGroup(n) => {
                let mut s = String::from_str("TRD_GRP_");
                let digits = decimal_string(*n as u32, 4);
                s.append(digits.as_str());
                s
            },
        }
    }

    /// Reads the exchange's text form; `None` for any other text.
    pub fn from_code(s: &str) -> (r: Option<Self>)
        ensures
            r == permission_from_code(s@),
    {
        if str_eq(s, "SPOT") {
            Some(SymbolPermission::Spot)
        } else if str_eq(s, "MARGIN") {
            Some(SymbolPermission::Margin)
        } else if str_eq(s, "LEVERAGED") {
            Some(SymbolPermission::Leveraged)
        } else if contains(s, "TRD_GRP") {
            proof {
                reveal_strlit("TRD_GRP_");
            }
            let group = trim_start_matches(s, "TRD_GRP_");
            match parse_u16_str(group) {
                Some(n) => Some(SymbolPermission::TradeGroup(n)),
                None => None,
            }
        } else {
            None
        }
    }
}

/// Depth of an order-book snapshot.
#[derive(Debug, Copy, Clone, PartialEq, Eq)]
pub enum OrderBookLimit {
    N5,
    N10,
    N20,
    N50,
    N100,
    N500,
    N1000,
    N5000,
}

/// Number of levels per side.
pub open spec fn depth_of(l: OrderBookLimit) -> nat {
    match l {
        OrderBookLimit::N5 => 5,
        OrderBookLimit::N10 => 10,
        OrderBookLimit::N20 => 20,
        OrderBookLimit::N50 => 50,
        OrderBookLimit::N100 => 100,
        OrderBookLimit::N500 => 500,
        OrderBookLimit::N1000 => 1000,
        OrderBookLimit::N5000 => 5000,
    }
}

/// Request weight of a snapshot of the given depth.
pub open spec fn weight_of(l: OrderBookLimit) -> u32 {
    if depth_of(l) <= 100 {
        1
    } else if depth_of(l) == 500 {
        5
    } else if depth_of(l) == 1000 {
        10
    } else {
        50
    }
}

impl OrderBookLimit {
    pub fn weight(self) -> (r: u32)
        ensures
            r == weight_of(self),
    {
        match self {
            OrderBookLimit::N5
            | OrderBookLimit::N10
            | OrderBookLimit::N20
            | OrderBookLimit::N50
            | OrderBookLimit::N100 => 1,
            OrderBookLimit::N500 => 5,
            OrderBookLimit::N1000 => 10,
            OrderBookLimit::N5000 => 50,
        }
    }

    /// The depth written in decimal, as the query parameter carries it.
    pub fn as_str(self) -> (r: &'static str)
        ensures
            r@ == decimal_text(depth_of(self)),
    {
        proof {
            reveal_with_fuel(decimal_text, 5);
        }
        match self {
            OrderBookLimit::N5 => {
                proof {
                    reveal_strlit("5");
                    assert(decimal_text(5) =~= "5"@);
                }
                "5"
            },
            OrderBookLimit::N10 => {
                proof {
                    reveal_strlit("10");
                    assert(decimal_text(10) =~= "10"@);
                }
                "10"
            },
            OrderBookLimit::N20 => {
                proof {
                    reveal_strlit("20");
                    assert(decimal_text(20) =~= "20"@);
                }
                "20"
            },
            OrderBookLimit::N50 => {
                proof {
                    reveal_strlit("50");
                    assert(decimal_text(50) =~= "50"@);
                }
                "50"
            },
            OrderBookLimit::N100 => {
                proof {
                    reveal_strlit("100");
                    assert(decimal_text(100) =~= "100"@);
                }
                "100"
            },
            OrderBookLimit::N500 => {
                proof {
                    reveal_strlit("500");
                    assert(decimal_text(500) =~= "500"@);
                }
                "500"
            },
            OrderBookLimit::N1000 => {
                proof {
                    reveal_strlit("1000");
                    assert(decimal_text(1000) =~= "1000"@);
                }
                "1000"
            },
            OrderBookLimit::N5000 => {
                proof {
                    reveal_strlit("5000");
                    assert(decimal_text(5000) =~= "5000"@);
                }
                "5000"
            },
        }
    }
}

/// The order book as the spot API returns it.
#[derive(Debug, Clone)]
pub struct SpotOrderBook {
    pub last_update_id: u64,
    pub bids: Vec<Bid>,
    pub asks: Vec<Ask>,
}

impl From<SpotOrderBook> for OrderBook {
    fn from(book: SpotOrderBook) -> (r: OrderBook) {
        OrderBook { last_update_id: book.last_update_id, bids: book.bids, asks: book.asks }
    }
}

impl vstd::std_specs::convert::FromSpecImpl<SpotOrderBook> for OrderBook {
    open spec fn obeys_from_spec() -> bool {
        true
    }

    open spec fn from_spec(book: SpotOrderBook) -> OrderBook {
        OrderBook { last_update_id: book.last_update_id, bids: book.bids, asks: book.asks }
    }
}

/// One public trade.
#[derive(Debug, Copy, Clone)]
pub struct Trade {
    pub id: u64,
    pub price: Decimal,
    pub qty: Decimal,
    pub quote_qty: Decimal,
    pub time: u64,
    pub is_buyer_maker: bool,
    pub is_best_match: bool,
}

/// Trades at one price and time from one taker order, aggregated.
#[derive(Debug, Copy, Clone)]
pub struct AggTrade {
    pub id: u64,
    pub price: Decimal,
    pub qty: Decimal,
    pub first_trade_id: u64,
    pub last_trade_id: u64,
    pub time: u64,
    pub is_buyer_maker: bool,
    pub is_best_match: bool,
}

/// One candlestick bar.
#[derive(Debug, Copy, Clone)]
pub struct Kline {
    pub open_time: u64,
    pub open: Decimal,
    pub high: Decimal,
    pub low: Decimal,
    pub close: Decimal,
    pub volume: Decimal,
    pub close_time: u64,
    pub quote_asset_volume: Decimal,
    pub number_of_trades: u64,
    pub taker_buy_base_asset_volume: Decimal,
    pub taker_buy_quote_asset_volume: Decimal,
    pub ignore: Decimal,
}

/// Average price over the last `mins` minutes.
#[derive(Debug, Copy, Clone)]
pub struct AvgPrice {
    pub mins: u32,
    pub price: Decimal,
}

/// Price change statistics over a rolling 24-hour window.
#[derive(Debug, Clone)]
pub struct TickerStats {
    pub symbol: String,
    pub price_change: Decimal,
    pub price_change_percent: Decimal,
    pub weighted_avg_price: Decimal,
    pub prev_close_price: Decimal,
    pub last_price: Decimal,
    pub last_qty: Decimal,
    pub bid_price: Decimal,
    pub ask_price: Decimal,
    pub open_price: Decimal,
    pub high_price: Decimal,
    pub low_price: Decimal,
    pub volume: Decimal,
    pub quote_volume: Decimal,
    pub open_time: u64,
    pub close_time: u64,
    pub first_id: i64,
    pub last_id: i64,
    pub count: u64,
}

/// Latest price of a symbol.
#[derive(Debug, Clone)]
pub struct PriceTicker {
    pub symbol: String,
    pub price: Decimal,
}

/// Best bid and ask of a symbol.
#[derive(Debug, Clone)]
pub struct BookTicker {
    pub symbol: String,
    pub bid_price: Decimal,
    pub bid_qty: Decimal,
    pub ask_price: Decimal,
    pub ask_qty: Decimal,
}

/// Key of a user data stream.
#[derive(Debug, Clone, PartialEq, Eq)]
pub struct ListenKey {
    pub listen_key: String,
}

} // verus!
