//! Value types shared by the feed connector and the broadcast broker.

use vstd::prelude::*;

use crate::decimal::{Decimal, WideDecimal};

verus! {

/// An enumerated currency/asset code. Identity-only: no invariant beyond
/// membership in the known set.
#[derive(Copy, Clone, Debug, PartialEq, Eq, Structural)]
pub enum Symbol {
    BTC,
    ETH,
    SOL,
    USDT,
    XRP,
}

impl Symbol {
    /// The canonical upper-case code of this symbol.
    pub open spec fn spec_str(self) -> Seq<char> {
        match self {
            Symbol::BTC => "BTC"@,
            Symbol::ETH => "ETH"@,
            Symbol::SOL => "SOL"@,
            Symbol::USDT => "USDT"@,
            Symbol::XRP => "XRP"@,
        }
    }

    /// The lower-case code of this symbol, as it appears in channel names.
    pub open spec fn spec_lower_str(self) -> Seq<char> {
        match self {
            Symbol::BTC => "btc"@,
            Symbol::ETH => "eth"@,
            Symbol::SOL => "sol"@,
            Symbol::USDT => "usdt"@,
            Symbol::XRP => "xrp"@,
        }
    }

    pub fn as_str(&self) -> (r: &'static str)
        ensures
            r@ == self.spec_str(),
    {
        match self {
            Symbol::BTC => "BTC",
            Symbol::ETH => "ETH",
            Symbol::SOL => "SOL",
            Symbol::USDT => "USDT",
            Symbol::XRP => "XRP",
        }
    }

    pub fn as_lower_str(&self) -> (r: &'static str)
        ensures
            r@ == self.spec_lower_str(),
    {
        match self {
            Symbol::BTC => "btc",
            Symbol::ETH => "eth",
            Symbol::SOL => "sol",
            Symbol::USDT => "usdt",
            Symbol::XRP => "xrp",
        }
    }
}

/// The base symbol of a trading pair: what is bought or sold.
pub struct BaseSymbol(pub Symbol);

/// The quote symbol of a trading pair: the unit the price is stated in.
pub struct QuoteSymbol(pub Symbol);

/// An enumerated market identifier; one variant per supported exchange.
#[derive(Copy, Clone, Debug, PartialEq, Eq, Structural)]
pub enum Venue {
    BinanceSpot,
}

/// Which side of a trade initiated it (consumed existing liquidity).
#[derive(Copy, Clone, Debug, PartialEq, Eq, Structural)]
pub enum Taker {
    Buyer,
    Seller,
}

/// The base symbols a consumer may ask a feed for; the quote side is
/// always the venue's USDT market.
#[derive(Copy, Clone, Debug, PartialEq, Eq, Structural)]
pub enum ValidBaseSymInputs {
    BTC,
    ETH,
    SOL,
    XRP,
}

impl core::convert::From<ValidBaseSymInputs> for Symbol {
    fn from(value: ValidBaseSymInputs) -> (r: Symbol) {
        match value {
            ValidBaseSymInputs::BTC => Symbol::BTC,
            ValidBaseSymInputs::ETH => Symbol::ETH,
            ValidBaseSymInputs::SOL => Symbol::SOL,
            ValidBaseSymInputs::XRP => Symbol::XRP,
        }
    }
}

impl vstd::std_specs::convert::FromSpecImpl<ValidBaseSymInputs> for Symbol {
    open spec fn obeys_from_spec() -> bool {
        true
    }

    open spec fn from_spec(value: ValidBaseSymInputs) -> Symbol {
        match value {
            ValidBaseSymInputs::BTC => Symbol::BTC,
            ValidBaseSymInputs::ETH => Symbol::ETH,
            ValidBaseSymInputs::SOL => Symbol::SOL,
            ValidBaseSymInputs::XRP => Symbol::XRP,
        }
    }
}

/// An event time: milliseconds since the Unix epoch, UTC.
#[derive(Copy, Clone, Debug, PartialEq, Eq, Structural)]
pub struct Timestamp {
    pub millis: i64,
}

/// The normalized unit of distribution: one trade, venue-agnostic.
/// Immutable and cheaply copyable; it carries no identity beyond its field
/// values (no sequence number), so duplicate detection is out of scope.
#[derive(Copy, Clone, Debug, PartialEq, Eq, Structural)]
pub struct SpotTrade {
    pub venue: Venue,
    pub taker: Taker,
    pub base_sym: Symbol,
    pub quote_sym: Symbol,
    pub base_qty: Decimal,
    pub price: Decimal,
    pub ts: Timestamp,
}

impl SpotTrade {
    /// A well-formed trade has a strictly positive price and a timestamp at
    /// or after the Unix epoch.
    pub open spec fn wf(self) -> bool {
        self.price.mantissa > 0 && self.ts.millis >= 0
    }

    /// The exact quote-asset quantity: base quantity times price. With the
    /// decimal representation `mantissa / 10^scale`, the product's mantissa
    /// is the product of the mantissas and its scale is the sum of the
    /// scales, so the returned value equals the real-number product exactly.
    pub fn quote_qty(&self) -> (r: WideDecimal)
        ensures
            r.mantissa == self.base_qty.mantissa * self.price.mantissa,
            r.scale == self.base_qty.scale + self.price.scale,
    {
        proof {
            assert(self.base_qty.mantissa as int * self.price.mantissa as int <= u64::MAX as int
                * u64::MAX as int) by (nonlinear_arith)
                requires
                    self.base_qty.mantissa <= u64::MAX,
                    self.price.mantissa <= u64::MAX,
            ;
        }
        let m: u128 = (self.base_qty.mantissa as u128) * (self.price.mantissa as u128);
        let sc: u64 = (self.base_qty.scale as u64) + (self.price.scale as u64);
        WideDecimal { mantissa: m, scale: sc }
    }
}

} // verus!
