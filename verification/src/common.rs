//! Enumerations shared by several endpoint families.

use vstd::prelude::*;

verus! {

/// Sort direction of a listing request.
#[derive(Clone, Debug, PartialEq, Eq, Structural)]
pub enum Sort {
    /// Ascending by submission time.
    Ascending,
    /// Descending by submission time.
    Descending,
}

impl Default for Sort {
    fn default() -> (r: Self)
        ensures
            r == Sort::Descending,
    {
        Sort::Descending
    }
}

impl Sort {
    /// Wire token of the direction, as it appears in query strings.
    pub fn wire_name(&self) -> (r: &'static str)
        ensures
            r@ == self.spec_wire_name(),
    {
        proof {
            reveal_strlit("asc");
            reveal_strlit("desc");
        }
        match self {
            Sort::Ascending => "asc",
            Sort::Descending => "desc",
        }
    }

    /// Wire token of the direction.
    pub open spec fn spec_wire_name(&self) -> Seq<char> {
        match self {
            Sort::Ascending => "asc"@,
            Sort::Descending => "desc"@,
        }
    }
}

/// Class of a tradable asset.
#[derive(Clone, Copy, Debug, PartialEq, Eq, Hash, Structural)]
pub enum AssetClass {
    /// United States equities.
    UsEquity,
    /// Crypto assets.
    Crypto,
}

impl AssetClass {
    /// The wire token of the class, in snake case.
    pub open spec fn spec_wire_name(&self) -> Seq<char> {
        match self {
            AssetClass::UsEquity => "us_equity"@,
            AssetClass::Crypto => "crypto"@,
        }
    }

    /// The wire token of the class.
    pub fn wire_name(&self) -> (r: &'static str)
        ensures
            r@ == self.spec_wire_name(),
    {
        match self {
            AssetClass::UsEquity => "us_equity",
            AssetClass::Crypto => "crypto",
        }
    }

    /// What a wire token means.
    pub open spec fn spec_from_wire(s: Seq<char>) -> Option<AssetClass> {
        if s == "us_equity"@ {
            Some(AssetClass::UsEquity)
        } else if s == "crypto"@ {
            Some(AssetClass::Crypto)
        } else {
            None
        }
    }

    /// Reads a wire token.
    pub fn from_wire(s: &str) -> (r: Option<AssetClass>)
        ensures
            r == Self::spec_from_wire(s@),
    {
        if crate::strutil::str_eq(s, "us_equity") {
            Some(AssetClass::UsEquity)
        } else if crate::strutil::str_eq(s, "crypto") {
            Some(AssetClass::Crypto)
        } else {
            None
        }
    }
}

/// A wire token reads back as the asset class it was written from.
pub proof fn lemma_asset_class_wire_round_trip(c: AssetClass)
    ensures
        AssetClass::spec_from_wire(c.spec_wire_name()) == Some(c),
{
    reveal_strlit("us_equity");
    reveal_strlit("crypto");
    assert("crypto"@.len() == 6);
    assert("us_equity"@.len() == 9);
    match c {
        AssetClass::UsEquity => {
            assert(AssetClass::spec_from_wire("us_equity"@) == Some(AssetClass::UsEquity));
        },
        AssetClass::Crypto => {
            assert("crypto"@ != "us_equity"@);
            assert(AssetClass::spec_from_wire("crypto"@) == Some(AssetClass::Crypto));
        },
    }
}

/// The exchanges assets list on.  Exchange codes travel in upper case,
/// unlike every other enum of the protocol.
#[derive(Clone, Copy, Debug, PartialEq, Eq, Hash, Structural)]
pub enum Exchange {
    /// American Stock Exchange.
    Amex,
    /// Arca.
    Arca,
    /// BATS.
    Bats,
    /// New York Stock Exchange.
    Nyse,
    /// NASDAQ.
    Nasdaq,
    /// NYSE Arca.
    NyseArca,
    /// Over the counter.
    Otc,
    /// ErisX, crypto only.
    ErisX,
}

impl Exchange {
    /// The wire token of the exchange, in upper case.
    pub open spec fn spec_wire_name(&self) -> Seq<char> {
        match self {
            Exchange::Amex => "AMEX"@,
            Exchange::Arca => "ARCA"@,
            Exchange::Bats => "BATS"@,
            Exchange::Nyse => "NYSE"@,
            Exchange::Nasdaq => "NASDAQ"@,
            Exchange::NyseArca => "NYSEARCA"@,
            Exchange::Otc => "OTC"@,
            Exchange::ErisX => "ERISX"@,
        }
    }

    /// The wire token of the exchange.
    pub fn wire_name(&self) -> (r: &'static str)
        ensures
            r@ == self.spec_wire_name(),
    {
        match self {
            Exchange::Amex => "AMEX",
            Exchange::Arca => "ARCA",
            Exchange::Bats => "BATS",
            Exchange::Nyse => "NYSE",
            Exchange::Nasdaq => "NASDAQ",
            Exchange::NyseArca => "NYSEARCA",
            Exchange::Otc => "OTC",
            Exchange::ErisX => "ERISX",
        }
    }

    /// What a wire token means.
    pub open spec fn spec_from_wire(s: Seq<char>) -> Option<Exchange> {
        if s == "AMEX"@ {
            Some(Exchange::Amex)
        } else if s == "ARCA"@ {
            Some(Exchange::Arca)
        } else if s == "BATS"@ {
            Some(Exchange::Bats)
        } else if s == "NYSE"@ {
            Some(Exchange::Nyse)
        } else if s == "NASDAQ"@ {
            Some(Exchange::Nasdaq)
        } else if s == "NYSEARCA"@ {
            Some(Exchange::NyseArca)
        } else if s == "OTC"@ {
            Some(Exchange::Otc)
        } else if s == "ERISX"@ {
            Some(Exchange::ErisX)
        } else {
            None
        }
    }

    /// Reads a wire token.
    pub fn from_wire(s: &str) -> (r: Option<Exchange>)
        ensures
            r == Self::spec_from_wire(s@),
    {
        if crate::strutil::str_eq(s, "AMEX") {
            Some(Exchange::Amex)
        } else if crate::strutil::str_eq(s, "ARCA") {
            Some(Exchange::Arca)
        } else if crate::strutil::str_eq(s, "BATS") {
            Some(Exchange::Bats)
        } else if crate::strutil::str_eq(s, "NYSE") {
            Some(Exchange::Nyse)
        } else if crate::strutil::str_eq(s, "NASDAQ") {
            Some(Exchange::Nasdaq)
        } else if crate::strutil::str_eq(s, "NYSEARCA") {
            Some(Exchange::NyseArca)
        } else if crate::strutil::str_eq(s, "OTC") {
            Some(Exchange::Otc)
        } else if crate::strutil::str_eq(s, "ERISX") {
            Some(Exchange::ErisX)
        } else {
            None
        }
    }
}

/// A wire code reads back as the exchange it was written from.
pub proof fn lemma_exchange_wire_round_trip(x: Exchange)
    ensures
        Exchange::spec_from_wire(x.spec_wire_name()) == Some(x),
{
    reveal_strlit("AMEX");
    assert(("AMEX"@).len() == 4);
    reveal_strlit("ARCA");
    assert(("ARCA"@).len() == 4);
    reveal_strlit("BATS");
    assert(("BATS"@).len() == 4);
    reveal_strlit("NYSE");
    assert(("NYSE"@).len() == 4);
    reveal_strlit("NASDAQ");
    assert(("NASDAQ"@).len() == 6);
    reveal_strlit("NYSEARCA");
    assert(("NYSEARCA"@).len() == 8);
    reveal_strlit("OTC");
    assert(("OTC"@).len() == 3);
    reveal_strlit("ERISX");
    assert(("ERISX"@).len() == 5);
    match x {
        Exchange::Amex => {
            assert(Exchange::spec_from_wire("AMEX"@) == Some(Exchange::Amex));
        },
        Exchange::Arca => {
            assert(("ARCA"@)[1] != ("AMEX"@)[1]);
            assert(Exchange::spec_from_wire("ARCA"@) == Some(Exchange::Arca));
        },
        Exchange::Bats => {
            assert(("BATS"@)[0] != ("AMEX"@)[0]);
            assert(("BATS"@)[0] != ("ARCA"@)[0]);
            assert(Exchange::spec_from_wire("BATS"@) == Some(Exchange::Bats));
        },
        Exchange::Nyse => {
            assert(("NYSE"@)[0] != ("AMEX"@)[0]);
            assert(("NYSE"@)[0] != ("ARCA"@)[0]);
            assert(("NYSE"@)[0] != ("BATS"@)[0]);
            assert(Exchange::spec_from_wire("NYSE"@) == Some(Exchange::Nyse));
        },
        Exchange::Nasdaq => {
            assert(Exchange::spec_from_wire("NASDAQ"@) == Some(Exchange::Nasdaq));
        },
        Exchange::NyseArca => {
            assert(Exchange::spec_from_wire("NYSEARCA"@) == Some(Exchange::NyseArca));
        },
        Exchange::Otc => {
            assert(Exchange::spec_from_wire("OTC"@) == Some(Exchange::Otc));
        },
        Exchange::ErisX => {
            assert(Exchange::spec_from_wire("ERISX"@) == Some(Exchange::ErisX));
        },
    }
}

} // verus!
