//! Tariff regions and the request URLs built from them.
use vstd::prelude::*;
use vstd::string::StrSliceExecFns;
use vstd::string::StringExecFns;
use crate::error::AppError;
use crate::time::day_of;
use crate::time::day_of_instant;
use crate::time::instant_text;
use crate::time::rfc3339_text;
use crate::time::SECONDS_PER_DAY;

verus! {

/// One of the fourteen electricity distribution regions, by its one-letter code.
#[derive(Clone, Copy, Debug, PartialEq, Eq, Hash, Structural)]
pub enum Region {
    A,
    B,
    C,
    D,
    E,
    F,
    G,
    H,
    J,
    K,
    L,
    M,
    N,
    P,
}

/// The upper-case code letter of a region.
pub open spec fn region_letter(r: Region) -> char {
    match r {
        Region::A => 'A',
        Region::B => 'B',
        Region::C => 'C',
        Region::D => 'D',
        Region::E => 'E',
        Region::F => 'F',
        Region::G => 'G',
        Region::H => 'H',
        Region::J => 'J',
        Region::K => 'K',
        Region::L => 'L',
        Region::M => 'M',
        Region::N => 'N',
        Region::P => 'P',
    }
}

/// The name of the area that a region covers.
pub open spec fn region_name(r: Region) -> Seq<char> {
    match r {
        Region::A => "Eastern England"@,
        Region::B => "East Midlands"@,
        Region::C => "London"@,
        Region::D => "Merseyside and Northern Wales"@,
        Region::E => "West Midlands"@,
        Region::F => "North Eastern England"@,
        Region::G => "North Western England"@,
        Region::H => "Southern England"@,
        Region::J => "South Eastern England"@,
        Region::K => "Southern Wales"@,
        Region::L => "South Western England"@,
        Region::M => "Yorkshire"@,
        Region::N => "Southern Scotland"@,
        Region::P => "Northern Scotland"@,
    }
}

/// The region whose code is the letter `c`, in either case.
pub open spec fn region_of_char(c: char) -> Option<Region> {
    if c == 'A' || c == 'a' {
        Some(Region::A)
    } else if c == 'B' || c == 'b' {
        Some(Region::B)
    } else if c == 'C' || c == 'c' {
        Some(Region::C)
    } else if c == 'D' || c == 'd' {
        Some(Region::D)
    } else if c == 'E' || c == 'e' {
        Some(Region::E)
    } else if c == 'F' || c == 'f' {
        Some(Region::F)
    } else if c == 'G' || c == 'g' {
        Some(Region::G)
    } else if c == 'H' || c == 'h' {
        Some(Region::H)
    } else if c == 'J' || c == 'j' {
        Some(Region::J)
    } else if c == 'K' || c == 'k' {
        Some(Region::K)
    } else if c == 'L' || c == 'l' {
        Some(Region::L)
    } else if c == 'M' || c == 'm' {
        Some(Region::M)
    } else if c == 'N' || c == 'n' {
        Some(Region::N)
    } else if c == 'P' || c == 'p' {
        Some(Region::P)
    } else {
        None
    }
}

/// The region that a code text names: a single letter, in either case.
pub open spec fn region_of_code(s: Seq<char>) -> Option<Region> {
    if s.len() == 1 {
        region_of_char(s[0])
    } else {
        None
    }
}

/// The fourteen regions in code order.
pub open spec fn all_regions() -> Seq<Region> {
    seq![
        Region::A,
        Region::B,
        Region::C,
        Region::D,
        Region::E,
        Region::F,
        Region::G,
        Region::H,
        Region::J,
        Region::K,
        Region::L,
        Region::M,
        Region::N,
        Region::P,
    ]
}

impl Default for Region {
    /// London.
    fn default() -> (r: Region)
        ensures
            r == Region::C,
    {
        Region::C
    }
}

impl Region {
    /// Every region, in code order.
    pub fn all() -> (r: Vec<Region>)
        ensures
            r@ == all_regions(),
    {
        let r = vec![
            Region::A,
            Region::B,
            Region::C,
            Region::D,
            Region::E,
            Region::F,
            Region::G,
            Region::H,
            Region::J,
            Region::K,
            Region::L,
            Region::M,
            Region::N,
            Region::P,
        ];
        assert(r@ =~= all_regions());
        r
    }

    /// The one-letter code, upper case.
    pub fn code(&self) -> (r: &'static str)
        ensures
            r@ == seq![region_letter(*self)],
    {
        proof {
            reveal_strlit("A");
            reveal_strlit("B");
            reveal_strlit("C");
            reveal_strlit("D");
            reveal_strlit("E");
            reveal_strlit("F");
            reveal_strlit("G");
            reveal_strlit("H");
            reveal_strlit("J");
            reveal_strlit("K");
            reveal_strlit("L");
            reveal_strlit("M");
            reveal_strlit("N");
            reveal_strlit("P");
        }
        let r = match self {
            Region::A => "A",
            Region::B => "B",
            Region::C => "C",
            Region::D => "D",
            Region::E => "E",
            Region::F => "F",
            Region::G => "G",
            Region::H => "H",
            Region::J => "J",
            Region::K => "K",
            Region::L => "L",
            Region::M => "M",
            Region::N => "N",
            Region::P => "P",
        };
        assert(r@ =~= seq![region_letter(*self)]);
        r
    }

    /// The name of the area the region covers.
    pub fn description(&self) -> (r: &'static str)
        ensures
            r@ == region_name(*self),
    {
        match self {
            Region::A => "Eastern England",
            Region::B => "East Midlands",
            Region::C => "London",
            Region::D => "Merseyside and Northern Wales",
            Region::E => "West Midlands",
            Region::F => "North Eastern England",
            Region::G => "North Western England",
            Region::H => "Southern England",
            Region::J => "South Eastern England",
            Region::K => "Southern Wales",
            Region::L => "South Western England",
            Region::M => "Yorkshire",
            Region::N => "Southern Scotland",
            Region::P => "Northern Scotland",
        }
    }

    /// Reads a region code: one letter of the fourteen, in either case; any
    /// other text is a configuration error.
    pub fn from_code(s: &str) -> (r: Result<Region, AppError>)
        ensures
            match region_of_code(s@) {
                Some(g) => r == Ok::<Region, AppError>(g),
                None => r matches Err(AppError::ConfigError(m)) && m@ == "Invalid region code: "@
                    + s@,
            },
    {
        if s.unicode_len() != 1 {
            return Err(AppError::ConfigError(String::from_str("Invalid region code: ").concat(s)));
        }
        let c = s.get_char(0);
        if c == 'A' || c == 'a' {
            Ok(Region::A)
        } else if c == 'B' || c == 'b' {
            Ok(Region::B)
        } else if c == 'C' || c == 'c' {
            Ok(Region::C)
        } else if c == 'D' || c == 'd' {
            Ok(Region::D)
        } else if c == 'E' || c == 'e' {
            Ok(Region::E)
        } else if c == 'F' || c == 'f' {
            Ok(Region::F)
        } else if c == 'G' || c == 'g' {
            Ok(Region::G)
        } else if c == 'H' || c == 'h' {
            Ok(Region::H)
        } else if c == 'J' || c == 'j' {
            Ok(Region::J)
        } else if c == 'K' || c == 'k' {
            Ok(Region::K)
        } else if c == 'L' || c == 'l' {
            Ok(Region::L)
        } else if c == 'M' || c == 'm' {
            Ok(Region::M)
        } else if c == 'N' || c == 'n' {
            Ok(Region::N)
        } else if c == 'P' || c == 'p' {
            Ok(Region::P)
        } else {
            Err(AppError::ConfigError(String::from_str("Invalid region code: ").concat(s)))
        }
    }
}

impl std::str::FromStr for Region {
    type Err = AppError;

    fn from_str(s: &str) -> Result<Region, AppError> {
        Region::from_code(s)
    }
}

/// Where the tariff's unit rates are published.
#[derive(Debug, Clone, PartialEq)]
pub struct ApiConfig {
    /// The products endpoint, without a trailing slash.
    pub base_url: String,
    /// The tariff product, as `AGILE-24-10-01`.
    pub product_code: String,
    pub region: Region,
}

/// `{base}/{product}/electricity-tariffs/E-1R-{product}-{region}/standard-unit-rates/`
pub open spec fn rates_path(base: Seq<char>, product: Seq<char>, region: Region) -> Seq<char> {
    base + "/"@ + product + "/electricity-tariffs/E-1R-"@ + product + "-"@ + seq![region_letter(region)]
        + "/standard-unit-rates/"@
}

/// The rates URL restricted to the window `[from, to)`, both written as text.
pub open spec fn window_query(path: Seq<char>, from: Seq<char>, to: Seq<char>) -> Seq<char> {
    path + "?period_from="@ + from + "&period_to="@ + to
}

/// The window of a live fetch for instant `now`: today and tomorrow.
pub open spec fn live_window(now: int) -> (int, int) {
    (day_of(now) * 86400, (day_of(now) + 2) * 86400)
}

/// The window of a historical fetch for instant `now`: the `days` days before today.
pub open spec fn history_window(now: int, days: int) -> (int, int) {
    ((day_of(now) - days) * 86400, day_of(now) * 86400)
}

impl ApiConfig {
    /// The Agile tariff of October 2024, in London.
    pub fn new() -> (r: ApiConfig)
        ensures
            r.base_url@ == "https://api.octopus.energy/v1/products"@,
            r.product_code@ == "AGILE-24-10-01"@,
            r.region == Region::C,
    {
        ApiConfig {
            base_url: String::from_str("https://api.octopus.energy/v1/products"),
            product_code: String::from_str("AGILE-24-10-01"),
            region: Region::C,
        }
    }

    /// The same tariff in another region.
    pub fn with_region(self, region: Region) -> (r: ApiConfig)
        ensures
            r.base_url == self.base_url,
            r.product_code == self.product_code,
            r.region == region,
    {
        ApiConfig { region, ..self }
    }

    /// The URL of the tariff's unit rates in the configured region.
    pub fn url(&self) -> (r: String)
        ensures
            r@ == rates_path(self.base_url@, self.product_code@, self.region),
    {
        let mut out = self.base_url.clone();
        out.append("/");
        out.append(self.product_code.as_str());
        out.append("/electricity-tariffs/E-1R-");
        out.append(self.product_code.as_str());
        out.append("-");
        out.append(self.region.code());
        out.append("/standard-unit-rates/");
        assert(out@ =~= rates_path(self.base_url@, self.product_code@, self.region));
        out
    }

    /// The URL of the unit rates between two instants given as text.
    pub fn window_url(&self, from: &str, to: &str) -> (r: String)
        ensures
            r@ == window_query(rates_path(self.base_url@, self.product_code@, self.region), from@, to@),
    {
        let mut out = self.url();
        out.append("?period_from=");
        out.append(from);
        out.append("&period_to=");
        out.append(to);
        assert(out@ =~= window_query(
            rates_path(self.base_url@, self.product_code@, self.region),
            from@,
            to@,
        ));
        out
    }

    /// The URL of today's and tomorrow's rates (UTC), for instant `now`.
    pub fn live_url(&self, now: i64) -> (r: String)
        requires
            i64::MIN + SECONDS_PER_DAY <= now <= i64::MAX - 2 * SECONDS_PER_DAY,
        ensures
            r@ == window_query(
                rates_path(self.base_url@, self.product_code@, self.region),
                rfc3339_text(live_window(now as int).0 as i64),
                rfc3339_text(live_window(now as int).1 as i64),
            ),
    {
        let today = day_of_instant(now);
        assert(today * 86400 <= now < (today + 1) * 86400 && (today + 2) * 86400 <= i64::MAX) by (nonlinear_arith)
            requires
                today == now as int / 86400,
                now <= i64::MAX - 2 * 86400,
        {
            vstd::arithmetic::div_mod::lemma_fundamental_div_mod(now as int, 86400);
        }
        assert(today * 86400 >= i64::MIN) by (nonlinear_arith)
            requires
                today == now as int / 86400,
                now >= i64::MIN + 86400,
        {
            vstd::arithmetic::div_mod::lemma_fundamental_div_mod(now as int, 86400);
        }
        let from = today * SECONDS_PER_DAY;
        let to = (today + 2) * SECONDS_PER_DAY;
        self.window_url(instant_text(from).as_str(), instant_text(to).as_str())
    }

    /// The URL of the rates of the `days` days before today (UTC), for instant `now`.
    pub fn historical_url(&self, now: i64, days: u32) -> (r: String)
        requires
            now >= i64::MIN + (days + 1) * SECONDS_PER_DAY,
        ensures
            r@ == window_query(
                rates_path(self.base_url@, self.product_code@, self.region),
                rfc3339_text(history_window(now as int, days as int).0 as i64),
                rfc3339_text(history_window(now as int, days as int).1 as i64),
            ),
    {
        let today = day_of_instant(now);
        assert((today - days) * 86400 >= i64::MIN && today * 86400 <= now) by (nonlinear_arith)
            requires
                today == now as int / 86400,
                now >= i64::MIN + (days + 1) * 86400,
        {
            vstd::arithmetic::div_mod::lemma_fundamental_div_mod(now as int, 86400);
        }
        let from = (today - days as i64) * SECONDS_PER_DAY;
        let to = today * SECONDS_PER_DAY;
        self.window_url(instant_text(from).as_str(), instant_text(to).as_str())
    }
}

} // verus!
