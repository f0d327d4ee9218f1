//! The company data model: the external record as the ingestion pipeline
//! sees it, the store row it becomes, the exchange-code classification, the
//! listing-date grammar, and the store's upsert-on-conflict behaviour —
//! insert a fresh row for a new symbol, refresh only the restricted column
//! subset for an existing one.

use vstd::prelude::*;
use crate::error::{Error, ErrorType};
use crate::images::Branding;
use crate::text::{
    all_digits, digit_char, digit_val, digits_value, append_digit, eq_str, is_digit_char,
    lemma_digits_value_bound, parse_digits_range, pow10,
};

verus! {

/// The exchanges the service recognizes.
#[derive(Clone, Copy, PartialEq, Eq, Structural, Debug)]
pub enum ExchangeCode {
    XNYS,
    XNAS,
    ARCX,
    BATS,
    XASE,
}

impl ExchangeCode {
    /// The human-readable exchange name.
    pub open spec fn spec_name(self) -> Seq<char> {
        match self {
            ExchangeCode::XNYS => "New York Stock Exchange"@,
            ExchangeCode::XNAS => "Nasdaq"@,
            ExchangeCode::ARCX => "NYSE Arca"@,
            ExchangeCode::BATS => "Cboe BZX Exchange"@,
            ExchangeCode::XASE => "NYSE American"@,
        }
    }

    /// The ISO market identifier code.
    pub open spec fn spec_iso_code(self) -> Seq<char> {
        match self {
            ExchangeCode::XNYS => "XNYS"@,
            ExchangeCode::XNAS => "XNAS"@,
            ExchangeCode::ARCX => "ARCX"@,
            ExchangeCode::BATS => "BATS"@,
            ExchangeCode::XASE => "XASE"@,
        }
    }

    pub fn name(&self) -> (r: &str)
        ensures
            r@ == self.spec_name(),
    {
        match self {
            ExchangeCode::XNYS => "New York Stock Exchange",
            ExchangeCode::XNAS => "Nasdaq",
            ExchangeCode::ARCX => "NYSE Arca",
            ExchangeCode::BATS => "Cboe BZX Exchange",
            ExchangeCode::XASE => "NYSE American",
        }
    }

    pub fn iso_code(&self) -> (r: &str)
        ensures
            r@ == self.spec_iso_code(),
    {
        match self {
            ExchangeCode::XNYS => "XNYS",
            ExchangeCode::XNAS => "XNAS",
            ExchangeCode::ARCX => "ARCX",
            ExchangeCode::BATS => "BATS",
            ExchangeCode::XASE => "XASE",
        }
    }
}

/// The exchange an external record's exchange code designates; anything
/// unrecognized is classified as the New York Stock Exchange.
pub open spec fn spec_exchange_from(code: Seq<char>) -> ExchangeCode {
    if code == "XNAS"@ {
        ExchangeCode::XNAS
    } else if code == "ARCX"@ {
        ExchangeCode::ARCX
    } else if code == "BATS"@ {
        ExchangeCode::BATS
    } else if code == "XASE"@ {
        ExchangeCode::XASE
    } else {
        ExchangeCode::XNYS
    }
}

impl From<String> for ExchangeCode {
    fn from(code: String) -> (r: ExchangeCode) {
        if eq_str(code.as_str(), "XNAS") {
            ExchangeCode::XNAS
        } else if eq_str(code.as_str(), "ARCX") {
            ExchangeCode::ARCX
        } else if eq_str(code.as_str(), "BATS") {
            ExchangeCode::BATS
        } else if eq_str(code.as_str(), "XASE") {
            ExchangeCode::XASE
        } else {
            ExchangeCode::XNYS
        }
    }
}

impl vstd::std_specs::convert::FromSpecImpl<String> for ExchangeCode {
    open spec fn obeys_from_spec() -> bool {
        true
    }

    open spec fn from_spec(code: String) -> ExchangeCode {
        spec_exchange_from(code@)
    }
}

/// Leap years of the Gregorian calendar.
pub open spec fn is_leap_year(y: int) -> bool {
    y % 4 == 0 && (y % 100 != 0 || y % 400 == 0)
}

/// How many days the month `m` of year `y` has.
pub open spec fn spec_days_in_month(y: int, m: int) -> int {
    if m == 2 {
        if is_leap_year(y) {
            29
        } else {
            28
        }
    } else if m == 4 || m == 6 || m == 9 || m == 11 {
        30
    } else {
        31
    }
}

pub fn days_in_month(y: u32, m: u8) -> (r: u8)
    ensures
        r as int == spec_days_in_month(y as int, m as int),
{
    if m == 2 {
        if y % 4 == 0 && (y % 100 != 0 || y % 400 == 0) {
            29
        } else {
            28
        }
    } else if m == 4 || m == 6 || m == 9 || m == 11 {
        30
    } else {
        31
    }
}

/// A calendar date, held as plain numbers.
#[derive(Clone, Copy, PartialEq, Eq, Structural, Debug)]
pub struct Date {
    pub year: u32,
    pub month: u8,
    pub day: u8,
}

impl Date {
    /// A real Gregorian date with a four-digit year.
    pub open spec fn wf(self) -> bool {
        &&& self.year <= 9999
        &&& 1 <= self.month <= 12
        &&& 1 <= self.day <= spec_days_in_month(self.year as int, self.month as int)
    }

    /// The runtime check for `wf`, for callers outside the library.
    pub fn is_wf(&self) -> (r: bool)
        ensures
            r == self.wf(),
    {
        self.year <= 9999 && 1 <= self.month && self.month <= 12 && 1 <= self.day && self.day
            <= days_in_month(self.year, self.month)
    }
}

/// The listing-date grammar: `YYYY-MM-DD` with a real Gregorian date.
pub open spec fn valid_date_string(s: Seq<char>) -> bool {
    &&& s.len() == 10
    &&& all_digits(s.subrange(0, 4))
    &&& s[4] == '-'
    &&& all_digits(s.subrange(5, 7))
    &&& s[7] == '-'
    &&& all_digits(s.subrange(8, 10))
    &&& 1 <= digits_value(s.subrange(5, 7)) <= 12
    &&& 1 <= digits_value(s.subrange(8, 10)) <= spec_days_in_month(
        digits_value(s.subrange(0, 4)) as int,
        digits_value(s.subrange(5, 7)) as int,
    )
}

/// The date a valid date string denotes.
pub open spec fn date_of_string(s: Seq<char>) -> Date {
    Date {
        year: digits_value(s.subrange(0, 4)) as u32,
        month: digits_value(s.subrange(5, 7)) as u8,
        day: digits_value(s.subrange(8, 10)) as u8,
    }
}

/// Parses a listing date of the shape `YYYY-MM-DD`. Anything else — wrong
/// length, wrong separators, non-digits, or a day that does not exist in
/// that month — is a parse error.
pub fn parse_list_date(s: &str) -> (r: Result<Date, Error>)
    ensures
        r is Ok <==> valid_date_string(s@),
        r matches Ok(d) ==> d == date_of_string(s@) && d.wf(),
        r matches Err(e) ==> e.error_type == ErrorType::ParseError,
{
    let n = s.unicode_len();
    if n != 10 || s.get_char(4) != '-' || s.get_char(7) != '-' {
        return Err(Error::new(ErrorType::ParseError, String::from_str("malformed date")));
    }
    let year = match parse_digits_range(s, 0, 4) {
        Some(v) => v,
        None => {
            return Err(Error::new(ErrorType::ParseError, String::from_str("malformed date")));
        },
    };
    let month = match parse_digits_range(s, 5, 7) {
        Some(v) => v,
        None => {
            return Err(Error::new(ErrorType::ParseError, String::from_str("malformed date")));
        },
    };
    let day = match parse_digits_range(s, 8, 10) {
        Some(v) => v,
        None => {
            return Err(Error::new(ErrorType::ParseError, String::from_str("malformed date")));
        },
    };
    proof {
        lemma_digits_value_bound(s@.subrange(0, 4));
        lemma_digits_value_bound(s@.subrange(5, 7));
        lemma_digits_value_bound(s@.subrange(8, 10));
        assert(pow10(4) == 10000) by {
            assert(pow10(0) == 1);
            assert(pow10(1) == 10);
            assert(pow10(2) == 100);
            assert(pow10(3) == 1000);
        }
        assert(pow10(2) == 100) by {
            assert(pow10(0) == 1);
            assert(pow10(1) == 10);
        }
    }
    if month < 1 || month > 12 {
        return Err(Error::new(ErrorType::ParseError, String::from_str("month out of range")));
    }
    let month = month as u8;
    if day < 1 || day > days_in_month(year, month) as u32 {
        return Err(Error::new(ErrorType::ParseError, String::from_str("day out of range")));
    }
    Ok(Date { year, month, day: day as u8 })
}

/// A date rendered back as `YYYY-MM-DD`.
pub open spec fn spec_date_string(d: Date) -> Seq<char> {
    seq![
        digit_char((d.year as nat) / 1000 % 10),
        digit_char((d.year as nat) / 100 % 10),
        digit_char((d.year as nat) / 10 % 10),
        digit_char((d.year as nat) % 10),
        '-',
        digit_char((d.month as nat) / 10),
        digit_char((d.month as nat) % 10),
        '-',
        digit_char((d.day as nat) / 10),
        digit_char((d.day as nat) % 10),
    ]
}

/// Renders a date as `YYYY-MM-DD`, for the transport representation.
pub fn format_date(d: Date) -> (r: String)
    requires
        d.wf(),
    ensures
        r@ == spec_date_string(d),
{
    let mut r = String::new();
    append_digit(&mut r, (d.year / 1000 % 10) as u8);
    append_digit(&mut r, (d.year / 100 % 10) as u8);
    append_digit(&mut r, (d.year / 10 % 10) as u8);
    append_digit(&mut r, (d.year % 10) as u8);
    r.append("-");
    append_digit(&mut r, d.month / 10);
    append_digit(&mut r, d.month % 10);
    r.append("-");
    append_digit(&mut r, d.day / 10);
    append_digit(&mut r, d.day % 10);
    proof {
        reveal_strlit("-");
        assert(r@ =~= spec_date_string(d));
    }
    r
}

/// Rendering a date and reading it back is the identity: what `format_date`
/// writes is a valid date string, and it denotes the date it was written
/// from. The cache and the store carry dates in this textual form, so a
/// snapshot never loses its date on the way through.
pub proof fn lemma_date_round_trip(d: Date)
    requires
        d.wf(),
    ensures
        valid_date_string(spec_date_string(d)),
        date_of_string(spec_date_string(d)) == d,
{
    let s = spec_date_string(d);
    assert(forall|x: nat| x < 10 ==> is_digit_char(#[trigger] digit_char(x)));
    assert(forall|x: nat| x < 10 ==> digit_val(#[trigger] digit_char(x)) == x);
    let y = d.year as nat;
    let m = d.month as nat;
    let dd = d.day as nat;
    assert(s.subrange(0, 4) =~= seq![
        digit_char(y / 1000 % 10),
        digit_char(y / 100 % 10),
        digit_char(y / 10 % 10),
        digit_char(y % 10),
    ]);
    assert(s.subrange(5, 7) =~= seq![digit_char(m / 10), digit_char(m % 10)]);
    assert(s.subrange(8, 10) =~= seq![digit_char(dd / 10), digit_char(dd % 10)]);
    lemma_four_digits_value(y);
    lemma_two_digits_value(m);
    lemma_two_digits_value(dd);
}

/// A number below one hundred is the value of its two digits.
proof fn lemma_two_digits_value(n: nat)
    requires
        n < 100,
    ensures
        digits_value(seq![digit_char(n / 10), digit_char(n % 10)]) == n,
{
    assert(forall|x: nat| x < 10 ==> digit_val(#[trigger] digit_char(x)) == x);
    let s = seq![digit_char(n / 10), digit_char(n % 10)];
    assert(s.drop_last() =~= seq![digit_char(n / 10)]);
    assert(seq![digit_char(n / 10)].drop_last() =~= Seq::<char>::empty());
    assert(digits_value(Seq::<char>::empty()) == 0);
    assert(digits_value(seq![digit_char(n / 10)]) == n / 10);
}

/// A number below ten thousand is the value of its four digits.
proof fn lemma_four_digits_value(n: nat)
    requires
        n < 10000,
    ensures
        digits_value(
            seq![
                digit_char(n / 1000 % 10),
                digit_char(n / 100 % 10),
                digit_char(n / 10 % 10),
                digit_char(n % 10),
            ],
        ) == n,
{
    assert(forall|x: nat| x < 10 ==> digit_val(#[trigger] digit_char(x)) == x);
    let s = seq![
        digit_char(n / 1000 % 10),
        digit_char(n / 100 % 10),
        digit_char(n / 10 % 10),
        digit_char(n % 10),
    ];
    let s3 = seq![digit_char(n / 1000 % 10), digit_char(n / 100 % 10), digit_char(n / 10 % 10)];
    let s2 = seq![digit_char(n / 1000 % 10), digit_char(n / 100 % 10)];
    let s1 = seq![digit_char(n / 1000 % 10)];
    assert(s.drop_last() =~= s3);
    assert(s3.drop_last() =~= s2);
    assert(s2.drop_last() =~= s1);
    assert(s1.drop_last() =~= Seq::<char>::empty());
    assert(digits_value(Seq::<char>::empty()) == 0);
    assert(digits_value(s1) == n / 1000 % 10);
    assert(digits_value(s2) == (n / 1000 % 10) * 10 + n / 100 % 10);
    assert(digits_value(s3) == digits_value(s2) * 10 + n / 10 % 10);
    assert(digits_value(s) == digits_value(s3) * 10 + n % 10);
    assert(n / 1000 % 10 == n / 1000);
    assert(n == (n / 1000) * 1000 + (n / 100 % 10) * 100 + (n / 10 % 10) * 10 + n % 10) by {
        assert(n == (n / 10) * 10 + n % 10);
        assert(n / 10 == (n / 100) * 10 + n / 10 % 10) by {
            assert(n / 10 / 10 == n / 100) by (nonlinear_arith);
            assert(n / 10 == (n / 10 / 10) * 10 + (n / 10) % 10);
            assert((n / 10) % 10 == n / 10 % 10);
        }
        assert(n / 100 == (n / 1000) * 10 + n / 100 % 10) by {
            assert(n / 100 / 10 == n / 1000) by (nonlinear_arith);
            assert(n / 100 == (n / 100 / 10) * 10 + (n / 100) % 10);
        }
    }
}

/// The address block an external record may carry.
pub struct Address {
    pub address1: Option<String>,
    pub city: Option<String>,
    pub state: Option<String>,
    pub postal_code: Option<String>,
}

/// A company record as the external market-data source reports it. The
/// market capitalization travels as decimal text; turning it into a number
/// for transport happens outside the library.
pub struct CompanyDetails {
    pub ticker: String,
    pub name: String,
    pub description: Option<String>,
    pub cik: Option<String>,
    pub homepage_url: Option<String>,
    pub phone_number: Option<String>,
    pub sic_code: Option<String>,
    pub sic_description: Option<String>,
    pub primary_exchange: Option<String>,
    pub list_date: Option<String>,
    pub market_cap: Option<String>,
    pub total_employees: Option<i64>,
    pub weighted_shares_outstanding: Option<i64>,
    pub address: Option<Address>,
    pub branding: Option<Branding>,
}

/// One row of the company table. The surrogate id is assigned once, on the
/// first ingestion of the symbol, and never changes.
#[derive(Debug)]
pub struct CompanyRow {
    pub id: u128,
    pub symbol: String,
    pub name: String,
    pub description: Option<String>,
    pub address: Option<String>,
    pub city: Option<String>,
    pub state: Option<String>,
    pub zip: Option<String>,
    pub icon_url: Option<String>,
    pub logo_url: Option<String>,
    pub cik: Option<String>,
    pub homepage_url: Option<String>,
    pub list_date: Option<Date>,
    pub market_cap: Option<String>,
    pub phone_number: Option<String>,
    pub primary_exchange_id: Option<String>,
    pub primary_exchange_name: Option<String>,
    pub sic_code: Option<String>,
    pub sic_description: Option<String>,
    pub total_employees: Option<i64>,
    pub weighted_shares_outstanding: Option<i64>,
}

/// Builds the store row for an external record. The branding argument is
/// the one the enrichment produced; whatever branding the record itself
/// carries is deliberately never read, so upstream-internal URLs cannot
/// reach the store. Fails exactly when the record carries an unparsable
/// listing date.
pub fn build_company_row(details: CompanyDetails, branding: Branding, new_id: u128) -> (r: Result<
    CompanyRow,
    Error,
>)
    ensures
        r is Ok <==> match details.list_date {
            Some(s) => valid_date_string(s@),
            None => true,
        },
        r matches Err(e) ==> e.error_type == ErrorType::ParseError,
        r matches Ok(row) ==> {
            &&& row.id == new_id
            &&& row.symbol == details.ticker
            &&& row.name == details.name
            &&& row.description == details.description
            &&& row.address == match details.address {
                Some(a) => a.address1,
                None => None::<String>,
            }
            &&& row.city == match details.address {
                Some(a) => a.city,
                None => None::<String>,
            }
            &&& row.state == match details.address {
                Some(a) => a.state,
                None => None::<String>,
            }
            &&& row.zip == match details.address {
                Some(a) => a.postal_code,
                None => None::<String>,
            }
            &&& row.icon_url == branding.icon_url
            &&& row.logo_url == branding.logo_url
            &&& row.cik == details.cik
            &&& row.homepage_url == details.homepage_url
            &&& row.list_date == match details.list_date {
                Some(s) => Some(date_of_string(s@)),
                None => None::<Date>,
            }
            &&& row.market_cap == details.market_cap
            &&& row.phone_number == details.phone_number
            &&& match details.primary_exchange {
                Some(v) => row.primary_exchange_id matches Some(s) && s@ == spec_exchange_from(
                    v@,
                ).spec_iso_code(),
                None => row.primary_exchange_id is None,
            }
            &&& match details.primary_exchange {
                Some(v) => row.primary_exchange_name matches Some(s) && s@ == spec_exchange_from(
                    v@,
                ).spec_name(),
                None => row.primary_exchange_name is None,
            }
            &&& row.sic_code == details.sic_code
            &&& row.sic_description == details.sic_description
            &&& row.total_employees == details.total_employees
            &&& row.weighted_shares_outstanding == details.weighted_shares_outstanding
        },
{
    let list_date = match details.list_date {
        Some(s) => {
            match parse_list_date(s.as_str()) {
                Ok(d) => Some(d),
                Err(e) => {
                    return Err(e);
                },
            }
        },
        None => None,
    };
    let (primary_exchange_id, primary_exchange_name) = match details.primary_exchange {
        Some(v) => {
            let code = ExchangeCode::from(v);
            (Some(String::from_str(code.iso_code())), Some(String::from_str(code.name())))
        },
        None => (None, None),
    };
    let (address1, city, state, zip) = match details.address {
        Some(a) => (a.address1, a.city, a.state, a.postal_code),
        None => (None, None, None, None),
    };
    Ok(
        CompanyRow {
            id: new_id,
            symbol: details.ticker,
            name: details.name,
            description: details.description,
            address: address1,
            city,
            state,
            zip,
            icon_url: branding.icon_url,
            logo_url: branding.logo_url,
            cik: details.cik,
            homepage_url: details.homepage_url,
            list_date,
            market_cap: details.market_cap,
            phone_number: details.phone_number,
            primary_exchange_id,
            primary_exchange_name,
            sic_code: details.sic_code,
            sic_description: details.sic_description,
            total_employees: details.total_employees,
            weighted_shares_outstanding: details.weighted_shares_outstanding,
        },
    )
}

/// On a symbol conflict the store refreshes only the restricted column
/// subset — shares outstanding, market cap, employee count and the two
/// image URLs. Identity and every descriptive field keep their stored
/// values.
pub open spec fn spec_merge_on_conflict(existing: CompanyRow, incoming: CompanyRow) -> CompanyRow {
    CompanyRow {
        weighted_shares_outstanding: incoming.weighted_shares_outstanding,
        market_cap: incoming.market_cap,
        total_employees: incoming.total_employees,
        logo_url: incoming.logo_url,
        icon_url: incoming.icon_url,
        ..existing
    }
}

/// What one upsert does to the table's rows: update the conflicting row in
/// place, restricted columns only, or append a fresh row.
pub open spec fn spec_upsert(rows: Seq<CompanyRow>, row: CompanyRow) -> Seq<CompanyRow> {
    if exists|i: int| 0 <= i < rows.len() && rows[i].symbol@ == row.symbol@ {
        let i = choose|i: int| 0 <= i < rows.len() && rows[i].symbol@ == row.symbol@;
        rows.update(i, spec_merge_on_conflict(rows[i], row))
    } else {
        rows.push(row)
    }
}

/// The company table, modelling the persistent store: rows keyed by a
/// unique symbol, written only through the upsert.
pub struct CompanyTable {
    pub rows: Vec<CompanyRow>,
}

impl CompanyTable {
    /// The store invariant: symbols are unique.
    pub open spec fn wf(&self) -> bool {
        forall|i: int, j: int|
            0 <= i < j < self.rows.len() ==> self.rows[i].symbol@ != self.rows[j].symbol@
    }

    pub fn new() -> (r: CompanyTable)
        ensures
            r.wf(),
            r.rows@ == Seq::<CompanyRow>::empty(),
    {
        CompanyTable { rows: Vec::new() }
    }

    /// Upserts a row keyed by its symbol: a new symbol is inserted with the
    /// identity it arrives with; an existing symbol has only the restricted
    /// column subset refreshed, and its identity and descriptive fields are
    /// left untouched.
    pub fn upsert(&mut self, row: CompanyRow)
        requires
            old(self).wf(),
        ensures
            final(self).wf(),
            final(self).rows@ == spec_upsert(old(self).rows@, row),
    {
        let ghost old_rows = self.rows@;
        let n = self.rows.len();
        let mut j: usize = 0;
        while j < n && !eq_str(self.rows[j].symbol.as_str(), row.symbol.as_str())
            invariant
                0 <= j <= n == self.rows.len(),
                self.rows@ == old_rows,
                forall|k: int| 0 <= k < j ==> old_rows[k].symbol@ != row.symbol@,
            decreases n - j,
        {
            j = j + 1;
        }
        if j == n {
            assert(forall|i: int| 0 <= i < old_rows.len() ==> old_rows[i].symbol@ != row.symbol@);
            self.rows.push(row);
        } else {
            assert(old_rows[j as int].symbol@ == row.symbol@);
            let existing = self.rows.remove(j);
            let merged = CompanyRow {
                weighted_shares_outstanding: row.weighted_shares_outstanding,
                market_cap: row.market_cap,
                total_employees: row.total_employees,
                logo_url: row.logo_url,
                icon_url: row.icon_url,
                ..existing
            };
            self.rows.insert(j, merged);
            proof {
                let i = choose|i: int|
                    0 <= i < old_rows.len() && old_rows[i].symbol@ == row.symbol@;
                assert(i == j) by {
                    if i < j {
                        assert(old_rows[i].symbol@ != row.symbol@);
                    }
                    if i > j {
                        assert(old_rows[i].symbol@ == old_rows[j as int].symbol@);
                    }
                }
                assert(self.rows@ =~= old_rows.update(
                    j as int,
                    spec_merge_on_conflict(old_rows[j as int], row),
                ));
            }
        }
    }

    /// All the rows whose symbol is `symbol` — under the invariant, at most
    /// one — in store order, handed out by index.
    pub fn find_by_symbol(&self, symbol: &str) -> (r: Option<usize>)
        ensures
            r matches Some(i) ==> i < self.rows.len() && self.rows[i as int].symbol@ == symbol@,
            r is None ==> forall|i: int|
                0 <= i < self.rows.len() ==> self.rows[i].symbol@ != symbol@,
    {
        let n = self.rows.len();
        let mut j: usize = 0;
        while j < n && !eq_str(self.rows[j].symbol.as_str(), symbol)
            invariant
                0 <= j <= n == self.rows.len(),
                forall|k: int| 0 <= k < j ==> self.rows[k].symbol@ != symbol@,
            decreases n - j,
        {
            j = j + 1;
        }
        if j == n {
            None
        } else {
            Some(j)
        }
    }
}

/// Re-ingesting a symbol is idempotent at the store: after a first
/// ingestion of a fresh symbol and a second one of the same symbol, the
/// table holds exactly one row for it; that row keeps the identity and the
/// descriptive fields of the first ingestion and takes only the restricted
/// column subset — shares outstanding, market cap, employee count and the
/// image URLs — from the second. Every other row is untouched.
pub proof fn lemma_reingest_idempotent(rows: Seq<CompanyRow>, first: CompanyRow, second: CompanyRow)
    requires
        forall|i: int, j: int| 0 <= i < j < rows.len() ==> rows[i].symbol@ != rows[j].symbol@,
        forall|i: int| 0 <= i < rows.len() ==> rows[i].symbol@ != first.symbol@,
        second.symbol@ == first.symbol@,
    ensures
        ({
            let once = spec_upsert(rows, first);
            let twice = spec_upsert(once, second);
            &&& twice.len() == rows.len() + 1
            &&& forall|i: int|
                0 <= i < twice.len() ==> (twice[i].symbol@ == first.symbol@ <==> i == rows.len())
            &&& twice[rows.len() as int] == spec_merge_on_conflict(first, second)
            &&& twice[rows.len() as int].id == first.id
            &&& twice[rows.len() as int].symbol == first.symbol
            &&& twice[rows.len() as int].name == first.name
            &&& twice[rows.len() as int].description == first.description
            &&& twice[rows.len() as int].address == first.address
            &&& twice[rows.len() as int].city == first.city
            &&& twice[rows.len() as int].state == first.state
            &&& twice[rows.len() as int].zip == first.zip
            &&& twice[rows.len() as int].cik == first.cik
            &&& twice[rows.len() as int].homepage_url == first.homepage_url
            &&& twice[rows.len() as int].list_date == first.list_date
            &&& twice[rows.len() as int].phone_number == first.phone_number
            &&& twice[rows.len() as int].primary_exchange_id == first.primary_exchange_id
            &&& twice[rows.len() as int].primary_exchange_name == first.primary_exchange_name
            &&& twice[rows.len() as int].sic_code == first.sic_code
            &&& twice[rows.len() as int].sic_description == first.sic_description
            &&& twice[rows.len() as int].market_cap == second.market_cap
            &&& twice[rows.len() as int].total_employees == second.total_employees
            &&& twice[rows.len() as int].weighted_shares_outstanding
                == second.weighted_shares_outstanding
            &&& twice[rows.len() as int].logo_url == second.logo_url
            &&& twice[rows.len() as int].icon_url == second.icon_url
            &&& forall|i: int| 0 <= i < rows.len() ==> twice[i] == rows[i]
        }),
{
    let once = spec_upsert(rows, first);
    assert(once == rows.push(first));
    assert(once[rows.len() as int].symbol@ == second.symbol@);
    let i = choose|i: int| 0 <= i < once.len() && once[i].symbol@ == second.symbol@;
    assert(i == rows.len()) by {
        if i < rows.len() {
            assert(rows[i].symbol@ != first.symbol@);
        }
    }
    let twice = spec_upsert(once, second);
    assert(twice == once.update(
        rows.len() as int,
        spec_merge_on_conflict(first, second),
    ));
}

} // verus!
