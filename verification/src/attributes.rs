//! The typed attributes of a paste: who may see it and how long it lives.
//! Each has a fixed code on the wire and is read from free-form text without
//! regard to letter case.

use crate::text::{lemma_lowercase_ascii, lowercase, str_eq, str_to_lowercase};
use vstd::prelude::*;
use vstd::utf8::*;

verus! {

/// Whether a paste is listed publicly or only reachable by its address.
#[derive(Debug, Clone, Copy, PartialEq, Eq, Structural)]
pub enum VisibilityLevel {
    Public,
    Unlisted,
}

impl VisibilityLevel {
    /// The decimal digit that stands for this level on the wire.
    pub open spec fn wire_code(self) -> Seq<char> {
        match self {
            VisibilityLevel::Public => "0"@,
            VisibilityLevel::Unlisted => "1"@,
        }
    }

    /// The level that an already lowercased token names, if any.
    pub open spec fn parse_lowercase(token: Seq<char>) -> Option<VisibilityLevel> {
        if token == "public"@ || token == "0"@ {
            Some(VisibilityLevel::Public)
        } else if token == "unlisted"@ || token == "1"@ {
            Some(VisibilityLevel::Unlisted)
        } else {
            None
        }
    }

    /// The level that free-form input names, if any: the input is lowercased
    /// and must then be exactly one of the known tokens.
    pub open spec fn parse(input: Seq<char>) -> Option<VisibilityLevel> {
        Self::parse_lowercase(lowercase(input))
    }

    /// The wire code of this level.
    pub fn encode(&self) -> (r: &'static str)
        ensures
            r@ == self.wire_code(),
    {
        match self {
            VisibilityLevel::Public => "0",
            VisibilityLevel::Unlisted => "1",
        }
    }

    /// Reads a level from a token that is already in lowercase.
    pub fn from_lowercase(token: &str) -> (r: Option<VisibilityLevel>)
        ensures
            r == Self::parse_lowercase(token@),
    {
        if str_eq(token, "public") || str_eq(token, "0") {
            Some(VisibilityLevel::Public)
        } else if str_eq(token, "unlisted") || str_eq(token, "1") {
            Some(VisibilityLevel::Unlisted)
        } else {
            None
        }
    }

    /// Reads a level from free-form input, whatever its letter case. Input
    /// that names no level gives `None`.
    pub fn from(s: String) -> (r: Option<VisibilityLevel>)
        ensures
            r == Self::parse(s@),
    {
        let lowered = str_to_lowercase(s.as_str());
        Self::from_lowercase(lowered.as_str())
    }
}

/// How long the service keeps a paste.
#[derive(Debug, Copy, Clone, PartialEq, Eq, Structural)]
pub enum ExpirationDate {
    Never,
    TenMinutes,
    OneHour,
    OneDay,
    OneWeek,
    TwoWeeks,
    OneMonth,
    SixMonth,
    OneYear,
}

impl ExpirationDate {
    /// The short code that stands for this lifetime on the wire.
    pub open spec fn wire_code(self) -> Seq<char> {
        match self {
            ExpirationDate::Never => "N"@,
            ExpirationDate::TenMinutes => "10M"@,
            ExpirationDate::OneHour => "1H"@,
            ExpirationDate::OneDay => "1D"@,
            ExpirationDate::OneWeek => "1W"@,
            ExpirationDate::TwoWeeks => "2W"@,
            ExpirationDate::OneMonth => "1M"@,
            ExpirationDate::SixMonth => "6M"@,
            ExpirationDate::OneYear => "1Y"@,
        }
    }

    /// The lifetime that an already lowercased token names, if any.
    pub open spec fn parse_lowercase(token: Seq<char>) -> Option<ExpirationDate> {
        if token == "n"@ {
            Some(ExpirationDate::Never)
        } else if token == "10m"@ {
            Some(ExpirationDate::TenMinutes)
        } else if token == "1h"@ {
            Some(ExpirationDate::OneHour)
        } else if token == "1d"@ {
            Some(ExpirationDate::OneDay)
        } else if token == "1w"@ {
            Some(ExpirationDate::OneWeek)
        } else if token == "2w"@ {
            Some(ExpirationDate::TwoWeeks)
        } else if token == "1m"@ {
            Some(ExpirationDate::OneMonth)
        } else if token == "6m"@ {
            Some(ExpirationDate::SixMonth)
        } else if token == "1y"@ {
            Some(ExpirationDate::OneYear)
        } else {
            None
        }
    }

    /// The lifetime that free-form input names, if any: the input is
    /// lowercased and must then be exactly one of the lowercased short codes.
    pub open spec fn parse(input: Seq<char>) -> Option<ExpirationDate> {
        Self::parse_lowercase(lowercase(input))
    }

    /// The wire code of this lifetime.
    pub fn inspect(&self) -> (r: &'static str)
        ensures
            r@ == self.wire_code(),
    {
        match self {
            ExpirationDate::Never => "N",
            ExpirationDate::TenMinutes => "10M",
            ExpirationDate::OneHour => "1H",
            ExpirationDate::OneDay => "1D",
            ExpirationDate::OneWeek => "1W",
            ExpirationDate::TwoWeeks => "2W",
            ExpirationDate::OneMonth => "1M",
            ExpirationDate::SixMonth => "6M",
            ExpirationDate::OneYear => "1Y",
        }
    }

    /// Reads a lifetime from a token that is already in lowercase.
    pub fn from_lowercase(token: &str) -> (r: Option<ExpirationDate>)
        ensures
            r == Self::parse_lowercase(token@),
    {
        if str_eq(token, "n") {
            Some(ExpirationDate::Never)
        } else if str_eq(token, "10m") {
            Some(ExpirationDate::TenMinutes)
        } else if str_eq(token, "1h") {
            Some(ExpirationDate::OneHour)
        } else if str_eq(token, "1d") {
            Some(ExpirationDate::OneDay)
        } else if str_eq(token, "1w") {
            Some(ExpirationDate::OneWeek)
        } else if str_eq(token, "2w") {
            Some(ExpirationDate::TwoWeeks)
        } else if str_eq(token, "1m") {
            Some(ExpirationDate::OneMonth)
        } else if str_eq(token, "6m") {
            Some(ExpirationDate::SixMonth)
        } else if str_eq(token, "1y") {
            Some(ExpirationDate::OneYear)
        } else {
            None
        }
    }

    /// Reads a lifetime from free-form input, whatever its letter case. Input
    /// that names no lifetime gives `None`.
    pub fn from(s: String) -> (r: Option<ExpirationDate>)
        ensures
            r == Self::parse(s@),
    {
        let lowered = str_to_lowercase(s.as_str());
        Self::from_lowercase(lowered.as_str())
    }
}

/// Reading a visibility level is blind to letter case: two inputs with one
/// lowercase form read alike, and an ASCII input reads as its lowercase form
/// does.
pub proof fn lemma_visibility_parse_ignores_case(a: Seq<char>, b: Seq<char>)
    requires
        lowercase(a) == lowercase(b),
    ensures
        VisibilityLevel::parse(a) == VisibilityLevel::parse(b),
        is_ascii_chars(a) ==> VisibilityLevel::parse(lowercase(a)) == VisibilityLevel::parse(a),
{
    if is_ascii_chars(a) {
        lemma_lowercase_ascii(a);
    }
}

/// How the four visibility tokens are spelled.
proof fn lemma_visibility_tokens()
    ensures
        "public"@.len() == 6,
        "unlisted"@.len() == 8,
        "0"@.len() == 1 && "0"@[0] == '0',
        "1"@.len() == 1 && "1"@[0] == '1',
{
    reveal_strlit("public");
    reveal_strlit("0");
    reveal_strlit("unlisted");
    reveal_strlit("1");
}

/// Reading a visibility level succeeds exactly on the input whose lowercase
/// form is one of the four known tokens.
pub proof fn lemma_visibility_parse_total(input: Seq<char>)
    ensures
        VisibilityLevel::parse(input) == Some(VisibilityLevel::Public) <==> (lowercase(input)
            == "public"@ || lowercase(input) == "0"@),
        VisibilityLevel::parse(input) == Some(VisibilityLevel::Unlisted) <==> (lowercase(input)
            == "unlisted"@ || lowercase(input) == "1"@),
{
    lemma_visibility_tokens();
}

/// The wire code of a visibility level reads back as that level.
pub proof fn lemma_visibility_round_trip(level: VisibilityLevel)
    ensures
        VisibilityLevel::parse(level.wire_code()) == Some(level),
{
    lemma_visibility_tokens();
    lemma_lowercase_ascii(level.wire_code());
    assert(lowercase(level.wire_code()) =~= level.wire_code());
}

/// Reading a lifetime is blind to letter case: two inputs with one lowercase
/// form read alike, and an ASCII input reads as its lowercase form does.
pub proof fn lemma_expiration_parse_ignores_case(a: Seq<char>, b: Seq<char>)
    requires
        lowercase(a) == lowercase(b),
    ensures
        ExpirationDate::parse(a) == ExpirationDate::parse(b),
        is_ascii_chars(a) ==> ExpirationDate::parse(lowercase(a)) == ExpirationDate::parse(a),
{
    if is_ascii_chars(a) {
        lemma_lowercase_ascii(a);
    }
}

/// The lowercase form of each short code, which is what reading compares
/// against.
pub open spec fn lowered_code(date: ExpirationDate) -> Seq<char> {
    match date {
        ExpirationDate::Never => "n"@,
        ExpirationDate::TenMinutes => "10m"@,
        ExpirationDate::OneHour => "1h"@,
        ExpirationDate::OneDay => "1d"@,
        ExpirationDate::OneWeek => "1w"@,
        ExpirationDate::TwoWeeks => "2w"@,
        ExpirationDate::OneMonth => "1m"@,
        ExpirationDate::SixMonth => "6m"@,
        ExpirationDate::OneYear => "1y"@,
    }
}

/// How the nine short codes and their lowercase forms are spelled.
proof fn lemma_code_spelling()
    ensures
        "N"@.len() == 1 && "N"@[0] == 'N',
        "10M"@.len() == 3 && "10M"@[0] == '1' && "10M"@[1] == '0' && "10M"@[2] == 'M',
        "1H"@.len() == 2 && "1H"@[0] == '1' && "1H"@[1] == 'H',
        "1D"@.len() == 2 && "1D"@[0] == '1' && "1D"@[1] == 'D',
        "1W"@.len() == 2 && "1W"@[0] == '1' && "1W"@[1] == 'W',
        "2W"@.len() == 2 && "2W"@[0] == '2' && "2W"@[1] == 'W',
        "1M"@.len() == 2 && "1M"@[0] == '1' && "1M"@[1] == 'M',
        "6M"@.len() == 2 && "6M"@[0] == '6' && "6M"@[1] == 'M',
        "1Y"@.len() == 2 && "1Y"@[0] == '1' && "1Y"@[1] == 'Y',
        "n"@.len() == 1 && "n"@[0] == 'n',
        "10m"@.len() == 3 && "10m"@[0] == '1' && "10m"@[1] == '0' && "10m"@[2] == 'm',
        "1h"@.len() == 2 && "1h"@[0] == '1' && "1h"@[1] == 'h',
        "1d"@.len() == 2 && "1d"@[0] == '1' && "1d"@[1] == 'd',
        "1w"@.len() == 2 && "1w"@[0] == '1' && "1w"@[1] == 'w',
        "2w"@.len() == 2 && "2w"@[0] == '2' && "2w"@[1] == 'w',
        "1m"@.len() == 2 && "1m"@[0] == '1' && "1m"@[1] == 'm',
        "6m"@.len() == 2 && "6m"@[0] == '6' && "6m"@[1] == 'm',
        "1y"@.len() == 2 && "1y"@[0] == '1' && "1y"@[1] == 'y',
{
    reveal_strlit("N");
    reveal_strlit("10M");
    reveal_strlit("1H");
    reveal_strlit("1D");
    reveal_strlit("1W");
    reveal_strlit("2W");
    reveal_strlit("1M");
    reveal_strlit("6M");
    reveal_strlit("1Y");
    reveal_strlit("n");
    reveal_strlit("10m");
    reveal_strlit("1h");
    reveal_strlit("1d");
    reveal_strlit("1w");
    reveal_strlit("2w");
    reveal_strlit("1m");
    reveal_strlit("6m");
    reveal_strlit("1y");
}

/// Reading a lifetime succeeds exactly on the input whose lowercase form is
/// a lowercased short code, and gives the lifetime of that code.
pub proof fn lemma_expiration_parse_total(input: Seq<char>, date: ExpirationDate)
    ensures
        ExpirationDate::parse(input) == Some(date) <==> lowercase(input) == lowered_code(date),
{
    lemma_code_spelling();
}

/// Round trip: for each of the nine lifetimes, its short code, as it stands
/// or lowercased, reads back as that lifetime.
pub proof fn lemma_expiration_round_trip(date: ExpirationDate)
    ensures
        lowercase(date.wire_code()) == lowered_code(date),
        ExpirationDate::parse_lowercase(lowered_code(date)) == Some(date),
        ExpirationDate::parse(date.wire_code()) == Some(date),
        ExpirationDate::parse(lowercase(date.wire_code())) == Some(date),
{
    lemma_code_spelling();
    lemma_lowercase_ascii(date.wire_code());
    assert(lowercase(date.wire_code()) =~= lowered_code(date));
    lemma_lowercase_ascii(lowered_code(date));
    assert(lowercase(lowered_code(date)) =~= lowered_code(date));
}

} // verus!
