//! The station records: stop codes, display names and the line each code belongs to.

use vstd::prelude::*;

verus! {

/// The line that a stop code is numbered on.
#[derive(Clone, Copy, Debug, PartialEq, Eq, Structural)]
pub enum Line {
    /// Airport / Fremont.
    A,
    /// Lafayette / Richmond.
    L,
    /// Montgomery / Peninsula.
    M,
    /// A station abbreviation that belongs to no numbered line.
    Unassigned,
}

/// One station record: the stop code, the display name, the line.
/// Several codes may carry the same display name.
pub type StationRecord = (&'static str, &'static str, Line);

/// The stop code of a record.
pub open spec fn code_of(r: StationRecord) -> Seq<char> {
    r.0@
}

/// The display name of a record.
pub open spec fn name_of(r: StationRecord) -> Seq<char> {
    r.1@
}

/// The line of a record.
pub open spec fn line_of(r: StationRecord) -> Line {
    r.2
}

/// The canonical station list. Codes are looked up here; so are names, by the
/// primary name lookup.
pub const STATIONS: [StationRecord; 71] = [
    ("A10", "Embarcadero (SF)", Line::A),
    ("A20", "Montgomery St. (SF)", Line::A),
    ("A30", "Powell St. (SF)", Line::A),
    ("A40", "Civic Center (SF)", Line::A),
    ("A50", "24th St. Mission (SF)", Line::A),
    ("A60", "16th St. Mission (SF)", Line::A),
    ("A70", "Glen Park (SF)", Line::A),
    ("A80", "Balboa Park (SF)", Line::A),
    ("L10", "MacArthur (Oakland)", Line::L),
    ("L20", "19th St. Oakland", Line::L),
    ("L30", "12th St. Oakland City Center", Line::L),
    ("L40", "West Oakland", Line::L),
    ("M10", "Embarcadero (SF)", Line::M),
    ("M16", "Montgomery St. (SF)", Line::M),
    ("M20", "Powell St. (SF)", Line::M),
    ("M30", "Civic Center (SF)", Line::M),
    ("M40", "16th St. Mission (SF)", Line::M),
    ("M50", "24th St. Mission (SF)", Line::M),
    ("M60", "Glen Park (SF)", Line::M),
    ("M70", "Balboa Park (SF)", Line::M),
    ("M80", "Daly City", Line::M),
    ("EMBR", "Embarcadero (SF)", Line::Unassigned),
    ("MONT", "Montgomery St. (SF)", Line::Unassigned),
    ("POWL", "Powell St. (SF)", Line::Unassigned),
    ("CIVC", "Civic Center (SF)", Line::Unassigned),
    ("16TH", "16th St. Mission (SF)", Line::Unassigned),
    ("24TH", "24th St. Mission (SF)", Line::Unassigned),
    ("GLEN", "Glen Park (SF)", Line::Unassigned),
    ("BALB", "Balboa Park (SF)", Line::Unassigned),
    ("DALY", "Daly City", Line::Unassigned),
    ("COLM", "Colma", Line::Unassigned),
    ("SSAN", "South San Francisco", Line::Unassigned),
    ("SBRN", "San Bruno", Line::Unassigned),
    ("SFIA", "San Francisco Int'l Airport", Line::Unassigned),
    ("MLBR", "Millbrae", Line::Unassigned),
    ("WOAK", "West Oakland", Line::Unassigned),
    ("12TH", "12th St. Oakland City Center", Line::Unassigned),
    ("19TH", "19th St. Oakland", Line::Unassigned),
    ("MCAR", "MacArthur (Oakland)", Line::Unassigned),
    ("ASHB", "Ashby (Berkeley)", Line::Unassigned),
    ("DBRK", "Downtown Berkeley", Line::Unassigned),
    ("NBRK", "North Berkeley", Line::Unassigned),
    ("PLZA", "El Cerrito Plaza", Line::Unassigned),
    ("DELN", "El Cerrito del Norte", Line::Unassigned),
    ("RICH", "Richmond", Line::Unassigned),
    ("ROCK", "Rockridge (Oakland)", Line::Unassigned),
    ("ORIN", "Orinda", Line::Unassigned),
    ("LAFY", "Lafayette", Line::Unassigned),
    ("WCRK", "Walnut Creek", Line::Unassigned),
    ("PHIL", "Pleasant Hill", Line::Unassigned),
    ("CONC", "Concord", Line::Unassigned),
    ("NCON", "North Concord/Martinez", Line::Unassigned),
    ("PITT", "Pittsburg/Bay Point", Line::Unassigned),
    ("PCTR", "Pittsburg Center", Line::Unassigned),
    ("ANTC", "Antioch", Line::Unassigned),
    ("LAKE", "Lake Merritt (Oakland)", Line::Unassigned),
    ("FTVL", "Fruitvale (Oakland)", Line::Unassigned),
    ("COLS", "Coliseum", Line::Unassigned),
    ("SANL", "San Leandro", Line::Unassigned),
    ("BAYF", "Bay Fair (San Leandro)", Line::Unassigned),
    ("HAYW", "Hayward", Line::Unassigned),
    ("SHAY", "South Hayward", Line::Unassigned),
    ("UCTY", "Union City", Line::Unassigned),
    ("FRMT", "Fremont", Line::Unassigned),
    ("WARM", "Warm Springs/South Fremont", Line::Unassigned),
    ("MLPT", "Milpitas", Line::Unassigned),
    ("BERY", "Berryessa / North San Jose", Line::Unassigned),
    ("CAST", "Castro Valley", Line::Unassigned),
    ("WDUB", "West Dublin", Line::Unassigned),
    ("DUBL", "Dublin/Pleasanton", Line::Unassigned),
    ("OAKL", "Oakland Int'l Airport", Line::Unassigned),
];

/// The station list of the alternate name lookup: every name stands once, and
/// the stations of the M line go by their short names.
pub const ALTERNATE_STATIONS: [StationRecord; 58] = [
    ("A10", "Embarcadero (SF)", Line::A),
    ("A20", "Montgomery St. (SF)", Line::A),
    ("A30", "Powell St. (SF)", Line::A),
    ("A40", "Civic Center (SF)", Line::A),
    ("A50", "24th St. Mission (SF)", Line::A),
    ("A60", "16th St. Mission (SF)", Line::A),
    ("A70", "Glen Park (SF)", Line::A),
    ("A80", "Balboa Park (SF)", Line::A),
    ("L10", "MacArthur (Oakland)", Line::L),
    ("L20", "19th St. Oakland", Line::L),
    ("L30", "12th St. Oakland City Center", Line::L),
    ("L40", "West Oakland", Line::L),
    ("M10", "Embarcadero", Line::M),
    ("M16", "Montgomery St.", Line::M),
    ("M20", "Powell St.", Line::M),
    ("M30", "Civic Center", Line::M),
    ("M40", "16th St. Mission", Line::M),
    ("M50", "24th St. Mission", Line::M),
    ("M60", "Glen Park", Line::M),
    ("M70", "Balboa Park", Line::M),
    ("M80", "Daly City", Line::M),
    ("COLM", "Colma", Line::Unassigned),
    ("SSAN", "South San Francisco", Line::Unassigned),
    ("SBRN", "San Bruno", Line::Unassigned),
    ("SFIA", "San Francisco Int'l Airport", Line::Unassigned),
    ("MLBR", "Millbrae", Line::Unassigned),
    ("ASHB", "Ashby (Berkeley)", Line::Unassigned),
    ("DBRK", "Downtown Berkeley", Line::Unassigned),
    ("NBRK", "North Berkeley", Line::Unassigned),
    ("PLZA", "El Cerrito Plaza", Line::Unassigned),
    ("DELN", "El Cerrito del Norte", Line::Unassigned),
    ("RICH", "Richmond", Line::Unassigned),
    ("ROCK", "Rockridge (Oakland)", Line::Unassigned),
    ("ORIN", "Orinda", Line::Unassigned),
    ("LAFY", "Lafayette", Line::Unassigned),
    ("WCRK", "Walnut Creek", Line::Unassigned),
    ("PHIL", "Pleasant Hill", Line::Unassigned),
    ("CONC", "Concord", Line::Unassigned),
    ("NCON", "North Concord/Martinez", Line::Unassigned),
    ("PITT", "Pittsburg/Bay Point", Line::Unassigned),
    ("PCTR", "Pittsburg Center", Line::Unassigned),
    ("ANTC", "Antioch", Line::Unassigned),
    ("LAKE", "Lake Merritt (Oakland)", Line::Unassigned),
    ("FTVL", "Fruitvale (Oakland)", Line::Unassigned),
    ("COLS", "Coliseum", Line::Unassigned),
    ("SANL", "San Leandro", Line::Unassigned),
    ("BAYF", "Bay Fair (San Leandro)", Line::Unassigned),
    ("HAYW", "Hayward", Line::Unassigned),
    ("SHAY", "South Hayward", Line::Unassigned),
    ("UCTY", "Union City", Line::Unassigned),
    ("FRMT", "Fremont", Line::Unassigned),
    ("WARM", "Warm Springs/South Fremont", Line::Unassigned),
    ("MLPT", "Milpitas", Line::Unassigned),
    ("BERY", "Berryessa / North San Jose", Line::Unassigned),
    ("CAST", "Castro Valley", Line::Unassigned),
    ("WDUB", "West Dublin", Line::Unassigned),
    ("DUBL", "Dublin/Pleasanton", Line::Unassigned),
    ("OAKL", "Oakland Int'l Airport", Line::Unassigned),
];

/// No code of the table holds the character `c`.
pub open spec fn codes_avoid(table: Seq<StationRecord>, c: char) -> bool {
    forall|i: int| 0 <= i < table.len() ==> !code_of(#[trigger] table[i]).contains(c)
}

/// No two records of the table carry the same code.
pub open spec fn codes_distinct(table: Seq<StationRecord>) -> bool {
    forall|i: int, j: int|
        0 <= i < j < table.len() ==> code_of(#[trigger] table[i]) != code_of(#[trigger] table[j])
}

/// A table is well formed when its codes are pairwise distinct and none holds a
/// hyphen, the character that sets off a platform suffix.
pub open spec fn well_formed(table: Seq<StationRecord>) -> bool {
    codes_avoid(table, '-') && codes_distinct(table)
}

/// Some record of the table carries this display name.
pub open spec fn has_name(table: Seq<StationRecord>, name: Seq<char>) -> bool {
    exists|j: int| 0 <= j < table.len() && name_of(#[trigger] table[j]) == name
}

/// Some record of the table carries the code and the name of `record`.
pub open spec fn stands_in(table: Seq<StationRecord>, record: StationRecord) -> bool {
    exists|k: int|
        0 <= k < table.len() && code_of(#[trigger] table[k]) == code_of(record) && name_of(
            table[k],
        ) == name_of(record)
}

/// Every display name of `codes` is carried by some record of `names`.
pub open spec fn covers(names: Seq<StationRecord>, codes: Seq<StationRecord>) -> bool {
    forall|j: int| 0 <= j < codes.len() ==> has_name(names, name_of(#[trigger] codes[j]))
}

/// A record of `names` whose display name `codes` knows stands in `codes` as
/// well, with the same code and the same name.
pub open spec fn agrees_with(names: Seq<StationRecord>, codes: Seq<StationRecord>) -> bool {
    forall|m: int|
        0 <= m < names.len() && has_name(codes, name_of(#[trigger] names[m])) ==> stands_in(
            codes,
            names[m],
        )
}

} // verus!
