//! Station resolution: from a stop identifier to a display name, and from a
//! display name back to a stop code.

use vstd::prelude::*;
use crate::station_table::{
    code_of, line_of, name_of, Line, StationRecord, ALTERNATE_STATIONS, STATIONS,
};
use crate::text::{
    chars_eq, chars_less, chars_of, contains_slice, find_char, lemma_first_occurrence_unique,
    lemma_lex_le_order, lex_le, lowercase, prefix_before, slice_contains, to_lowercase,
};

verus! {

/// The character that parts a base code from its platform suffix.
pub const PLATFORM_SEPARATOR: char = '-';

/// The base code of a stop identifier: what stands before the first separator,
/// the whole identifier where it holds none.
pub open spec fn base_code(stop_id: Seq<char>) -> Seq<char> {
    prefix_before(stop_id, PLATFORM_SEPARATOR)
}

/// Some record of the table carries this code.
pub open spec fn has_code(table: Seq<StationRecord>, code: Seq<char>) -> bool {
    exists|i: int| 0 <= i < table.len() && code_of(#[trigger] table[i]) == code
}

/// `i` is the first record of the table that carries this code.
pub open spec fn is_first_with_code(table: Seq<StationRecord>, code: Seq<char>, i: int) -> bool {
    &&& 0 <= i < table.len()
    &&& code_of(table[i]) == code
    &&& forall|j: int| 0 <= j < i ==> code_of(#[trigger] table[j]) != code
}

/// The display name that the table gives for a code: that of the first record
/// that carries it.
pub open spec fn name_for_code(table: Seq<StationRecord>, code: Seq<char>) -> Seq<char> {
    name_of(table[choose|i: int| is_first_with_code(table, code, i)])
}

/// What a stop identifier resolves to: the display name of its base code, or,
/// where the table does not know the base code, the identifier itself, suffix
/// and all.
pub open spec fn resolved_name(table: Seq<StationRecord>, stop_id: Seq<char>) -> Seq<char> {
    if has_code(table, base_code(stop_id)) {
        name_for_code(table, base_code(stop_id))
    } else {
        stop_id
    }
}

/// Whatever record is the first with a code gives `name_for_code`.
pub proof fn lemma_first_with_code_unique(table: Seq<StationRecord>, code: Seq<char>, i: int)
    requires
        is_first_with_code(table, code, i),
    ensures
        name_for_code(table, code) == name_of(table[i]),
        has_code(table, code),
{
    let k = choose|k: int| is_first_with_code(table, code, k);
    if k < i {
        assert(code_of(table[k]) != code);
    } else if i < k {
        assert(code_of(table[i]) != code);
    }
}

/// The first `n` characters of `s`.
fn take_prefix(s: &Vec<char>, n: usize) -> (r: Vec<char>)
    requires
        n <= s.len(),
    ensures
        r@ == s@.take(n as int),
{
    let mut out: Vec<char> = Vec::new();
    let mut i: usize = 0;
    while i < n
        invariant
            i <= n,
            n <= s.len(),
            out@ == s@.take(i as int),
        decreases n - i,
    {
        out.push(s[i]);
        assert(s@.take(i + 1) =~= s@.take(i as int).push(s@[i as int]));
        i = i + 1;
    }
    out
}

/// The base code of a stop identifier, as characters.
pub fn base_code_of(stop_id: &str) -> (r: Vec<char>)
    ensures
        r@ == base_code(stop_id@),
{
    let chars = chars_of(stop_id);
    match find_char(&chars, PLATFORM_SEPARATOR) {
        Some(pos) => {
            proof {
                lemma_first_occurrence_unique(chars@, PLATFORM_SEPARATOR, pos as int);
            }
            take_prefix(&chars, pos)
        },
        None => {
            assert(chars@.take(chars@.len() as int) =~= chars@);
            chars
        },
    }
}

/// The first record of the table that carries the code.
pub fn find_code(table: &[StationRecord], code: &Vec<char>) -> (r: Option<usize>)
    ensures
        match r {
            Some(i) => is_first_with_code(table@, code@, i as int),
            None => !has_code(table@, code@),
        },
{
    let mut i: usize = 0;
    while i < table.len()
        invariant
            i <= table.len(),
            forall|j: int| 0 <= j < i ==> code_of(#[trigger] table@[j]) != code@,
        decreases table.len() - i,
    {
        let candidate = chars_of(table[i].0);
        if chars_eq(&candidate, code) {
            return Some(i);
        }
        i = i + 1;
    }
    None
}

/// Resolves a stop identifier to a display name over a table: the platform
/// suffix is dropped, the base code looked up; an identifier whose base code the
/// table does not hold comes back as it was given.
pub fn resolve_code_to_name(table: &[StationRecord], stop_id: &str) -> (r: String)
    ensures
        r@ == resolved_name(table@, stop_id@),
{
    let base = base_code_of(stop_id);
    match find_code(table, &base) {
        Some(i) => {
            proof {
                lemma_first_with_code_unique(table@, base@, i as int);
            }
            table[i].1.to_owned()
        },
        None => stop_id.to_owned(),
    }
}

/// Resolves a stop identifier to a display name over the canonical station list.
pub fn get_station_name_from_gtfs_id(stop_id: &str) -> (r: String)
    ensures
        r@ == resolved_name(STATIONS@, stop_id@),
{
    resolve_code_to_name(&STATIONS, stop_id)
}

/// The three ways in which a display name can answer a query, strongest first.
#[derive(Clone, Copy, Debug, PartialEq, Eq, Structural)]
pub enum MatchRule {
    /// The name is the query, character for character.
    Exact,
    /// Name and query have the same lowercase form.
    IgnoreCase,
    /// The lowercase form of one stands inside that of the other.
    Partial,
}

/// Whether a name answers a query under a rule, given the lowercase forms of both.
pub open spec fn rule_holds(
    rule: MatchRule,
    name: Seq<char>,
    query: Seq<char>,
    folded_name: Seq<char>,
    folded_query: Seq<char>,
) -> bool {
    match rule {
        MatchRule::Exact => name == query,
        MatchRule::IgnoreCase => folded_name == folded_query,
        MatchRule::Partial => contains_slice(folded_name, folded_query) || contains_slice(
            folded_query,
            folded_name,
        ),
    }
}

/// Record `i` answers the query under the rule. `folded` holds the lowercase
/// form of each record's name, in the table's order.
pub open spec fn record_matches(
    rule: MatchRule,
    table: Seq<StationRecord>,
    folded: Seq<Seq<char>>,
    query: Seq<char>,
    folded_query: Seq<char>,
    i: int,
) -> bool {
    &&& 0 <= i < table.len()
    &&& rule_holds(rule, name_of(table[i]), query, folded[i], folded_query)
}

/// Some record answers the query under the rule.
pub open spec fn any_match(
    rule: MatchRule,
    table: Seq<StationRecord>,
    folded: Seq<Seq<char>>,
    query: Seq<char>,
    folded_query: Seq<char>,
) -> bool {
    exists|i: int| record_matches(rule, table, folded, query, folded_query, i)
}

/// Record `i` answers the query under the rule and is on the given line; with
/// no line given, it answers the query.
pub open spec fn matches_on(
    rule: MatchRule,
    table: Seq<StationRecord>,
    folded: Seq<Seq<char>>,
    query: Seq<char>,
    folded_query: Seq<char>,
    line: Option<Line>,
    i: int,
) -> bool {
    &&& record_matches(rule, table, folded, query, folded_query, i)
    &&& (line is None || line == Some(line_of(table[i])))
}

/// Record `i` is a candidate for the query under the rule: it answers the
/// query, and it is on the hinted line wherever a record that answers is on that
/// line. Without a hint every record that answers is a candidate.
pub open spec fn is_candidate(
    rule: MatchRule,
    table: Seq<StationRecord>,
    folded: Seq<Seq<char>>,
    query: Seq<char>,
    folded_query: Seq<char>,
    hint: Option<Line>,
    i: int,
) -> bool {
    &&& record_matches(rule, table, folded, query, folded_query, i)
    &&& (hint is None || hint == Some(line_of(table[i])) || !exists|j: int| #[trigger]
        matches_on(rule, table, folded, query, folded_query, hint, j))
}

/// Record `i` is the first of those records that satisfy `wanted` and have the
/// smallest code among them, in the order of a dictionary.
pub open spec fn is_least(table: Seq<StationRecord>, wanted: spec_fn(int) -> bool, i: int) -> bool {
    &&& 0 <= i < table.len()
    &&& wanted(i)
    &&& forall|j: int|
        0 <= j < table.len() && #[trigger] wanted(j) ==> lex_le(
            code_of(table[i]),
            code_of(table[j]),
        )
    &&& forall|j: int| 0 <= j < i && #[trigger] wanted(j) ==> code_of(table[j]) != code_of(table[i])
}

/// Record `i` is the candidate with the smallest code, and the first record
/// with that code among the candidates.
pub open spec fn is_smallest_match(
    rule: MatchRule,
    table: Seq<StationRecord>,
    folded: Seq<Seq<char>>,
    query: Seq<char>,
    folded_query: Seq<char>,
    hint: Option<Line>,
    i: int,
) -> bool {
    is_least(table, |j: int| is_candidate(rule, table, folded, query, folded_query, hint, j), i)
}

/// The strongest rule under which some record answers the query.
pub open spec fn winning_rule(
    table: Seq<StationRecord>,
    folded: Seq<Seq<char>>,
    query: Seq<char>,
    folded_query: Seq<char>,
) -> Option<MatchRule> {
    if any_match(MatchRule::Exact, table, folded, query, folded_query) {
        Some(MatchRule::Exact)
    } else if any_match(MatchRule::IgnoreCase, table, folded, query, folded_query) {
        Some(MatchRule::IgnoreCase)
    } else if any_match(MatchRule::Partial, table, folded, query, folded_query) {
        Some(MatchRule::Partial)
    } else {
        None
    }
}

/// Record `i` is the one selected for the query: among the records that answer
/// under the strongest rule that any record answers under, those on the hinted
/// line go first, and of the candidates the one with the smallest code is taken.
pub open spec fn is_selected(
    table: Seq<StationRecord>,
    folded: Seq<Seq<char>>,
    query: Seq<char>,
    folded_query: Seq<char>,
    hint: Option<Line>,
    i: int,
) -> bool {
    match winning_rule(table, folded, query, folded_query) {
        Some(rule) => is_smallest_match(rule, table, folded, query, folded_query, hint, i),
        None => false,
    }
}

/// The lowercase form of each record's name, in the table's order.
pub open spec fn folded_names(table: Seq<StationRecord>) -> Seq<Seq<char>> {
    Seq::new(table.len(), |i: int| lowercase(name_of(table[i])))
}

/// `code` is the code that the table resolves the display name `query` to, with
/// the given line hint.
pub open spec fn is_resolved_code(
    table: Seq<StationRecord>,
    query: Seq<char>,
    hint: Option<Line>,
    code: Seq<char>,
) -> bool {
    exists|i: int|
        #[trigger] is_selected(table, folded_names(table), query, lowercase(query), hint, i)
            && code_of(table[i]) == code
}

/// No record of the table answers the query under any rule.
pub open spec fn is_unresolved(table: Seq<StationRecord>, query: Seq<char>) -> bool {
    winning_rule(table, folded_names(table), query, lowercase(query)) is None
}

/// The views of a vector of character vectors.
pub open spec fn views_of(v: Seq<Vec<char>>) -> Seq<Seq<char>> {
    Seq::new(v.len(), |i: int| v[i]@)
}

/// Whether a name answers a query under a rule, given the lowercase forms of both.
pub fn rule_applies(
    rule: MatchRule,
    name: &Vec<char>,
    query: &Vec<char>,
    folded_name: &Vec<char>,
    folded_query: &Vec<char>,
) -> (r: bool)
    ensures
        r == rule_holds(rule, name@, query@, folded_name@, folded_query@),
{
    match rule {
        MatchRule::Exact => chars_eq(name, query),
        MatchRule::IgnoreCase => chars_eq(folded_name, folded_query),
        MatchRule::Partial => slice_contains(folded_name, folded_query) || slice_contains(
            folded_query,
            folded_name,
        ),
    }
}

/// Whether a record is on a line; with no line given, every record is.
fn line_allows(line: Option<Line>, record_line: Line) -> (r: bool)
    ensures
        r == (line is None || line == Some(record_line)),
{
    match line {
        Some(wanted) => wanted == record_line,
        None => true,
    }
}

/// Among the records that answer the query under one rule and are on the given
/// line, the first of those with the smallest code. With no line given, all
/// records that answer are considered.
pub fn smallest_on_line(
    rule: MatchRule,
    table: &[StationRecord],
    folded: &Vec<Vec<char>>,
    query: &Vec<char>,
    folded_query: &Vec<char>,
    line: Option<Line>,
) -> (r: Option<usize>)
    requires
        folded.len() == table.len(),
    ensures
        match r {
            Some(i) => is_least(
                table@,
                |j: int|
                    matches_on(rule, table@, views_of(folded@), query@, folded_query@, line, j),
                i as int,
            ),
            None => forall|j: int|
                !#[trigger] matches_on(
                    rule,
                    table@,
                    views_of(folded@),
                    query@,
                    folded_query@,
                    line,
                    j,
                ),
        },
{
    let ghost fv = views_of(folded@);
    let ghost wanted = |j: int| matches_on(rule, table@, fv, query@, folded_query@, line, j);
    let mut best: Option<usize> = None;
    let mut best_code: Vec<char> = Vec::new();
    let mut i: usize = 0;
    while i < table.len()
        invariant
            i <= table.len(),
            folded.len() == table.len(),
            fv == views_of(folded@),
            wanted == (|j: int| matches_on(rule, table@, fv, query@, folded_query@, line, j)),
            match best {
                Some(b) => {
                    &&& b < i
                    &&& best_code@ == code_of(table@[b as int])
                    &&& wanted(b as int)
                    &&& forall|j: int|
                        0 <= j < i && #[trigger] wanted(j) ==> lex_le(
                            best_code@,
                            code_of(table@[j]),
                        )
                    &&& forall|j: int|
                        0 <= j < b && #[trigger] wanted(j) ==> code_of(table@[j]) != best_code@
                },
                None => forall|j: int| 0 <= j < i ==> !#[trigger] wanted(j),
            },
        decreases table.len() - i,
    {
        let name = chars_of(table[i].1);
        assert(fv[i as int] == folded@[i as int]@);
        if line_allows(line, table[i].2) && rule_applies(
            rule,
            &name,
            query,
            &folded[i],
            folded_query,
        ) {
            assert(wanted(i as int));
            let code = chars_of(table[i].0);
            let better = match best {
                Some(_) => chars_less(&code, &best_code),
                None => true,
            };
            if better {
                proof {
                    if best is Some {
                        assert forall|j: int| 0 <= j < i && #[trigger] wanted(j) implies lex_le(
                            code@,
                            code_of(table@[j]),
                        ) && code_of(table@[j]) != code@ by {
                            lemma_lex_le_order(code@, best_code@, code_of(table@[j]));
                            lemma_lex_le_order(best_code@, code_of(table@[j]), code@);
                        }
                    }
                }
                best = Some(i);
                best_code = code;
            } else {
                proof {
                    lemma_lex_le_order(code@, best_code@, code@);
                }
            }
        } else {
            assert(!wanted(i as int));
        }
        i = i + 1;
    }
    proof {
        if best is None {
            assert forall|j: int|
                !#[trigger] matches_on(rule, table@, fv, query@, folded_query@, line, j) by {
                if 0 <= j < table.len() {
                    assert(!wanted(j));
                }
            }
        }
    }
    best
}

/// Among the candidates for the query under one rule, the first of those with
/// the smallest code: records on the hinted line where one of them answers, all
/// records that answer otherwise.
pub fn smallest_match(
    rule: MatchRule,
    table: &[StationRecord],
    folded: &Vec<Vec<char>>,
    query: &Vec<char>,
    folded_query: &Vec<char>,
    hint: Option<Line>,
) -> (r: Option<usize>)
    requires
        folded.len() == table.len(),
    ensures
        match r {
            Some(i) => is_smallest_match(
                rule,
                table@,
                views_of(folded@),
                query@,
                folded_query@,
                hint,
                i as int,
            ),
            None => !any_match(rule, table@, views_of(folded@), query@, folded_query@),
        },
{
    let ghost fv = views_of(folded@);
    let ghost on_line = |j: int| matches_on(rule, table@, fv, query@, folded_query@, hint, j);
    let ghost anywhere = |j: int|
        matches_on(rule, table@, fv, query@, folded_query@, None::<Line>, j);
    let ghost candidate = |j: int| is_candidate(rule, table@, fv, query@, folded_query@, hint, j);
    if hint.is_some() {
        let preferred = smallest_on_line(rule, table, folded, query, folded_query, hint);
        if let Some(i) = preferred {
            proof {
                assert(on_line(i as int));
                assert forall|j: int| 0 <= j < table@.len() implies (#[trigger] candidate(j)
                    == on_line(j)) by {}
                assert(is_least(table@, candidate, i as int));
            }
            return preferred;
        }
    }
    let found = smallest_on_line(rule, table, folded, query, folded_query, None);
    proof {
        assert forall|j: int| 0 <= j < table@.len() implies (#[trigger] candidate(j) == anywhere(
            j,
        )) by {}
        match found {
            Some(i) => {
                assert(is_least(table@, candidate, i as int));
            },
            None => {
                assert forall|j: int|
                    !record_matches(rule, table@, fv, query@, folded_query@, j) by {
                    assert(!matches_on(rule, table@, fv, query@, folded_query@, None::<Line>, j));
                }
            },
        }
    }
    found
}

/// Selects the record for a query: the rules are tried strongest first, and
/// under the first rule that any record answers, records on the hinted line go
/// before the others and the smallest code decides among them. `folded` and
/// `folded_query` hold the lowercase forms of the names and of the query.
pub fn select_record(
    table: &[StationRecord],
    folded: &Vec<Vec<char>>,
    query: &Vec<char>,
    folded_query: &Vec<char>,
    hint: Option<Line>,
) -> (r: Option<usize>)
    requires
        folded.len() == table.len(),
    ensures
        match r {
            Some(i) => is_selected(
                table@,
                views_of(folded@),
                query@,
                folded_query@,
                hint,
                i as int,
            ),
            None => winning_rule(table@, views_of(folded@), query@, folded_query@) is None,
        },
{
    match smallest_match(MatchRule::Exact, table, folded, query, folded_query, hint) {
        Some(i) => Some(i),
        None => match smallest_match(
            MatchRule::IgnoreCase,
            table,
            folded,
            query,
            folded_query,
            hint,
        ) {
            Some(i) => Some(i),
            None => smallest_match(MatchRule::Partial, table, folded, query, folded_query, hint),
        },
    }
}

/// The lowercase form of each record's name.
fn fold_names(table: &[StationRecord]) -> (r: Vec<Vec<char>>)
    ensures
        r.len() == table.len(),
        views_of(r@) == folded_names(table@),
{
    let mut out: Vec<Vec<char>> = Vec::new();
    let mut i: usize = 0;
    while i < table.len()
        invariant
            i <= table.len(),
            out.len() == i,
            forall|j: int| 0 <= j < i ==> (#[trigger] out@[j])@ == lowercase(name_of(table@[j])),
        decreases table.len() - i,
    {
        let folded = to_lowercase(table[i].1);
        out.push(chars_of(folded.as_str()));
        i = i + 1;
    }
    assert(views_of(out@) =~= folded_names(table@));
    out
}

/// Resolves a display name to a stop code over a table, with a line hint. A
/// name that some record carries exactly is answered by such a record; failing
/// that, one that agrees but for the case of its letters; failing that, one
/// whose lowercase name holds the lowercase query or is held by it. Where
/// several records answer under the same rule, a record on the hinted line is
/// preferred, and among the records that remain the code that comes first in
/// the order of a dictionary is returned. `None` means that no record answers.
pub fn resolve_name_to_code_on_line(
    table: &[StationRecord],
    name: &str,
    hint: Option<Line>,
) -> (r: Option<String>)
    ensures
        match r {
            Some(code) => is_resolved_code(table@, name@, hint, code@),
            None => is_unresolved(table@, name@),
        },
{
    let folded = fold_names(table);
    let query = chars_of(name);
    let lowered = to_lowercase(name);
    let folded_query = chars_of(lowered.as_str());
    match select_record(table, &folded, &query, &folded_query, hint) {
        Some(i) => Some(table[i].0.to_owned()),
        None => None,
    }
}

/// Resolves a display name to a stop code over a table, without a line hint:
/// where several records answer under the same rule, the code that comes first
/// in the order of a dictionary is returned.
pub fn resolve_name_to_code(table: &[StationRecord], name: &str) -> (r: Option<String>)
    ensures
        match r {
            Some(code) => is_resolved_code(table@, name@, None, code@),
            None => is_unresolved(table@, name@),
        },
{
    resolve_name_to_code_on_line(table, name, None)
}

/// Resolves a display name to a stop code over the canonical station list.
pub fn get_gtfs_id_from_station_name_primary(station_name: &str) -> (r: Option<String>)
    ensures
        match r {
            Some(code) => is_resolved_code(STATIONS@, station_name@, None, code@),
            None => is_unresolved(STATIONS@, station_name@),
        },
{
    resolve_name_to_code(&STATIONS, station_name)
}

/// Resolves a display name to a stop code over the alternate station list, in
/// which the stations of the M line go by their short names.
pub fn get_gtfs_id_from_station_name(station_name: &str) -> (r: Option<String>)
    ensures
        match r {
            Some(code) => is_resolved_code(ALTERNATE_STATIONS@, station_name@, None, code@),
            None => is_unresolved(ALTERNATE_STATIONS@, station_name@),
        },
{
    resolve_name_to_code(&ALTERNATE_STATIONS, station_name)
}

} // verus!
