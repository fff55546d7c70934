//! What holds of station resolution for every table and every input.

use vstd::prelude::*;
use crate::station_facts::{
    lemma_alternate_agrees_with_stations, lemma_alternate_covers_stations,
    lemma_alternate_stations_well_formed, lemma_stations_well_formed,
};
use crate::station_table::{
    agrees_with, code_of, covers, has_name, line_of, name_of, stands_in, well_formed, Line,
    StationRecord, ALTERNATE_STATIONS, STATIONS,
};
use crate::stations::{
    any_match, base_code, folded_names, has_code, is_candidate, is_first_with_code,
    is_resolved_code, is_selected, is_smallest_match, is_unresolved,
    lemma_first_with_code_unique, matches_on, name_for_code, record_matches, resolved_name,
    winning_rule, MatchRule, PLATFORM_SEPARATOR,
};
use crate::text::{lemma_first_occurrence_unique, lemma_lex_le_order, lex_le, lowercase};

verus! {

/// An identifier without a separator is its own base code.
pub proof fn lemma_plain_code_is_base(code: Seq<char>)
    requires
        !code.contains(PLATFORM_SEPARATOR),
    ensures
        base_code(code) == code,
{
    assert(code.take(code.len() as int) =~= code);
}

/// A code followed by a separator and any suffix has the code as its base code.
pub proof fn lemma_suffix_is_dropped(code: Seq<char>, suffix: Seq<char>)
    requires
        !code.contains(PLATFORM_SEPARATOR),
    ensures
        base_code(code + seq![PLATFORM_SEPARATOR] + suffix) == code,
{
    let full = code + seq![PLATFORM_SEPARATOR] + suffix;
    let n = code.len() as int;
    assert(full[n] == PLATFORM_SEPARATOR);
    assert forall|j: int| 0 <= j < n implies full[j] != PLATFORM_SEPARATOR by {
        assert(full[j] == code[j]);
        assert(code.contains(code[j]));
    }
    lemma_first_occurrence_unique(full, PLATFORM_SEPARATOR, n);
    assert(full.take(n) =~= code);
}

/// A platform suffix does not change what a known code resolves to: for every
/// code of the table that holds no separator, and every suffix, the code alone
/// and the code with the suffix resolve to the same display name.
pub proof fn law_platform_suffix_ignored(
    table: Seq<StationRecord>,
    code: Seq<char>,
    suffix: Seq<char>,
)
    requires
        has_code(table, code),
        !code.contains(PLATFORM_SEPARATOR),
    ensures
        resolved_name(table, code + seq![PLATFORM_SEPARATOR] + suffix) == resolved_name(
            table,
            code,
        ),
        resolved_name(table, code) == name_for_code(table, code),
{
    lemma_plain_code_is_base(code);
    lemma_suffix_is_dropped(code, suffix);
}

/// An identifier whose base code the table does not hold resolves to itself.
pub proof fn law_unknown_identifier_unchanged(table: Seq<StationRecord>, stop_id: Seq<char>)
    requires
        !has_code(table, base_code(stop_id)),
    ensures
        resolved_name(table, stop_id) == stop_id,
{
}

/// In a well-formed table every record's code resolves to that record's name,
/// with or without a platform suffix.
pub proof fn law_record_resolves_to_its_name(
    table: Seq<StationRecord>,
    i: int,
    suffix: Seq<char>,
)
    requires
        well_formed(table),
        0 <= i < table.len(),
    ensures
        resolved_name(table, code_of(table[i])) == name_of(table[i]),
        resolved_name(table, code_of(table[i]) + seq![PLATFORM_SEPARATOR] + suffix) == name_of(
            table[i],
        ),
{
    let code = code_of(table[i]);
    assert(is_first_with_code(table, code, i));
    lemma_first_with_code_unique(table, code, i);
    law_platform_suffix_ignored(table, code, suffix);
}

/// Every code of the canonical station list resolves to one display name,
/// whatever platform suffix follows it.
pub proof fn law_station_suffix_ignored(i: int, suffix: Seq<char>)
    requires
        0 <= i < STATIONS@.len(),
    ensures
        resolved_name(STATIONS@, code_of(STATIONS@[i])) == name_of(STATIONS@[i]),
        resolved_name(STATIONS@, code_of(STATIONS@[i]) + seq![PLATFORM_SEPARATOR] + suffix)
            == name_of(STATIONS@[i]),
{
    lemma_stations_well_formed();
    law_record_resolves_to_its_name(STATIONS@, i, suffix);
}

/// Among the first `n` records, where one satisfies `wanted`, one of those that
/// do has the smallest code and is the first with that code.
proof fn lemma_least_among(
    table: Seq<StationRecord>,
    wanted: spec_fn(int) -> bool,
    n: int,
) -> (best: int)
    requires
        0 <= n <= table.len(),
        exists|k: int| 0 <= k < n && #[trigger] wanted(k),
    ensures
        0 <= best < n,
        wanted(best),
        forall|j: int|
            0 <= j < n && #[trigger] wanted(j) ==> lex_le(code_of(table[best]), code_of(table[j])),
        forall|j: int|
            0 <= j < best && #[trigger] wanted(j) ==> code_of(table[j]) != code_of(table[best]),
    decreases n,
{
    let last = n - 1;
    if exists|k: int| 0 <= k < last && #[trigger] wanted(k) {
        let before = lemma_least_among(table, wanted, last);
        if wanted(last) {
            let a = code_of(table[before]);
            let b = code_of(table[last]);
            lemma_lex_le_order(a, b, a);
            if lex_le(a, b) {
                before
            } else {
                assert forall|j: int| 0 <= j < last && #[trigger] wanted(j) implies lex_le(
                    b,
                    code_of(table[j]),
                ) && code_of(table[j]) != b by {
                    lemma_lex_le_order(b, a, code_of(table[j]));
                    lemma_lex_le_order(a, code_of(table[j]), b);
                }
                last
            }
        } else {
            before
        }
    } else {
        last
    }
}

/// Where some record answers a query under a rule, one of the candidates has the
/// smallest code, whatever the line hint.
pub proof fn lemma_smallest_match_exists(
    rule: MatchRule,
    table: Seq<StationRecord>,
    folded: Seq<Seq<char>>,
    query: Seq<char>,
    folded_query: Seq<char>,
    hint: Option<Line>,
) -> (best: int)
    requires
        any_match(rule, table, folded, query, folded_query),
    ensures
        is_smallest_match(rule, table, folded, query, folded_query, hint, best),
{
    let wanted = |j: int| is_candidate(rule, table, folded, query, folded_query, hint, j);
    if exists|j: int| #[trigger] matches_on(rule, table, folded, query, folded_query, hint, j) {
        let k = choose|j: int| #[trigger]
            matches_on(rule, table, folded, query, folded_query, hint, j);
        assert(0 <= k < table.len() && wanted(k));
    } else {
        let k = choose|k: int| record_matches(rule, table, folded, query, folded_query, k);
        assert(0 <= k < table.len() && wanted(k));
    }
    lemma_least_among(table, wanted, table.len() as int)
}

/// The candidate with the smallest code is one record only.
pub proof fn lemma_smallest_match_unique(
    rule: MatchRule,
    table: Seq<StationRecord>,
    folded: Seq<Seq<char>>,
    query: Seq<char>,
    folded_query: Seq<char>,
    hint: Option<Line>,
    i: int,
    j: int,
)
    requires
        is_smallest_match(rule, table, folded, query, folded_query, hint, i),
        is_smallest_match(rule, table, folded, query, folded_query, hint, j),
    ensures
        i == j,
{
    let wanted = |k: int| is_candidate(rule, table, folded, query, folded_query, hint, k);
    assert(wanted(i) && wanted(j));
    lemma_lex_le_order(code_of(table[i]), code_of(table[j]), code_of(table[i]));
}

/// A display name resolves to a code exactly when some record answers it, and
/// then to one code only, whatever the line hint.
pub proof fn law_resolution_is_determined(
    table: Seq<StationRecord>,
    query: Seq<char>,
    hint: Option<Line>,
    first: Seq<char>,
    second: Seq<char>,
)
    ensures
        is_unresolved(table, query) <==> !exists|code: Seq<char>|
            is_resolved_code(table, query, hint, code),
        is_resolved_code(table, query, hint, first) && is_resolved_code(table, query, hint, second)
            ==> first == second,
{
    let folded = folded_names(table);
    let fq = lowercase(query);
    if is_resolved_code(table, query, hint, first) && is_resolved_code(table, query, hint, second) {
        let i = choose|i: int|
            #[trigger] is_selected(table, folded, query, fq, hint, i) && code_of(table[i])
                == first;
        let j = choose|j: int|
            #[trigger] is_selected(table, folded, query, fq, hint, j) && code_of(table[j])
                == second;
        lemma_smallest_match_unique(
            winning_rule(table, folded, query, fq)->0,
            table,
            folded,
            query,
            fq,
            hint,
            i,
            j,
        );
    }
    match winning_rule(table, folded, query, fq) {
        Some(rule) => {
            let best = lemma_smallest_match_exists(rule, table, folded, query, fq, hint);
            assert(is_selected(table, folded, query, fq, hint, best));
            assert(is_resolved_code(table, query, hint, code_of(table[best])));
        },
        None => {
            if exists|code: Seq<char>| is_resolved_code(table, query, hint, code) {
                let code = choose|code: Seq<char>| is_resolved_code(table, query, hint, code);
                let i = choose|i: int|
                    #[trigger] is_selected(table, folded, query, fq, hint, i) && code_of(
                        table[i],
                    ) == code;
            }
        },
    }
}

/// A hint for a line on which a record answers under the strongest rule is
/// followed: the code that the name resolves to belongs to a record of that
/// line which answers the query.
pub proof fn law_hint_is_followed(
    table: Seq<StationRecord>,
    query: Seq<char>,
    line: Line,
    code: Seq<char>,
)
    requires
        is_resolved_code(table, query, Some(line), code),
        winning_rule(table, folded_names(table), query, lowercase(query)) matches Some(rule)
            && exists|j: int| #[trigger]
            matches_on(rule, table, folded_names(table), query, lowercase(query), Some(line), j),
    ensures
        exists|i: int|
            0 <= i < table.len() && code_of(#[trigger] table[i]) == code && line_of(table[i])
                == line,
{
    let folded = folded_names(table);
    let fq = lowercase(query);
    let rule = winning_rule(table, folded, query, fq)->0;
    let i = choose|i: int|
        #[trigger] is_selected(table, folded, query, fq, Some(line), i) && code_of(table[i])
            == code;
    let wanted = |k: int| is_candidate(rule, table, folded, query, fq, Some(line), k);
    assert(wanted(i));
}

/// The candidate with the smallest code answers the query.
pub proof fn lemma_candidate_matches(
    rule: MatchRule,
    table: Seq<StationRecord>,
    folded: Seq<Seq<char>>,
    query: Seq<char>,
    folded_query: Seq<char>,
    hint: Option<Line>,
    i: int,
)
    requires
        is_smallest_match(rule, table, folded, query, folded_query, hint, i),
    ensures
        record_matches(rule, table, folded, query, folded_query, i),
{
    let wanted = |k: int| is_candidate(rule, table, folded, query, folded_query, hint, k);
    assert(wanted(i));
}

/// Round trip in a well-formed table: the display name that a code of the table
/// resolves to resolves back to a code of the table, and that code resolves to
/// the same display name. It need not be the code that was started from, since
/// several codes may carry one name.
pub proof fn law_round_trip(table: Seq<StationRecord>, i: int, hint: Option<Line>) -> (code: Seq<
    char,
>)
    requires
        well_formed(table),
        0 <= i < table.len(),
    ensures
        is_resolved_code(table, resolved_name(table, code_of(table[i])), hint, code),
        has_code(table, code),
        resolved_name(table, code) == resolved_name(table, code_of(table[i])),
{
    law_record_resolves_to_its_name(table, i, Seq::empty());
    let name = name_of(table[i]);
    let folded = folded_names(table);
    let fq = lowercase(name);
    assert(record_matches(MatchRule::Exact, table, folded, name, fq, i));
    let best = lemma_smallest_match_exists(MatchRule::Exact, table, folded, name, fq, hint);
    assert(is_selected(table, folded, name, fq, hint, best));
    lemma_candidate_matches(MatchRule::Exact, table, folded, name, fq, hint, best);
    law_record_resolves_to_its_name(table, best, Seq::empty());
    code_of(table[best])
}

/// Round trip over the canonical station list.
pub proof fn law_station_round_trip(i: int) -> (code: Seq<char>)
    requires
        0 <= i < STATIONS@.len(),
    ensures
        is_resolved_code(STATIONS@, resolved_name(STATIONS@, code_of(STATIONS@[i])), None, code),
        resolved_name(STATIONS@, code) == resolved_name(STATIONS@, code_of(STATIONS@[i])),
{
    lemma_stations_well_formed();
    law_round_trip(STATIONS@, i, None)
}

/// Round trip across two tables: where `names` carries every display name of
/// the well-formed table `codes` and agrees with it, the display name that a
/// code of `codes` resolves to resolves in `names` to a code that `codes`
/// resolves to the same display name.
pub proof fn law_round_trip_across(
    codes: Seq<StationRecord>,
    names: Seq<StationRecord>,
    i: int,
    hint: Option<Line>,
) -> (code: Seq<char>)
    requires
        well_formed(codes),
        covers(names, codes),
        agrees_with(names, codes),
        0 <= i < codes.len(),
    ensures
        is_resolved_code(names, resolved_name(codes, code_of(codes[i])), hint, code),
        has_code(codes, code),
        resolved_name(codes, code) == resolved_name(codes, code_of(codes[i])),
{
    law_record_resolves_to_its_name(codes, i, Seq::empty());
    let name = name_of(codes[i]);
    let folded = folded_names(names);
    let fq = lowercase(name);
    assert(has_name(names, name_of(codes[i])));
    let m = choose|m: int| 0 <= m < names.len() && name_of(#[trigger] names[m]) == name;
    assert(record_matches(MatchRule::Exact, names, folded, name, fq, m));
    let best = lemma_smallest_match_exists(MatchRule::Exact, names, folded, name, fq, hint);
    assert(is_selected(names, folded, name, fq, hint, best));
    lemma_candidate_matches(MatchRule::Exact, names, folded, name, fq, hint, best);
    assert(name_of(names[best]) == name_of(codes[i]));
    assert(has_name(codes, name_of(names[best])));
    assert(stands_in(codes, names[best]));
    let k = choose|k: int|
        0 <= k < codes.len() && code_of(#[trigger] codes[k]) == code_of(names[best]) && name_of(
            codes[k],
        ) == name_of(names[best]);
    law_record_resolves_to_its_name(codes, k, Seq::empty());
    code_of(names[best])
}

/// Round trip from the canonical station list through the alternate list: the
/// display name of every code resolves, by the alternate name lookup, to a code
/// that carries this display name.
pub proof fn law_station_round_trip_alternate(i: int) -> (code: Seq<char>)
    requires
        0 <= i < STATIONS@.len(),
    ensures
        is_resolved_code(
            ALTERNATE_STATIONS@,
            resolved_name(STATIONS@, code_of(STATIONS@[i])),
            None,
            code,
        ),
        resolved_name(STATIONS@, code) == resolved_name(STATIONS@, code_of(STATIONS@[i])),
{
    lemma_stations_well_formed();
    lemma_alternate_covers_stations();
    lemma_alternate_agrees_with_stations();
    law_round_trip_across(STATIONS@, ALTERNATE_STATIONS@, i, None)
}

/// Round trip over the alternate station list, taken by itself.
pub proof fn law_alternate_round_trip(i: int) -> (code: Seq<char>)
    requires
        0 <= i < ALTERNATE_STATIONS@.len(),
    ensures
        is_resolved_code(
            ALTERNATE_STATIONS@,
            resolved_name(ALTERNATE_STATIONS@, code_of(ALTERNATE_STATIONS@[i])),
            None,
            code,
        ),
        resolved_name(ALTERNATE_STATIONS@, code) == resolved_name(
            ALTERNATE_STATIONS@,
            code_of(ALTERNATE_STATIONS@[i]),
        ),
{
    lemma_alternate_stations_well_formed();
    law_round_trip(ALTERNATE_STATIONS@, i, None)
}

} // verus!
