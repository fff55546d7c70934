//! From a decoded feed to the response: the arrival lines in document order,
//! capped, and the four slots filled from them.

use vstd::prelude::*;
use crate::arrival::{format_train_line, train_line};
use crate::bart::BartOutgoingResponse;
use crate::feed::{FeedEntity, FeedMessage, StopTimeUpdate};
use crate::station_table::STATIONS;
use crate::stations::{get_station_name_from_gtfs_id, resolved_name};

verus! {

/// The number of arrival lines after which the feed is read no further.
pub const MAX_LINES: usize = 10;

/// The arrival line of a stop-time update that carries the stop identifier `stop_id`.
pub open spec fn update_line(stop_id: Seq<char>, update: StopTimeUpdate) -> Seq<char> {
    train_line(resolved_name(STATIONS@, stop_id), update.arrival)
}

/// The arrival lines of a run of stop-time updates, in order: one for each
/// update that carries a stop identifier.
pub open spec fn lines_of_updates(updates: Seq<StopTimeUpdate>) -> Seq<Seq<char>>
    decreases updates.len(),
{
    if updates.len() == 0 {
        Seq::empty()
    } else {
        let before = lines_of_updates(updates.drop_last());
        match updates.last().stop_id {
            Some(stop_id) => before.push(update_line(stop_id@, updates.last())),
            None => before,
        }
    }
}

/// The arrival lines of a run of entities, in order: those of each entity that
/// carries a trip update.
pub open spec fn lines_of_entities(entities: Seq<FeedEntity>) -> Seq<Seq<char>>
    decreases entities.len(),
{
    if entities.len() == 0 {
        Seq::empty()
    } else {
        let before = lines_of_entities(entities.drop_last());
        match entities.last().trip_update {
            Some(trip) => before + lines_of_updates(trip.stop_time_update@),
            None => before,
        }
    }
}

/// All arrival lines of a feed, in document order.
pub open spec fn all_lines(feed: FeedMessage) -> Seq<Seq<char>> {
    lines_of_entities(feed.entity@)
}

/// The first `MAX_LINES` of a sequence of lines; all of them where there are
/// fewer.
pub open spec fn capped(lines: Seq<Seq<char>>) -> Seq<Seq<char>> {
    if lines.len() > MAX_LINES {
        lines.take(MAX_LINES as int)
    } else {
        lines
    }
}

/// The texts of a vector of strings.
pub open spec fn texts_of(lines: Seq<String>) -> Seq<Seq<char>> {
    Seq::new(lines.len(), |i: int| lines[i]@)
}

/// What slot `i` of a response shows: line `i`, or, where there is no such
/// line, the text that says so.
pub open spec fn slot_text(lines: Seq<Seq<char>>, i: int) -> Seq<char> {
    if 0 <= i < lines.len() {
        lines[i]
    } else {
        "No data available"@
    }
}

/// The lines of two runs of updates, one after the other, are the lines of the
/// first followed by those of the second.
pub proof fn lemma_lines_of_updates_concat(a: Seq<StopTimeUpdate>, b: Seq<StopTimeUpdate>)
    ensures
        lines_of_updates(a + b) == lines_of_updates(a) + lines_of_updates(b),
    decreases b.len(),
{
    if b.len() == 0 {
        assert(a + b =~= a);
        assert(lines_of_updates(a) + lines_of_updates(b) =~= lines_of_updates(a));
    } else {
        assert((a + b).drop_last() =~= a + b.drop_last());
        assert((a + b).last() == b.last());
        lemma_lines_of_updates_concat(a, b.drop_last());
        assert(lines_of_updates(a + b) =~= lines_of_updates(a) + lines_of_updates(b));
    }
}

/// The lines of two runs of entities, one after the other, are the lines of the
/// first followed by those of the second.
pub proof fn lemma_lines_of_entities_concat(a: Seq<FeedEntity>, b: Seq<FeedEntity>)
    ensures
        lines_of_entities(a + b) == lines_of_entities(a) + lines_of_entities(b),
    decreases b.len(),
{
    if b.len() == 0 {
        assert(a + b =~= a);
        assert(lines_of_entities(a) + lines_of_entities(b) =~= lines_of_entities(a));
    } else {
        assert((a + b).drop_last() =~= a + b.drop_last());
        assert((a + b).last() == b.last());
        lemma_lines_of_entities_concat(a, b.drop_last());
        assert(lines_of_entities(a + b) =~= lines_of_entities(a) + lines_of_entities(b));
    }
}

/// Once the cap is reached, lines that follow change nothing.
pub proof fn lemma_capped_ignores_rest(lines: Seq<Seq<char>>, rest: Seq<Seq<char>>)
    requires
        lines.len() >= MAX_LINES,
    ensures
        capped(lines + rest) == capped(lines),
{
    assert((lines + rest).take(MAX_LINES as int) =~= lines.take(MAX_LINES as int));
    assert(lines.len() == MAX_LINES ==> lines.take(MAX_LINES as int) =~= lines);
}

/// The arrival line of one stop-time update with the given stop identifier.
pub fn line_for_update(stop_id: &str, update: &StopTimeUpdate) -> (r: String)
    ensures
        r@ == update_line(stop_id@, *update),
{
    let station_name = get_station_name_from_gtfs_id(stop_id);
    format_train_line(station_name.as_str(), &update.arrival)
}

/// Appends the lines of one trip's updates to `out`, up to the cap.
fn append_update_lines(
    out: &mut Vec<String>,
    updates: &Vec<StopTimeUpdate>,
    Ghost(before): Ghost<Seq<Seq<char>>>,
)
    requires
        texts_of(old(out)@) == capped(before),
    ensures
        texts_of(final(out)@) == capped(before + lines_of_updates(updates@)),
{
    let mut j: usize = 0;
    assert(updates@.take(0) =~= Seq::<StopTimeUpdate>::empty());
    assert(before + lines_of_updates(updates@.take(0)) =~= before);
    while j < updates.len() && out.len() < MAX_LINES
        invariant
            j <= updates.len(),
            texts_of(out@) == capped(before + lines_of_updates(updates@.take(j as int))),
        decreases updates.len() - j,
    {
        let ghost seen = before + lines_of_updates(updates@.take(j as int));
        assert(updates@.take(j + 1).drop_last() =~= updates@.take(j as int));
        assert(updates@.take(j + 1).last() == updates@[j as int]);
        assert(texts_of(out@).len() == out@.len());
        match &updates[j].stop_id {
            Some(stop_id) => {
                let line = line_for_update(stop_id.as_str(), &updates[j]);
                let ghost old_out = out@;
                out.push(line);
                assert(before + lines_of_updates(updates@.take(j + 1)) =~= seen.push(line@));
                assert(texts_of(out@) =~= texts_of(old_out).push(line@));
            },
            None => {
                assert(before + lines_of_updates(updates@.take(j + 1)) =~= seen);
            },
        }
        j = j + 1;
    }
    proof {
        let seen = before + lines_of_updates(updates@.take(j as int));
        assert(texts_of(out@).len() == out@.len());
        if j < updates.len() {
            let rest = lines_of_updates(updates@.skip(j as int));
            assert(updates@ =~= updates@.take(j as int) + updates@.skip(j as int));
            lemma_lines_of_updates_concat(updates@.take(j as int), updates@.skip(j as int));
            assert(before + lines_of_updates(updates@) =~= seen + rest);
            lemma_capped_ignores_rest(seen, rest);
        } else {
            assert(updates@.take(j as int) =~= updates@);
        }
    }
}

/// The arrival lines of a feed, in document order, read until the cap is
/// reached: the first `MAX_LINES` of all its lines.
pub fn collect_train_lines(feed: &FeedMessage) -> (r: Vec<String>)
    ensures
        texts_of(r@) == capped(all_lines(*feed)),
        r.len() <= MAX_LINES,
{
    let mut out: Vec<String> = Vec::new();
    let mut i: usize = 0;
    assert(feed.entity@.take(0) =~= Seq::<FeedEntity>::empty());
    assert(texts_of(out@) =~= Seq::<Seq<char>>::empty());
    while i < feed.entity.len() && out.len() < MAX_LINES
        invariant
            i <= feed.entity.len(),
            texts_of(out@) == capped(lines_of_entities(feed.entity@.take(i as int))),
        decreases feed.entity.len() - i,
    {
        let ghost before = lines_of_entities(feed.entity@.take(i as int));
        assert(feed.entity@.take(i + 1).drop_last() =~= feed.entity@.take(i as int));
        assert(feed.entity@.take(i + 1).last() == feed.entity@[i as int]);
        match &feed.entity[i].trip_update {
            Some(trip) => {
                append_update_lines(&mut out, &trip.stop_time_update, Ghost(before));
            },
            None => {},
        }
        i = i + 1;
    }
    proof {
        let seen = lines_of_entities(feed.entity@.take(i as int));
        assert(texts_of(out@).len() == out@.len());
        if i < feed.entity.len() {
            let rest = lines_of_entities(feed.entity@.skip(i as int));
            assert(feed.entity@ =~= feed.entity@.take(i as int) + feed.entity@.skip(i as int));
            lemma_lines_of_entities_concat(
                feed.entity@.take(i as int),
                feed.entity@.skip(i as int),
            );
            lemma_capped_ignores_rest(seen, rest);
        } else {
            assert(feed.entity@.take(i as int) =~= feed.entity@);
        }
    }
    out
}

/// What one slot of a response shows.
pub fn slot(lines: &Vec<String>, i: usize) -> (r: String)
    ensures
        r@ == slot_text(texts_of(lines@), i as int),
{
    if i < lines.len() {
        lines[i].clone()
    } else {
        "No data available".to_owned()
    }
}

/// Fills the four slots of a response from the accumulated lines: the first
/// line is the outbound train, the next three are the inbound trains.
pub fn select_response(lines: &Vec<String>) -> (r: BartOutgoingResponse)
    ensures
        r.outbound_train@ == slot_text(texts_of(lines@), 0),
        r.inbound_train_0@ == slot_text(texts_of(lines@), 1),
        r.inbound_train_1@ == slot_text(texts_of(lines@), 2),
        r.inbound_train_2@ == slot_text(texts_of(lines@), 3),
{
    BartOutgoingResponse {
        outbound_train: slot(lines, 0),
        inbound_train_0: slot(lines, 1),
        inbound_train_1: slot(lines, 2),
        inbound_train_2: slot(lines, 3),
    }
}

/// The cap does not show in the response: the four slots are those of the
/// complete list of lines.
pub proof fn law_cap_keeps_slots(lines: Seq<Seq<char>>, i: int)
    requires
        0 <= i < 4,
    ensures
        slot_text(capped(lines), i) == slot_text(lines, i),
        capped(lines).len() == if lines.len() > MAX_LINES {
            MAX_LINES as nat
        } else {
            lines.len()
        },
{
}

/// The response for a decoded feed: its first four arrival lines, in document
/// order, each missing one replaced by the text that says so.
pub fn assemble_response(feed: &FeedMessage) -> (r: BartOutgoingResponse)
    ensures
        r.outbound_train@ == slot_text(all_lines(*feed), 0),
        r.inbound_train_0@ == slot_text(all_lines(*feed), 1),
        r.inbound_train_1@ == slot_text(all_lines(*feed), 2),
        r.inbound_train_2@ == slot_text(all_lines(*feed), 3),
{
    let lines = collect_train_lines(feed);
    proof {
        law_cap_keeps_slots(all_lines(*feed), 0);
        law_cap_keeps_slots(all_lines(*feed), 1);
        law_cap_keeps_slots(all_lines(*feed), 2);
        law_cap_keeps_slots(all_lines(*feed), 3);
    }
    select_response(&lines)
}

} // verus!
