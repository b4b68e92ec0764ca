//! What holds of the game as a whole: laws that follow from what the single
//! operations promise.

use vstd::prelude::*;
use crate::api::models::{
    FuelRequest, PlayerFuelResponse, PlayerTradeResponse, PlayerTravelResponse,
    PostMessageResponse, TradeAction, TradeRequest,
};
use crate::api::room_actions::{
    fails_with, market_of, posted, refueled, trade_amount, trade_decision, traded, traveled,
    TradeDecision,
};
use crate::api::multiplayer_service::settled;
use crate::clock::longer_than;
use crate::models::airport::{Airport, Route};
use crate::models::cargo::CargoType;
use crate::models::message_board::{
    is_at, is_older, most_recent, newest_first, written_at, Message,
};
use crate::models::player::{ceil_div, fuel_after_adding, fuel_needed};
use crate::search::{
    belongs_behind, count_where, is_of_one_rank, is_ranking, keep_where,
    lemma_arranged_is_arranged, lemma_arranged_keeps_order_within_rank, lemma_arranged_permutes,
    lemma_count_where_bound, lemma_count_where_push, lemma_count_where_update,
    lemma_count_where_zero, lemma_first_where, lemma_first_where_at, lemma_keep_where, place_in,
};
use crate::systems::multiplayer::{
    back_online, gone_offline, has_id, is_named, is_online, joined, left, name_index,
    online_count, player_index, seen, GameRoom, GameStatus, PlayerGameState, FRESHNESS_SECONDS,
};
use crate::systems::save::{is_saved_earlier, newest_saves_first, SaveInfo};
use crate::systems::travel::{is_farther, nearest_first, DestinationInfo};

verus! {

/// A tank never holds more than its size after fuel was added, whatever it
/// held before and however much was added.
pub proof fn law_fuel_stays_within_tank(fuel: u32, amount: u32, max_fuel: u32)
    ensures
        fuel_after_adding(fuel, amount, max_fuel) <= max_fuel,
        fuel + amount <= max_fuel ==> fuel_after_adding(fuel, amount, max_fuel) == fuel + amount,
        fuel + amount > max_fuel ==> fuel_after_adding(fuel, amount, max_fuel) == max_fuel,
{
}

/// A quotient rounded up is the least number of divisors that make up the
/// dividend.
pub proof fn law_ceil_div_is_least_cover(n: nat, d: nat)
    requires
        d > 0,
    ensures
        ceil_div(n, d) * d >= n,
        n > 0 ==> (ceil_div(n, d) - 1) * d < n,
        n == 0 ==> ceil_div(n, d) == 0,
{
    let q = (n + d - 1) / (d as int);
    let r = (n + d - 1) % (d as int);
    assert(n + d - 1 == q * d + r && 0 <= r < d) by (nonlinear_arith)
        requires
            d > 0,
            q == (n + d - 1) / (d as int),
            r == (n + d - 1) % (d as int),
    ;
    assert(q * d >= n) by (nonlinear_arith)
        requires
            n + d - 1 == q * d + r,
            0 <= r < d,
    ;
    assert((q - 1) * d == q * d - d) by (nonlinear_arith);
    if n == 0 {
        assert(q == 0) by (nonlinear_arith)
            requires
                d - 1 == q * d + r,
                0 <= r < d,
                d > 0,
        ;
    }
    assert(q >= 0) by (nonlinear_arith)
        requires
            n + d - 1 == q * d + r,
            0 <= r < d,
            d > 0,
            n >= 0,
    ;
}

/// A longer way never takes less fuel.
pub proof fn law_fuel_needed_grows_with_distance(shorter: nat, longer: nat, efficiency: nat)
    requires
        shorter <= longer,
    ensures
        fuel_needed(shorter, efficiency) <= fuel_needed(longer, efficiency),
{
    if efficiency > 0 {
        let d = efficiency as int;
        assert((shorter + d - 1) / d <= (longer + d - 1) / d) by (nonlinear_arith)
            requires
                shorter <= longer,
                d > 0,
        ;
    }
}

/// Within the amounts that 32 bits hold, the fuel needed is the distance
/// divided by the efficiency, rounded up.
pub proof fn law_fuel_needed_is_rounded_up_quotient(distance: nat, efficiency: nat)
    requires
        efficiency > 0,
        ceil_div(distance, efficiency) <= u32::MAX,
    ensures
        fuel_needed(distance, efficiency) == ceil_div(distance, efficiency),
{
}

/// A room that has as many players online as it takes lets nobody in,
/// however many of its players are offline.
pub proof fn law_full_room_lets_nobody_in(
    before: GameRoom,
    after: GameRoom,
    now: i64,
    player_id: u128,
    name: String,
    airport: Option<String>,
    result: Result<u128, String>,
)
    requires
        online_count(before.players@) >= before.max_players,
        joined(before, after, now, player_id, name, airport, result),
    ensures
        after == before,
        fails_with(result, "Room is full"@),
{
}

/// A player who leaves a room and comes back under the same name, while
/// the room still has a place, is the player who left: the id is the same,
/// and so are the money, the fuel, the hold and the time of first coming
/// in. Nobody else in the room is touched.
pub proof fn law_rejoin_restores_player(
    start: GameRoom,
    away: GameRoom,
    back: GameRoom,
    left_at: i64,
    back_at: i64,
    player_id: u128,
    candidate_id: u128,
    name: String,
    airport: Option<String>,
    leave_result: Result<(), String>,
    join_result: Result<u128, String>,
)
    requires
        start.has_distinct_players(),
        player_index(start.players@, player_id) >= 0,
        start.players[player_index(start.players@, player_id)].player_name@ == name@,
        left(start, away, left_at, player_id, leave_result),
        online_count(away.players@) < away.max_players,
        joined(away, back, back_at, candidate_id, name, airport, join_result),
    ensures
        leave_result is Ok,
        join_result == Ok::<u128, String>(player_id),
        back.players@ == start.players@.update(
            player_index(start.players@, player_id),
            back_online(start.players[player_index(start.players@, player_id)], back_at),
        ),
        back.players[player_index(start.players@, player_id)].player
            == start.players[player_index(start.players@, player_id)].player,
        back.players[player_index(start.players@, player_id)].joined_at
            == start.players[player_index(start.players@, player_id)].joined_at,
        back.players[player_index(start.players@, player_id)].is_online,
        back == (GameRoom { players: back.players, ..start }),
{
    let i = player_index(start.players@, player_id);
    lemma_first_where(start.players@, has_id(player_id));
    let gone = gone_offline(start.players[i], left_at);
    assert(away.players@ == start.players@.update(i, gone));
    assert forall|j: int| 0 <= j < i implies !is_named(name@)(#[trigger] away.players@[j]) by {
        assert(start.players[j].player_name@ != start.players[i].player_name@);
    }
    lemma_first_where_at(away.players@, is_named(name@), i);
    assert(name_index(away.players@, name@) == i);
    assert(back.players@ =~= start.players@.update(i, back_online(start.players[i], back_at)));
}

/// While a player is online and was seen within the last five seconds,
/// nobody else comes into the room under that player's name.
pub proof fn law_fresh_name_is_taken(
    before: GameRoom,
    after: GameRoom,
    now: i64,
    candidate_id: u128,
    name: String,
    airport: Option<String>,
    result: Result<u128, String>,
)
    requires
        before.has_distinct_players(),
        online_count(before.players@) < before.max_players,
        exists|i: int|
            0 <= i < before.players@.len() && before.players[i].player_name@ == name@
                && before.players[i].is_online && !longer_than(
                before.players[i].last_seen,
                now,
                FRESHNESS_SECONDS as int,
            ),
        joined(before, after, now, candidate_id, name, airport, result),
    ensures
        after == before,
        fails_with(result, "Player name already taken in this room"@),
{
    let i = choose|i: int|
        0 <= i < before.players@.len() && before.players[i].player_name@ == name@
            && before.players[i].is_online && !longer_than(
            before.players[i].last_seen,
            now,
            FRESHNESS_SECONDS as int,
        );
    assert forall|j: int| 0 <= j < i implies !is_named(name@)(#[trigger] before.players@[j]) by {
        assert(before.players[j].player_name@ != before.players[i].player_name@);
    }
    lemma_first_where_at(before.players@, is_named(name@), i);
}

/// Coming into a room keeps the room sound: no two players share an id or
/// a name, no more players are online than the room takes, and the host
/// stays a player.
pub proof fn law_join_keeps_room_sound(
    before: GameRoom,
    after: GameRoom,
    now: i64,
    player_id: u128,
    name: String,
    airport: Option<String>,
    result: Result<u128, String>,
)
    requires
        joined(before, after, now, player_id, name, airport, result),
    ensures
        before.has_distinct_players() ==> after.has_distinct_players(),
        before.is_within_capacity() ==> after.is_within_capacity(),
        before.has_host() ==> after.has_host(),
        after.max_players == before.max_players,
        after.host_player_id == before.host_player_id,
{
    let i = name_index(before.players@, name@);
    lemma_first_where(before.players@, is_named(name@));
    lemma_first_where(before.players@, has_id(player_id));
    lemma_first_where(before.players@, has_id(before.host_player_id));
    let h = player_index(before.players@, before.host_player_id);
    if after != before {
        if i >= 0 {
            lemma_count_where_update(
                before.players@,
                is_online(),
                i,
                back_online(before.players[i], now),
            );
            if before.has_host() {
                assert forall|j: int| 0 <= j < h implies !has_id(before.host_player_id)(
                    #[trigger] after.players@[j],
                ) by {
                    assert(!has_id(before.host_player_id)(before.players@[j]));
                }
                assert(has_id(before.host_player_id)(after.players@[h]));
                lemma_first_where_at(after.players@, has_id(before.host_player_id), h);
            }
        } else {
            assert(after.players@ =~= before.players@.push(after.players@.last()));
            lemma_count_where_push(before.players@, is_online(), after.players@.last());
            if before.has_distinct_players() {
                assert forall|a: int, b: int| 0 <= a < b < after.players@.len() implies after.players[a].player_id
                    != after.players[b].player_id && after.players[a].player_name@
                    != after.players[b].player_name@ by {
                    if b == after.players@.len() - 1 {
                        assert(!has_id(player_id)(before.players@[a]));
                        assert(!is_named(name@)(before.players@[a]));
                    }
                }
            }
            if before.has_host() {
                assert forall|j: int| 0 <= j < h implies !has_id(before.host_player_id)(
                    #[trigger] after.players@[j],
                ) by {
                    assert(!has_id(before.host_player_id)(before.players@[j]));
                }
                assert(has_id(before.host_player_id)(after.players@[h]));
                lemma_first_where_at(after.players@, has_id(before.host_player_id), h);
            }
        }
    }
}

/// A trade that is turned down, for whatever reason, leaves the room as it
/// was: no money, no fuel and no cargo has moved.
pub proof fn law_refused_trade_changes_nothing(
    before: GameRoom,
    after: GameRoom,
    player_id: u128,
    request: TradeRequest,
    result: Result<PlayerTradeResponse, String>,
)
    requires
        traded(before, after, player_id, request, result),
        result is Err || !result->Ok_0.success,
    ensures
        after == before,
{
}

/// A purchase of fuel that is turned down leaves the room as it was.
pub proof fn law_refused_fuel_changes_nothing(
    before: GameRoom,
    after: GameRoom,
    player_id: u128,
    request: FuelRequest,
    result: Result<PlayerFuelResponse, String>,
)
    requires
        refueled(before, after, player_id, request, result),
        result is Err || !result->Ok_0.success,
    ensures
        after == before,
{
}

/// A flight that is turned down leaves the room as it was.
pub proof fn law_refused_travel_changes_nothing(
    before: GameRoom,
    after: GameRoom,
    now: i64,
    player_id: u128,
    destination: Seq<char>,
    result: Result<PlayerTravelResponse, String>,
)
    requires
        traveled(before, after, now, player_id, destination, result),
        result is Err || !result->Ok_0.success,
    ensures
        after == before,
{
}

/// A board after a run of messages was posted to it one by one.
pub open spec fn after_posts(posts: Seq<Message>, new: Seq<Message>, capacity: nat) -> Seq<Message>
    decreases new.len(),
{
    if new.len() == 0 {
        posts
    } else {
        most_recent(after_posts(posts, new.drop_last(), capacity).push(new.last()), capacity)
    }
}

/// A board that is within its capacity holds, after any run of posts, the
/// most recent messages of all it ever took, as many as its capacity, in
/// the order they were posted.
pub proof fn law_board_keeps_most_recent(posts: Seq<Message>, new: Seq<Message>, capacity: nat)
    requires
        posts.len() <= capacity,
    ensures
        after_posts(posts, new, capacity) == most_recent(posts + new, capacity),
        after_posts(posts, new, capacity).len() <= capacity,
    decreases new.len(),
{
    if new.len() == 0 {
        assert(posts + new =~= posts);
    } else {
        let earlier = new.drop_last();
        law_board_keeps_most_recent(posts, earlier, capacity);
        let all = posts + new;
        assert((posts + earlier).push(new.last()) =~= all);
        let kept = most_recent(posts + earlier, capacity);
        assert(most_recent(kept.push(new.last()), capacity) =~= most_recent(all, capacity));
    }
}

/// After one message more than its capacity was posted to an empty board,
/// the board holds as many messages as its capacity: all but the first, in
/// the order they were posted.
pub proof fn law_board_drops_oldest(new: Seq<Message>, capacity: nat)
    requires
        new.len() == capacity + 1,
    ensures
        after_posts(Seq::empty(), new, capacity).len() == capacity,
        after_posts(Seq::empty(), new, capacity) == new.subrange(1, new.len() as int),
{
    law_board_keeps_most_recent(Seq::empty(), new, capacity);
    assert(Seq::<Message>::empty() + new =~= new);
}

/// Whether a run of messages goes from newest to oldest.
pub open spec fn is_newest_first(run: Seq<Message>) -> bool {
    forall|i: int, j: int| 0 <= i < j < run.len() ==> run[i].created_at >= run[j].created_at
}

/// Whether each message of a run is newer than the one before it.
pub open spec fn is_ever_newer(run: Seq<Message>) -> bool {
    forall|i: int, j: int| 0 <= i < j < run.len() ==> run[i].created_at < run[j].created_at
}

/// The condition of having been written at a time.
pub open spec fn is_of_time(created_at: i64) -> spec_fn(Message) -> bool {
    |m: Message| m.created_at == created_at
}

/// What a reader of the board sees is every message once, from newest to
/// oldest: the run that `newest_first` gives holds the same messages as the
/// run it is given, as often, and no message in it comes before a newer
/// one.
pub proof fn law_newest_first_orders_all(posts: Seq<Message>)
    ensures
        is_newest_first(newest_first(posts)),
        newest_first(posts).to_multiset() == posts.to_multiset(),
        newest_first(posts).len() == posts.len(),
{
    lemma_arranged_permutes(posts, is_older());
    assert(is_ranking(is_older()));
    lemma_arranged_is_arranged(posts, is_older());
    let run = newest_first(posts);
    assert forall|i: int, j: int| 0 <= i < j < run.len() implies run[i].created_at
        >= run[j].created_at by {
        assert(!is_older()(run[i], run[j]));
    }
}

/// A reader sees messages of one time in the order they were written.
pub proof fn law_newest_first_keeps_order_of_equal_times(posts: Seq<Message>, created_at: i64)
    ensures
        keep_where(newest_first(posts), is_of_time(created_at)) == keep_where(
            posts,
            is_of_time(created_at),
        ),
{
    assert(is_ranking(is_older()));
    assert(is_of_one_rank(is_of_time(created_at), is_older()));
    lemma_arranged_keeps_order_within_rank(posts, is_older(), is_of_time(created_at));
}

/// Where each message was written later than the one before it, a reader
/// sees them in the reverse of the order written.
pub proof fn law_newest_first_reverses_a_timeline(posts: Seq<Message>)
    requires
        is_ever_newer(posts),
    ensures
        newest_first(posts) == posts.reverse(),
    decreases posts.len(),
{
    if posts.len() == 0 {
        assert(posts.reverse() =~= Seq::<Message>::empty());
    } else {
        let earlier = posts.drop_last();
        law_newest_first_reverses_a_timeline(earlier);
        let ordered = newest_first(earlier);
        let older = belongs_behind(posts.last(), is_older());
        if ordered.len() > 0 {
            assert(ordered[0] == earlier[earlier.len() - 1]);
            assert(older(ordered[0]));
            lemma_first_where_at(ordered, older, 0);
        }
        assert(place_in(ordered, posts.last(), is_older()) == 0);
        assert(ordered.insert(0, posts.last()) =~= posts.reverse());
    }
}

/// Destinations are listed from nearest to farthest, each once, and those
/// at one distance in the order of the catalog.
pub proof fn law_nearest_first_orders_all(destinations: Seq<DestinationInfo>, distance: u64)
    ensures
        forall|i: int, j: int|
            0 <= i < j < nearest_first(destinations).len() ==> nearest_first(
                destinations,
            )[i].distance <= nearest_first(destinations)[j].distance,
        nearest_first(destinations).to_multiset() == destinations.to_multiset(),
        keep_where(nearest_first(destinations), |d: DestinationInfo| d.distance == distance)
            == keep_where(destinations, |d: DestinationInfo| d.distance == distance),
{
    lemma_arranged_permutes(destinations, is_farther());
    assert(is_ranking(is_farther()));
    lemma_arranged_is_arranged(destinations, is_farther());
    let run = nearest_first(destinations);
    assert forall|i: int, j: int| 0 <= i < j < run.len() implies run[i].distance
        <= run[j].distance by {
        assert(!is_farther()(run[i], run[j]));
    }
    let same = |d: DestinationInfo| d.distance == distance;
    assert(is_of_one_rank(same, is_farther()));
    lemma_arranged_keeps_order_within_rank(destinations, is_farther(), same);
}

/// Saves are listed from newest to oldest, each once, and those of one time
/// in the order they were found.
pub proof fn law_newest_saves_first_orders_all(saves: Seq<SaveInfo>, timestamp: i64)
    ensures
        forall|i: int, j: int|
            0 <= i < j < newest_saves_first(saves).len() ==> newest_saves_first(saves)[i].timestamp
                >= newest_saves_first(saves)[j].timestamp,
        newest_saves_first(saves).to_multiset() == saves.to_multiset(),
        keep_where(newest_saves_first(saves), |s: SaveInfo| s.timestamp == timestamp)
            == keep_where(saves, |s: SaveInfo| s.timestamp == timestamp),
{
    lemma_arranged_permutes(saves, is_saved_earlier());
    assert(is_ranking(is_saved_earlier()));
    lemma_arranged_is_arranged(saves, is_saved_earlier());
    let run = newest_saves_first(saves);
    assert forall|i: int, j: int| 0 <= i < j < run.len() implies run[i].timestamp
        >= run[j].timestamp by {
        assert(!is_saved_earlier()(run[i], run[j]));
    }
    let same = |s: SaveInfo| s.timestamp == timestamp;
    assert(is_of_one_rank(same, is_saved_earlier()));
    lemma_arranged_keeps_order_within_rank(saves, is_saved_earlier(), same);
}

/// What is read of a board at an airport are messages written at that
/// airport, each a message of the board, and as many as the board counts
/// for the airport.
pub proof fn law_board_is_read_by_airport(posts: Seq<Message>, airport_id: Seq<char>)
    ensures
        written_at(posts, airport_id).len() == count_where(posts, is_at(airport_id)),
        forall|i: int|
            0 <= i < written_at(posts, airport_id).len() ==> (#[trigger] written_at(
                posts,
                airport_id,
            )[i]).airport_id@ == airport_id && posts.contains(written_at(posts, airport_id)[i]),
{
    lemma_keep_where(posts, is_at(airport_id));
}

/// No more players of a room are online than the room has players.
pub proof fn law_online_players_are_players(room: GameRoom)
    ensures
        online_count(room.players@) <= room.players@.len(),
{
    lemma_count_where_bound(room.players@, is_online());
}

/// A room from which a player has gone waits for players exactly if none
/// of its players is online, or if it waited before.
pub proof fn law_deserted_room_waits(room: GameRoom)
    ensures
        settled(room).game_status == GameStatus::WaitingForPlayers <==> (room.game_status
            == GameStatus::WaitingForPlayers || forall|i: int|
            0 <= i < room.players@.len() ==> !(#[trigger] room.players@[i]).is_online),
        settled(room).players == room.players,
{
    lemma_count_where_zero(room.players@, is_online());
    if online_count(room.players@) == 0 {
        assert forall|i: int| 0 <= i < room.players@.len() implies !(
        #[trigger] room.players@[i]).is_online by {
            assert(!is_online()(room.players@[i]));
        }
    } else {
        if forall|i: int| 0 <= i < room.players@.len() ==> !(#[trigger] room.players@[i]).is_online {
            assert forall|i: int| 0 <= i < room.players@.len() implies !is_online()(
                #[trigger] room.players@[i],
            ) by {}
        }
    }
}

/// A room that was just made is sound: its host is its one player, and
/// it has a place for the host if it takes any player at all.
pub proof fn law_new_room_is_sound(
    room: GameRoom,
    room_id: u128,
    now: i64,
    name: String,
    host_player_id: u128,
    host_player_name: String,
    max_players: usize,
    airports: Vec<Airport>,
    cargo_types: Vec<CargoType>,
    distances: Vec<Route>,
)
    requires
        room.is_new_room(
            room_id,
            now,
            name,
            host_player_id,
            host_player_name,
            max_players,
            airports,
            cargo_types,
            distances,
        ),
    ensures
        room.has_distinct_players(),
        room.has_host(),
        online_count(room.players@) == 1,
        max_players >= 1 ==> room.is_within_capacity(),
{
    assert(has_id(host_player_id)(room.players@[0]));
    lemma_first_where_at(room.players@, has_id(host_player_id), 0);
    assert(room.players@.drop_last() =~= Seq::<PlayerGameState>::empty());
    assert(count_where(room.players@.drop_last(), is_online()) == 0);
}

/// Marking a player offline keeps the room sound: the same players are in
/// it under the same ids and names, the host with them, and no more of
/// them are online than before.
pub proof fn law_leave_keeps_room_sound(
    before: GameRoom,
    after: GameRoom,
    now: i64,
    player_id: u128,
    result: Result<(), String>,
)
    requires
        left(before, after, now, player_id, result),
    ensures
        before.has_distinct_players() ==> after.has_distinct_players(),
        before.has_host() ==> after.has_host(),
        online_count(after.players@) <= online_count(before.players@),
        before.is_within_capacity() ==> after.is_within_capacity(),
        after.players@.len() == before.players@.len(),
        after.game_status == before.game_status,
{
    let i = player_index(before.players@, player_id);
    lemma_first_where(before.players@, has_id(player_id));
    if i >= 0 {
        lemma_count_where_update(
            before.players@,
            is_online(),
            i,
            gone_offline(before.players[i], now),
        );
        lemma_first_where(before.players@, has_id(before.host_player_id));
        let h = player_index(before.players@, before.host_player_id);
        if before.has_host() {
            assert forall|j: int| 0 <= j < h implies !has_id(before.host_player_id)(
                #[trigger] after.players@[j],
            ) by {
                assert(!has_id(before.host_player_id)(before.players@[j]));
            }
            assert(has_id(before.host_player_id)(after.players@[h]));
            lemma_first_where_at(after.players@, has_id(before.host_player_id), h);
        }
    }
}

/// Noting that a player was seen keeps the players of the room: the same
/// players are in it under the same ids and names, the host with them. It
/// may bring a player online beyond the number that the room takes.
pub proof fn law_activity_keeps_players(before: GameRoom, after: GameRoom, now: i64, player_id: u128)
    requires
        seen(before, after, now, player_id),
    ensures
        before.has_distinct_players() ==> after.has_distinct_players(),
        before.has_host() ==> after.has_host(),
        after.players@.len() == before.players@.len(),
        online_count(after.players@) <= online_count(before.players@) + 1,
{
    let i = player_index(before.players@, player_id);
    lemma_first_where(before.players@, has_id(player_id));
    if i >= 0 {
        lemma_count_where_update(
            before.players@,
            is_online(),
            i,
            back_online(before.players[i], now),
        );
        lemma_first_where(before.players@, has_id(before.host_player_id));
        let h = player_index(before.players@, before.host_player_id);
        if before.has_host() {
            assert forall|j: int| 0 <= j < h implies !has_id(before.host_player_id)(
                #[trigger] after.players@[j],
            ) by {
                assert(!has_id(before.host_player_id)(before.players@[j]));
            }
            assert(has_id(before.host_player_id)(after.players@[h]));
            lemma_first_where_at(after.players@, has_id(before.host_player_id), h);
        }
    }
}

/// Two purchases of cargo, each for more than half of what the player has,
/// are not both made: once the first is made, the second is turned down
/// for want of funds, and the player has paid for one.
pub proof fn law_no_double_spend(
    start: GameRoom,
    between: GameRoom,
    end: GameRoom,
    player_id: u128,
    first: TradeRequest,
    second: TradeRequest,
    first_result: Result<PlayerTradeResponse, String>,
    second_result: Result<PlayerTradeResponse, String>,
)
    requires
        start.has_distinct_players(),
        first.action == TradeAction::Buy,
        second.action == TradeAction::Buy,
        first.cargo_type@ == second.cargo_type@,
        first.quantity == second.quantity,
        traded(start, between, player_id, first, first_result),
        traded(between, end, player_id, second, second_result),
        first_result is Ok,
        first_result->Ok_0.success,
        2 * trade_amount(start, player_id, first.cargo_type@, first.quantity)
            > start.players[player_index(start.players@, player_id)].player.money,
    ensures
        second_result is Ok,
        !second_result->Ok_0.success,
        second_result->Ok_0.message@ == "Insufficient funds"@,
        end == between,
        end.players[player_index(start.players@, player_id)].player.money
            == start.players[player_index(start.players@, player_id)].player.money - trade_amount(
            start,
            player_id,
            first.cargo_type@,
            first.quantity,
        ),
{
    let p = player_index(start.players@, player_id);
    lemma_first_where(start.players@, has_id(player_id));
    let cargo = first.cargo_type@;
    assert(trade_decision(start, player_id, cargo, first.quantity, first.action)
        == TradeDecision::Buy);
    assert(between.players@[p].player_id == player_id);
    assert forall|j: int| 0 <= j < p implies !has_id(player_id)(#[trigger] between.players@[j]) by {
        assert(!has_id(player_id)(start.players@[j]));
    }
    lemma_first_where_at(between.players@, has_id(player_id), p);
    assert(between.shared_state == start.shared_state);
    assert(between.players@[p].player.current_airport == start.players@[p].player.current_airport);
    assert(market_of(between, player_id) == market_of(start, player_id));
    assert(trade_amount(between, player_id, cargo, second.quantity) == trade_amount(
        start,
        player_id,
        cargo,
        first.quantity,
    ));
}

/// Whether a room got from one state to another by what a player may ask
/// of it: coming in, leaving, being seen, flying, trading, buying fuel or
/// writing on the board.
pub open spec fn is_player_step(before: GameRoom, after: GameRoom) -> bool {
    ||| exists|now: i64, id: u128, name: String, airport: Option<String>, result: Result<
        u128,
        String,
    >| #[trigger] joined(before, after, now, id, name, airport, result)
    ||| exists|now: i64, id: u128, result: Result<(), String>| #[trigger]
        left(before, after, now, id, result)
    ||| exists|now: i64, id: u128| #[trigger] seen(before, after, now, id)
    ||| exists|now: i64, id: u128, destination: Seq<char>, result: Result<
        PlayerTravelResponse,
        String,
    >| #[trigger] traveled(before, after, now, id, destination, result)
    ||| exists|id: u128, request: TradeRequest, result: Result<PlayerTradeResponse, String>|
     #[trigger] traded(before, after, id, request, result)
    ||| exists|id: u128, request: FuelRequest, result: Result<PlayerFuelResponse, String>|
     #[trigger] refueled(before, after, id, request, result)
    ||| exists|message_id: u128, now: i64, id: u128, content: String, result: Result<
        PostMessageResponse,
        String,
    >| #[trigger] posted(before, after, message_id, now, id, content, result)
}

/// Nothing that a player asks of a room changes where its game stands, how
/// many players it takes, who its host is, or what its catalogs hold; the
/// count of turns never goes back.
pub proof fn law_player_steps_keep_the_frame(before: GameRoom, after: GameRoom)
    requires
        is_player_step(before, after),
    ensures
        after.game_status == before.game_status,
        after.id == before.id,
        after.name == before.name,
        after.max_players == before.max_players,
        after.host_player_id == before.host_player_id,
        after.created_at == before.created_at,
        after.shared_state.airports == before.shared_state.airports,
        after.shared_state.cargo_types == before.shared_state.cargo_types,
        after.shared_state.distances == before.shared_state.distances,
        after.shared_state.markets == before.shared_state.markets,
        after.shared_state.turn_number >= before.shared_state.turn_number,
{
}

} // verus!
