//! Flying in a game played alone.

use vstd::prelude::*;
use crate::models::airport::{
    airport_index, distance_between, find_airport, find_distance, Airport, Route,
};
use crate::models::cargo::capped_sum;
use crate::models::player::{fuel_needed, Player};
use crate::search::{
    arranged, belongs_behind, keep_where, lemma_first_where_at, lemma_first_where_none,
    lemma_keep_where_step, place_in,
};
use crate::systems::game::{are_same_airports, is_with_new_event, GameState};
use crate::systems::events::{all_aged, is_lasting};

verus! {

/// Why a flight was not made.
#[derive(Debug, Clone, Copy, PartialEq, Eq, Structural)]
pub enum TravelError {
    InsufficientFuel,
    InvalidDestination,
    SameLocation,
    DestinationNotFound,
}

/// The rules of flying.
pub struct TravelSystem;

/// What a flight was like. The distance is in metres.
#[derive(Debug, Clone)]
pub struct TravelInfo {
    pub from: String,
    pub to: String,
    pub distance: u64,
    pub fuel_consumed: u32,
    pub remaining_fuel: u32,
}

/// An airport that a player could fly to. The distance is in metres.
#[derive(Debug)]
pub struct DestinationInfo {
    pub airport_id: String,
    pub airport_name: String,
    pub distance: u64,
    pub fuel_needed: u32,
    pub can_afford: bool,
}

impl Clone for DestinationInfo {
    fn clone(&self) -> (r: Self)
        ensures
            r == *self,
    {
        DestinationInfo {
            airport_id: self.airport_id.clone(),
            airport_name: self.airport_name.clone(),
            distance: self.distance,
            fuel_needed: self.fuel_needed,
            can_afford: self.can_afford,
        }
    }
}

/// What stands against a flight between two airports, if anything does.
pub open spec fn flight_error(player: Player, from: Airport, to: Airport, distances: Seq<Route>) -> Option<
    TravelError,
> {
    let distance = distance_between(distances, from.id@, to.id@);
    if from.id@ == to.id@ {
        Some(TravelError::SameLocation)
    } else if distance is None {
        Some(TravelError::InvalidDestination)
    } else if player.fuel < fuel_needed(distance->0 as nat, player.fuel_efficiency as nat) {
        Some(TravelError::InsufficientFuel)
    } else {
        None
    }
}

/// What stands against a flight to a destination in a game, if anything
/// does. Who cheats flies without fuel, and may fly to where they are.
pub open spec fn travel_error(game: GameState, destination_id: Seq<char>) -> Option<TravelError> {
    let to = airport_index(game.airports@, destination_id);
    let from = airport_index(game.airports@, game.player.current_airport@);
    if to < 0 {
        Some(TravelError::DestinationNotFound)
    } else if from < 0 {
        Some(TravelError::InvalidDestination)
    } else if game.cheat_mode {
        if distance_between(game.distance_cache@, game.airports[from].id@, game.airports[to].id@)
            is None {
            Some(TravelError::InvalidDestination)
        } else {
            None
        }
    } else {
        flight_error(game.player, game.airports[from], game.airports[to], game.distance_cache@)
    }
}

/// The distance of a flight to a destination in a game.
pub open spec fn flight_distance(game: GameState, destination_id: Seq<char>) -> u64 {
    distance_between(
        game.distance_cache@,
        game.airports[airport_index(game.airports@, game.player.current_airport@)].id@,
        game.airports[airport_index(game.airports@, destination_id)].id@,
    )->0
}

/// The fuel that a flight to a destination burns in a game: what the
/// distance takes, or nothing for who cheats.
pub open spec fn flight_fuel(game: GameState, destination_id: Seq<char>) -> u32 {
    if game.cheat_mode {
        0
    } else {
        fuel_needed(flight_distance(game, destination_id) as nat, game.player.fuel_efficiency as nat)
    }
}

/// How a game stands after a flight: the fuel is burnt, the player is at
/// the destination, the game has moved on by one turn, and the markets and
/// events have changed as chance would have it.
pub open spec fn has_flown(before: GameState, after: GameState, destination_id: Seq<char>) -> bool {
    &&& after.player == (Player {
        fuel: (before.player.fuel - flight_fuel(before, destination_id)) as u32,
        current_airport: after.player.current_airport,
        ..before.player
    })
    &&& after.player.current_airport@ == destination_id
    &&& after.turn_number == capped_sum(before.turn_number, 1)
    &&& after.airports == before.airports
    &&& after.cargo_types == before.cargo_types
    &&& after.distance_cache == before.distance_cache
    &&& after.cheat_mode == before.cheat_mode
    &&& after.stats == before.stats
    &&& after.win_condition_money == before.win_condition_money
    &&& after.message_board == before.message_board
    &&& are_same_airports(after.markets@, before.markets@)
    &&& is_with_new_event(
        after.active_events@,
        keep_where(all_aged(before.active_events@), is_lasting()),
        before.airports@,
        before.cargo_types@,
    )
}

/// The rule by which destinations are listed: a destination belongs
/// behind another if it lies farther away.
pub open spec fn is_farther() -> spec_fn(DestinationInfo, DestinationInfo) -> bool {
    |x: DestinationInfo, item: DestinationInfo| x.distance > item.distance
}

/// A list of destinations from nearest to farthest; of two at one distance
/// the one listed first comes first.
pub open spec fn nearest_first(destinations: Seq<DestinationInfo>) -> Seq<DestinationInfo> {
    arranged(destinations, is_farther())
}

/// The condition of being an airport of a game to which the player could
/// plan a flight: another airport than the one where the player is, to
/// which the game knows the distance.
pub open spec fn is_in_reach(game: GameState) -> spec_fn(Airport) -> bool {
    |a: Airport|
        a.id@ != game.player.current_airport@ && distance_between(
            game.distance_cache@,
            game.airports[airport_index(game.airports@, game.player.current_airport@)].id@,
            a.id@,
        ) is Some
}

/// Whether an entry shows an airport as a destination in a game.
pub open spec fn is_destination(info: DestinationInfo, airport: Airport, game: GameState) -> bool {
    let distance = distance_between(
        game.distance_cache@,
        game.airports[airport_index(game.airports@, game.player.current_airport@)].id@,
        airport.id@,
    )->0;
    let need = fuel_needed(distance as nat, game.player.fuel_efficiency as nat);
    &&& info.airport_id == airport.id
    &&& info.airport_name == airport.name
    &&& info.distance == distance
    &&& info.fuel_needed == need
    &&& info.can_afford == (game.cheat_mode || game.player.fuel >= need)
}

/// Whether a list shows the airports in reach of a player, in the order of
/// the catalog.
pub open spec fn lists_destinations(
    infos: Seq<DestinationInfo>,
    airports: Seq<Airport>,
    game: GameState,
) -> bool {
    &&& infos.len() == airports.len()
    &&& forall|i: int| 0 <= i < infos.len() ==> is_destination(#[trigger] infos[i], airports[i], game)
}

impl TravelSystem {
    /// The fuel that a distance, in metres, takes of a player.
    pub fn calculate_fuel_needed(player: &Player, distance: u64) -> (r: u32)
        ensures
            r == fuel_needed(distance as nat, player.fuel_efficiency as nat),
    {
        player.fuel_needed_for_distance(distance)
    }

    /// Whether a player can fly from one airport to another, by a table of
    /// distances; answers with the fuel that the flight takes.
    pub fn can_travel_to(
        player: &Player,
        from_airport: &Airport,
        to_airport: &Airport,
        distances: &Vec<Route>,
    ) -> (r: Result<u32, TravelError>)
        ensures
            match r {
                Ok(need) => flight_error(*player, *from_airport, *to_airport, distances@) is None
                    && need == fuel_needed(
                    distance_between(distances@, from_airport.id@, to_airport.id@)->0 as nat,
                    player.fuel_efficiency as nat,
                ),
                Err(e) => flight_error(*player, *from_airport, *to_airport, distances@) == Some(e),
            },
    {
        if from_airport.id == to_airport.id {
            return Err(TravelError::SameLocation);
        }
        let distance = match find_distance(
            distances,
            from_airport.id.as_str(),
            to_airport.id.as_str(),
        ) {
            Some(d) => d,
            None => {
                return Err(TravelError::InvalidDestination);
            },
        };
        let fuel_needed = Self::calculate_fuel_needed(player, distance);
        if player.fuel < fuel_needed {
            return Err(TravelError::InsufficientFuel);
        }
        Ok(fuel_needed)
    }

    /// Flies the player of a game to a destination, if nothing stands
    /// against it: the market at the destination is priced anew and the
    /// game moves on by one turn.
    pub fn travel_to(game_state: &mut GameState, destination_id: &str) -> (r: Result<
        TravelInfo,
        TravelError,
    >)
        ensures
            match r {
                Ok(info) => {
                    let from = airport_index(
                        old(game_state).airports@,
                        old(game_state).player.current_airport@,
                    );
                    let to = airport_index(old(game_state).airports@, destination_id@);
                    &&& travel_error(*old(game_state), destination_id@) is None
                    &&& has_flown(*old(game_state), *final(game_state), destination_id@)
                    &&& info.from == old(game_state).airports[from].name
                    &&& info.to == old(game_state).airports[to].name
                    &&& info.distance == flight_distance(*old(game_state), destination_id@)
                    &&& info.fuel_consumed == flight_fuel(*old(game_state), destination_id@)
                    &&& info.remaining_fuel == final(game_state).player.fuel
                },
                Err(e) => travel_error(*old(game_state), destination_id@) == Some(e)
                    && *final(game_state) == *old(game_state),
            },
    {
        let (to_name, to_id) = match find_airport(&game_state.airports, destination_id) {
            Some(airport) => (airport.name.clone(), airport.id.clone()),
            None => {
                return Err(TravelError::DestinationNotFound);
            },
        };
        let (from_name, from_id) = match game_state.get_current_airport() {
            Some(airport) => (airport.name.clone(), airport.id.clone()),
            None => {
                return Err(TravelError::InvalidDestination);
            },
        };
        let fuel_needed = if game_state.cheat_mode {
            0
        } else {
            if from_id == to_id {
                return Err(TravelError::SameLocation);
            }
            match find_distance(&game_state.distance_cache, from_id.as_str(), to_id.as_str()) {
                Some(d) => {
                    let need = Self::calculate_fuel_needed(&game_state.player, d);
                    if game_state.player.fuel < need {
                        return Err(TravelError::InsufficientFuel);
                    }
                    need
                },
                None => {
                    return Err(TravelError::InvalidDestination);
                },
            }
        };
        let distance = match find_distance(
            &game_state.distance_cache,
            from_id.as_str(),
            to_id.as_str(),
        ) {
            Some(d) => d,
            None => {
                return Err(TravelError::InvalidDestination);
            },
        };
        game_state.player.consume_fuel(fuel_needed);
        game_state.player.current_airport = destination_id.to_string();
        let ghost moved = *game_state;
        game_state.refresh_current_market();
        let ghost priced = *game_state;
        game_state.advance_turn();
        proof {
            assert(are_same_airports(game_state.markets@, old(game_state).markets@)) by {
                assert forall|i: int| 0 <= i < game_state.markets@.len() implies (
                #[trigger] game_state.markets@[i]).airport_id == old(
                    game_state,
                ).markets@[i].airport_id by {
                    assert(priced.markets@[i].airport_id == moved.markets@[i].airport_id);
                }
            }
        }
        Ok(
            TravelInfo {
                from: from_name,
                to: to_name,
                distance,
                fuel_consumed: fuel_needed,
                remaining_fuel: game_state.player.fuel,
            },
        )
    }

    /// Puts a destination into a list that is ordered from nearest to
    /// farthest.
    fn place(ordered: &mut Vec<DestinationInfo>, destination: DestinationInfo)
        ensures
            final(ordered)@ == old(ordered)@.insert(
                place_in(old(ordered)@, destination, is_farther()),
                destination,
            ),
    {
        let ghost farther = belongs_behind(destination, is_farther());
        let mut at: usize = 0;
        while at < ordered.len() && ordered[at].distance <= destination.distance
            invariant
                at <= ordered.len(),
                ordered@ == old(ordered)@,
                farther == belongs_behind(destination, is_farther()),
                forall|j: int| 0 <= j < at ==> !farther(#[trigger] ordered@[j]),
            decreases ordered.len() - at,
        {
            at += 1;
        }
        proof {
            if at < ordered.len() {
                assert(farther(ordered@[at as int]));
                lemma_first_where_at(ordered@, farther, at as int);
            } else {
                lemma_first_where_none(ordered@, farther);
            }
        }
        ordered.insert(at, destination);
    }

    /// The airports in reach of the player of a game, in the order of the
    /// catalog, each with its distance and the fuel it takes.
    pub fn list_destinations(game_state: &GameState) -> (r: Vec<DestinationInfo>)
        ensures
            airport_index(game_state.airports@, game_state.player.current_airport@) < 0 ==> r@
                == Seq::<DestinationInfo>::empty(),
            airport_index(game_state.airports@, game_state.player.current_airport@) >= 0
                ==> lists_destinations(
                r@,
                keep_where(game_state.airports@, is_in_reach(*game_state)),
                *game_state,
            ),
    {
        let mut destinations: Vec<DestinationInfo> = Vec::new();
        let from_id = match game_state.get_current_airport() {
            Some(airport) => airport.id.clone(),
            None => {
                return destinations;
            },
        };
        let ghost wanted = is_in_reach(*game_state);
        let mut i: usize = 0;
        while i < game_state.airports.len()
            invariant
                i <= game_state.airports.len(),
                wanted == is_in_reach(*game_state),
                airport_index(game_state.airports@, game_state.player.current_airport@) >= 0,
                from_id@ == game_state.airports[airport_index(
                    game_state.airports@,
                    game_state.player.current_airport@,
                )].id@,
                lists_destinations(
                    destinations@,
                    keep_where(game_state.airports@.subrange(0, i as int), wanted),
                    *game_state,
                ),
            decreases game_state.airports.len() - i,
        {
            proof {
                lemma_keep_where_step(game_state.airports@, wanted, i as int);
            }
            let airport = &game_state.airports[i];
            if !(airport.id == game_state.player.current_airport) {
                match find_distance(
                    &game_state.distance_cache,
                    from_id.as_str(),
                    airport.id.as_str(),
                ) {
                    Some(distance) => {
                        let fuel_needed = Self::calculate_fuel_needed(&game_state.player, distance);
                        let ghost kept = keep_where(
                            game_state.airports@.subrange(0, i as int),
                            wanted,
                        );
                        let ghost before = destinations@;
                        destinations.push(
                            DestinationInfo {
                                airport_id: airport.id.clone(),
                                airport_name: airport.name.clone(),
                                distance,
                                fuel_needed,
                                can_afford: game_state.cheat_mode || game_state.player.fuel
                                    >= fuel_needed,
                            },
                        );
                        proof {
                            let more = kept.push(game_state.airports[i as int]);
                            assert forall|j: int| 0 <= j < destinations@.len() implies is_destination(
                                #[trigger] destinations@[j],
                                more[j],
                                *game_state,
                            ) by {
                                if j < before.len() {
                                    assert(destinations@[j] == before[j]);
                                    assert(more[j] == kept[j]);
                                }
                            }
                        }
                    },
                    None => {},
                }
            }
            i += 1;
        }
        proof {
            assert(game_state.airports@.subrange(0, i as int) =~= game_state.airports@);
        }
        destinations
    }

    /// The airports in reach of the player of a game, from nearest to
    /// farthest.
    pub fn get_reachable_destinations(game_state: &GameState) -> (r: Vec<DestinationInfo>)
        ensures
            exists|listed: Seq<DestinationInfo>|
                {
                    &&& r@ == #[trigger] nearest_first(listed)
                    &&& if airport_index(
                        game_state.airports@,
                        game_state.player.current_airport@,
                    ) < 0 {
                        listed == Seq::<DestinationInfo>::empty()
                    } else {
                        lists_destinations(
                            listed,
                            keep_where(game_state.airports@, is_in_reach(*game_state)),
                            *game_state,
                        )
                    }
                },
    {
        let listed = Self::list_destinations(game_state);
        let mut ordered: Vec<DestinationInfo> = Vec::new();
        let mut i: usize = 0;
        while i < listed.len()
            invariant
                i <= listed.len(),
                ordered@ == nearest_first(listed@.subrange(0, i as int)),
            decreases listed.len() - i,
        {
            proof {
                assert(listed@.subrange(0, i + 1).drop_last() =~= listed@.subrange(0, i as int));
            }
            Self::place(&mut ordered, listed[i].clone());
            i += 1;
        }
        proof {
            assert(listed@.subrange(0, i as int) =~= listed@);
        }
        ordered
    }

    /// The fuel that a flight to a destination takes of the player of a
    /// game, where the game knows both airports and the distance.
    pub fn calculate_travel_cost(game_state: &GameState, destination_id: &str) -> (r: Option<u32>)
        ensures
            r == ({
                let to = airport_index(game_state.airports@, destination_id@);
                let from = airport_index(game_state.airports@, game_state.player.current_airport@);
                if to < 0 || from < 0 {
                    None
                } else {
                    match distance_between(
                        game_state.distance_cache@,
                        game_state.airports[from].id@,
                        game_state.airports[to].id@,
                    ) {
                        Some(d) => Some(
                            fuel_needed(d as nat, game_state.player.fuel_efficiency as nat),
                        ),
                        None => None,
                    }
                }
            }),
    {
        let destination = match find_airport(&game_state.airports, destination_id) {
            Some(airport) => airport,
            None => {
                return None;
            },
        };
        let current_airport = match game_state.get_current_airport() {
            Some(airport) => airport,
            None => {
                return None;
            },
        };
        match find_distance(
            &game_state.distance_cache,
            current_airport.id.as_str(),
            destination.id.as_str(),
        ) {
            Some(distance) => Some(Self::calculate_fuel_needed(&game_state.player, distance)),
            None => None,
        }
    }
}

} // verus!
