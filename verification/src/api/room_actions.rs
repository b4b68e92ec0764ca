//! What a player can do in a room: fly, trade, buy fuel, write on the
//! board. Each request is decided on the room as it stands; a request that
//! is turned down leaves the room as it was.

use vstd::prelude::*;
use crate::api::models::{
    FuelRequest, GetMessagesResponse, MessageInfo, PlayerFuelResponse, PlayerTradeResponse,
    PlayerTravelResponse, PostMessageResponse, TradeAction, TradeRequest,
};
use crate::models::message_board::{
    content_error, is_at, limited, most_recent, newest_first, pointed_to, written_at, Message,
};
use crate::search::count_where;
use crate::models::airport::{airport_index, distance_between, find_airport, find_distance};
use crate::models::amounts::{amount_in, AmountMap};
use crate::models::cargo::{
    capped, capped_sum, cargo_type_index, cargo_weight, find_cargo_type, times,
};
use crate::models::market::{find_market, market_index};
use crate::models::player::{fuel_after_adding, fuel_needed, Player};
use crate::systems::events::GameStatistics;
use crate::systems::multiplayer::{
    player_index, statistics_index, GameRoom, PlayerGameState, PlayerStatistics, SharedGameState,
};
use crate::text::{decimal, decimal_string};

verus! {

/// How the statistics of a room's players change when something is
/// recorded for one player: that player's statistics take the step, if the
/// room keeps any for the player, and all others stay.
pub open spec fn statistics_changed(
    before: Seq<PlayerStatistics>,
    after: Seq<PlayerStatistics>,
    player_id: u128,
    step: spec_fn(GameStatistics, GameStatistics) -> bool,
) -> bool {
    let j = statistics_index(before, player_id);
    if j >= 0 {
        &&& after == before.update(j, after[j])
        &&& after[j].player_id == player_id
        &&& step(before[j].statistics, after[j].statistics)
    } else {
        after == before
    }
}

/// How the players of a room change when one player's aircraft and purse
/// change: that player's state keeps all else, and all others stay.
pub open spec fn player_changed(
    before: Seq<PlayerGameState>,
    after: Seq<PlayerGameState>,
    at: int,
    step: spec_fn(Player, Player) -> bool,
) -> bool {
    &&& after == before.update(at, after[at])
    &&& after[at] == (PlayerGameState { player: after[at].player, ..before[at] })
    &&& step(before[at].player, after[at].player)
}

/// What becomes of a request to fly.
pub enum TravelDecision {
    /// The room knows no airport of that id.
    NoDestination,
    /// The room has no player of that id.
    NoPlayer,
    /// The room knows no airport where the player is.
    NoCurrentAirport,
    /// The room knows no distance between the two airports.
    NoRoute,
    /// The tank holds less than the flight takes.
    ShortOfFuel,
    /// The player flies.
    Fly,
}

/// The distance from where a player is to a destination, where the room
/// knows it.
pub open spec fn travel_distance(room: GameRoom, player_id: u128, destination: Seq<char>) -> Option<
    u64,
> {
    distance_between(
        room.shared_state.distances@,
        room.players[player_index(room.players@, player_id)].player.current_airport@,
        destination,
    )
}

/// The fuel that a player's flight to a destination takes.
pub open spec fn travel_fuel(room: GameRoom, player_id: u128, destination: Seq<char>) -> u32 {
    fuel_needed(
        travel_distance(room, player_id, destination)->0 as nat,
        room.players[player_index(room.players@, player_id)].player.fuel_efficiency as nat,
    )
}

/// Decides a request to fly.
pub open spec fn travel_decision(room: GameRoom, player_id: u128, destination: Seq<char>) -> TravelDecision {
    let p = player_index(room.players@, player_id);
    if airport_index(room.shared_state.airports@, destination) < 0 {
        TravelDecision::NoDestination
    } else if p < 0 {
        TravelDecision::NoPlayer
    } else if airport_index(room.shared_state.airports@, room.players[p].player.current_airport@)
        < 0 {
        TravelDecision::NoCurrentAirport
    } else if travel_distance(room, player_id, destination) is None {
        TravelDecision::NoRoute
    } else if room.players[p].player.fuel < travel_fuel(room, player_id, destination) {
        TravelDecision::ShortOfFuel
    } else {
        TravelDecision::Fly
    }
}

/// What a player is told who lacks the fuel for a flight.
pub open spec fn insufficient_fuel_text(need: u32, have: u32) -> Seq<char> {
    "Insufficient fuel. Need "@ + decimal(need as nat) + " units, have "@ + decimal(have as nat)
}

/// What a player is told on arrival.
pub open spec fn traveled_text(airport_name: Seq<char>, destination: Seq<char>) -> Seq<char> {
    "Traveled to "@ + airport_name + " ("@ + destination + ")"@
}

/// Whether an error is the one with a given text.
pub open spec fn fails_with<T>(result: Result<T, String>, reason: Seq<char>) -> bool {
    result is Err && result->Err_0@ == reason
}

/// How a room stands after a flight.
pub open spec fn flown(
    before: GameRoom,
    after: GameRoom,
    now: i64,
    player_id: u128,
    destination: Seq<char>,
) -> bool {
    let p = player_index(before.players@, player_id);
    let need = travel_fuel(before, player_id, destination);
    let distance = travel_distance(before, player_id, destination)->0;
    &&& after == (GameRoom {
        players: after.players,
        player_statistics: after.player_statistics,
        shared_state: SharedGameState {
            turn_number: capped_sum(before.shared_state.turn_number, 1),
            world_time: now,
            ..before.shared_state
        },
        ..before
    })
    &&& player_changed(
        before.players@,
        after.players@,
        p,
        |b: Player, a: Player|
            a == (Player { fuel: (b.fuel - need) as u32, current_airport: a.current_airport, ..b })
                && a.current_airport@ == destination,
    )
    &&& statistics_changed(
        before.player_statistics@,
        after.player_statistics@,
        player_id,
        |b: GameStatistics, a: GameStatistics| a.is_after_travel(b, destination, distance),
    )
}

/// How a room and the answer stand after a request to fly.
pub open spec fn traveled(
    before: GameRoom,
    after: GameRoom,
    now: i64,
    player_id: u128,
    destination: Seq<char>,
    result: Result<PlayerTravelResponse, String>,
) -> bool {
    let p = player_index(before.players@, player_id);
    match travel_decision(before, player_id, destination) {
        TravelDecision::NoDestination => after == before && fails_with(
            result,
            "Destination airport not found"@,
        ),
        TravelDecision::NoPlayer => after == before && fails_with(
            result,
            "Player not found in room"@,
        ),
        TravelDecision::NoCurrentAirport => after == before && fails_with(
            result,
            "Current airport not found"@,
        ),
        TravelDecision::NoRoute => after == before && fails_with(
            result,
            "No route to destination"@,
        ),
        TravelDecision::ShortOfFuel => {
            &&& after == before
            &&& result is Ok
            &&& !result->Ok_0.success
            &&& result->Ok_0.message@ == insufficient_fuel_text(
                travel_fuel(before, player_id, destination),
                before.players[p].player.fuel,
            )
            &&& result->Ok_0.fuel_consumed is None
            &&& result->Ok_0.new_location is None
        },
        TravelDecision::Fly => {
            &&& flown(before, after, now, player_id, destination)
            &&& result is Ok
            &&& result->Ok_0.success
            &&& result->Ok_0.message@ == traveled_text(
                before.shared_state.airports[airport_index(
                    before.shared_state.airports@,
                    destination,
                )].name@,
                destination,
            )
            &&& result->Ok_0.fuel_consumed == Some(travel_fuel(before, player_id, destination))
            &&& result->Ok_0.new_location is Some
            &&& result->Ok_0.new_location->0@ == destination
        },
    }
}

fn insufficient_fuel_message(need: u32, have: u32) -> (r: String)
    ensures
        r@ == insufficient_fuel_text(need, have),
{
    let mut text = "Insufficient fuel. Need ".to_string();
    text.append(decimal_string(need as u64).as_str());
    text.append(" units, have ");
    text.append(decimal_string(have as u64).as_str());
    text
}

fn traveled_message(airport_name: &str, destination: &str) -> (r: String)
    ensures
        r@ == traveled_text(airport_name@, destination@),
{
    let mut text = "Traveled to ".to_string();
    text.append(airport_name);
    text.append(" (");
    text.append(destination);
    text.append(")");
    text
}

/// Flies a player to a destination at a given time, if the room knows the
/// way and the tank holds the fuel: the fuel is burnt, the player is at the
/// destination, the flight is recorded and the game moves on by one turn.
pub fn travel_in_room(room: &mut GameRoom, now: i64, player_id: u128, destination: String) -> (r:
    Result<PlayerTravelResponse, String>)
    ensures
        traveled(*old(room), *final(room), now, player_id, destination@, r),
{
    let airport_name = match find_airport(&room.shared_state.airports, destination.as_str()) {
        Some(airport) => airport.name.clone(),
        None => {
            return Err("Destination airport not found".to_string());
        },
    };
    let at = match room.player_position(player_id) {
        Some(i) => i,
        None => {
            return Err("Player not found in room".to_string());
        },
    };
    if find_airport(
        &room.shared_state.airports,
        room.players[at].player.current_airport.as_str(),
    ).is_none() {
        return Err("Current airport not found".to_string());
    }
    let distance = match find_distance(
        &room.shared_state.distances,
        room.players[at].player.current_airport.as_str(),
        destination.as_str(),
    ) {
        Some(d) => d,
        None => {
            return Err("No route to destination".to_string());
        },
    };
    let fuel_required = room.players[at].player.fuel_needed_for_distance(distance);
    if !room.players[at].player.can_travel_distance(distance) {
        let current_fuel = room.players[at].player.fuel;
        return Ok(
            PlayerTravelResponse {
                success: false,
                message: insufficient_fuel_message(fuel_required, current_fuel),
                fuel_consumed: None,
                new_location: None,
            },
        );
    }
    room.players[at].player.consume_fuel(fuel_required);
    room.players[at].player.current_airport = destination.clone();
    match room.statistics_position(player_id) {
        Some(j) => {
            room.player_statistics[j].statistics.record_travel(destination.as_str(), distance);
        },
        None => {},
    }
    room.advance_turn_at(now);
    proof {
        assert(room.players@ =~= old(room).players@.update(at as int, room.players[at as int]));
        let j = statistics_index(old(room).player_statistics@, player_id);
        if j >= 0 {
            assert(room.player_statistics@ =~= old(room).player_statistics@.update(
                j,
                room.player_statistics[j],
            ));
        }
    }
    Ok(
        PlayerTravelResponse {
            success: true,
            message: traveled_message(airport_name.as_str(), destination.as_str()),
            fuel_consumed: Some(fuel_required),
            new_location: Some(destination),
        },
    )
}

/// The kinds of cargo that a report of a hold lists.
pub open spec fn listed_cargo() -> Seq<Seq<char>> {
    seq!["electronics"@, "food"@, "textiles"@, "industrial"@, "luxury"@, "materials"@]
}

/// What a report lists of a hold: the kinds among `kinds` of which the hold
/// has at least one unit, each with its units.
pub open spec fn report_of(held: Map<Seq<char>, u32>, kinds: Seq<Seq<char>>) -> Map<Seq<char>, u32> {
    Map::new(|k: Seq<char>| kinds.contains(k) && amount_in(held, k) > 0, |k: Seq<char>| held[k])
}

/// What a report lists of a hold.
pub open spec fn inventory_report(held: Map<Seq<char>, u32>) -> Map<Seq<char>, u32> {
    report_of(held, listed_cargo())
}

proof fn lemma_report_step(held: Map<Seq<char>, u32>, kinds: Seq<Seq<char>>, kind: Seq<char>)
    ensures
        report_of(held, kinds.push(kind)) == if amount_in(held, kind) > 0 {
            report_of(held, kinds).insert(kind, held[kind])
        } else {
            report_of(held, kinds)
        },
{
    let longer = kinds.push(kind);
    assert forall|k: Seq<char>| longer.contains(k) <==> (kinds.contains(k) || k == kind) by {
        if kinds.contains(k) {
            let i = choose|i: int| 0 <= i < kinds.len() && kinds[i] == k;
            assert(longer[i] == k);
        }
        if k == kind {
            assert(longer[kinds.len() as int] == k);
        }
    }
    if amount_in(held, kind) > 0 {
        assert(report_of(held, longer) =~= report_of(held, kinds).insert(kind, held[kind]));
    } else {
        assert(report_of(held, longer) =~= report_of(held, kinds));
    }
}

fn report_kind(report: &mut AmountMap, player: &Player, kind: &str, Ghost(kinds): Ghost<Seq<Seq<char>>>)
    requires
        old(report)@ == report_of(player.cargo_inventory@, kinds),
    ensures
        final(report)@ == report_of(player.cargo_inventory@, kinds.push(kind@)),
{
    proof {
        lemma_report_step(player.cargo_inventory@, kinds, kind@);
    }
    let quantity = player.cargo_inventory.get_quantity(kind);
    if quantity > 0 {
        report.insert(kind, quantity);
    }
}

/// Reports a player's hold: of the six kinds of cargo of the game, those of
/// which the player holds at least one unit.
pub fn build_inventory_map(player: &Player) -> (r: AmountMap)
    ensures
        r@ == inventory_report(player.cargo_inventory@),
{
    let mut report = AmountMap::new();
    let ghost none = Seq::<Seq<char>>::empty();
    proof {
        assert(report@ =~= report_of(player.cargo_inventory@, none));
    }
    report_kind(&mut report, player, "electronics", Ghost(none));
    report_kind(&mut report, player, "food", Ghost(none.push("electronics"@)));
    report_kind(&mut report, player, "textiles", Ghost(none.push("electronics"@).push("food"@)));
    report_kind(
        &mut report,
        player,
        "industrial",
        Ghost(none.push("electronics"@).push("food"@).push("textiles"@)),
    );
    report_kind(
        &mut report,
        player,
        "luxury",
        Ghost(none.push("electronics"@).push("food"@).push("textiles"@).push("industrial"@)),
    );
    report_kind(
        &mut report,
        player,
        "materials",
        Ghost(
            none.push("electronics"@).push("food"@).push("textiles"@).push("industrial"@).push(
                "luxury"@,
            ),
        ),
    );
    proof {
        assert(none.push("electronics"@).push("food"@).push("textiles"@).push("industrial"@).push(
            "luxury"@,
        ).push("materials"@) =~= listed_cargo());
    }
    report
}

/// What becomes of a request to trade.
pub enum TradeDecision {
    /// The room has no player of that id.
    NoPlayer,
    /// The room has no market where the player is.
    NoMarket,
    /// The market has no price for that kind of cargo.
    NotTraded,
    /// The room knows no such kind of cargo.
    InvalidCargo,
    /// The player's money does not cover the purchase.
    Unaffordable,
    /// The hold cannot take the weight of the purchase.
    TooHeavy,
    /// The player buys.
    Buy,
    /// The player holds fewer units than are to be sold.
    NotHeld,
    /// The player sells.
    Sell,
}

/// The market where a player of a room is.
pub open spec fn market_of(room: GameRoom, player_id: u128) -> int {
    market_index(
        room.shared_state.markets@,
        room.players[player_index(room.players@, player_id)].player.current_airport@,
    )
}

/// What a trade comes to: the price of the cargo where the player is, times
/// the quantity.
pub open spec fn trade_amount(room: GameRoom, player_id: u128, cargo_type: Seq<char>, quantity: u32) -> nat {
    (room.shared_state.markets[market_of(room, player_id)].cargo_prices@[cargo_type]
        * quantity) as nat
}

/// The weight of a purchase.
pub open spec fn trade_weight(room: GameRoom, cargo_type: Seq<char>, quantity: u32) -> nat {
    (room.shared_state.cargo_types[cargo_type_index(
        room.shared_state.cargo_types@,
        cargo_type,
    )].weight_per_unit * quantity) as nat
}

/// Decides a request to trade.
pub open spec fn trade_decision(
    room: GameRoom,
    player_id: u128,
    cargo_type: Seq<char>,
    quantity: u32,
    action: TradeAction,
) -> TradeDecision {
    let p = player_index(room.players@, player_id);
    let m = market_of(room, player_id);
    if p < 0 {
        TradeDecision::NoPlayer
    } else if m < 0 {
        TradeDecision::NoMarket
    } else if !room.shared_state.markets[m].cargo_prices@.contains_key(cargo_type) {
        TradeDecision::NotTraded
    } else if cargo_type_index(room.shared_state.cargo_types@, cargo_type) < 0 {
        TradeDecision::InvalidCargo
    } else {
        match action {
            TradeAction::Buy => if trade_amount(room, player_id, cargo_type, quantity)
                > room.players[p].player.money {
                TradeDecision::Unaffordable
            } else if cargo_weight(
                room.players[p].player.cargo_inventory@,
                room.shared_state.cargo_types@,
            ) + trade_weight(room, cargo_type, quantity) > room.players[p].player.max_cargo_weight {
                TradeDecision::TooHeavy
            } else {
                TradeDecision::Buy
            },
            TradeAction::Sell => if amount_in(room.players[p].player.cargo_inventory@, cargo_type)
                < quantity {
                TradeDecision::NotHeld
            } else {
                TradeDecision::Sell
            },
        }
    }
}

/// What a player is told after a purchase.
pub open spec fn bought_text(quantity: u32, cargo_type: Seq<char>) -> Seq<char> {
    "Successfully bought "@ + decimal(quantity as nat) + " units of "@ + cargo_type
}

/// What a player is told after a sale.
pub open spec fn sold_text(quantity: u32, cargo_type: Seq<char>) -> Seq<char> {
    "Successfully sold "@ + decimal(quantity as nat) + " units of "@ + cargo_type
}

/// A hold after a sale: the units sold have left it. A sale of nothing
/// from a hold that lacks the kind leaves the hold as it is.
pub open spec fn hold_after_sale(held: Map<Seq<char>, u32>, cargo_type: Seq<char>, quantity: u32) -> Map<
    Seq<char>,
    u32,
> {
    if held.contains_key(cargo_type) {
        crate::models::cargo::after_removal(held, cargo_type, quantity)
    } else {
        held
    }
}

/// How a room stands after a purchase.
pub open spec fn bought(
    before: GameRoom,
    after: GameRoom,
    player_id: u128,
    cargo_type: Seq<char>,
    quantity: u32,
) -> bool {
    let p = player_index(before.players@, player_id);
    let amount = trade_amount(before, player_id, cargo_type, quantity);
    &&& after == (GameRoom {
        players: after.players,
        player_statistics: after.player_statistics,
        ..before
    })
    &&& player_changed(
        before.players@,
        after.players@,
        p,
        |b: Player, a: Player|
            a == (Player {
                money: (b.money - amount) as u32,
                cargo_inventory: a.cargo_inventory,
                ..b
            }) && a.cargo_inventory@ == b.cargo_inventory@.insert(
                cargo_type,
                capped_sum(amount_in(b.cargo_inventory@, cargo_type), quantity),
            ),
    )
    &&& statistics_changed(
        before.player_statistics@,
        after.player_statistics@,
        player_id,
        |b: GameStatistics, a: GameStatistics| a == b.with_cargo_purchase(amount as u32),
    )
}

/// How a room stands after a sale. The proceeds, and the purse that takes
/// them, stop at the largest amount.
pub open spec fn sold(
    before: GameRoom,
    after: GameRoom,
    player_id: u128,
    cargo_type: Seq<char>,
    quantity: u32,
) -> bool {
    let p = player_index(before.players@, player_id);
    let proceeds = capped(trade_amount(before, player_id, cargo_type, quantity));
    &&& after == (GameRoom {
        players: after.players,
        player_statistics: after.player_statistics,
        ..before
    })
    &&& player_changed(
        before.players@,
        after.players@,
        p,
        |b: Player, a: Player|
            a == (Player {
                money: capped_sum(b.money, proceeds),
                cargo_inventory: a.cargo_inventory,
                ..b
            }) && a.cargo_inventory@ == hold_after_sale(b.cargo_inventory@, cargo_type, quantity),
    )
    &&& statistics_changed(
        before.player_statistics@,
        after.player_statistics@,
        player_id,
        |b: GameStatistics, a: GameStatistics| a.is_after_sale(b, cargo_type, proceeds),
    )
}

/// Whether a response turns a trade down for a reason.
pub open spec fn is_trade_refusal(response: PlayerTradeResponse, reason: Seq<char>) -> bool {
    &&& !response.success
    &&& response.message@ == reason
    &&& response.transaction_amount is None
    &&& response.new_money is None
    &&& response.new_inventory is None
}

/// Whether a response reports a trade that was made.
pub open spec fn is_trade_report(
    response: PlayerTradeResponse,
    message: Seq<char>,
    amount: u32,
    player: Player,
) -> bool {
    &&& response.success
    &&& response.message@ == message
    &&& response.transaction_amount == Some(amount)
    &&& response.new_money == Some(player.money)
    &&& response.new_inventory is Some
    &&& response.new_inventory->0@ == inventory_report(player.cargo_inventory@)
}

/// How a room and the answer stand after a request to trade.
pub open spec fn traded(
    before: GameRoom,
    after: GameRoom,
    player_id: u128,
    request: TradeRequest,
    result: Result<PlayerTradeResponse, String>,
) -> bool {
    let p = player_index(before.players@, player_id);
    let cargo = request.cargo_type@;
    match trade_decision(before, player_id, cargo, request.quantity, request.action) {
        TradeDecision::NoPlayer => after == before && fails_with(result, "Player not found in room"@),
        TradeDecision::NoMarket => after == before && fails_with(
            result,
            "No market available at current location"@,
        ),
        TradeDecision::NotTraded => after == before && fails_with(
            result,
            "Cargo type not available at this market"@,
        ),
        TradeDecision::InvalidCargo => after == before && fails_with(result, "Invalid cargo type"@),
        TradeDecision::Unaffordable => after == before && result is Ok && is_trade_refusal(
            result->Ok_0,
            "Insufficient funds"@,
        ),
        TradeDecision::TooHeavy => after == before && result is Ok && is_trade_refusal(
            result->Ok_0,
            "Insufficient cargo capacity"@,
        ),
        TradeDecision::NotHeld => after == before && result is Ok && is_trade_refusal(
            result->Ok_0,
            "Insufficient cargo to sell"@,
        ),
        TradeDecision::Buy => {
            &&& bought(before, after, player_id, cargo, request.quantity)
            &&& result is Ok
            &&& is_trade_report(
                result->Ok_0,
                bought_text(request.quantity, cargo),
                trade_amount(before, player_id, cargo, request.quantity) as u32,
                after.players[p].player,
            )
        },
        TradeDecision::Sell => {
            &&& sold(before, after, player_id, cargo, request.quantity)
            &&& result is Ok
            &&& is_trade_report(
                result->Ok_0,
                sold_text(request.quantity, cargo),
                capped(trade_amount(before, player_id, cargo, request.quantity)),
                after.players[p].player,
            )
        },
    }
}

fn trade_refusal(reason: &str) -> (r: PlayerTradeResponse)
    ensures
        is_trade_refusal(r, reason@),
{
    PlayerTradeResponse {
        success: false,
        message: reason.to_string(),
        transaction_amount: None,
        new_money: None,
        new_inventory: None,
    }
}

fn trade_message(lead: &str, quantity: u32, cargo_type: &str) -> (r: String)
    ensures
        r@ == lead@ + decimal(quantity as nat) + " units of "@ + cargo_type@,
{
    let mut text = lead.to_string();
    text.append(decimal_string(quantity as u64).as_str());
    text.append(" units of ");
    text.append(cargo_type);
    text
}

/// Makes a trade for a player, if the room's rules allow it. A purchase
/// takes the money to cover it and room in the hold; a sale takes the units
/// in the hold. The trade is recorded in the player's statistics.
pub fn trade_in_room(room: &mut GameRoom, player_id: u128, request: TradeRequest) -> (r: Result<
    PlayerTradeResponse,
    String,
>)
    ensures
        traded(*old(room), *final(room), player_id, request, r),
{
    let at = match room.player_position(player_id) {
        Some(i) => i,
        None => {
            return Err("Player not found in room".to_string());
        },
    };
    let cargo_price = match find_market(
        &room.shared_state.markets,
        room.players[at].player.current_airport.as_str(),
    ) {
        Some(market) => match market.get_cargo_price(request.cargo_type.as_str()) {
            Some(price) => price,
            None => {
                return Err("Cargo type not available at this market".to_string());
            },
        },
        None => {
            return Err("No market available at current location".to_string());
        },
    };
    let transaction_amount: u64 = times(cargo_price, request.quantity);
    let cargo_weight_per_unit = match find_cargo_type(
        &room.shared_state.cargo_types,
        request.cargo_type.as_str(),
    ) {
        Some(cargo_type) => cargo_type.weight_per_unit,
        None => {
            return Err("Invalid cargo type".to_string());
        },
    };
    match request.action {
        TradeAction::Buy => {
            if transaction_amount > room.players[at].player.money as u64 {
                return Ok(trade_refusal("Insufficient funds"));
            }
            let additional_weight: u64 = times(cargo_weight_per_unit, request.quantity);
            let current_weight = room.players[at].player.cargo_inventory.exact_weight(
                &room.shared_state.cargo_types,
            );
            let max_weight = room.players[at].player.max_cargo_weight;
            if current_weight > max_weight as u128 || additional_weight > max_weight as u64
                || current_weight + additional_weight as u128 > max_weight as u128 {
                return Ok(trade_refusal("Insufficient cargo capacity"));
            }
            let cost = transaction_amount as u32;
            room.players[at].player.spend_money(cost);
            room.players[at].player.cargo_inventory.add_cargo(
                request.cargo_type.as_str(),
                request.quantity,
            );
            match room.statistics_position(player_id) {
                Some(j) => {
                    room.player_statistics[j].statistics.record_cargo_purchase(cost);
                },
                None => {},
            }
            proof {
                assert(room.players@ =~= old(room).players@.update(
                    at as int,
                    room.players[at as int],
                ));
                let j = statistics_index(old(room).player_statistics@, player_id);
                if j >= 0 {
                    assert(room.player_statistics@ =~= old(room).player_statistics@.update(
                        j,
                        room.player_statistics[j],
                    ));
                }
            }
            Ok(
                PlayerTradeResponse {
                    success: true,
                    message: trade_message(
                        "Successfully bought ",
                        request.quantity,
                        request.cargo_type.as_str(),
                    ),
                    transaction_amount: Some(cost),
                    new_money: Some(room.players[at].player.money),
                    new_inventory: Some(build_inventory_map(&room.players[at].player)),
                },
            )
        },
        TradeAction::Sell => {
            if room.players[at].player.cargo_inventory.get_quantity(request.cargo_type.as_str())
                < request.quantity {
                return Ok(trade_refusal("Insufficient cargo to sell"));
            }
            let proceeds: u32 = if transaction_amount > u32::MAX as u64 {
                u32::MAX
            } else {
                transaction_amount as u32
            };
            room.players[at].player.cargo_inventory.remove_cargo(
                request.cargo_type.as_str(),
                request.quantity,
            );
            room.players[at].player.earn_money(proceeds);
            match room.statistics_position(player_id) {
                Some(j) => {
                    room.player_statistics[j].statistics.record_sale(
                        request.cargo_type.as_str(),
                        proceeds,
                    );
                },
                None => {},
            }
            proof {
                assert(room.players@ =~= old(room).players@.update(
                    at as int,
                    room.players[at as int],
                ));
                let j = statistics_index(old(room).player_statistics@, player_id);
                if j >= 0 {
                    assert(room.player_statistics@ =~= old(room).player_statistics@.update(
                        j,
                        room.player_statistics[j],
                    ));
                }
            }
            Ok(
                PlayerTradeResponse {
                    success: true,
                    message: trade_message(
                        "Successfully sold ",
                        request.quantity,
                        request.cargo_type.as_str(),
                    ),
                    transaction_amount: Some(proceeds),
                    new_money: Some(room.players[at].player.money),
                    new_inventory: Some(build_inventory_map(&room.players[at].player)),
                },
            )
        },
    }
}

/// What becomes of a request to buy fuel.
pub enum FuelDecision {
    /// The room has no player of that id.
    NoPlayer,
    /// The room has no market where the player is.
    NoMarket,
    /// The tank has room for fewer units than are asked for.
    TankTooSmall,
    /// The player's money does not cover the purchase.
    Unaffordable,
    /// The player buys.
    Buy,
}

/// The units of fuel for which a tank has room.
pub open spec fn tank_space(player: Player) -> u32 {
    if player.max_fuel >= player.fuel {
        (player.max_fuel - player.fuel) as u32
    } else {
        0
    }
}

/// What a purchase of fuel costs: the price of fuel where the player is,
/// times the quantity.
pub open spec fn fuel_cost(room: GameRoom, player_id: u128, quantity: u32) -> nat {
    (room.shared_state.markets[market_of(room, player_id)].fuel_price * quantity) as nat
}

/// Decides a request to buy fuel.
pub open spec fn fuel_decision(room: GameRoom, player_id: u128, quantity: u32) -> FuelDecision {
    let p = player_index(room.players@, player_id);
    if p < 0 {
        FuelDecision::NoPlayer
    } else if market_of(room, player_id) < 0 {
        FuelDecision::NoMarket
    } else if quantity > tank_space(room.players[p].player) {
        FuelDecision::TankTooSmall
    } else if fuel_cost(room, player_id, quantity) > room.players[p].player.money {
        FuelDecision::Unaffordable
    } else {
        FuelDecision::Buy
    }
}

/// What a player is told whose tank has room for fewer units than asked
/// for.
pub open spec fn tank_text(space: u32) -> Seq<char> {
    "Fuel tank can only hold "@ + decimal(space as nat) + " more units"@
}

/// What a player is told after a purchase of fuel.
pub open spec fn fueled_text(quantity: u32, cost: u32) -> Seq<char> {
    "Purchased "@ + decimal(quantity as nat) + " units of fuel for $"@ + decimal(cost as nat)
}

/// How a room stands after a purchase of fuel.
pub open spec fn fueled(before: GameRoom, after: GameRoom, player_id: u128, quantity: u32) -> bool {
    let p = player_index(before.players@, player_id);
    let cost = fuel_cost(before, player_id, quantity);
    &&& after == (GameRoom {
        players: after.players,
        player_statistics: after.player_statistics,
        ..before
    })
    &&& player_changed(
        before.players@,
        after.players@,
        p,
        |b: Player, a: Player|
            a == (Player {
                money: (b.money - cost) as u32,
                fuel: fuel_after_adding(b.fuel, quantity, b.max_fuel),
                ..b
            }),
    )
    &&& statistics_changed(
        before.player_statistics@,
        after.player_statistics@,
        player_id,
        |b: GameStatistics, a: GameStatistics| a == b.with_fuel_purchase(quantity, cost as u32),
    )
}

/// Whether a response turns a purchase of fuel down for a reason.
pub open spec fn is_fuel_refusal(response: PlayerFuelResponse, reason: Seq<char>) -> bool {
    &&& !response.success
    &&& response.message@ == reason
    &&& response.cost is None
    &&& response.new_fuel is None
    &&& response.new_money is None
}

/// How a room and the answer stand after a request to buy fuel.
pub open spec fn refueled(
    before: GameRoom,
    after: GameRoom,
    player_id: u128,
    request: FuelRequest,
    result: Result<PlayerFuelResponse, String>,
) -> bool {
    let p = player_index(before.players@, player_id);
    match fuel_decision(before, player_id, request.quantity) {
        FuelDecision::NoPlayer => after == before && fails_with(result, "Player not found in room"@),
        FuelDecision::NoMarket => after == before && fails_with(
            result,
            "No market available at current location"@,
        ),
        FuelDecision::TankTooSmall => after == before && result is Ok && is_fuel_refusal(
            result->Ok_0,
            tank_text(tank_space(before.players[p].player)),
        ),
        FuelDecision::Unaffordable => after == before && result is Ok && is_fuel_refusal(
            result->Ok_0,
            "Insufficient funds for fuel purchase"@,
        ),
        FuelDecision::Buy => {
            &&& fueled(before, after, player_id, request.quantity)
            &&& result is Ok
            &&& result->Ok_0.success
            &&& result->Ok_0.message@ == fueled_text(
                request.quantity,
                fuel_cost(before, player_id, request.quantity) as u32,
            )
            &&& result->Ok_0.cost == Some(fuel_cost(before, player_id, request.quantity) as u32)
            &&& result->Ok_0.new_fuel == Some(after.players[p].player.fuel)
            &&& result->Ok_0.new_money == Some(after.players[p].player.money)
        },
    }
}

fn fuel_refusal(reason: String) -> (r: PlayerFuelResponse)
    ensures
        is_fuel_refusal(r, reason@),
{
    PlayerFuelResponse { success: false, message: reason, cost: None, new_fuel: None, new_money: None }
}

fn tank_message(space: u32) -> (r: String)
    ensures
        r@ == tank_text(space),
{
    let mut text = "Fuel tank can only hold ".to_string();
    text.append(decimal_string(space as u64).as_str());
    text.append(" more units");
    text
}

fn fueled_message(quantity: u32, cost: u32) -> (r: String)
    ensures
        r@ == fueled_text(quantity, cost),
{
    let mut text = "Purchased ".to_string();
    text.append(decimal_string(quantity as u64).as_str());
    text.append(" units of fuel for $");
    text.append(decimal_string(cost as u64).as_str());
    text
}

/// Buys fuel for a player, if the tank has room for all of it and the
/// player's money covers it. The purchase is recorded in the player's
/// statistics.
pub fn buy_fuel_in_room(room: &mut GameRoom, player_id: u128, request: FuelRequest) -> (r: Result<
    PlayerFuelResponse,
    String,
>)
    ensures
        refueled(*old(room), *final(room), player_id, request, r),
{
    let at = match room.player_position(player_id) {
        Some(i) => i,
        None => {
            return Err("Player not found in room".to_string());
        },
    };
    let fuel_price = match find_market(
        &room.shared_state.markets,
        room.players[at].player.current_airport.as_str(),
    ) {
        Some(market) => market.fuel_price,
        None => {
            return Err("No market available at current location".to_string());
        },
    };
    let fuel_cost: u64 = times(fuel_price, request.quantity);
    let space_available = room.players[at].player.max_fuel.saturating_sub(
        room.players[at].player.fuel,
    );
    if request.quantity > space_available {
        return Ok(fuel_refusal(tank_message(space_available)));
    }
    if fuel_cost > room.players[at].player.money as u64 {
        return Ok(fuel_refusal("Insufficient funds for fuel purchase".to_string()));
    }
    let cost = fuel_cost as u32;
    room.players[at].player.spend_money(cost);
    room.players[at].player.add_fuel(request.quantity);
    match room.statistics_position(player_id) {
        Some(j) => {
            room.player_statistics[j].statistics.record_fuel_purchase(request.quantity, cost);
        },
        None => {},
    }
    proof {
        assert(room.players@ =~= old(room).players@.update(at as int, room.players[at as int]));
        let j = statistics_index(old(room).player_statistics@, player_id);
        if j >= 0 {
            assert(room.player_statistics@ =~= old(room).player_statistics@.update(
                j,
                room.player_statistics[j],
            ));
        }
    }
    Ok(
        PlayerFuelResponse {
            success: true,
            message: fueled_message(request.quantity, cost),
            cost: Some(cost),
            new_fuel: Some(room.players[at].player.fuel),
            new_money: Some(room.players[at].player.money),
        },
    )
}

/// Whether an answer lists messages as they stand on a board, each entry
/// for one message.
pub open spec fn lists_messages(infos: Seq<MessageInfo>, messages: Seq<Message>) -> bool {
    &&& infos.len() == messages.len()
    &&& forall|i: int| 0 <= i < infos.len() ==> is_info_of(#[trigger] infos[i], messages[i])
}

/// Whether an entry of an answer shows a message.
pub open spec fn is_info_of(info: MessageInfo, message: Message) -> bool {
    &&& info.id == message.id
    &&& info.author_id == message.author_id
    &&& info.author_name == message.author_name
    &&& info.content == message.content
    &&& info.airport_id == message.airport_id
    &&& info.created_at == message.created_at
}

/// The most messages that one answer lists.
pub const MESSAGES_PER_ANSWER: usize = 20;

/// How a room and the answer stand after a request to write on the board.
pub open spec fn posted(
    before: GameRoom,
    after: GameRoom,
    message_id: u128,
    now: i64,
    player_id: u128,
    content: String,
    result: Result<PostMessageResponse, String>,
) -> bool {
    let p = player_index(before.players@, player_id);
    if p < 0 {
        after == before && fails_with(result, "Player not in this room"@)
    } else if content_error(content@) is Some {
        after == before && fails_with(result, content_error(content@)->0)
    } else {
        &&& after == (GameRoom { message_board: after.message_board, ..before })
        &&& after.message_board.capacity() == before.message_board.capacity()
        &&& after.message_board.posts() == most_recent(
            before.message_board.posts().push(
                Message {
                    id: message_id,
                    author_id: player_id,
                    author_name: before.players[p].player_name,
                    content,
                    airport_id: before.players[p].player.current_airport,
                    created_at: now,
                },
            ),
            before.message_board.capacity(),
        )
        &&& result is Ok
        &&& result->Ok_0.success
        &&& result->Ok_0.message@ == "Message posted successfully"@
        &&& result->Ok_0.message_id == Some(message_id)
    }
}

/// Writes a player's message on the board, under a given id and time, at
/// the airport where the player is. An empty text, or one of more than 500
/// characters, is turned down.
pub fn post_in_room(
    room: &mut GameRoom,
    message_id: u128,
    now: i64,
    player_id: u128,
    content: String,
) -> (r: Result<PostMessageResponse, String>)
    ensures
        posted(*old(room), *final(room), message_id, now, player_id, content, r),
{
    let at = match room.player_position(player_id) {
        Some(i) => i,
        None => {
            return Err("Player not in this room".to_string());
        },
    };
    let player_name = room.players[at].player_name.clone();
    let current_airport = room.players[at].player.current_airport.clone();
    match room.message_board.post_message_with(
        message_id,
        now,
        player_id,
        player_name,
        content,
        current_airport,
    ) {
        Ok(message) => Ok(
            PostMessageResponse {
                success: true,
                message: "Message posted successfully".to_string(),
                message_id: Some(message.id),
            },
        ),
        Err(reason) => Err(reason),
    }
}

/// What a room answers to a request to read the board: the messages
/// written where the player is, newest first and twenty at most, and how
/// many were written there in all.
pub open spec fn board_read(room: GameRoom, player_id: u128, result: Result<GetMessagesResponse, String>) -> bool {
    let p = player_index(room.players@, player_id);
    if p < 0 {
        fails_with(result, "Player not in this room"@)
    } else {
        let here = room.players[p].player.current_airport;
        &&& result is Ok
        &&& lists_messages(
            result->Ok_0.messages@,
            limited(
                newest_first(written_at(room.message_board.posts(), here@)),
                Some(MESSAGES_PER_ANSWER),
            ),
        )
        &&& result->Ok_0.airport_id == here
        &&& result->Ok_0.total_count == count_where(room.message_board.posts(), is_at(here@))
    }
}

/// Reads the board for a player.
pub fn read_board_in_room(room: &GameRoom, player_id: u128) -> (r: Result<
    GetMessagesResponse,
    String,
>)
    ensures
        board_read(*room, player_id, r),
{
    let at = match room.player_position(player_id) {
        Some(i) => i,
        None => {
            return Err("Player not in this room".to_string());
        },
    };
    let current_airport = room.players[at].player.current_airport.clone();
    let messages = room.message_board.get_messages(
        current_airport.as_str(),
        Some(MESSAGES_PER_ANSWER),
    );
    let total_count = room.message_board.message_count(Some(current_airport.as_str()));
    let mut infos: Vec<MessageInfo> = Vec::new();
    let mut i: usize = 0;
    while i < messages.len()
        invariant
            i <= messages.len(),
            infos.len() == i,
            forall|j: int| 0 <= j < i ==> is_info_of(#[trigger] infos[j], pointed_to(messages@)[j]),
        decreases messages.len() - i,
    {
        let message = messages[i];
        proof {
            assert(pointed_to(messages@)[i as int] == *message);
        }
        infos.push(
            MessageInfo {
                id: message.id,
                author_id: message.author_id,
                author_name: message.author_name.clone(),
                content: message.content.clone(),
                airport_id: message.airport_id.clone(),
                created_at: message.created_at,
            },
        );
        i += 1;
    }
    Ok(GetMessagesResponse { messages: infos, airport_id: current_airport, total_count })
}

} // verus!
