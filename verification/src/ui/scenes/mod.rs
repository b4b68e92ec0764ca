//! The scenes of the game and the place within an airport where the player
//! stands.

pub mod room_lobby;
pub mod server_connection;

use vstd::prelude::*;

verus! {

/// The scene on screen.
#[derive(Debug, Clone, PartialEq, Default)]
pub enum Scene {
    #[default]
    ServerConnection,
    RoomLobby,
    /// An airport, by its id.
    Airport(String),
}

/// A place within an airport.
#[derive(Debug, Clone, Copy, PartialEq, Eq, Structural, Default)]
pub enum Location {
    /// General information.
    #[default]
    MainDesk,
    /// The prices of the day.
    MarketBoard,
    /// Buying and selling cargo.
    TradingDesk,
    /// Flights to other airports.
    FlightPlanning,
    /// Buying fuel.
    FuelPump,
    /// Reading and writing messages.
    MessageBoard,
}

/// What the screens keep between frames.
#[derive(Debug, Clone, Default)]
pub struct SceneState {
    pub current_scene: Scene,
    pub current_location: Location,
    pub selected_cargo: Option<String>,
    pub trade_quantity: u32,
    pub selected_destination: Option<String>,
    pub fuel_quantity: u32,
    pub message_input: String,
    pub show_message_compose: bool,
}

impl SceneState {
    /// The state at the start: the connection scene, the main desk, one
    /// unit to trade and ten units of fuel to buy.
    pub fn new() -> (r: Self)
        ensures
            r.current_scene == Scene::ServerConnection,
            r.current_location == Location::MainDesk,
            r.selected_cargo is None,
            r.trade_quantity == 1,
            r.selected_destination is None,
            r.fuel_quantity == 10,
            r.message_input@ == Seq::<char>::empty(),
            !r.show_message_compose,
    {
        SceneState {
            current_scene: Scene::ServerConnection,
            current_location: Location::MainDesk,
            selected_cargo: None,
            trade_quantity: 1,
            selected_destination: None,
            fuel_quantity: 10,
            message_input: String::new(),
            show_message_compose: false,
        }
    }

    /// Goes to a place within the airport; what was selected or begun at
    /// the place before is dropped.
    pub fn go_to_location(&mut self, location: Location)
        ensures
            final(self).current_location == location,
            final(self).selected_cargo is None,
            final(self).selected_destination is None,
            final(self).message_input@ == Seq::<char>::empty(),
            !final(self).show_message_compose,
            final(self).current_scene == old(self).current_scene,
            final(self).trade_quantity == old(self).trade_quantity,
            final(self).fuel_quantity == old(self).fuel_quantity,
    {
        self.current_location = location;
        self.selected_cargo = None;
        self.selected_destination = None;
        self.message_input = String::new();
        self.show_message_compose = false;
    }

    /// Arrives at an airport, at its main desk; what was selected before
    /// is dropped.
    pub fn travel_to_airport(&mut self, airport_id: String)
        ensures
            final(self).current_scene == Scene::Airport(airport_id),
            final(self).current_location == Location::MainDesk,
            final(self).selected_cargo is None,
            final(self).selected_destination is None,
            final(self).trade_quantity == old(self).trade_quantity,
            final(self).fuel_quantity == old(self).fuel_quantity,
            final(self).message_input == old(self).message_input,
            final(self).show_message_compose == old(self).show_message_compose,
    {
        self.current_scene = Scene::Airport(airport_id);
        self.current_location = Location::MainDesk;
        self.selected_cargo = None;
        self.selected_destination = None;
    }
}

} // verus!
