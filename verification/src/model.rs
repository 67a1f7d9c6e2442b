//! Responses of the Modern Beta server API.
use vstd::prelude::*;
use vstd::string::*;

verus! {

/// The number of players currently online.
#[derive(Clone, Debug, PartialEq, Eq)]
pub struct OnlinePlayerCountResponse {
    /// The number of players currently online.
    pub online: u32,
}

/// The players currently online.
#[derive(Clone, Debug, PartialEq, Eq)]
pub struct OnlinePlayersResponse {
    /// The total number of players currently online.
    pub count: u32,
    /// The usernames of all currently online players.
    pub names: Vec<String>,
}

/// The kind of game client a player uses.
#[derive(Clone, Copy, Debug, PartialEq, Eq)]
pub enum ClientType {
    Java,
    Bedrock,
    Beta,
    /// Sent by the API as `"VR"`.
    VirtualReality,
}

/// Where a player stands.
#[derive(Clone, Debug, PartialEq, Eq)]
pub struct PlayerLocation {
    /// The X coordinate of the player's position.
    pub x: i32,
    /// The Y coordinate of the player's position.
    pub y: i32,
    /// The Z coordinate of the player's position.
    pub z: i32,
    /// The name of the world the player is currently in.
    pub world: Option<String>,
}

/// A player's public profile.
#[derive(Clone, Debug, PartialEq, Eq)]
pub struct PlayerProfileResponse {
    /// The player's UUID.
    pub uuid: Option<String>,
    /// The player's current username.
    pub username: Option<String>,
    /// A list of usernames the player has previously used.
    pub past_usernames: Option<Vec<String>>,
    /// Whether the player is currently online.
    pub online: bool,
    /// The date the player registered on the server.
    pub reg_date: Option<String>,
    /// The date and time the player was last seen on the server.
    pub last_seen: Option<String>,
    /// The name of the player's current rank.
    pub rank_name: Option<String>,
    /// The player's language code (e.g. "en").
    pub language_code: Option<String>,
    /// The total number of seconds the player has played on the server.
    pub played_time_seconds: u32,
    /// The type of client the player is using (e.g. Java, Bedrock).
    pub client_type: Option<ClientType>,
    /// The player's current location in the world, if available.
    pub location: Option<PlayerLocation>,
}

/// Server-wide statistics.
#[derive(Clone, Debug, PartialEq, Eq)]
pub struct ServerStatsResponse {
    /// The total number of players registered on the server.
    pub total_registered_players: u32,
    /// The date the server was first started.
    pub start_date: Option<String>,
    /// The date and time of the server's last reboot.
    pub last_reboot: Option<String>,
}

/// One visible player and where it stands.
#[derive(Clone, Debug, PartialEq, Eq)]
pub struct PlayerPositionEntry {
    /// The username of the player.
    pub username: String,
    /// The X coordinate of the player's position.
    pub x: i32,
    /// The Y coordinate of the player's position.
    pub y: i32,
    /// The Z coordinate of the player's position.
    pub z: i32,
}

/// The visible players of one world.
#[derive(Clone, Debug, PartialEq, Eq)]
pub struct WorldPositionsResponse {
    /// The name of the world these positions are from.
    pub world: String,
    /// The list of visible online players and their positions in the world.
    pub players: Vec<PlayerPositionEntry>,
}

/// The state of one world.
#[derive(Clone, Debug, PartialEq, Eq)]
pub struct WorldResponse {
    /// The name of the world.
    pub name: String,
    /// The environment type of the world (e.g. normal, nether, the_end).
    pub environment: String,
    /// The difficulty of the world (e.g. peaceful, easy, normal, hard).
    pub difficulty: String,
    /// The current world time expressed in ticks.
    pub time_ticks: i64,
    /// The current world time in a human-readable format.
    pub time_formatted: String,
    /// Whether it is currently raining or snowing in the world.
    pub storming: bool,
    /// Whether there is currently a thunderstorm in the world.
    pub thundering: bool,
}

/// The weather of a world, simplified.
#[derive(Clone, Copy, Debug, PartialEq, Eq)]
pub enum WeatherState {
    Thunderstorm,
    Rain,
    Clear,
}

/// The weather that the two flags of a world give: thunder wins over
/// rain, and neither is clear weather.
pub open spec fn weather_of(storming: bool, thundering: bool) -> WeatherState {
    if thundering {
        WeatherState::Thunderstorm
    } else if storming {
        WeatherState::Rain
    } else {
        WeatherState::Clear
    }
}

/// The name under which a weather state is shown.
pub open spec fn weather_label(w: WeatherState) -> Seq<char> {
    match w {
        WeatherState::Thunderstorm => "Thunderstorm"@,
        WeatherState::Rain => "Rain"@,
        WeatherState::Clear => "Clear"@,
    }
}

impl WorldResponse {
    /// Get a simplified weather state based on the storming and thundering fields.
    pub fn weather_state(&self) -> (w: WeatherState)
        ensures
            w == weather_of(self.storming, self.thundering),
    {
        if self.thundering {
            WeatherState::Thunderstorm
        } else if self.storming {
            WeatherState::Rain
        } else {
            WeatherState::Clear
        }
    }
}

impl WeatherState {
    /// The name of the weather state ("Thunderstorm", "Rain" or "Clear").
    pub fn to_string(&self) -> (s: String)
        ensures
            s@ == weather_label(*self),
    {
        match self {
            WeatherState::Thunderstorm => String::from_str("Thunderstorm"),
            WeatherState::Rain => String::from_str("Rain"),
            WeatherState::Clear => String::from_str("Clear"),
        }
    }
}

} // verus!
