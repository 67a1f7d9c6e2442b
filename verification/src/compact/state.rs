//! The compact tray's state, where the server may leave the names out.
use crate::compact::api::{weather_text, OnlinePlayersResponse, WorldResponse};
use crate::config::AppConfig;
use crate::model::{weather_label, weather_of};
use crate::state::{count_favorites, favorites_among};
use vstd::prelude::*;

verus! {

/// The answers of one successful poll.
#[derive(Clone, Debug)]
pub struct ResponseData {
    pub online_players: OnlinePlayersResponse,
    pub world: WorldResponse,
}

/// The configuration and, once a poll has succeeded, its answers.
#[derive(Clone, Debug)]
pub struct AppState {
    pub config: AppConfig,
    pub data: Option<ResponseData>,
}

/// What can be said of the online players.
#[derive(Debug)]
pub enum OnlinePlayersState {
    /// No poll has succeeded yet.
    Loading,
    /// Nobody is online.
    Empty,
    /// Players are online but the server did not list their names.
    Unavailable,
    /// The names of the players online.
    Loaded(Vec<String>),
}

/// `OnlinePlayersState` with the names taken by their views.
pub enum OnlinePlayersView {
    Loading,
    Empty,
    Unavailable,
    Loaded(Seq<String>),
}

impl View for OnlinePlayersState {
    type V = OnlinePlayersView;

    open spec fn view(&self) -> OnlinePlayersView {
        match self {
            OnlinePlayersState::Loading => OnlinePlayersView::Loading,
            OnlinePlayersState::Empty => OnlinePlayersView::Empty,
            OnlinePlayersState::Unavailable => OnlinePlayersView::Unavailable,
            OnlinePlayersState::Loaded(names) => OnlinePlayersView::Loaded(names@),
        }
    }
}

impl AppState {
    /// The state of the online players, as `online_players` reports it.
    pub open spec fn players_state(&self) -> OnlinePlayersView {
        match self.data {
            None => OnlinePlayersView::Loading,
            Some(d) => if d.online_players.count == 0 {
                OnlinePlayersView::Empty
            } else {
                match d.online_players.names {
                    Some(names) => OnlinePlayersView::Loaded(names@),
                    None => OnlinePlayersView::Unavailable,
                }
            },
        }
    }

    /// The names listed, or none at all when they are not known.
    pub open spec fn listed_names(&self) -> Seq<String> {
        match self.players_state() {
            OnlinePlayersView::Loaded(names) => names,
            _ => Seq::empty(),
        }
    }

    /// The count of players online reported by the last successful poll.
    pub fn player_count(&self) -> (r: Option<usize>)
        ensures
            r == match self.data {
                Some(d) => Some(d.online_players.count as usize),
                None => None::<usize>,
            },
    {
        match &self.data {
            Some(data) => Some(data.online_players.count as usize),
            None => None,
        }
    }

    /// `Loading` before the first successful poll, `Empty` when the count
    /// is zero, `Unavailable` when names were not sent, else the names.
    pub fn online_players(&self) -> (r: OnlinePlayersState)
        ensures
            r@ == self.players_state(),
    {
        match &self.data {
            None => OnlinePlayersState::Loading,
            Some(data) => if data.online_players.count == 0 {
                OnlinePlayersState::Empty
            } else {
                match &data.online_players.names {
                    Some(names) => OnlinePlayersState::Loaded(names.clone()),
                    None => OnlinePlayersState::Unavailable,
                }
            },
        }
    }

    /// How many of the listed players are favorites; 0 when no names are listed.
    pub fn online_favorite_count(&self) -> (n: usize)
        ensures
            n == favorites_among(self.config, self.listed_names()).len(),
    {
        match self.online_players() {
            OnlinePlayersState::Loaded(names) => count_favorites(&self.config, &names),
            _ => {
                assert(favorites_among(self.config, Seq::<String>::empty()) =~= Seq::<String>::empty())
                    by {
                    reveal(Seq::filter);
                }
                0
            },
        }
    }

    /// The world reported by the last successful poll.
    pub fn world(&self) -> (r: Option<&WorldResponse>)
        ensures
            r == match self.data {
                Some(d) => Some(&d.world),
                None => None::<&WorldResponse>,
            },
    {
        match &self.data {
            Some(data) => Some(&data.world),
            None => None,
        }
    }

    /// The names listed, or an empty list when they are not known.
    pub fn player_names(&self) -> (r: Vec<String>)
        ensures
            r@ == self.listed_names(),
    {
        match self.online_players() {
            OnlinePlayersState::Loaded(names) => names,
            _ => Vec::new(),
        }
    }

    /// The name of the world's weather, once a poll has succeeded.
    pub fn weather_text(&self) -> (r: Option<String>)
        ensures
            match self.data {
                Some(d) => r matches Some(t) && t@ == weather_label(
                    weather_of(d.world.storming, d.world.thundering),
                ),
                None => r is None,
            },
    {
        match self.world() {
            Some(world) => Some(weather_text(world)),
            None => None,
        }
    }
}

impl Default for AppState {
    /// The default configuration and no poll yet.
    fn default() -> (s: AppState)
        ensures
            s.data is None,
            s.config.api_key@ == Seq::<char>::empty(),
            s.config.world_name@ == "world"@,
            s.config.refresh_interval_secs == 30,
            s.config.favorite_players@.len() == 0,
    {
        AppState { config: AppConfig::default(), data: None }
    }
}

} // verus!
