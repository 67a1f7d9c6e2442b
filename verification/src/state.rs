//! What the tray knows: its configuration and the last successful poll.
use crate::config::AppConfig;
use crate::model::{OnlinePlayersResponse, WorldResponse};
use vstd::prelude::*;

verus! {

/// The answers of one successful poll.
#[derive(Clone, Debug)]
pub struct ResponseData {
    pub online_players: OnlinePlayersResponse,
    pub world: WorldResponse,
}

/// The configuration and, once a poll has succeeded, its answers.
#[derive(Clone, Debug)]
pub struct AppState {
    pub config: AppConfig,
    pub data: Option<ResponseData>,
}

/// What can be said of the online players.
#[derive(Debug)]
pub enum OnlinePlayersState {
    /// No poll has succeeded yet.
    Loading,
    /// Nobody is online.
    Empty,
    /// The names of the players online.
    Loaded(Vec<String>),
}

/// The test by which a name counts as a favorite of `config`.
pub open spec fn favorite_pred(config: AppConfig) -> spec_fn(String) -> bool {
    |n: String| config.is_favorite(n@)
}

/// The names among `names` that are favorites of `config`, in their order.
pub open spec fn favorites_among(config: AppConfig, names: Seq<String>) -> Seq<String> {
    names.filter(favorite_pred(config))
}

/// How many of `names` are favorites of `config`.
pub fn count_favorites(config: &AppConfig, names: &Vec<String>) -> (n: usize)
    ensures
        n == favorites_among(*config, names@).len(),
{
    let mut n: usize = 0;
    let mut i: usize = 0;
    assert(names@.take(0) =~= Seq::<String>::empty());
    assert(favorites_among(*config, names@.take(0)) =~= Seq::<String>::empty()) by {
        reveal(Seq::filter);
    }
    while i < names.len()
        invariant
            i <= names@.len(),
            n == favorites_among(*config, names@.take(i as int)).len(),
            n <= i,
        decreases names@.len() - i,
    {
        proof {
            assert(names@.take(i + 1) =~= names@.take(i as int).push(names@[i as int]));
            names@.take(i as int).lemma_filter_len_push(favorite_pred(*config), names@[i as int]);
        }
        if config.has_favorite(&names[i]) {
            n = n + 1;
        }
        i = i + 1;
    }
    assert(names@.take(names@.len() as int) =~= names@);
    n
}

impl AppState {
    /// The state of the online players, as `online_players` reports it.
    pub open spec fn players_state(&self) -> OnlinePlayersView {
        match self.data {
            None => OnlinePlayersView::Loading,
            Some(d) => if d.online_players.count == 0 {
                OnlinePlayersView::Empty
            } else {
                OnlinePlayersView::Loaded(d.online_players.names@)
            },
        }
    }

    /// The count of players online reported by the last successful poll.
    pub fn online_players_count(&self) -> (r: Option<u32>)
        ensures
            r == match self.data {
                Some(d) => Some(d.online_players.count),
                None => None::<u32>,
            },
    {
        match &self.data {
            Some(data) => Some(data.online_players.count),
            None => None,
        }
    }

    /// `Loading` before the first successful poll, `Empty` when the count
    /// is zero, else the names reported (whatever their number).
    pub fn online_players(&self) -> (r: OnlinePlayersState)
        ensures
            r@ == self.players_state(),
    {
        match &self.data {
            None => OnlinePlayersState::Loading,
            Some(data) => if data.online_players.count == 0 {
                OnlinePlayersState::Empty
            } else {
                OnlinePlayersState::Loaded(data.online_players.names.clone())
            },
        }
    }

    /// How many of the listed players are favorites, when names are loaded.
    pub fn online_favorite_players_count(&self) -> (r: Option<usize>)
        ensures
            match self.players_state() {
                OnlinePlayersView::Loaded(names) => r matches Some(n) && n == favorites_among(
                    self.config,
                    names,
                ).len(),
                _ => r is None,
            },
    {
        match self.online_players() {
            OnlinePlayersState::Loaded(names) => Some(count_favorites(&self.config, &names)),
            _ => None,
        }
    }

    /// The world reported by the last successful poll.
    pub fn world(&self) -> (r: Option<&WorldResponse>)
        ensures
            r == match self.data {
                Some(d) => Some(&d.world),
                None => None::<&WorldResponse>,
            },
    {
        match &self.data {
            Some(data) => Some(&data.world),
            None => None,
        }
    }
}

impl Default for AppState {
    /// The default configuration and no poll yet.
    fn default() -> (s: AppState)
        ensures
            s.data is None,
            s.config.api_key@ == Seq::<char>::empty(),
            s.config.world_name@ == "world"@,
            s.config.refresh_interval_secs == 30,
            s.config.favorite_players@.len() == 0,
    {
        AppState { config: AppConfig::default(), data: None }
    }
}

/// `OnlinePlayersState` with the names taken by their views.
pub enum OnlinePlayersView {
    Loading,
    Empty,
    Loaded(Seq<String>),
}

impl View for OnlinePlayersState {
    type V = OnlinePlayersView;

    open spec fn view(&self) -> OnlinePlayersView {
        match self {
            OnlinePlayersState::Loading => OnlinePlayersView::Loading,
            OnlinePlayersState::Empty => OnlinePlayersView::Empty,
            OnlinePlayersState::Loaded(names) => OnlinePlayersView::Loaded(names@),
        }
    }
}

} // verus!
