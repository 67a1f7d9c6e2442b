//! The decisions of the background poller: which client to build from the
//! configuration, and what the state becomes after each poll. Waiting for
//! the next tick and sending the requests are the caller's part.
use crate::client::{ApiError, ClientConfig};
use crate::config::AppConfig;
use crate::model::{OnlinePlayersResponse, WorldResponse};
use crate::state::{AppState, ResponseData};
use vstd::prelude::*;

verus! {

/// What a poll gave: the data when both requests succeeded, else nothing.
pub open spec fn fetched_data(fetched: Result<(OnlinePlayersResponse, WorldResponse), ApiError>) -> Option<ResponseData> {
    match fetched {
        Ok((players, world)) => Some(ResponseData { online_players: players, world }),
        Err(_) => None,
    }
}

/// The state after one poll: the new data under the same configuration
/// when the poll succeeded, the state unchanged when it failed.
pub open spec fn poll_step(s: AppState, fetched: Option<ResponseData>) -> AppState {
    match fetched {
        Some(d) => AppState { config: s.config, data: Some(d) },
        None => s,
    }
}

/// The state after a series of polls, oldest first.
pub open spec fn after_polls(s: AppState, polls: Seq<Option<ResponseData>>) -> AppState
    decreases polls.len(),
{
    if polls.len() == 0 {
        s
    } else {
        poll_step(after_polls(s, polls.drop_last()), polls.last())
    }
}

/// The data of the latest successful poll in a series, if any succeeded.
pub open spec fn last_success(polls: Seq<Option<ResponseData>>) -> Option<ResponseData>
    decreases polls.len(),
{
    if polls.len() == 0 {
        None
    } else {
        match polls.last() {
            Some(d) => Some(d),
            None => last_success(polls.drop_last()),
        }
    }
}

/// However polls succeed or fail, the configuration never changes, and the
/// data shown is that of the latest successful poll (or the initial data
/// when none succeeded): a failed poll keeps the last successful state.
pub proof fn lemma_polls_keep_config_and_last_success(s: AppState, polls: Seq<Option<ResponseData>>)
    ensures
        after_polls(s, polls).config == s.config,
        after_polls(s, polls).data == match last_success(polls) {
            Some(d) => Some(d),
            None => s.data,
        },
    decreases polls.len(),
{
    if polls.len() > 0 {
        lemma_polls_keep_config_and_last_success(s, polls.drop_last());
    }
}

/// The client settings taken from the configuration.
pub fn client_config(config: &AppConfig) -> (c: ClientConfig)
    ensures
        c.api_key == config.api_key,
        c.world_name == config.world_name,
{
    ClientConfig { api_key: config.api_key.clone(), world_name: config.world_name.clone() }
}

/// The state after a poll whose two requests gave `fetched`: on success the
/// answers replace the data and the configuration stays; on failure the
/// last state is kept.
pub fn advance(current: AppState, fetched: Result<(OnlinePlayersResponse, WorldResponse), ApiError>) -> (next: AppState)
    ensures
        next == poll_step(current, fetched_data(fetched)),
{
    match fetched {
        Ok((players, world)) => AppState {
            config: current.config,
            data: Some(ResponseData { online_players: players, world }),
        },
        Err(_) => current,
    }
}

} // verus!
