//! The compact tray's menu texts and player submenus.
use crate::compact::state::AppState;
use crate::model::{weather_label, weather_of};
use crate::state::{favorite_pred, favorites_among};
use crate::text::{decimal, push_decimal, sort_case_insensitive, sorted_case_insensitive};
use crate::tray::with_number;
use vstd::prelude::*;
use vstd::string::*;

verus! {

/// The title of the submenu of online players.
pub open spec fn players_title(state: AppState) -> Seq<char> {
    match state.data {
        Some(d) => with_number("Online players ("@, d.online_players.count as nat, ")"@),
        None => "Online players"@,
    }
}

/// The title of the submenu of favorite players.
pub open spec fn favorites_title(state: AppState) -> Seq<char> {
    if state.config.favorite_players@.len() == 0 {
        "Favorite players"@
    } else {
        with_number(
            "Favorite players ("@,
            favorites_among(state.config, state.listed_names()).len(),
            ")"@,
        )
    }
}

/// The entry shown in both submenus when no names are listed.
pub open spec fn placeholder(state: AppState) -> Seq<char> {
    match state.data {
        None => "Loading..."@,
        Some(d) => if d.online_players.count == 0 {
            "No players online"@
        } else {
            "Names unavailable"@
        },
    }
}

/// The weather entry of the menu.
pub open spec fn weather_entry(state: AppState) -> Seq<char> {
    match state.data {
        Some(d) => "Weather: "@ + weather_label(weather_of(d.world.storming, d.world.thundering)),
        None => "Weather: --"@,
    }
}

/// The title next to the tray icon.
pub open spec fn title(state: AppState) -> Seq<char> {
    match state.data {
        Some(d) => decimal(d.online_players.count as nat),
        None => "--"@,
    }
}

/// `Online players (n)`, or `Online players` before the first successful poll.
pub fn players_submenu_title(state: &AppState) -> (r: String)
    ensures
        r@ == players_title(*state),
{
    match state.player_count() {
        Some(count) => {
            let mut r = String::from_str("Online players (");
            push_decimal(&mut r, count as u64);
            r.append(")");
            r
        },
        None => String::from_str("Online players"),
    }
}

/// `Favorite players` when no favorites are configured, else
/// `Favorite players (n)` with the number of listed players that are
/// favorites.
pub fn fave_players_submenu_title(state: &AppState) -> (r: String)
    ensures
        r@ == favorites_title(*state),
{
    let names = state.player_names();
    let online_favorites = crate::state::count_favorites(&state.config, &names);
    if state.config.favorite_players.len() == 0 {
        String::from_str("Favorite players")
    } else {
        let mut r = String::from_str("Favorite players (");
        push_decimal(&mut r, online_favorites as u64);
        r.append(")");
        r
    }
}

/// `Loading...` before the first successful poll, `No players online` when
/// the count is zero, `Names unavailable` otherwise.
pub fn players_placeholder_text(state: &AppState) -> (r: String)
    ensures
        r@ == placeholder(*state),
{
    match state.player_count() {
        None => String::from_str("Loading..."),
        Some(0) => String::from_str("No players online"),
        Some(_) => String::from_str("Names unavailable"),
    }
}

/// `Weather: ` and the weather of the world, or `Weather: --`.
pub fn weather_menu_text(state: &AppState) -> (r: String)
    ensures
        r@ == weather_entry(*state),
{
    match state.weather_text() {
        Some(weather) => {
            let mut r = String::from_str("Weather: ");
            r.append(weather.as_str());
            r
        },
        None => String::from_str("Weather: --"),
    }
}

/// The count of players online, or `--` before the first successful poll.
pub fn tray_title(state: &AppState) -> (r: String)
    ensures
        r@ == title(*state),
{
    match state.player_count() {
        Some(count) => {
            let mut r = String::new();
            push_decimal(&mut r, count as u64);
            r
        },
        None => String::from_str("--"),
    }
}

/// The entries of the two player submenus, top to bottom.
pub struct SubmenuEntries {
    pub players: Vec<String>,
    pub favorites: Vec<String>,
}

/// With no names listed, each submenu holds the placeholder alone.
/// Otherwise the players submenu holds exactly the listed names in
/// case-insensitive order, and the favorites submenu the favorites among
/// them in the same order.
pub fn players_submenus(state: &AppState) -> (r: SubmenuEntries)
    ensures
        if state.listed_names().len() == 0 {
            &&& r.players@.len() == 1
            &&& r.players@[0]@ == placeholder(*state)
            &&& r.favorites@.len() == 1
            &&& r.favorites@[0]@ == placeholder(*state)
        } else {
            &&& r.players@.to_multiset() == state.listed_names().to_multiset()
            &&& sorted_case_insensitive(r.players@)
            &&& r.favorites@ == favorites_among(state.config, r.players@)
        },
{
    let names = state.player_names();
    if names.len() == 0 {
        let mut players: Vec<String> = Vec::new();
        players.push(players_placeholder_text(state));
        let mut favorites: Vec<String> = Vec::new();
        favorites.push(players_placeholder_text(state));
        return SubmenuEntries { players, favorites };
    }
    let players = sort_case_insensitive(&names);
    let mut favorites: Vec<String> = Vec::new();
    let mut i: usize = 0;
    assert(players@.take(0) =~= Seq::<String>::empty());
    assert(favorites_among(state.config, players@.take(0)) =~= Seq::<String>::empty()) by {
        reveal(Seq::filter);
    }
    while i < players.len()
        invariant
            i <= players@.len(),
            favorites@ == favorites_among(state.config, players@.take(i as int)),
        decreases players@.len() - i,
    {
        proof {
            assert(players@.take(i + 1) =~= players@.take(i as int).push(players@[i as int]));
            players@.take(i as int).lemma_filter_push(players@[i as int], favorite_pred(state.config));
        }
        if state.config.has_favorite(&players[i]) {
            favorites.push(players[i].clone());
        }
        i = i + 1;
    }
    assert(players@.take(players@.len() as int) =~= players@);
    SubmenuEntries { players, favorites }
}

} // verus!
