//! What the tray menu shows for a state: the texts of its entries, the
//! title next to the icon, the two player submenus, and what a menu click
//! or an event of the event loop asks for.
use crate::model::{weather_label, weather_of};
use crate::state::{favorite_pred, favorites_among, AppState, OnlinePlayersState, OnlinePlayersView};
use crate::text::{decimal, push_decimal, sort_case_insensitive, sorted_case_insensitive};
use vstd::prelude::*;
use vstd::string::*;

verus! {

/// `prefix`, the decimal form of `n`, then `suffix`.
pub open spec fn with_number(prefix: Seq<char>, n: nat, suffix: Seq<char>) -> Seq<char> {
    prefix + decimal(n) + suffix
}

fn text_with_number(prefix: &str, n: u64, suffix: &str) -> (r: String)
    ensures
        r@ == with_number(prefix@, n as nat, suffix@),
{
    let mut r = String::from_str(prefix);
    push_decimal(&mut r, n);
    r.append(suffix);
    r
}

/// The title of the submenu of online players.
pub open spec fn players_title(state: AppState) -> Seq<char> {
    match state.data {
        Some(d) => with_number("Online players ("@, d.online_players.count as nat, ")"@),
        None => "Online players"@,
    }
}

/// The number of favorites online, when the names are known.
pub open spec fn favorite_count(state: AppState) -> Option<nat> {
    match state.players_state() {
        OnlinePlayersView::Loaded(names) => Some(favorites_among(state.config, names).len()),
        _ => None,
    }
}

/// The title of the submenu of favorite players.
pub open spec fn favorites_title(state: AppState) -> Seq<char> {
    match favorite_count(state) {
        Some(n) => with_number("Favorite players ("@, n, ")"@),
        None => "Favorite players"@,
    }
}

/// The entry shown in both submenus when no names are listed.
pub open spec fn placeholder(state: AppState) -> Seq<char> {
    match state.players_state() {
        OnlinePlayersView::Loading => "Loading..."@,
        OnlinePlayersView::Empty => "No players online"@,
        OnlinePlayersView::Loaded(_) => "Players available"@,
    }
}

/// The weather entry of the menu.
pub open spec fn weather_entry(state: AppState) -> Seq<char> {
    match state.data {
        Some(d) => "Weather: "@ + weather_label(weather_of(d.world.storming, d.world.thundering)),
        None => "Weather: --"@,
    }
}

/// The title shown next to the tray icon: the count of players online and,
/// when names are listed, the count of favorites among them.
pub open spec fn title(state: AppState) -> Seq<char> {
    match (state.data, favorite_count(state)) {
        (Some(d), Some(f)) => with_number(
            decimal(d.online_players.count as nat) + " ("@,
            f,
            ")"@,
        ),
        (Some(d), None) => decimal(d.online_players.count as nat),
        _ => "--"@,
    }
}

/// The title of the submenu of online players: `Online players (n)`, or
/// `Online players` before the first successful poll.
pub fn players_submenu_title(state: &AppState) -> (r: String)
    ensures
        r@ == players_title(*state),
{
    match state.online_players_count() {
        Some(count) => text_with_number("Online players (", count as u64, ")"),
        None => String::from_str("Online players"),
    }
}

/// The title of the submenu of favorite players: `Favorite players (n)`
/// with the number of favorites online, or `Favorite players` when no
/// names are listed.
pub fn fave_players_submenu_title(state: &AppState) -> (r: String)
    ensures
        r@ == favorites_title(*state),
{
    match state.online_favorite_players_count() {
        Some(count) => text_with_number("Favorite players (", count as u64, ")"),
        None => String::from_str("Favorite players"),
    }
}

/// The placeholder entry: `Loading...`, `No players online`, or
/// `Players available`.
pub fn players_placeholder_text(state: &AppState) -> (r: String)
    ensures
        r@ == placeholder(*state),
{
    match state.online_players() {
        OnlinePlayersState::Loading => String::from_str("Loading..."),
        OnlinePlayersState::Empty => String::from_str("No players online"),
        OnlinePlayersState::Loaded(_) => String::from_str("Players available"),
    }
}

/// The weather entry: `Weather: ` and the weather of the world, or
/// `Weather: --` before the first successful poll.
pub fn weather_menu_text(state: &AppState) -> (r: String)
    ensures
        r@ == weather_entry(*state),
{
    match state.world() {
        Some(world) => {
            let mut r = String::from_str("Weather: ");
            let w = world.weather_state();
            let label = w.to_string();
            r.append(label.as_str());
            r
        },
        None => String::from_str("Weather: --"),
    }
}

/// The title next to the tray icon: `n (f)` with `n` players online of
/// which `f` are favorites, `n` alone when nobody is online, `--` before
/// the first successful poll.
pub fn tray_title(state: &AppState) -> (r: String)
    ensures
        r@ == title(*state),
{
    match (state.online_players_count(), state.online_favorite_players_count()) {
        (Some(count), Some(fave_count)) => {
            let mut r = String::new();
            push_decimal(&mut r, count as u64);
            r.append(" (");
            push_decimal(&mut r, fave_count as u64);
            r.append(")");
            r
        },
        (Some(count), None) => {
            let mut r = String::new();
            push_decimal(&mut r, count as u64);
            r
        },
        _ => String::from_str("--"),
    }
}

/// The entries of the two player submenus, top to bottom.
pub struct SubmenuEntries {
    pub players: Vec<String>,
    pub favorites: Vec<String>,
}

/// The entries of the player submenus. With names listed, the players
/// submenu holds exactly those names in case-insensitive order, and the
/// favorites submenu the favorites among them in the same order. Otherwise
/// each submenu holds the placeholder alone.
pub fn players_submenus(state: &AppState) -> (r: SubmenuEntries)
    ensures
        match state.players_state() {
            OnlinePlayersView::Loaded(names) => {
                &&& r.players@.to_multiset() == names.to_multiset()
                &&& sorted_case_insensitive(r.players@)
                &&& r.favorites@ == favorites_among(state.config, r.players@)
            },
            _ => {
                &&& r.players@.len() == 1
                &&& r.players@[0]@ == placeholder(*state)
                &&& r.favorites@.len() == 1
                &&& r.favorites@[0]@ == placeholder(*state)
            },
        },
{
    match state.online_players() {
        OnlinePlayersState::Loaded(names) => {
            let players = sort_case_insensitive(&names);
            let mut favorites: Vec<String> = Vec::new();
            let mut i: usize = 0;
            assert(players@.take(0) =~= Seq::<String>::empty());
            assert(favorites_among(state.config, players@.take(0)) =~= Seq::<String>::empty()) by {
                reveal(Seq::filter);
            }
            while i < players.len()
                invariant
                    i <= players@.len(),
                    favorites@ == favorites_among(state.config, players@.take(i as int)),
                decreases players@.len() - i,
            {
                proof {
                    assert(players@.take(i + 1) =~= players@.take(i as int).push(players@[i as int]));
                    players@.take(i as int).lemma_filter_push(players@[i as int], favorite_pred(state.config));
                }
                if state.config.has_favorite(&players[i]) {
                    favorites.push(players[i].clone());
                }
                i = i + 1;
            }
            assert(players@.take(players@.len() as int) =~= players@);
            SubmenuEntries { players, favorites }
        },
        _ => {
            let mut players: Vec<String> = Vec::new();
            players.push(players_placeholder_text(state));
            let mut favorites: Vec<String> = Vec::new();
            favorites.push(players_placeholder_text(state));
            SubmenuEntries { players, favorites }
        },
    }
}

/// An event that reaches the tray's event loop.
pub enum LoopEvent {
    /// The loop has started.
    Started,
    /// A menu entry with this id was clicked.
    MenuClicked(String),
    /// The poller produced a new state.
    StateUpdated(AppState),
    /// Anything else.
    Other,
}

/// What the event loop does in answer to an event.
pub enum LoopAction {
    /// Build the tray icon and its menu.
    Initialize,
    /// Remove the tray icon and leave the loop.
    Quit,
    /// Show this state.
    ApplyState(AppState),
    /// Nothing; wait for the next event.
    Wait,
}

/// The answer to an event: initialize on start, quit when the clicked
/// entry is the quit entry, show each new state, and otherwise wait.
pub fn loop_action(event: LoopEvent, quit_id: &String) -> (a: LoopAction)
    ensures
        match event {
            LoopEvent::Started => a is Initialize,
            LoopEvent::MenuClicked(id) => if id@ == quit_id@ {
                a is Quit
            } else {
                a is Wait
            },
            LoopEvent::StateUpdated(s) => a == LoopAction::ApplyState(s),
            LoopEvent::Other => a is Wait,
        },
{
    match event {
        LoopEvent::Started => LoopAction::Initialize,
        LoopEvent::MenuClicked(id) => if id == *quit_id {
            LoopAction::Quit
        } else {
            LoopAction::Wait
        },
        LoopEvent::StateUpdated(state) => LoopAction::ApplyState(state),
        LoopEvent::Other => LoopAction::Wait,
    }
}

/// Filtering keeps as many elements of two arrangements of the same items.
proof fn lemma_filter_len_rearranged<A>(s1: Seq<A>, s2: Seq<A>, p: spec_fn(A) -> bool)
    requires
        s1.to_multiset() == s2.to_multiset(),
    ensures
        s1.filter(p).len() == s2.filter(p).len(),
    decreases s1.len(),
{
    broadcast use vstd::seq_lib::group_to_multiset_ensures;
    broadcast use vstd::multiset::group_multiset_axioms;

    if s1.len() == 0 {
        vstd::seq_lib::to_multiset_len(s1);
        vstd::seq_lib::to_multiset_len(s2);
        assert(s2.len() == 0);
        assert(s1.filter(p) =~= Seq::<A>::empty()) by {
            reveal(Seq::filter);
        }
        assert(s2.filter(p) =~= Seq::<A>::empty()) by {
            reveal(Seq::filter);
        }
    } else {
        let x = s1.last();
        let s1p = s1.drop_last();
        assert(s1 =~= s1p.push(x));
        vstd::seq_lib::to_multiset_build(s1p, x);
        assert(s2.to_multiset().count(x) > 0);
        assert(s2.contains(x));
        let k = choose|k: int| 0 <= k < s2.len() && s2[k] == x;
        let s2p = s2.remove(k);
        vstd::seq_lib::to_multiset_remove(s2, k);
        assert(s1p.to_multiset() =~= s2p.to_multiset());
        lemma_filter_len_rearranged(s1p, s2p, p);
        s1p.lemma_filter_len_push(p, x);
        let front = s2.take(k);
        let back = s2.skip(k + 1);
        assert(s2 =~= front + seq![x] + back);
        assert(s2p =~= front + back);
        Seq::filter_distributes_over_add(front + seq![x], back, p);
        Seq::filter_distributes_over_add(front, seq![x], p);
        Seq::filter_distributes_over_add(front, back, p);
        assert(seq![x] =~= Seq::<A>::empty().push(x));
        Seq::<A>::empty().lemma_filter_len_push(p, x);
        assert(Seq::<A>::empty().filter(p) =~= Seq::<A>::empty()) by {
            reveal(Seq::filter);
        }
    }
}

/// When names are listed, any arrangement of them (such as the sorted
/// players submenu) holds as many favorites as the favorites title and the
/// tray title count: the favorites submenu is as long as that number says.
pub proof fn lemma_favorites_submenu_matches_count(state: AppState, players: Seq<String>)
    requires
        state.players_state() matches OnlinePlayersView::Loaded(names) && players.to_multiset()
            == names.to_multiset(),
    ensures
        favorite_count(state) == Some(favorites_among(state.config, players).len()),
{
    if let OnlinePlayersView::Loaded(names) = state.players_state() {
        lemma_filter_len_rearranged(names, players, favorite_pred(state.config));
    }
}

} // verus!
