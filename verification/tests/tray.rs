use mb_tray::activation::configure_activation_policy;
use mb_tray::config::AppConfig;
use mb_tray::model::{ClientType, OnlinePlayersResponse, PlayerProfileResponse, WorldResponse};
use mb_tray::search::{finish_search, start_search, SearchState, StatusView};
use mb_tray::state::{count_favorites, AppState, OnlinePlayersState, ResponseData};
use mb_tray::tray::{
    fave_players_submenu_title, loop_action, players_placeholder_text, players_submenu_title,
    players_submenus, tray_title, weather_menu_text, LoopAction, LoopEvent,
};

fn strings(v: &[&str]) -> Vec<String> {
    v.iter().map(|s| s.to_string()).collect()
}

fn world(storming: bool, thundering: bool) -> WorldResponse {
    WorldResponse {
        name: "world".to_string(),
        environment: "normal".to_string(),
        difficulty: "easy".to_string(),
        time_ticks: 0,
        time_formatted: "06:00".to_string(),
        storming,
        thundering,
    }
}

fn state(favorites: &[&str], data: Option<(u32, &[&str], bool, bool)>) -> AppState {
    AppState {
        config: AppConfig {
            api_key: "k".to_string(),
            world_name: "world".to_string(),
            refresh_interval_secs: 30,
            favorite_players: strings(favorites),
        },
        data: data.map(|(count, names, storming, thundering)| ResponseData {
            online_players: OnlinePlayersResponse { count, names: strings(names) },
            world: world(storming, thundering),
        }),
    }
}

#[test]
fn before_the_first_poll() {
    let s = state(&["Ann"], None);
    assert_eq!(s.online_players_count(), None);
    assert!(matches!(s.online_players(), OnlinePlayersState::Loading));
    assert_eq!(s.online_favorite_players_count(), None);
    assert!(s.world().is_none());
    assert_eq!(players_submenu_title(&s), "Online players");
    assert_eq!(fave_players_submenu_title(&s), "Favorite players");
    assert_eq!(players_placeholder_text(&s), "Loading...");
    assert_eq!(weather_menu_text(&s), "Weather: --");
    assert_eq!(tray_title(&s), "--");
    let menus = players_submenus(&s);
    assert_eq!(menus.players, strings(&["Loading..."]));
    assert_eq!(menus.favorites, strings(&["Loading..."]));
}

#[test]
fn nobody_online() {
    let s = state(&["Ann"], Some((0, &[], true, false)));
    assert_eq!(s.online_players_count(), Some(0));
    assert!(matches!(s.online_players(), OnlinePlayersState::Empty));
    assert_eq!(s.online_favorite_players_count(), None);
    assert_eq!(players_submenu_title(&s), "Online players (0)");
    assert_eq!(fave_players_submenu_title(&s), "Favorite players");
    assert_eq!(players_placeholder_text(&s), "No players online");
    assert_eq!(weather_menu_text(&s), "Weather: Rain");
    assert_eq!(tray_title(&s), "0");
    let menus = players_submenus(&s);
    assert_eq!(menus.players, strings(&["No players online"]));
    assert_eq!(menus.favorites, strings(&["No players online"]));
}

#[test]
fn players_online() {
    let s = state(&["Ann", "zed"], Some((3, &["zed", "bob", "Ann"], true, true)));
    assert_eq!(s.online_players_count(), Some(3));
    match s.online_players() {
        OnlinePlayersState::Loaded(names) => assert_eq!(names, strings(&["zed", "bob", "Ann"])),
        _ => panic!("expected names"),
    }
    assert_eq!(s.online_favorite_players_count(), Some(2));
    assert_eq!(s.world().map(|w| w.thundering), Some(true));
    assert_eq!(players_submenu_title(&s), "Online players (3)");
    assert_eq!(fave_players_submenu_title(&s), "Favorite players (2)");
    assert_eq!(players_placeholder_text(&s), "Players available");
    assert_eq!(weather_menu_text(&s), "Weather: Thunderstorm");
    assert_eq!(tray_title(&s), "3 (2)");
    let menus = players_submenus(&s);
    assert_eq!(menus.players, strings(&["Ann", "bob", "zed"]));
    assert_eq!(menus.favorites, strings(&["Ann", "zed"]));
}

#[test]
fn favorites_submenu_is_as_long_as_its_count() {
    let s = state(&["b", "D", "x"], Some((5, &["D", "a", "c", "b", "e"], false, false)));
    let menus = players_submenus(&s);
    assert_eq!(s.online_favorite_players_count(), Some(menus.favorites.len()));
    assert_eq!(menus.favorites, strings(&["b", "D"]));
    assert_eq!(weather_menu_text(&s), "Weather: Clear");
    assert_eq!(tray_title(&s), "5 (2)");
}

#[test]
fn count_from_the_server_is_shown_even_when_names_differ() {
    let s = state(&[], Some((120, &["solo"], false, false)));
    assert_eq!(players_submenu_title(&s), "Online players (120)");
    assert_eq!(fave_players_submenu_title(&s), "Favorite players (0)");
    assert_eq!(tray_title(&s), "120 (0)");
}

#[test]
fn count_favorites_counts_each_listed_name() {
    let config = state(&["a"], None).config;
    assert_eq!(count_favorites(&config, &strings(&["a", "b", "a"])), 2);
    assert_eq!(count_favorites(&config, &Vec::new()), 0);
}

#[test]
fn default_state() {
    let s = AppState::default();
    assert!(s.data.is_none());
    assert_eq!(s.config.world_name, "world");
}

#[test]
fn event_loop_answers() {
    let quit = "quit-7".to_string();
    assert!(matches!(loop_action(LoopEvent::Started, &quit), LoopAction::Initialize));
    assert!(matches!(loop_action(LoopEvent::MenuClicked("quit-7".to_string()), &quit), LoopAction::Quit));
    assert!(matches!(loop_action(LoopEvent::MenuClicked("other".to_string()), &quit), LoopAction::Wait));
    assert!(matches!(loop_action(LoopEvent::Other, &quit), LoopAction::Wait));
    match loop_action(LoopEvent::StateUpdated(state(&[], None)), &quit) {
        LoopAction::ApplyState(s) => assert!(s.data.is_none()),
        _ => panic!("expected the state to be applied"),
    }
}

fn profile(online: bool, seconds: u32, uuid: Option<&str>) -> PlayerProfileResponse {
    PlayerProfileResponse {
        uuid: uuid.map(|s| s.to_string()),
        username: Some("Karltroid".to_string()),
        past_usernames: None,
        online,
        reg_date: None,
        last_seen: None,
        rank_name: Some("Admin".to_string()),
        language_code: Some("en".to_string()),
        played_time_seconds: seconds,
        client_type: Some(ClientType::Java),
        location: None,
    }
}

#[test]
fn blank_search_changes_nothing() {
    let (s, username) = start_search(SearchState::Idle, "  \t ");
    assert!(matches!(s, SearchState::Idle));
    assert!(username.is_none());
    let (s, username) = start_search(SearchState::Error("e".to_string()), "");
    assert!(matches!(s, SearchState::Error(m) if m == "e"));
    assert!(username.is_none());
}

#[test]
fn search_trims_the_username_and_starts_loading() {
    let (s, username) = start_search(SearchState::Idle, "  Karltroid \n");
    assert!(matches!(s, SearchState::Loading));
    assert_eq!(username.as_deref(), Some("Karltroid"));
}

#[test]
fn finished_search() {
    let p = profile(true, 7300, None);
    assert!(matches!(finish_search(Ok(p.clone())), SearchState::Loaded(q) if q == p));
    assert!(matches!(finish_search(Err("boom".to_string())), SearchState::Error(m) if m == "boom"));
}

#[test]
fn status_views() {
    assert!(matches!(SearchState::Idle.status(), StatusView::Blank));
    assert!(matches!(SearchState::Loading.status(), StatusView::Spinner));
    match SearchState::Error("not found".to_string()).status() {
        StatusView::Alert(t) => assert_eq!(t, "Error: not found"),
        _ => panic!("expected an alert"),
    }
    match SearchState::Loaded(profile(true, 7300, Some("abc-1"))).status() {
        StatusView::Profile(card) => {
            assert_eq!(card.presence, "online");
            assert_eq!(card.played, "played: 2h");
            assert_eq!(card.avatar_url.as_deref(), Some("https://mc-heads.net/avatar/abc-1.png"));
            assert_eq!(card.name.as_deref(), Some("Karltroid"));
            assert_eq!(card.rank.as_deref(), Some("Admin"));
        }
        _ => panic!("expected a card"),
    }
    match SearchState::Loaded(profile(false, 3599, None)).status() {
        StatusView::Profile(card) => {
            assert_eq!(card.presence, "offline");
            assert_eq!(card.played, "played: 0h");
            assert!(card.avatar_url.is_none());
        }
        _ => panic!("expected a card"),
    }
}

#[test]
fn activation_policy_is_harmless() {
    configure_activation_policy();
}

#[test]
fn a_new_search_replaces_a_shown_profile() {
    let (s, username) = start_search(SearchState::Loaded(profile(true, 0, None)), "Notch");
    assert!(matches!(s, SearchState::Loading));
    assert_eq!(username.as_deref(), Some("Notch"));
}
