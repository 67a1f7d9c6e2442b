use mb_tray::client::API_BASE_URL;
use mb_tray::compact::api::{weather_text, ApiClient, OnlinePlayersResponse, WorldResponse};
use mb_tray::compact::state::{AppState, OnlinePlayersState, ResponseData};
use mb_tray::compact::tray::{
    fave_players_submenu_title, players_placeholder_text, players_submenu_title,
    players_submenus, tray_title, weather_menu_text,
};
use mb_tray::config::AppConfig;
use mb_tray::error::AppError;

fn strings(v: &[&str]) -> Vec<String> {
    v.iter().map(|s| s.to_string()).collect()
}

fn state(favorites: &[&str], data: Option<(u32, Option<&[&str]>, bool, bool)>) -> AppState {
    AppState {
        config: AppConfig {
            api_key: "k".to_string(),
            world_name: "world".to_string(),
            refresh_interval_secs: 30,
            favorite_players: strings(favorites),
        },
        data: data.map(|(count, names, storming, thundering)| ResponseData {
            online_players: OnlinePlayersResponse { count, names: names.map(strings) },
            world: WorldResponse { storming, thundering },
        }),
    }
}

#[test]
fn weather_texts() {
    assert_eq!(weather_text(&WorldResponse { storming: true, thundering: true }), "Thunderstorm");
    assert_eq!(weather_text(&WorldResponse { storming: true, thundering: false }), "Rain");
    assert_eq!(weather_text(&WorldResponse { storming: false, thundering: false }), "Clear");
}

#[test]
fn api_key_with_a_newline_is_rejected() {
    match ApiClient::new("bad\nkey".to_string(), "world".to_string()) {
        Err(AppError::InvalidConfig(m)) => {
            assert_eq!(m, "`api_key` contains invalid header characters")
        }
        Err(e) => panic!("unexpected {e:?}"),
        Ok(_) => panic!("accepted an invalid key"),
    }
    assert!(matches!(
        ApiClient::new("del\u{7f}".to_string(), "world".to_string()),
        Err(AppError::InvalidConfig(_))
    ));
}

#[test]
fn plain_api_key_builds_a_client() {
    let c = ApiClient::new("secret\tkey é".to_string(), "nether".to_string()).expect("builds");
    assert_eq!(c.online_players_url(), format!("{API_BASE_URL}/server/online/all"));
    assert_eq!(c.world_url(), "https://api.modernbeta.org/api/v1/worlds/nether");
    assert_eq!(
        c.request_headers(),
        vec![
            ("X-API-Key".to_string(), "secret\tkey é".to_string()),
            ("Accept".to_string(), "application/json".to_string()),
        ]
    );
}

#[test]
fn compact_status_check() {
    assert_eq!(ApiClient::check_response("u".into(), 200, "b".into()).unwrap(), "b");
    match ApiClient::check_response("u".into(), 401, "denied".into()) {
        Err(AppError::HttpStatus { url, status, body }) => {
            assert_eq!((url.as_str(), status, body.as_str()), ("u", 401, "denied"))
        }
        other => panic!("unexpected {other:?}"),
    }
}

#[test]
fn compact_before_the_first_poll() {
    let s = state(&[], None);
    assert_eq!(s.player_count(), None);
    assert!(matches!(s.online_players(), OnlinePlayersState::Loading));
    assert_eq!(s.online_favorite_count(), 0);
    assert!(s.world().is_none());
    assert!(s.player_names().is_empty());
    assert!(s.weather_text().is_none());
    assert_eq!(players_submenu_title(&s), "Online players");
    assert_eq!(fave_players_submenu_title(&s), "Favorite players");
    assert_eq!(players_placeholder_text(&s), "Loading...");
    assert_eq!(weather_menu_text(&s), "Weather: --");
    assert_eq!(tray_title(&s), "--");
    let menus = players_submenus(&s);
    assert_eq!(menus.players, strings(&["Loading..."]));
    assert_eq!(menus.favorites, strings(&["Loading..."]));
}

#[test]
fn compact_names_not_sent() {
    let s = state(&["a"], Some((4, None, false, true)));
    assert_eq!(s.player_count(), Some(4));
    assert!(matches!(s.online_players(), OnlinePlayersState::Unavailable));
    assert_eq!(s.online_favorite_count(), 0);
    assert_eq!(players_submenu_title(&s), "Online players (4)");
    assert_eq!(fave_players_submenu_title(&s), "Favorite players (0)");
    assert_eq!(players_placeholder_text(&s), "Names unavailable");
    assert_eq!(weather_menu_text(&s), "Weather: Thunderstorm");
    assert_eq!(tray_title(&s), "4");
    let menus = players_submenus(&s);
    assert_eq!(menus.players, strings(&["Names unavailable"]));
    assert_eq!(menus.favorites, strings(&["Names unavailable"]));
}

#[test]
fn compact_nobody_online() {
    let s = state(&[], Some((0, Some(&[]), true, false)));
    assert!(matches!(s.online_players(), OnlinePlayersState::Empty));
    assert_eq!(players_placeholder_text(&s), "No players online");
    assert_eq!(s.weather_text().as_deref(), Some("Rain"));
    assert_eq!(tray_title(&s), "0");
}

#[test]
fn compact_players_online() {
    let s = state(&["Bob"], Some((3, Some(&["carl", "Bob", "amy"]), false, false)));
    match s.online_players() {
        OnlinePlayersState::Loaded(names) => assert_eq!(names, strings(&["carl", "Bob", "amy"])),
        _ => panic!("expected names"),
    }
    assert_eq!(s.online_favorite_count(), 1);
    assert_eq!(s.player_names(), strings(&["carl", "Bob", "amy"]));
    assert_eq!(fave_players_submenu_title(&s), "Favorite players (1)");
    assert_eq!(tray_title(&s), "3");
    let menus = players_submenus(&s);
    assert_eq!(menus.players, strings(&["amy", "Bob", "carl"]));
    assert_eq!(menus.favorites, strings(&["Bob"]));
}

#[test]
fn compact_default_state() {
    let s = AppState::default();
    assert!(s.data.is_none());
    assert_eq!(s.config.refresh_interval_secs, 30);
}
