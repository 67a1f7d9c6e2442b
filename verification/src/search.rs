//! The profile lookup window's logic: when a search starts, what the state
//! becomes when the answer arrives, and what the window shows for each
//! state. Drawing the window and sending the request are the caller's part.
use crate::model::PlayerProfileResponse;
use crate::text::{decimal, push_decimal, trim_seq, trim_white_space};
use vstd::prelude::*;
use vstd::string::*;

verus! {

/// Where a profile search stands.
#[derive(Clone, Debug)]
pub enum SearchState {
    /// Nothing searched yet.
    Idle,
    /// A request is on its way.
    Loading,
    /// The profile that was found.
    Loaded(PlayerProfileResponse),
    /// Why the search failed.
    Error(String),
}

/// What the lookup window shows below the search field.
#[derive(Clone, Debug)]
pub enum StatusView {
    /// Nothing.
    Blank,
    /// A spinner.
    Spinner,
    /// An error alert with this text.
    Alert(String),
    /// A profile card.
    Profile(ProfileCard),
}

/// The texts of a profile card.
#[derive(Clone, Debug)]
pub struct ProfileCard {
    /// `https://mc-heads.net/avatar/{uuid}.png`, when the UUID is known.
    pub avatar_url: Option<String>,
    /// The player's username, when known.
    pub name: Option<String>,
    /// The player's rank, when known.
    pub rank: Option<String>,
    /// `online` or `offline`.
    pub presence: String,
    /// `played: {hours}h`, with the whole hours played.
    pub played: String,
}

/// The username that the search field asks for: its text trimmed, or none
/// when nothing but white space was typed.
pub open spec fn requested_username(input: Seq<char>) -> Option<Seq<char>> {
    if trim_seq(input).len() == 0 {
        None
    } else {
        Some(trim_seq(input))
    }
}

/// Starts a search for the text of the search field. A blank field leaves
/// the state as it was and sends nothing; otherwise the state becomes
/// `Loading` and the trimmed username is the one to look up.
pub fn start_search(state: SearchState, input: &str) -> (r: (SearchState, Option<String>))
    ensures
        match requested_username(input@) {
            None => r.0 == state && r.1 is None,
            Some(u) => r.0 is Loading && (r.1 matches Some(s) && s@ == u),
        },
{
    let username = trim_white_space(input);
    if username.unicode_len() == 0 {
        return (state, None);
    }
    (SearchState::Loading, Some(String::from_str(username)))
}

/// The state once the lookup has answered: the profile, or the message of
/// whatever went wrong.
pub fn finish_search(answer: Result<PlayerProfileResponse, String>) -> (r: SearchState)
    ensures
        match answer {
            Ok(p) => r == SearchState::Loaded(p),
            Err(m) => r == SearchState::Error(m),
        },
{
    match answer {
        Ok(profile) => SearchState::Loaded(profile),
        Err(message) => SearchState::Error(message),
    }
}

/// The address of a player's avatar image.
pub open spec fn avatar_url_of(uuid: Seq<char>) -> Seq<char> {
    "https://mc-heads.net/avatar/"@ + uuid + ".png"@
}

/// The whole hours in a number of seconds played.
pub open spec fn hours_played(seconds: u32) -> nat {
    (seconds / 3600) as nat
}

/// The hours shown are the whole hours played: the largest number of full
/// hours that fit in the seconds played.
pub proof fn lemma_hours_played_whole(seconds: u32)
    ensures
        hours_played(seconds) * 3600 <= seconds < (hours_played(seconds) + 1) * 3600,
{
    let s = seconds as int;
    let h = s / 3600;
    assert(h * 3600 <= s < (h + 1) * 3600) by (nonlinear_arith)
        requires
            h == s / 3600,
            s >= 0,
    ;
}

impl SearchState {
    /// What the window shows for this state: nothing when idle, a spinner
    /// while loading, `Error: {message}` on failure, and the profile card
    /// of a found player.
    pub fn status(&self) -> (v: StatusView)
        ensures
            match *self {
                SearchState::Idle => v is Blank,
                SearchState::Loading => v is Spinner,
                SearchState::Error(m) => v matches StatusView::Alert(t) && t@ == "Error: "@ + m@,
                SearchState::Loaded(p) => v matches StatusView::Profile(card) && {
                    &&& card.presence@ == (if p.online {
                        "online"@
                    } else {
                        "offline"@
                    })
                    &&& card.played@ == "played: "@ + decimal(hours_played(p.played_time_seconds))
                        + "h"@
                    &&& card.name == p.username
                    &&& card.rank == p.rank_name
                    &&& match p.uuid {
                        Some(u) => card.avatar_url matches Some(a) && a@ == avatar_url_of(u@),
                        None => card.avatar_url is None,
                    }
                },
            },
    {
        match self {
            SearchState::Idle => StatusView::Blank,
            SearchState::Loading => StatusView::Spinner,
            SearchState::Error(err) => {
                let mut t = String::from_str("Error: ");
                t.append(err.as_str());
                StatusView::Alert(t)
            },
            SearchState::Loaded(profile) => {
                let presence = if profile.online {
                    String::from_str("online")
                } else {
                    String::from_str("offline")
                };
                let hours = profile.played_time_seconds / 3600;
                let mut played = String::from_str("played: ");
                push_decimal(&mut played, hours as u64);
                played.append("h");
                let avatar_url = match &profile.uuid {
                    Some(uuid) => {
                        let mut a = String::from_str("https://mc-heads.net/avatar/");
                        a.append(uuid.as_str());
                        a.append(".png");
                        Some(a)
                    },
                    None => None,
                };
                let name = match &profile.username {
                    Some(n) => Some(n.clone()),
                    None => None,
                };
                let rank = match &profile.rank_name {
                    Some(r) => Some(r.clone()),
                    None => None,
                };
                StatusView::Profile(ProfileCard { avatar_url, name, rank, presence, played })
            },
        }
    }
}

} // verus!
