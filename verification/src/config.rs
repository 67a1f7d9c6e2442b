//! The tray's configuration and the rules it must meet.
use crate::error::AppError;
use crate::text::{is_blank, is_white_space, lemma_trim_shape, trim_seq};
use std::time::Duration;
use vstd::prelude::*;
use vstd::string::*;

verus! {

/// What `Duration::from_secs` returns for a number of seconds.
pub uninterp spec fn duration_of_secs(secs: u64) -> Duration;

/// Calls `Duration::from_secs`; the contract claims only that its result
/// depends on the number of seconds alone (it is a plain constructor).
#[verifier::external_body]
fn duration_from_secs(secs: u64) -> (d: Duration)
    ensures
        d == duration_of_secs(secs),
{
    Duration::from_secs(secs)
}

/// Settings of the tray application.
#[derive(Clone, Debug)]
pub struct AppConfig {
    pub api_key: String,
    pub world_name: String,
    pub refresh_interval_secs: u64,
    /// Usernames whose online presence is highlighted. Order is irrelevant;
    /// a name counts as a favorite when it occurs at least once.
    pub favorite_players: Vec<String>,
}

/// The first rule that a configuration breaks, with its message.
pub open spec fn config_problem(c: AppConfig) -> Option<Seq<char>> {
    if trim_seq(c.api_key@).len() == 0 {
        Some("`api_key` must not be empty"@)
    } else if trim_seq(c.world_name@).len() == 0 {
        Some("`world_name` must not be empty"@)
    } else if c.refresh_interval_secs == 0 {
        Some("`refresh_interval_secs` must be greater than 0"@)
    } else {
        None
    }
}

/// `s` holds a character that is not white space.
pub open spec fn has_text(s: Seq<char>) -> bool {
    exists|i: int| 0 <= i < s.len() && !is_white_space(#[trigger] s[i])
}

/// A configuration is accepted exactly when its API key and world name
/// each hold some character other than white space and its refresh
/// interval is at least one second; a rejection names the first of these
/// rules, in that order, that is broken.
pub proof fn lemma_config_rules(c: AppConfig)
    ensures
        config_problem(c) is None <==> (has_text(c.api_key@) && has_text(c.world_name@)
            && c.refresh_interval_secs >= 1),
        !has_text(c.api_key@) ==> config_problem(c) == Some("`api_key` must not be empty"@),
        has_text(c.api_key@) && !has_text(c.world_name@) ==> config_problem(c) == Some(
            "`world_name` must not be empty"@,
        ),
        has_text(c.api_key@) && has_text(c.world_name@) && c.refresh_interval_secs == 0
            ==> config_problem(c) == Some("`refresh_interval_secs` must be greater than 0"@),
{
    lemma_trim_shape(c.api_key@);
    lemma_trim_shape(c.world_name@);
}

impl AppConfig {
    /// `name` is one of the favorite players.
    pub open spec fn is_favorite(&self, name: Seq<char>) -> bool {
        exists|k: int| 0 <= k < self.favorite_players@.len() && (#[trigger] self.favorite_players@[k])@ == name
    }

    /// A name is a favorite exactly when it is equal to one of the listed
    /// favorites (not merely close to one, such as one it begins).
    pub proof fn lemma_favorite_is_exact(&self, name: Seq<char>)
        ensures
            self.is_favorite(name) <==> self.favorite_players@.map_values(|f: String| f@).contains(
                name,
            ),
    {
        let views = self.favorite_players@.map_values(|f: String| f@);
        if self.is_favorite(name) {
            let k = choose|k: int|
                0 <= k < self.favorite_players@.len() && (#[trigger] self.favorite_players@[k])@
                    == name;
            assert(views[k] == name);
        }
        if views.contains(name) {
            let k = choose|k: int| 0 <= k < views.len() && views[k] == name;
            assert(self.favorite_players@[k]@ == name);
        }
    }

    /// No favorite is listed twice (the configuration file holds them as a set).
    pub open spec fn favorites_distinct(&self) -> bool {
        forall|a: int, b: int|
            0 <= a < b < self.favorite_players@.len() ==> (#[trigger] self.favorite_players@[a])@
                != (#[trigger] self.favorite_players@[b])@
    }

    /// Whether `name` is one of the favorite players.
    pub fn has_favorite(&self, name: &String) -> (r: bool)
        ensures
            r == self.is_favorite(name@),
    {
        let mut k: usize = 0;
        while k < self.favorite_players.len()
            invariant
                k <= self.favorite_players@.len(),
                forall|j: int| 0 <= j < k ==> (#[trigger] self.favorite_players@[j])@ != name@,
            decreases self.favorite_players@.len() - k,
        {
            if self.favorite_players[k] == *name {
                return true;
            }
            k = k + 1;
        }
        false
    }

    /// Returns the configuration unchanged when the API key and world name
    /// are not blank and the refresh interval is positive; otherwise the
    /// first broken rule as `InvalidConfig`.
    pub fn validate(self) -> (r: Result<AppConfig, AppError>)
        ensures
            match config_problem(self) {
                Some(msg) => r matches Err(AppError::InvalidConfig(m)) && m@ == msg,
                None => r == Ok::<AppConfig, AppError>(self),
            },
    {
        if is_blank(self.api_key.as_str()) {
            return Err(AppError::InvalidConfig(String::from_str("`api_key` must not be empty")));
        }
        if is_blank(self.world_name.as_str()) {
            return Err(AppError::InvalidConfig(String::from_str("`world_name` must not be empty")));
        }
        if self.refresh_interval_secs == 0 {
            return Err(
                AppError::InvalidConfig(
                    String::from_str("`refresh_interval_secs` must be greater than 0"),
                ),
            );
        }
        Ok(self)
    }

    /// The pause between two polls of the API: `refresh_interval_secs` seconds.
    pub fn refresh_interval(&self) -> (d: Duration)
        ensures
            d == duration_of_secs(self.refresh_interval_secs),
    {
        duration_from_secs(self.refresh_interval_secs)
    }
}

impl Default for AppConfig {
    /// No API key, the world `world`, a 30 second refresh and no favorites.
    fn default() -> (c: AppConfig)
        ensures
            c.api_key@ == Seq::<char>::empty(),
            c.world_name@ == "world"@,
            c.refresh_interval_secs == 30,
            c.favorite_players@.len() == 0,
            c.favorites_distinct(),
    {
        AppConfig {
            api_key: String::new(),
            world_name: String::from_str("world"),
            refresh_interval_secs: 30,
            favorite_players: Vec::new(),
        }
    }
}

} // verus!
