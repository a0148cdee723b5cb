//! Process configuration and the upstream URLs derived from it.
use vstd::prelude::*;
use vstd::string::StringExecFns;

verus! {

/// Base URLs of the upstream services.
pub struct BaseUrlConfig {
    pub weather_api: String,
    pub spotify_api: String,
    pub spotify_accounts: String,
    pub spotify_accounts_api: String,
}

/// Credentials and location for the weather service.
pub struct WeatherConfig {
    pub key: String,
    pub city: String,
}

/// Address of the cache service.
pub struct RedisConfig {
    pub host: String,
}

/// Client credentials registered with the identity provider.
pub struct SpotifyConfig {
    pub client_id: String,
    pub secret: String,
}

/// The whole process configuration.
pub struct Config {
    pub base_url: BaseUrlConfig,
    pub weather: WeatherConfig,
    pub redis: RedisConfig,
    pub spotify: SpotifyConfig,
}

/// Accepts a configuration that was loaded; the caller must have checked
/// that loading succeeded.
pub fn config(loaded: Option<Config>) -> (r: Config)
    requires
        loaded is Some,
    ensures
        r == loaded->0,
{
    loaded.unwrap()
}

pub open spec fn playback_url_spec(api: Seq<char>) -> Seq<char> {
    api + "/me/player/currently-playing"@
}

pub open spec fn refresh_url_spec(accounts_api: Seq<char>, refresh_token: Seq<char>) -> Seq<char> {
    accounts_api + "/token?refresh_token="@ + refresh_token + "&grant_type=refresh_token"@
}

pub open spec fn weather_url_spec(api: Seq<char>, key: Seq<char>, city: Seq<char>, lang: Seq<char>) -> Seq<char> {
    api + "/current.json?key="@ + key + "&q="@ + city + "&aqi=no&lang="@ + lang
}

impl Config {
    /// URL of the currently-playing endpoint.
    pub fn playback_url(&self) -> (r: String)
        ensures
            r@ == playback_url_spec(self.base_url.spotify_api@),
    {
        let mut s = self.base_url.spotify_api.clone();
        s.append("/me/player/currently-playing");
        proof {
            reveal_strlit("/me/player/currently-playing");
        }
        s
    }

    /// URL of the identity provider's refresh-token grant for `refresh_token`.
    pub fn refresh_url(&self, refresh_token: &str) -> (r: String)
        ensures
            r@ == refresh_url_spec(self.base_url.spotify_accounts_api@, refresh_token@),
    {
        let mut s = self.base_url.spotify_accounts_api.clone();
        s.append("/token?refresh_token=");
        s.append(refresh_token);
        s.append("&grant_type=refresh_token");
        proof {
            reveal_strlit("/token?refresh_token=");
            reveal_strlit("&grant_type=refresh_token");
        }
        s
    }

    /// URL of the current-conditions query for the configured city in `lang`.
    pub fn weather_url(&self, lang: &str) -> (r: String)
        ensures
            r@ == weather_url_spec(self.base_url.weather_api@, self.weather.key@, self.weather.city@, lang@),
    {
        let mut s = self.base_url.weather_api.clone();
        s.append("/current.json?key=");
        s.append(self.weather.key.as_str());
        s.append("&q=");
        s.append(self.weather.city.as_str());
        s.append("&aqi=no&lang=");
        s.append(lang);
        proof {
            reveal_strlit("/current.json?key=");
            reveal_strlit("&q=");
            reveal_strlit("&aqi=no&lang=");
        }
        s
    }
}

} // verus!
