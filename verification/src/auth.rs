//! Account data and the pure parts of the authentication flow: the
//! authorization URL, token expiry, and the simulated device-code response.
//! The token exchanges themselves are network calls and live outside the
//! library, which only consumes the resulting account value.

use vstd::prelude::*;
use crate::error::LauncherError;
use crate::text::{spec_dec, u64_to_dec};

verus! {

/// An authenticated account: a read-only snapshot used for placeholder
/// substitution and process bookkeeping.
#[derive(Debug, Clone)]
pub struct Account {
    /// Account UUID.
    pub uuid: String,
    /// Profile name (username).
    pub name: String,
    /// Access token for game services.
    pub access_token: String,
    /// Refresh token for token renewal.
    pub refresh_token: String,
    /// Token expiration time, in seconds since the Unix epoch.
    pub expires_at: i64,
    /// Account kind (typically "msa").
    pub account_type: String,
    /// Additional profile information.
    pub profile: ProfileInfo,
}

/// Profile information of an account.
#[derive(Debug, Clone)]
pub struct ProfileInfo {
    /// Profile id.
    pub id: String,
    /// Profile name.
    pub name: String,
    /// Profile skins.
    pub skins: Vec<SkinInfo>,
    /// Profile capes.
    pub capes: Vec<CapeInfo>,
}

/// Skin information of a profile.
#[derive(Debug, Clone)]
pub struct SkinInfo {
    /// Skin id.
    pub id: String,
    /// Skin state (e.g. "ACTIVE").
    pub state: String,
    /// Skin URL.
    pub url: String,
    /// Skin variant (classic, slim).
    pub variant: String,
}

/// Cape information of a profile.
#[derive(Debug, Clone)]
pub struct CapeInfo {
    /// Cape id.
    pub id: String,
    /// Cape state.
    pub state: String,
    /// Cape URL.
    pub url: String,
    /// Cape alias.
    pub alias: String,
}

/// Configuration of the authenticator.
#[derive(Debug, Clone)]
pub struct AuthenticatorConfig {
    /// OAuth application client id.
    pub client_id: String,
    /// Redirect URI of the OAuth flow.
    pub redirect_uri: String,
    /// OAuth scopes to request.
    pub scopes: Vec<String>,
    /// Custom user agent for requests.
    pub user_agent: Option<String>,
    /// Timeout for authentication requests, in seconds.
    pub timeout: u64,
}

/// Response of the simulated device-code flow.
#[derive(Debug, Clone)]
pub struct DeviceCodeResponse {
    /// Opaque device code tracking the session.
    pub device_code: String,
    /// Short code shown to the user.
    pub user_code: String,
    /// URL the user must visit.
    pub verification_uri: String,
    /// Seconds until the code expires.
    pub expires_in: u64,
    /// Poll interval in seconds.
    pub interval: u64,
    /// Message shown to the user.
    pub message: Option<String>,
}

impl Default for AuthenticatorConfig {
    /// The default configuration: a placeholder client id, the local
    /// callback redirect, the sign-in and offline scopes, the library's
    /// user agent, and a five-minute timeout.
    fn default() -> (r: Self)
        ensures
            r.client_id@ == "00000000-0000-0000-0000-000000000000"@,
            r.redirect_uri@ == "http://localhost:8080/auth/callback"@,
            r.scopes@.len() == 2,
            r.scopes@[0]@ == "XboxLive.signin"@,
            r.scopes@[1]@ == "offline_access"@,
            r.user_agent matches Some(ua) && ua@ == "MinecraftLauncher/"@ + crate::VERSION@,
            r.timeout == 300u64,
    {
        AuthenticatorConfig::new_default()
    }
}

impl AuthenticatorConfig {
    /// The default configuration: a placeholder client id, the local
    /// callback redirect, the sign-in and offline scopes, the library's
    /// user agent, and a five-minute timeout.
    pub fn new_default() -> (r: Self)
        ensures
            r.client_id@ == "00000000-0000-0000-0000-000000000000"@,
            r.redirect_uri@ == "http://localhost:8080/auth/callback"@,
            r.scopes@.len() == 2,
            r.scopes@[0]@ == "XboxLive.signin"@,
            r.scopes@[1]@ == "offline_access"@,
            r.user_agent matches Some(ua) && ua@ == "MinecraftLauncher/"@ + crate::VERSION@,
            r.timeout == 300u64,
    {
        let mut scopes: Vec<String> = Vec::new();
        scopes.push(String::from_str("XboxLive.signin"));
        scopes.push(String::from_str("offline_access"));
        let mut ua = String::from_str("MinecraftLauncher/");
        ua.append(crate::VERSION);
        AuthenticatorConfig {
            client_id: String::from_str("00000000-0000-0000-0000-000000000000"),
            redirect_uri: String::from_str("http://localhost:8080/auth/callback"),
            scopes,
            user_agent: Some(ua),
            timeout: 300,
        }
    }

    /// A configuration with the given client id and all other fields at
    /// their defaults.
    pub fn new(client_id: String) -> (r: Self)
        ensures
            r.client_id == client_id,
            r.redirect_uri@ == "http://localhost:8080/auth/callback"@,
            r.scopes@.len() == 2,
            r.scopes@[0]@ == "XboxLive.signin"@,
            r.scopes@[1]@ == "offline_access"@,
            r.user_agent matches Some(ua) && ua@ == "MinecraftLauncher/"@ + crate::VERSION@,
            r.timeout == 300u64,
    {
        let mut r = Self::new_default();
        r.client_id = client_id;
        r
    }

    /// Set the redirect URI.
    pub fn with_redirect_uri(self, redirect_uri: String) -> (r: Self)
        ensures
            r == (AuthenticatorConfig { redirect_uri, ..self }),
    {
        AuthenticatorConfig { redirect_uri, ..self }
    }

    /// Set custom scopes.
    pub fn with_scopes(self, scopes: Vec<String>) -> (r: Self)
        ensures
            r == (AuthenticatorConfig { scopes, ..self }),
    {
        AuthenticatorConfig { scopes, ..self }
    }

    /// Set a custom user agent.
    pub fn with_user_agent(self, user_agent: String) -> (r: Self)
        ensures
            r == (AuthenticatorConfig { user_agent: Some(user_agent), ..self }),
    {
        AuthenticatorConfig { user_agent: Some(user_agent), ..self }
    }

    /// Set the timeout.
    pub fn with_timeout(self, timeout: u64) -> (r: Self)
        ensures
            r == (AuthenticatorConfig { timeout, ..self }),
    {
        AuthenticatorConfig { timeout, ..self }
    }

    /// The authorization URL of the OAuth flow for this configuration's
    /// client id.
    pub fn get_auth_url(&self) -> (r: Result<String, LauncherError>)
        ensures
            r matches Ok(url) && url@ == spec_auth_url(self.client_id@),
    {
        let mut url = String::from_str("https://login.live.com/oauth20_authorize.srf?client_id=");
        url.append(self.client_id.as_str());
        url.append(
            "&response_type=code&redirect_uri=https://login.live.com/oauth20_desktop.srf&scope=XboxLive.signin%20offline_access&cobrandid=8058f65d-ce06-4c30-9559-473c9275a65d&prompt=select_account",
        );
        Ok(url)
    }

    /// The simulated device-code response for this configuration at the
    /// given Unix timestamp: a locally generated user and device code that
    /// direct the user to the standard authorization flow.
    pub fn device_code_response_at(&self, timestamp: u64) -> (r: DeviceCodeResponse)
        ensures
            r.device_code@ == "device_"@ + spec_dec(timestamp as nat),
            r.user_code@ == spec_hex4_upper((timestamp % 65536) as nat) + "-"@ + spec_hex4_upper(
                ((timestamp / 65536) % 65536) as nat,
            ),
            r.verification_uri@ == spec_verification_uri(self.client_id@),
            r.expires_in == 900u64,
            r.interval == 5u64,
            r.message matches Some(m) && m@
                == "Please visit the URL and sign in with your Microsoft account"@,
    {
        let mut device_code = String::from_str("device_");
        let ts = u64_to_dec(timestamp);
        device_code.append(ts.as_str());
        let mut user_code = hex4_upper((timestamp % 65536) as u16);
        user_code.append("-");
        let high = hex4_upper(((timestamp / 65536) % 65536) as u16);
        user_code.append(high.as_str());
        let mut uri = String::from_str(
            "https://login.live.com/oauth20_authorize.srf?client_id=",
        );
        uri.append(self.client_id.as_str());
        uri.append(
            "&response_type=code&redirect_uri=https://login.live.com/oauth20_desktop.srf&scope=XboxLive.signin%20offline_access&prompt=select_account",
        );
        DeviceCodeResponse {
            device_code,
            user_code,
            verification_uri: uri,
            expires_in: 900,
            interval: 5,
            message: Some(
                String::from_str("Please visit the URL and sign in with your Microsoft account"),
            ),
        }
    }
}

/// The authorization URL for a client id.
pub open spec fn spec_auth_url(client_id: Seq<char>) -> Seq<char> {
    "https://login.live.com/oauth20_authorize.srf?client_id="@ + client_id
        + "&response_type=code&redirect_uri=https://login.live.com/oauth20_desktop.srf&scope=XboxLive.signin%20offline_access&cobrandid=8058f65d-ce06-4c30-9559-473c9275a65d&prompt=select_account"@
}

/// The verification URL of the simulated device-code flow for a client id.
pub open spec fn spec_verification_uri(client_id: Seq<char>) -> Seq<char> {
    "https://login.live.com/oauth20_authorize.srf?client_id="@ + client_id
        + "&response_type=code&redirect_uri=https://login.live.com/oauth20_desktop.srf&scope=XboxLive.signin%20offline_access&prompt=select_account"@
}

/// The upper-case hex character of a value below sixteen.
pub open spec fn hex_upper_char(d: nat) -> char {
    if d < 10 {
        crate::text::digit_char(d)
    } else if d == 10 { 'A' }
    else if d == 11 { 'B' }
    else if d == 12 { 'C' }
    else if d == 13 { 'D' }
    else if d == 14 { 'E' }
    else { 'F' }
}

/// The four-digit zero-padded upper-case hex rendering of a 16-bit value.
pub open spec fn spec_hex4_upper(n: nat) -> Seq<char> {
    seq![
        hex_upper_char(n / 4096 % 16),
        hex_upper_char(n / 256 % 16),
        hex_upper_char(n / 16 % 16),
        hex_upper_char(n % 16),
    ]
}

/// The upper-case hex character of a value below sixteen.
fn hex_upper_of(d: u16) -> (c: char)
    requires
        d < 16,
    ensures
        c == hex_upper_char(d as nat),
{
    if d < 10 {
        crate::text::digit_of(d as u64)
    } else if d == 10 { 'A' }
    else if d == 11 { 'B' }
    else if d == 12 { 'C' }
    else if d == 13 { 'D' }
    else if d == 14 { 'E' }
    else { 'F' }
}

/// The four-digit zero-padded upper-case hex rendering of a 16-bit value.
fn hex4_upper(n: u16) -> (r: String)
    ensures
        r@ == spec_hex4_upper(n as nat),
{
    let mut r = String::new();
    crate::text::push_char(&mut r, hex_upper_of(n / 4096 % 16));
    crate::text::push_char(&mut r, hex_upper_of(n / 256 % 16));
    crate::text::push_char(&mut r, hex_upper_of(n / 16 % 16));
    crate::text::push_char(&mut r, hex_upper_of(n % 16));
    assert(r@ =~= spec_hex4_upper(n as nat));
    r
}

/// Whether an account's token is still valid at the given time, with a
/// five-minute buffer: valid when it expires more than 300 seconds from
/// `now`.
pub fn is_token_valid(account: &Account, now: i64) -> (r: bool)
    requires
        now + 300 <= i64::MAX,
    ensures
        r == (account.expires_at > now + 300),
{
    account.expires_at > now + 300
}

} // verus!
