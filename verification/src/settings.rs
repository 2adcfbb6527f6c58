//! Where the requests go and which record is kept up to date.

use vstd::prelude::*;

verus! {

/// Base address of the provider's management interface.
pub const API_URL: &'static str = "https://api.cloudflare.com/client/v4";

/// The zone whose records are listed.
pub const ZONE_ID: &'static str = "82ced3b4f8270a500730e944e2beb69f";

/// The only record name that is ever updated.
pub const TARGET_NAME: &'static str = "wg.bbl.systems";

/// The service that answers with the caller's public address.
pub const IP_URL: &'static str = "https://httpbin.org/ip";

/// The fixed points of one run.
#[derive(Debug, PartialEq, Eq)]
pub struct Settings {
    pub api_url: String,
    pub zone_id: String,
    pub target_name: String,
    pub ip_url: String,
}

/// What a [`Settings`] holds, as text.
pub struct SettingsView {
    pub api_url: Seq<char>,
    pub zone_id: Seq<char>,
    pub target_name: Seq<char>,
    pub ip_url: Seq<char>,
}

impl View for Settings {
    type V = SettingsView;

    open spec fn view(&self) -> SettingsView {
        SettingsView {
            api_url: self.api_url@,
            zone_id: self.zone_id@,
            target_name: self.target_name@,
            ip_url: self.ip_url@,
        }
    }
}

impl SettingsView {
    /// The settings that a run has when nothing else is configured.
    pub open spec fn standard() -> SettingsView {
        SettingsView {
            api_url: API_URL@,
            zone_id: ZONE_ID@,
            target_name: TARGET_NAME@,
            ip_url: IP_URL@,
        }
    }
}

impl Default for Settings {
    fn default() -> (res: Self)
        ensures
            res@ == SettingsView::standard(),
    {
        Settings {
            api_url: API_URL.to_owned(),
            zone_id: ZONE_ID.to_owned(),
            target_name: TARGET_NAME.to_owned(),
            ip_url: IP_URL.to_owned(),
        }
    }
}

impl Clone for Settings {
    fn clone(&self) -> (res: Self)
        ensures
            res == *self,
    {
        Settings {
            api_url: self.api_url.clone(),
            zone_id: self.zone_id.clone(),
            target_name: self.target_name.clone(),
            ip_url: self.ip_url.clone(),
        }
    }
}

} // verus!
