//! Configuration values for the notification and hook collaborators, and
//! the builder for the notification command line. Reading the configuration
//! file and resolving textual placeholders are I/O and stay outside the
//! library; these types carry the values the core decides with, and every
//! field falls back to a fixed default.

use vstd::prelude::*;

verus! {

/// Notification urgency handed to the notifier.
#[derive(Debug, Clone, Copy, PartialEq, Eq, Structural)]
pub enum Urgency {
    Low,
    Normal,
    Critical,
}

impl Urgency {
    /// The urgency's name on the notifier's command line.
    pub open spec fn spec_str(self) -> Seq<char> {
        match self {
            Urgency::Low => "low"@,
            Urgency::Normal => "normal"@,
            Urgency::Critical => "critical"@,
        }
    }

    pub fn as_str(self) -> (r: &'static str)
        ensures
            r@ == self.spec_str(),
    {
        match self {
            Urgency::Low => "low",
            Urgency::Normal => "normal",
            Urgency::Critical => "critical",
        }
    }
}

pub fn default_notification_title() -> (r: String)
    ensures
        r@ == "Cursor Agent"@,
{
    "Cursor Agent".to_owned()
}

pub fn default_notification_body() -> (r: String)
    ensures
        r@ == "Done"@,
{
    "Done".to_owned()
}

pub fn default_notification_urgency() -> (r: Urgency)
    ensures
        r == Urgency::Normal,
{
    Urgency::Normal
}

/// Hook command templates; `None` disables the hook.
#[derive(Debug, Clone)]
pub struct Hooks {
    /// Command run when the inferred activity status changes.
    pub status_change: Option<String>,
    /// Command run when ESC is pressed while the editor is in Normal mode.
    pub esc_in_normal: Option<String>,
    /// Command run when the editor mode changes.
    pub vim_mode_change: Option<String>,
}

impl Default for Hooks {
    fn default() -> (d: Hooks)
        ensures
            d.status_change is None,
            d.esc_in_normal is None,
            d.vim_mode_change is None,
    {
        Hooks { status_change: None, esc_in_normal: None, vim_mode_change: None }
    }
}

/// Notification settings.
#[derive(Debug, Clone)]
pub struct General {
    pub notification_title: String,
    pub notification_body: String,
    pub notification_urgency: Urgency,
    pub notification_app_name: Option<String>,
    pub notification_icon: Option<String>,
}

impl Default for General {
    fn default() -> (d: General)
        ensures
            d.notification_title@ == "Cursor Agent"@,
            d.notification_body@ == "Done"@,
            d.notification_urgency == Urgency::Normal,
            d.notification_app_name is None,
            d.notification_icon is None,
    {
        General {
            notification_title: default_notification_title(),
            notification_body: default_notification_body(),
            notification_urgency: default_notification_urgency(),
            notification_app_name: None,
            notification_icon: None,
        }
    }
}

/// The whole configuration snapshot the relay tasks decide with.
#[derive(Debug, Clone)]
pub struct Config {
    pub general: General,
    pub hooks: Hooks,
}

impl Default for Config {
    fn default() -> (d: Config)
        ensures
            d.general.notification_title@ == "Cursor Agent"@,
            d.general.notification_body@ == "Done"@,
            d.general.notification_urgency == Urgency::Normal,
            d.general.notification_app_name is None,
            d.general.notification_icon is None,
            d.hooks.status_change is None,
            d.hooks.esc_in_normal is None,
            d.hooks.vim_mode_change is None,
    {
        Config { general: General::default(), hooks: Hooks::default() }
    }
}

/// The full notifier argument list for the given settings and the already
/// resolved title and body: urgency first, then the optional application
/// name and icon, each behind its flag, then title and body.
pub open spec fn notify_args(g: General, title: Seq<char>, body: Seq<char>) -> Seq<Seq<char>> {
    seq!["-u"@, g.notification_urgency.spec_str()] + (match g.notification_app_name {
        Some(n) => seq!["--app-name"@, n@],
        None => Seq::<Seq<char>>::empty(),
    }) + (match g.notification_icon {
        Some(ic) => seq!["--icon"@, ic@],
        None => Seq::<Seq<char>>::empty(),
    }) + seq![title, body]
}

impl General {
    /// Build the full notifier argument list from the settings. `title` and
    /// `body` are the notification title and body with their placeholders
    /// already resolved; resolving them consults the environment and is the
    /// caller's task.
    pub fn notify_send_args(&self, title: String, body: String) -> (args: Vec<String>)
        ensures
            args.deep_view() == notify_args(*self, title@, body@),
    {
        let mut args: Vec<String> = Vec::new();
        args.push("-u".to_owned());
        args.push(self.notification_urgency.as_str().to_owned());
        if let Some(app_name) = &self.notification_app_name {
            args.push("--app-name".to_owned());
            args.push(app_name.clone());
        }
        if let Some(icon) = &self.notification_icon {
            args.push("--icon".to_owned());
            args.push(icon.clone());
        }
        args.push(title);
        args.push(body);
        proof {
            assert(args.deep_view() =~= notify_args(*self, title@, body@));
        }
        args
    }
}

} // verus!
