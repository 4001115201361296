//! The read-only policy inputs consumed on every dispatch, plus the
//! session token the report service hands back.  Loading and storing the
//! file on disk is the host's; the pipeline only reads and updates the
//! values.

use vstd::prelude::*;
use crate::text::{ends_with_seq, str_ends_with};

verus! {

/// The uploader's configuration.
pub struct Settings {
    /// The directory watched for new log files.
    pub logpath: String,
    /// The bearer token sent with report uploads; refreshed from each
    /// successful report reply.
    pub dpsreport_token: String,
    /// The template used when report permalinks are copied out.
    pub dpsreport_copyformat: String,
    /// Whether the host shows the upload window.
    pub show_window: bool,
    /// Include successful encounters when copying permalinks.
    pub copy_success: bool,
    /// Include failed encounters when copying permalinks.
    pub copy_failure: bool,
    /// Enable the report-upload stage.
    pub enable_dpsreport: bool,
    /// Enable the statistics-upload stage.
    pub enable_wingman: bool,
    /// Category ids excluded from report uploads.
    pub filter_dpsreport: Vec<u16>,
    /// Category ids excluded from statistics uploads.
    pub filter_wingman: Vec<u16>,
    /// Hide the notification about the misspelled default log path.
    pub hide_hotfix_notification_20241114: bool,
}

/// The mathematical value of a `Settings`.
#[verifier::ext_equal]
pub struct SettingsView {
    pub logpath: Seq<char>,
    pub dpsreport_token: Seq<char>,
    pub dpsreport_copyformat: Seq<char>,
    pub show_window: bool,
    pub copy_success: bool,
    pub copy_failure: bool,
    pub enable_dpsreport: bool,
    pub enable_wingman: bool,
    pub filter_dpsreport: Seq<u16>,
    pub filter_wingman: Seq<u16>,
    pub hide_hotfix_notification_20241114: bool,
}

impl View for Settings {
    type V = SettingsView;

    open spec fn view(&self) -> SettingsView {
        SettingsView {
            logpath: self.logpath@,
            dpsreport_token: self.dpsreport_token@,
            dpsreport_copyformat: self.dpsreport_copyformat@,
            show_window: self.show_window,
            copy_success: self.copy_success,
            copy_failure: self.copy_failure,
            enable_dpsreport: self.enable_dpsreport,
            enable_wingman: self.enable_wingman,
            filter_dpsreport: self.filter_dpsreport@,
            filter_wingman: self.filter_wingman@,
            hide_hotfix_notification_20241114: self.hide_hotfix_notification_20241114,
        }
    }
}

/// The value taken by the flags a stored file may omit.
pub fn default_true() -> (b: bool)
    ensures
        b,
{
    true
}

/// The copy template a stored file may omit: the bare permalink.
pub fn default_copyformat() -> (r: String)
    ensures
        r@ == "@1"@,
{
    String::from_str("@1")
}

impl Default for Settings {
    /// Fresh settings: both stages enabled, nothing filtered, the window
    /// shown, both outcomes included when copying, and empty paths and
    /// tokens.
    fn default() -> (s: Self)
        ensures
            s@.logpath.len() == 0,
            s@.dpsreport_token.len() == 0,
            s@.dpsreport_copyformat.len() == 0,
            s@.show_window,
            s@.copy_success,
            s@.copy_failure,
            s@.enable_dpsreport,
            s@.enable_wingman,
            s@.filter_dpsreport.len() == 0,
            s@.filter_wingman.len() == 0,
            !s@.hide_hotfix_notification_20241114,
    {
        Settings {
            logpath: String::new(),
            dpsreport_token: String::new(),
            dpsreport_copyformat: String::new(),
            show_window: true,
            copy_success: true,
            copy_failure: true,
            enable_dpsreport: true,
            enable_wingman: true,
            filter_dpsreport: Vec::new(),
            filter_wingman: Vec::new(),
            hide_hotfix_notification_20241114: false,
        }
    }
}

impl Settings {
    /// Whether the configured log path still carries the misspelled
    /// default directory name a past version wrote.
    pub fn check_hotfix20241114(&self) -> (b: bool)
        ensures
            b == ends_with_seq(self.logpath@, "arcdps.cbtlog"@),
    {
        str_ends_with(self.logpath.as_str(), "arcdps.cbtlog")
    }

    /// Replace the misspelled log path with the default directory the host
    /// computed.
    pub fn fix_hotfix20241114(&mut self, default_dir: String)
        ensures
            final(self).logpath == default_dir,
            final(self).dpsreport_token == old(self).dpsreport_token,
            final(self).dpsreport_copyformat == old(self).dpsreport_copyformat,
            final(self).show_window == old(self).show_window,
            final(self).copy_success == old(self).copy_success,
            final(self).copy_failure == old(self).copy_failure,
            final(self).enable_dpsreport == old(self).enable_dpsreport,
            final(self).enable_wingman == old(self).enable_wingman,
            final(self).filter_dpsreport == old(self).filter_dpsreport,
            final(self).filter_wingman == old(self).filter_wingman,
            final(self).hide_hotfix_notification_20241114 == old(
                self,
            ).hide_hotfix_notification_20241114,
    {
        self.logpath = default_dir;
    }

    /// Whether the report-upload stage is enabled.
    pub fn enable_dpsreport(&self) -> (b: bool)
        ensures
            b == self.enable_dpsreport,
    {
        self.enable_dpsreport
    }

    /// The directory watched for new log files.
    pub fn logpath(&self) -> (r: &str)
        ensures
            r@ == self.logpath@,
    {
        self.logpath.as_str()
    }
}

} // verus!
