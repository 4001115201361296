//! The report service's reply types and the retry policy for the
//! report-upload stage.
//!
//! The wire call itself is the host's; the pipeline consumes the HTTP
//! status, the raw reply body, and — for a success reply — the decoded
//! payload, and classifies them into a `Disposition`.

use vstd::prelude::*;
use crate::step::{Disposition, DispositionView, StageFailure, StageFailureView};
use crate::text::{contains_seq, dec_rep, str_contains, u64_to_string};

verus! {

/// Backoff before a transient report-upload failure is retried
/// (milliseconds).
pub const RETRY_BACKOFF_MS: u64 = 30000;

/// How many times a job returns from `Retry` to `Pending` before the next
/// transient failure is converted to a terminal error.
pub const RETRY_CAP: u32 = 3;

/// One participant in the report service's reply.
pub struct Player {
    pub display_name: String,
    pub character_name: String,
    pub profession: u32,
    pub elite_spec: u32,
}

/// The mathematical value of a `Player`.
pub struct PlayerView {
    pub display_name: Seq<char>,
    pub character_name: Seq<char>,
    pub profession: u32,
    pub elite_spec: u32,
}

impl View for Player {
    type V = PlayerView;

    open spec fn view(&self) -> PlayerView {
        PlayerView {
            display_name: self.display_name@,
            character_name: self.character_name@,
            profession: self.profession,
            elite_spec: self.elite_spec,
        }
    }
}

impl DeepView for Player {
    type V = PlayerView;

    open spec fn deep_view(&self) -> PlayerView {
        self.view()
    }
}

/// The service sends the roster either as an array or keyed by account.
pub enum PlayerResponse {
    List(Vec<Player>),
    Keyed(Vec<(String, Player)>),
}

/// The mathematical value of a `PlayerResponse`.
pub enum PlayerResponseView {
    List(Seq<PlayerView>),
    Keyed(Seq<(Seq<char>, PlayerView)>),
}

impl View for PlayerResponse {
    type V = PlayerResponseView;

    open spec fn view(&self) -> PlayerResponseView {
        match self {
            PlayerResponse::List(v) => PlayerResponseView::List(v.deep_view()),
            PlayerResponse::Keyed(v) => PlayerResponseView::Keyed(v.deep_view()),
        }
    }
}

/// The report service's echo of the encounter.
pub struct Encounter {
    pub boss_id: i64,
    pub success: bool,
    pub boss: String,
    pub is_cm: Option<bool>,
    pub is_legendary_cm: Option<bool>,
    pub emboldened: Option<i32>,
}

/// The mathematical value of an `Encounter`.
pub struct EncounterView {
    pub boss_id: i64,
    pub success: bool,
    pub boss: Seq<char>,
    pub is_cm: Option<bool>,
    pub is_legendary_cm: Option<bool>,
    pub emboldened: Option<i32>,
}

impl View for Encounter {
    type V = EncounterView;

    open spec fn view(&self) -> EncounterView {
        EncounterView {
            boss_id: self.boss_id,
            success: self.success,
            boss: self.boss@,
            is_cm: self.is_cm,
            is_legendary_cm: self.is_legendary_cm,
            emboldened: self.emboldened,
        }
    }
}

/// The difficulty-mode label for an encounter: the legendary or normal
/// challenge marks win over an emboldened count; a plainly normal encounter
/// gets the empty label; anything else is undetermined.
pub open spec fn format_mode_spec(e: EncounterView) -> Option<Seq<char>> {
    if e.is_legendary_cm == Some(true) {
        Some("LCM"@)
    } else if e.is_cm == Some(true) {
        Some("CM"@)
    } else {
        match e.emboldened {
            Some(n) => if n >= 1 {
                Some("Emboldened "@ + dec_rep(n as nat) + ")"@)
            } else if n == 0 && e.is_cm == Some(false) && e.is_legendary_cm == Some(false) {
                Some(Seq::empty())
            } else {
                None
            },
            None => None,
        }
    }
}

impl Encounter {
    /// The difficulty-mode label, when it can be determined.
    pub fn format_mode(&self) -> (r: Option<String>)
        ensures
            r.deep_view() == format_mode_spec(self@),
    {
        let lcm = matches!(self.is_legendary_cm, Some(true));
        let cm = matches!(self.is_cm, Some(true));
        if lcm {
            proof {
                reveal_strlit("LCM");
            }
            Some(String::from_str("LCM"))
        } else if cm {
            proof {
                reveal_strlit("CM");
            }
            Some(String::from_str("CM"))
        } else {
            match self.emboldened {
                Some(n) => if n >= 1 {
                    let mut r = String::from_str("Emboldened ");
                    r.append(u64_to_string(n as u64).as_str());
                    r.append(")");
                    proof {
                        reveal_strlit("Emboldened ");
                        reveal_strlit(")");
                        assert(")"@ =~= seq![')']);
                        assert("Emboldened "@ + dec_rep(n as nat) + ")"@ =~= r@);
                    }
                    Some(r)
                } else if n == 0 && matches!(self.is_cm, Some(false)) && matches!(
                    self.is_legendary_cm,
                    Some(false),
                ) {
                    let r = String::new();
                    Some(r)
                } else {
                    None
                },
                None => None,
            }
        }
    }
}

/// The report service's success payload.
pub struct DpsReportResponse {
    pub id: String,
    pub permalink: String,
    pub user_token: String,
    pub encounter: Encounter,
    pub players: PlayerResponse,
}

/// The mathematical value of a `DpsReportResponse`.
pub struct DpsReportResponseView {
    pub id: Seq<char>,
    pub permalink: Seq<char>,
    pub user_token: Seq<char>,
    pub encounter: EncounterView,
    pub players: PlayerResponseView,
}

impl View for DpsReportResponse {
    type V = DpsReportResponseView;

    open spec fn view(&self) -> DpsReportResponseView {
        DpsReportResponseView {
            id: self.id@,
            permalink: self.permalink@,
            user_token: self.user_token@,
            encounter: self.encounter@,
            players: self.players@,
        }
    }
}

impl DeepView for DpsReportResponse {
    type V = DpsReportResponseView;

    open spec fn deep_view(&self) -> DpsReportResponseView {
        self.view()
    }
}

impl Player {
    /// A fresh copy with the same value.
    pub fn duplicate(&self) -> (r: Self)
        ensures
            r@ == self@,
    {
        Player {
            display_name: self.display_name.clone(),
            character_name: self.character_name.clone(),
            profession: self.profession,
            elite_spec: self.elite_spec,
        }
    }
}

impl PlayerResponse {
    /// A fresh copy with the same value.
    pub fn duplicate(&self) -> (r: Self)
        ensures
            r@ == self@,
    {
        match self {
            PlayerResponse::List(v) => {
                let mut out: Vec<Player> = Vec::new();
                let mut i: usize = 0;
                while i < v.len()
                    invariant
                        i <= v@.len(),
                        out.deep_view().len() == i,
                        forall|t: int| 0 <= t < i ==> out.deep_view()[t] == v.deep_view()[t],
                    decreases v@.len() - i,
                {
                    out.push(v[i].duplicate());
                    i += 1;
                }
                proof {
                    assert(out.deep_view() =~= v.deep_view());
                }
                PlayerResponse::List(out)
            },
            PlayerResponse::Keyed(v) => {
                let mut out: Vec<(String, Player)> = Vec::new();
                let mut i: usize = 0;
                while i < v.len()
                    invariant
                        i <= v@.len(),
                        out.deep_view().len() == i,
                        forall|t: int| 0 <= t < i ==> out.deep_view()[t] == v.deep_view()[t],
                    decreases v@.len() - i,
                {
                    let name = v[i].0.clone();
                    let player = v[i].1.duplicate();
                    out.push((name, player));
                    i += 1;
                }
                proof {
                    assert(out.deep_view() =~= v.deep_view());
                }
                PlayerResponse::Keyed(out)
            },
        }
    }
}

impl Encounter {
    /// A fresh copy with the same value.
    pub fn duplicate(&self) -> (r: Self)
        ensures
            r@ == self@,
    {
        Encounter {
            boss_id: self.boss_id,
            success: self.success,
            boss: self.boss.clone(),
            is_cm: self.is_cm,
            is_legendary_cm: self.is_legendary_cm,
            emboldened: self.emboldened,
        }
    }
}

/// The encounter's title with the challenge mark appended.
pub open spec fn boss_title_spec(e: EncounterView) -> Seq<char> {
    if e.is_cm == Some(true) {
        e.boss + " (CM)"@
    } else {
        e.boss
    }
}

impl DpsReportResponse {
    /// The boss name, marked when the encounter ran in challenge mode.
    pub fn boss_title(&self) -> (r: String)
        ensures
            r@ == boss_title_spec(self.encounter@),
    {
        if matches!(self.encounter.is_cm, Some(true)) {
            let mut r = self.encounter.boss.clone();
            r.append(" (CM)");
            r
        } else {
            self.encounter.boss.clone()
        }
    }

    /// The outcome as text.
    pub fn success(&self) -> (r: String)
        ensures
            self.encounter.success ==> r@ == "Success"@,
            !self.encounter.success ==> r@ == "Failed"@,
    {
        if self.encounter.success {
            String::from_str("Success")
        } else {
            String::from_str("Failed")
        }
    }
}

impl DpsReportResponse {
    /// A fresh copy with the same value.
    pub fn duplicate(&self) -> (r: Self)
        ensures
            r@ == self@,
    {
        DpsReportResponse {
            id: self.id.clone(),
            permalink: self.permalink.clone(),
            user_token: self.user_token.clone(),
            encounter: self.encounter.duplicate(),
            players: self.players.duplicate(),
        }
    }
}

/// The report service's error payload for a rejected upload.
pub struct DpsReportError {
    pub error: String,
    pub rate_limited: Option<bool>,
    pub rate_per_minute: Option<u32>,
}

/// The mathematical value of a `DpsReportError`.
pub struct DpsReportErrorView {
    pub error: Seq<char>,
    pub rate_limited: Option<bool>,
    pub rate_per_minute: Option<u32>,
}

impl View for DpsReportError {
    type V = DpsReportErrorView;

    open spec fn view(&self) -> DpsReportErrorView {
        DpsReportErrorView {
            error: self.error@,
            rate_limited: self.rate_limited,
            rate_per_minute: self.rate_per_minute,
        }
    }
}

/// The fixed set of phrases whose presence in a rejection body marks the
/// rejection as permanent.
pub open spec fn is_permanent_rejection(body: Seq<char>) -> bool {
    ||| contains_seq(body, "encounter too short"@)
    ||| contains_seq(body, "duplicate file"@)
    ||| contains_seq(body, "internal parser failure"@)
}

/// Whether a rejection body names one of the permanent-rejection phrases.
pub fn permanent_rejection(body: &str) -> (b: bool)
    ensures
        b == is_permanent_rejection(body@),
{
    str_contains(body, "encounter too short") || str_contains(body, "duplicate file")
        || str_contains(body, "internal parser failure")
}

impl DpsReportError {
    /// Whether this rejection is permanent rather than a recoverable hiccup.
    pub fn permanent(&self) -> (b: bool)
        ensures
            b == is_permanent_rejection(self.error@),
    {
        permanent_rejection(self.error.as_str())
    }
}

/// What the report-upload worker observed for one job.
pub enum DpsReportOutcome {
    /// An HTTP reply: its status, its raw body, and — when the body decoded
    /// as a success payload — that payload.
    Reply { status: u16, body: String, payload: Option<DpsReportResponse> },
    /// No reply: a transport-level failure such as a timeout.
    Transport { message: String },
}

/// The mathematical value of a `DpsReportOutcome`.
pub enum DpsReportOutcomeView {
    Reply { status: u16, body: Seq<char>, payload: Option<DpsReportResponseView> },
    Transport { message: Seq<char> },
}

impl View for DpsReportOutcome {
    type V = DpsReportOutcomeView;

    open spec fn view(&self) -> DpsReportOutcomeView {
        match self {
            DpsReportOutcome::Reply { status, body, payload } => DpsReportOutcomeView::Reply {
                status: *status,
                body: body@,
                payload: payload.deep_view(),
            },
            DpsReportOutcome::Transport { message } => DpsReportOutcomeView::Transport {
                message: message@,
            },
        }
    }
}

/// The retry policy for the report-upload stage: a successfully decoded 2xx
/// payload succeeds; a 2xx body that did not decode is fatal; 408, 429, any
/// 5xx and every transport failure are transient; a 403 is fatal exactly
/// when its body names a permanent-rejection phrase and transient otherwise;
/// every other status is fatal.
pub open spec fn classify_dpsreport_spec(o: DpsReportOutcomeView) -> DispositionView<
    DpsReportResponseView,
> {
    match o {
        DpsReportOutcomeView::Transport { message } => DispositionView::Transient(RETRY_BACKOFF_MS),
        DpsReportOutcomeView::Reply { status, body, payload } => {
            if 200 <= status && status < 300 {
                match payload {
                    Some(r) => DispositionView::Success(r),
                    None => DispositionView::Fatal(StageFailureView::MalformedPayload),
                }
            } else if status == 408 || status == 429 || (500 <= status && status < 600) {
                DispositionView::Transient(RETRY_BACKOFF_MS)
            } else if status == 403 {
                if is_permanent_rejection(body) {
                    DispositionView::Fatal(StageFailureView::PermanentRejection(body))
                } else {
                    DispositionView::Transient(RETRY_BACKOFF_MS)
                }
            } else {
                DispositionView::Fatal(StageFailureView::UnexpectedStatus(status))
            }
        },
    }
}

/// Classify one report-upload outcome.
pub fn classify_dpsreport(o: DpsReportOutcome) -> (d: Disposition<DpsReportResponse>)
    ensures
        d@ == classify_dpsreport_spec(o@),
{
    match o {
        DpsReportOutcome::Transport { message: _ } => Disposition::Transient(RETRY_BACKOFF_MS),
        DpsReportOutcome::Reply { status, body, payload } => {
            if 200 <= status && status < 300 {
                match payload {
                    Some(r) => Disposition::Success(r),
                    None => Disposition::Fatal(StageFailure::MalformedPayload),
                }
            } else if status == 408 || status == 429 || (500 <= status && status < 600) {
                Disposition::Transient(RETRY_BACKOFF_MS)
            } else if status == 403 {
                if permanent_rejection(body.as_str()) {
                    Disposition::Fatal(StageFailure::PermanentRejection(body))
                } else {
                    Disposition::Transient(RETRY_BACKOFF_MS)
                }
            } else {
                Disposition::Fatal(StageFailure::UnexpectedStatus(status))
            }
        },
    }
}

} // verus!
