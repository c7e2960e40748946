//! The daemon's shared state and the decisions of the webhook listener, the
//! UI hand-off and the settings-save path.

use crate::auth::{authentic, generate_secret, is_secret, validate_request, Header};
use crate::document::{str_eq, Document, JsonModel};
use crate::payload::{payload_of, valid_text, PayloadView, UpdatePayload, WebhookPayload};
use crate::rendezvous::{lockfile_dir, lockfile_dir_of};
use crate::settings::{opt_doc_view, opt_view, settings_document, Settings, SettingsView};
use vstd::prelude::*;

verus! {

/// The only method the listener answers.
pub const POST_METHOD: &'static str = "POST";

/// Identifier of the custom notification surface.
pub const NOTIFICATION_LABEL: &'static str = "notification_dialog";

/// Event that refreshes an open notification surface.
pub const UPDATE_EVENT: &'static str = "update_notification";

/// Event broadcast to UI components after settings are saved.
pub const SETTINGS_EVENT: &'static str = "settings-updated";

/// Title of native notifications.
pub const NATIVE_TITLE: &'static str = "Daylit";

/// What the listener does with a request before reading its body.
#[derive(PartialEq, Eq, Structural, Clone, Copy, Debug)]
pub enum Admission {
    /// Not a POST: no response at all.
    Ignore,
    /// Missing or wrong secret: answer 401.
    Unauthorized,
    /// Authentic POST: read the body.
    ReadBody,
}

/// A response of the listener.
#[derive(PartialEq, Eq, Structural, Clone, Copy, Debug)]
pub enum Reply {
    Triggered,
    Unauthorized,
    InvalidPayload,
}

impl Reply {
    pub fn status(&self) -> (c: u16)
        ensures
            c == match self {
                Reply::Triggered => 200u16,
                Reply::Unauthorized => 401u16,
                Reply::InvalidPayload => 400u16,
            },
    {
        match self {
            Reply::Triggered => 200,
            Reply::Unauthorized => 401,
            Reply::InvalidPayload => 400,
        }
    }

    pub fn body(&self) -> (t: &'static str)
        ensures
            t@ == match self {
                Reply::Triggered => "Notification triggered"@,
                Reply::Unauthorized => "Unauthorized"@,
                Reply::InvalidPayload => "Invalid payload"@,
            },
    {
        match self {
            Reply::Triggered => "Notification triggered",
            Reply::Unauthorized => "Unauthorized",
            Reply::InvalidPayload => "Invalid payload",
        }
    }
}

/// The work handed to the UI for an accepted payload.
pub enum HandOff {
    /// Show a native notification with this text.
    Native(String),
    /// Show the payload on the custom surface, on the GUI main thread.
    Surface(WebhookPayload),
}

pub enum HandOffView {
    Native(Seq<char>),
    Surface(PayloadView),
}

impl View for HandOff {
    type V = HandOffView;

    open spec fn view(&self) -> HandOffView {
        match self {
            HandOff::Native(t) => HandOffView::Native(t@),
            HandOff::Surface(p) => HandOffView::Surface(p@),
        }
    }
}

pub open spec fn handoff_of(p: PayloadView, native: bool) -> HandOffView {
    if native {
        HandOffView::Native(p.text)
    } else {
        HandOffView::Surface(p)
    }
}

/// The listener's answer to an authentic request with its body read, and
/// the hand-off it submits (if any).
pub struct Served {
    pub reply: Reply,
    pub handoff: Option<HandOff>,
}

pub open spec fn opt_handoff_view(h: Option<HandOff>) -> Option<HandOffView> {
    match h {
        Some(x) => Some(x@),
        None => None,
    }
}

/// State shared by the listener, the UI commands and the settings-save path:
/// the last accepted payload, the directory of the current lockfile and the
/// shared secret.
pub struct AppState {
    pub payload: Option<WebhookPayload>,
    pub lockfile_dir: Option<String>,
    pub secret: Option<String>,
}

pub struct AppStateView {
    pub payload: Option<PayloadView>,
    pub lockfile_dir: Option<Seq<char>>,
    pub secret: Option<Seq<char>>,
}

impl View for AppState {
    type V = AppStateView;

    open spec fn view(&self) -> AppStateView {
        AppStateView {
            payload: match self.payload {
                Some(p) => Some(p@),
                None => None,
            },
            lockfile_dir: opt_view(self.lockfile_dir),
            secret: opt_view(self.secret),
        }
    }
}

/// A payload the listener can have accepted.
pub open spec fn acceptable(p: PayloadView) -> bool {
    valid_text(p.text) && p.duration_ms > 0
}

impl AppStateView {
    /// The last-payload slot only ever holds an acceptable payload, and a
    /// secret in place is well formed.
    pub open spec fn wf(self) -> bool {
        &&& (self.payload matches Some(p) ==> acceptable(p))
        &&& (self.secret matches Some(s) ==> is_secret(s))
    }
}

/// How a request is admitted: only POSTs are answered, and only those whose
/// secret header matches a secret that is in place get their body read.
pub open spec fn admission_of(
    secret: Option<Seq<char>>,
    method: Seq<char>,
    headers: Seq<Header>,
) -> Admission {
    if method != POST_METHOD@ {
        Admission::Ignore
    } else {
        match secret {
            Some(s) => if authentic(headers, s) {
                Admission::ReadBody
            } else {
                Admission::Unauthorized
            },
            None => Admission::Unauthorized,
        }
    }
}

/// The state after an admitted body, the reply and the hand-off: a valid
/// payload replaces the last-payload slot and is handed off once; anything
/// else changes nothing and hands nothing off.
pub open spec fn accept_outcome(
    s: AppStateView,
    body: Option<Seq<(Seq<char>, JsonModel)>>,
    native: bool,
) -> (AppStateView, Reply, Option<HandOffView>) {
    let p = match body {
        Some(d) => payload_of(d),
        None => None,
    };
    match p {
        Some(p) => (
            AppStateView { payload: Some(p), ..s },
            Reply::Triggered,
            Some(handoff_of(p, native)),
        ),
        None => (s, Reply::InvalidPayload, None),
    }
}

fn clone_opt_string(o: &Option<String>) -> (r: Option<String>)
    ensures
        opt_view(r) == opt_view(*o),
{
    match o {
        Some(s) => Some(s.clone()),
        None => None,
    }
}

impl AppState {
    pub fn new() -> (s: AppState)
        ensures
            s@ == (AppStateView { payload: None, lockfile_dir: None, secret: None }),
            s@.wf(),
    {
        AppState { payload: None, lockfile_dir: None, secret: None }
    }

    /// Decides what to do with a request from its method and headers.
    pub fn screen(&self, method: &str, headers: &[Header]) -> (a: Admission)
        ensures
            a == admission_of(self@.secret, method@, headers@),
    {
        if !str_eq(method, POST_METHOD) {
            return Admission::Ignore;
        }
        match &self.secret {
            Some(s) => if validate_request(headers, s.as_str()) {
                Admission::ReadBody
            } else {
                Admission::Unauthorized
            },
            None => Admission::Unauthorized,
        }
    }

    /// Handles the body of an admitted request: `body` is the parsed JSON
    /// object, `None` when the body is not one.
    pub fn accept_body(&mut self, body: Option<&Document>, settings: &Settings) -> (r: Served)
        ensures
            accept_outcome(old(self)@, opt_doc_view(body), settings@.use_native_notifications)
                == (final(self)@, r.reply, opt_handoff_view(r.handoff)),
            old(self)@.wf() ==> final(self)@.wf(),
    {
        let parsed = match body {
            Some(d) => WebhookPayload::from_document(d),
            None => None,
        };
        match parsed {
            Some(p) => {
                self.payload = Some(p.clone());
                let handoff = if settings.use_native_notifications {
                    HandOff::Native(p.text)
                } else {
                    HandOff::Surface(p)
                };
                Served { reply: Reply::Triggered, handoff: Some(handoff) }
            },
            None => Served { reply: Reply::InvalidPayload, handoff: None },
        }
    }

    /// The last accepted payload, if any.
    pub fn notification_payload(&self) -> (r: Option<WebhookPayload>)
        ensures
            match r {
                Some(p) => self@.payload == Some(p@),
                None => self@.payload is None,
            },
    {
        match &self.payload {
            Some(p) => Some(p.clone()),
            None => None,
        }
    }

    /// Generates the run's shared secret and keeps it for authentication;
    /// `None`, with nothing changed, when no randomness is available.
    pub fn install_secret(&mut self) -> (r: Option<String>)
        ensures
            match r {
                Some(s) => is_secret(s@) && final(self)@ == (AppStateView {
                    secret: Some(s@),
                    ..old(self)@
                }),
                None => final(self)@ == old(self)@,
            },
            old(self)@.wf() ==> final(self)@.wf(),
    {
        match generate_secret() {
            Some(s) => {
                self.secret = Some(s.clone());
                Some(s)
            },
            None => None,
        }
    }

    /// Records the directory that now holds the lockfile.
    pub fn record_lockfile(&mut self, dir: &str)
        ensures
            final(self)@ == (AppStateView { lockfile_dir: Some(dir@), ..old(self)@ }),
            old(self)@.wf() ==> final(self)@.wf(),
    {
        self.lockfile_dir = Some(dir.to_owned());
    }

    /// The directory whose lockfile shutdown removes, if one was written.
    pub fn lockfile_to_remove(&self) -> (r: Option<String>)
        ensures
            opt_view(r) == self@.lockfile_dir,
    {
        clone_opt_string(&self.lockfile_dir)
    }
}


/// What the GUI main thread does with a payload for the custom surface.
pub enum SurfaceAction {
    /// A surface is open: refresh it in place with this event payload.
    Update(UpdatePayload),
    /// No surface is open: build one; it reads the last payload itself.
    Create,
}

/// Decides, on the GUI main thread, between refreshing the open surface and
/// creating one: a surface that exists is always reused.
pub fn surface_action(surface_exists: bool, payload: &WebhookPayload) -> (a: SurfaceAction)
    ensures
        surface_exists ==> (a matches SurfaceAction::Update(u) && u.text@ == payload.text@
            && u.duration_ms == payload.duration_ms),
        !surface_exists ==> a is Create,
{
    if surface_exists {
        SurfaceAction::Update(payload.to_update())
    } else {
        SurfaceAction::Create
    }
}

/// Whether a window is the notification surface, the only one the close
/// command may close.
pub fn is_notification_surface(label: &str) -> (r: bool)
    ensures
        r == (label@ == NOTIFICATION_LABEL@),
{
    str_eq(label, NOTIFICATION_LABEL)
}

/// One step of saving settings; the steps run in order and the first that
/// fails ends the save.
pub enum SaveStep {
    /// Enable (`true`) or disable auto-launch at login.
    SetAutostart(bool),
    /// Move the lockfile from one directory to another, then record the new
    /// directory.
    MoveLockfile { from: String, to: String },
    /// Replace the stored settings document and flush it.
    Persist(Document),
    /// Tell UI components that settings changed.
    Broadcast,
}

pub enum SaveStepView {
    SetAutostart(bool),
    MoveLockfile { from: Seq<char>, to: Seq<char> },
    Persist(Seq<(Seq<char>, JsonModel)>),
    Broadcast,
}

impl View for SaveStep {
    type V = SaveStepView;

    open spec fn view(&self) -> SaveStepView {
        match self {
            SaveStep::SetAutostart(b) => SaveStepView::SetAutostart(*b),
            SaveStep::MoveLockfile { from, to } => SaveStepView::MoveLockfile {
                from: from@,
                to: to@,
            },
            SaveStep::Persist(d) => SaveStepView::Persist(d@),
            SaveStep::Broadcast => SaveStepView::Broadcast,
        }
    }
}

/// The steps of saving `settings`: auto-launch first, then a lockfile move
/// when a lockfile exists and its directory changes, then the document, then
/// the broadcast. `new_dir` is where the lockfile belongs under `settings`.
pub open spec fn save_steps(
    current_dir: Option<Seq<char>>,
    settings: SettingsView,
    new_dir: Seq<char>,
) -> Seq<SaveStepView> {
    let relocation = match current_dir {
        Some(old) => if old != new_dir {
            seq![SaveStepView::MoveLockfile { from: old, to: new_dir }]
        } else {
            Seq::empty()
        },
        None => Seq::empty(),
    };
    seq![SaveStepView::SetAutostart(settings.launch_at_login)] + relocation + seq![
        SaveStepView::Persist(settings_document(settings)),
        SaveStepView::Broadcast,
    ]
}

pub open spec fn steps_view(v: Seq<SaveStep>) -> Seq<SaveStepView> {
    v.map_values(|x: SaveStep| x@)
}

impl AppState {
    /// Plans saving `settings`; `default_dir` is the platform's per-user
    /// configuration directory, needed only when the settings name no
    /// lockfile directory. `None` when the lockfile's directory cannot be
    /// told.
    pub fn plan_save(&self, settings: &Settings, default_dir: Option<&str>) -> (r: Option<
        Vec<SaveStep>,
    >)
        ensures
            match lockfile_dir_of(
                settings@.lockfile_dir,
                match default_dir {
                    Some(d) => Some(d@),
                    None => None,
                },
            ) {
                Some(new_dir) => r matches Some(steps) && steps_view(steps@) == save_steps(
                    self@.lockfile_dir,
                    settings@,
                    new_dir,
                ),
                None => r is None,
            },
    {
        let new_dir = match lockfile_dir(settings, default_dir) {
            Some(d) => d,
            None => return None,
        };
        let ghost target = new_dir@;
        let mut steps: Vec<SaveStep> = Vec::new();
        steps.push(SaveStep::SetAutostart(settings.launch_at_login));
        if let Some(old) = &self.lockfile_dir {
            if !str_eq(old.as_str(), new_dir.as_str()) {
                steps.push(SaveStep::MoveLockfile { from: old.clone(), to: new_dir });
            }
        }
        steps.push(SaveStep::Persist(settings.to_document()));
        steps.push(SaveStep::Broadcast);
        proof {
            assert(steps_view(steps@) =~= save_steps(self@.lockfile_dir, settings@, target));
        }
        Some(steps)
    }
}

/// A request as the listener sees it: method, headers, the body parsed as a
/// JSON object (`None` when it is not one) and whether native notifications
/// were on when it was served.
pub struct RequestModel {
    pub method: Seq<char>,
    pub headers: Seq<Header>,
    pub body: Option<Seq<(Seq<char>, JsonModel)>>,
    pub native: bool,
}

/// One request served: admission, then the body.
pub open spec fn serve(s: AppStateView, r: RequestModel) -> (AppStateView, Option<HandOffView>) {
    if admission_of(s.secret, r.method, r.headers) == Admission::ReadBody {
        let o = accept_outcome(s, r.body, r.native);
        (o.0, o.2)
    } else {
        (s, None)
    }
}

/// Requests served one at a time in order: the final state and the hand-offs
/// submitted, in submission order.
pub open spec fn serve_all(s: AppStateView, rs: Seq<RequestModel>) -> (
    AppStateView,
    Seq<HandOffView>,
)
    decreases rs.len(),
{
    if rs.len() == 0 {
        (s, Seq::empty())
    } else {
        let before = serve_all(s, rs.drop_last());
        let step = serve(before.0, rs.last());
        match step.1 {
            Some(h) => (step.0, before.1.push(h)),
            None => (step.0, before.1),
        }
    }
}

/// The payload a request gets accepted with, if it is an authentic POST
/// with a valid payload.
pub open spec fn accepted_payload(secret: Option<Seq<char>>, r: RequestModel) -> Option<
    PayloadView,
> {
    if admission_of(secret, r.method, r.headers) == Admission::ReadBody {
        match r.body {
            Some(d) => payload_of(d),
            None => None,
        }
    } else {
        None
    }
}

/// The accepted requests, in order, with their payloads.
pub open spec fn accepted(secret: Option<Seq<char>>, rs: Seq<RequestModel>) -> Seq<
    (PayloadView, bool),
>
    decreases rs.len(),
{
    if rs.len() == 0 {
        Seq::empty()
    } else {
        let before = accepted(secret, rs.drop_last());
        match accepted_payload(secret, rs.last()) {
            Some(p) => before.push((p, rs.last().native)),
            None => before,
        }
    }
}

/// Serving any sequence of requests submits exactly one hand-off per
/// accepted request, in acceptance order, and leaves the last-payload slot
/// holding the most recently accepted payload (untouched when none was
/// accepted); the secret and the lockfile directory do not change, and a
/// well-formed state stays well formed.
pub proof fn lemma_serial_requests(s: AppStateView, rs: Seq<RequestModel>)
    ensures
        ({
            let (fin, handoffs) = serve_all(s, rs);
            let acc = accepted(s.secret, rs);
            &&& handoffs == acc.map_values(|a: (PayloadView, bool)| handoff_of(a.0, a.1))
            &&& fin.payload == if acc.len() == 0 {
                s.payload
            } else {
                Some(acc.last().0)
            }
            &&& fin.secret == s.secret
            &&& fin.lockfile_dir == s.lockfile_dir
            &&& s.wf() ==> fin.wf()
        }),
    decreases rs.len(),
{
    if rs.len() > 0 {
        lemma_serial_requests(s, rs.drop_last());
        let before = serve_all(s, rs.drop_last());
        let acc0 = accepted(s.secret, rs.drop_last());
        let acc = accepted(s.secret, rs);
        assert(before.1 == acc0.map_values(|a: (PayloadView, bool)| handoff_of(a.0, a.1)));
        assert(serve_all(s, rs).1 =~= acc.map_values(
            |a: (PayloadView, bool)| handoff_of(a.0, a.1),
        ));
    }
}

/// A change to where lockfiles exist, as the host performs it.
pub enum LockfileEvent {
    /// The listener wrote the lockfile into a directory and recorded it.
    Published(Seq<char>),
    /// A save moved the lockfile and recorded the new directory.
    Moved { from: Seq<char>, to: Seq<char> },
}

/// The directories holding a lockfile, and the recorded directory, after an
/// event.
pub open spec fn after_event(files: Set<Seq<char>>, slot: Option<Seq<char>>, e: LockfileEvent) -> (
    Set<Seq<char>>,
    Option<Seq<char>>,
) {
    match e {
        LockfileEvent::Published(d) => (files.insert(d), Some(d)),
        LockfileEvent::Moved { from, to } => (files.remove(from).insert(to), Some(to)),
    }
}

pub open spec fn after_events(
    files: Set<Seq<char>>,
    slot: Option<Seq<char>>,
    es: Seq<LockfileEvent>,
) -> (Set<Seq<char>>, Option<Seq<char>>)
    decreases es.len(),
{
    if es.len() == 0 {
        (files, slot)
    } else {
        let before = after_events(files, slot, es.drop_last());
        after_event(before.0, before.1, es.last())
    }
}

/// The order a daemon run follows: the listener publishes only while no
/// lockfile is recorded (once, at startup), and every move starts from the
/// recorded directory, as the moves that `plan_save` plans do.
pub open spec fn lifecycle_order(es: Seq<LockfileEvent>) -> bool
    decreases es.len(),
{
    if es.len() == 0 {
        true
    } else {
        let recorded = after_events(Set::empty(), None, es.drop_last()).1;
        &&& lifecycle_order(es.drop_last())
        &&& match es.last() {
            LockfileEvent::Published(_) => recorded is None,
            LockfileEvent::Moved { from, .. } => recorded == Some(from),
        }
    }
}

/// Over any run that starts with no lockfile, every lockfile that exists is
/// in the recorded directory; so removing the lockfile there at shutdown
/// leaves none at all.
pub proof fn lemma_shutdown_leaves_no_lockfile(es: Seq<LockfileEvent>)
    requires
        lifecycle_order(es),
    ensures
        ({
            let (files, slot) = after_events(Set::empty(), None, es);
            &&& forall|d: Seq<char>| files.contains(d) ==> slot == Some(d)
            &&& match slot {
                Some(d) => files.remove(d) =~= Set::<Seq<char>>::empty(),
                None => files =~= Set::<Seq<char>>::empty(),
            }
        }),
    decreases es.len(),
{
    let (files, slot) = after_events(Set::empty(), None, es);
    if es.len() > 0 {
        lemma_shutdown_leaves_no_lockfile(es.drop_last());
        let (f0, s0) = after_events(Set::empty(), None, es.drop_last());
        assert(forall|d: Seq<char>| f0.contains(d) ==> s0 == Some(d));
        match es.last() {
            LockfileEvent::Published(p) => {
                assert forall|d: Seq<char>| files.contains(d) implies slot == Some(d) by {
                    if d != p {
                        assert(f0.contains(d));
                        assert(s0 == Some(d));
                    }
                }
            },
            LockfileEvent::Moved { from, to } => {
                assert(s0 == Some(from));
                assert forall|d: Seq<char>| files.contains(d) implies slot == Some(d) by {
                    if d != to {
                        assert(f0.contains(d) && d != from);
                    }
                }
            },
        }
    }
    match slot {
        Some(d) => {
            assert forall|x: Seq<char>| !files.remove(d).contains(x) by {
                if files.contains(x) {
                    assert(slot == Some(x));
                }
            }
        },
        None => {
            assert forall|x: Seq<char>| !files.contains(x) by {
                if files.contains(x) {
                    assert(slot == Some(x));
                }
            }
        },
    }
}

} // verus!
