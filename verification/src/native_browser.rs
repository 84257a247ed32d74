//! Native browser panel: one real webview hosted inside the app window.
//!
//! The shell owns the webview; this module owns every decision about it. An
//! operation on the panel is a run: it begins with a request, asks the shell
//! for one action at a time, hears how each one went, and ends with a result.

use crate::base64_text;
use crate::panel_bridge;
use crate::panel_bridge::Relay;
use crate::panel_bridge::RelayModel;
use crate::text;
use crate::web_url;
use crate::web_url::WebUrl;
use vstd::prelude::*;
use vstd::string::*;

verus! {

/// A logical window coordinate, or a length: the bits of an IEEE 754 double.
#[derive(Clone, Copy, Debug, PartialEq, Eq, Structural)]
pub struct Coordinate {
    pub bits: u64,
}

/// Whether a double is less than one, by its bits: a positive one is where its
/// bits are below those of one; a negative one always is; not-a-number never is.
pub open spec fn is_below_one(value: Coordinate) -> bool {
    if value.bits < 0x8000_0000_0000_0000 {
        value.bits < 0x3ff0_0000_0000_0000
    } else {
        value.bits <= 0xfff0_0000_0000_0000
    }
}

/// Whether a double is less than one.
pub fn below_one(value: Coordinate) -> (below: bool)
    ensures
        below == is_below_one(value),
{
    if value.bits < 0x8000_0000_0000_0000 {
        value.bits < 0x3ff0_0000_0000_0000
    } else {
        value.bits <= 0xfff0_0000_0000_0000
    }
}

/// A request to open the panel.
#[derive(Debug)]
pub struct OpenRequest {
    /// Caller-owned identity: a new session replaces the current panel.
    pub session: String,
    pub url: String,
    pub x: Coordinate,
    pub y: Coordinate,
    pub width: Coordinate,
    pub height: Coordinate,
    /// Script injected before page scripts on every navigation.
    pub bootstrap: String,
    /// Loopback endpoint the panel's page messages are relayed to.
    pub endpoint: Option<String>,
}

/// A request to move, resize or hide the panel.
#[derive(Debug)]
pub struct BoundsRequest {
    pub x: Coordinate,
    pub y: Coordinate,
    pub width: Coordinate,
    pub height: Coordinate,
    /// Hide the panel without destroying it (for example while its tab is hidden).
    pub visible: Option<bool>,
}

/// A navigation or script command for the panel.
#[derive(Debug)]
pub struct CommandRequest {
    /// One of `navigate`, `reload`, `back`, `forward`, `eval`, `close`.
    pub kind: String,
    pub url: Option<String>,
    pub script: Option<String>,
}

/// Where the panel actually sits, in logical window coordinates.
#[derive(Clone, Copy, Debug, PartialEq, Eq, Structural)]
pub struct PanelBounds {
    pub x: Coordinate,
    pub y: Coordinate,
    pub width: Coordinate,
    pub height: Coordinate,
}

/// What the panel currently shows.
#[derive(Debug)]
pub struct PanelState {
    pub open: bool,
    pub session: Option<String>,
    pub url: Option<String>,
    /// What the shell applied, so a placement mismatch can be measured.
    pub bounds: Option<PanelBounds>,
    /// Whether the page-to-host relay is armed (the panel's only channel on an
    /// HTTPS page, where the engine blocks a loopback request).
    pub relay: bool,
}

/// The panel that is open, with texts of type `T`.
#[derive(Debug, PartialEq, Eq)]
pub struct Panel<T> {
    pub session: T,
    /// Relay target that this panel's message handler posts to.
    pub endpoint: Option<T>,
    /// The injected bootstrap that this panel was created with: a caller that
    /// wants a different bootstrap needs a different panel, because init scripts
    /// are registered at creation and run on every navigation.
    pub bootstrap: T,
}

/// The panel that an operation is to create.
#[derive(Debug, PartialEq, Eq)]
pub struct Goal<T> {
    pub session: T,
    pub endpoint: Option<T>,
    pub bootstrap: T,
    pub url: T,
    pub x: Coordinate,
    pub y: Coordinate,
    pub width: Coordinate,
    pub height: Coordinate,
}

/// What the shell needs to create the panel's webview.
#[derive(Debug, PartialEq, Eq)]
pub struct Creation<T> {
    pub label: T,
    pub url: T,
    /// The persistent web data directory, by its name in the app data directory.
    pub data_dir: T,
    /// Script to run before page scripts on every navigation, if there is one.
    pub script: Option<T>,
    pub x: Coordinate,
    pub y: Coordinate,
    pub width: Coordinate,
    pub height: Coordinate,
}

/// One thing that the shell is asked to do.
#[derive(Debug, PartialEq, Eq)]
pub enum Action<T> {
    /// Move the webview.
    SetPosition { x: Coordinate, y: Coordinate },
    /// Resize the webview.
    SetSize { width: Coordinate, height: Coordinate },
    /// Show the webview.
    Show,
    /// Hide the webview.
    Hide,
    /// Tell which address the webview is at.
    ReadUrl,
    /// Load an address in the webview.
    Navigate { url: T },
    /// Reload the webview.
    Reload,
    /// Run a script in the webview.
    Eval { script: T },
    /// Close the webview.
    Close,
    /// Look up the main window.
    FindWindow,
    /// Make sure that the persistent web data directory, of this name in the app
    /// data directory, exists.
    PrepareDataDir { name: T },
    /// Create the webview in the main window.
    Create(Creation<T>),
    /// Install the script message handler on the webview.
    InstallHandler,
}

/// How an action went.
#[derive(Debug, PartialEq, Eq)]
pub enum Event<T> {
    /// It was done.
    Done,
    /// It could not be done, with the reason.
    Failed(T),
    /// The address that the webview is at, if it is known.
    CurrentUrl(Option<T>),
    /// Whether the webview carries the script message handler now.
    HandlerInstalled(bool),
    /// The app data directory is not known, with the reason.
    DataDirUnresolved(T),
    /// The web data directory could not be created, with the reason.
    DataDirNotCreated { dir: T, error: T },
}

/// How far an operation has come.
#[derive(Debug, PartialEq, Eq)]
pub enum Progress<T> {
    /// It needs this action.
    Act(Action<T>),
    /// It is over, with this result.
    Finished(Result<(), T>),
}

/// Which action an operation is waiting for, and what it is to do afterwards.
#[derive(Debug, PartialEq, Eq)]
pub enum Phase<T> {
    /// No operation is under way.
    Idle,
    /// The webview is being moved; it is to be resized and shown, and then to be
    /// at the address in `then`, if there is one.
    Moving { width: Coordinate, height: Coordinate, then: Option<T> },
    /// The webview is being resized.
    Resizing { then: Option<T> },
    /// The webview is being shown.
    Showing { then: Option<T> },
    /// The webview is being asked for its address.
    Comparing { url: T },
    /// The last action is being taken, and its outcome is the result.
    Ending,
    /// The webview is being closed; then a panel is to be created, if one is
    /// given.
    Closing { next: Option<Goal<T>> },
    /// The main window is being looked up.
    Locating { goal: Goal<T> },
    /// The web data directory is being prepared.
    Preparing { goal: Goal<T> },
    /// The webview is being created.
    Creating { goal: Goal<T> },
    /// The message handler is being installed on the new webview.
    Attaching { goal: Goal<T> },
}

/// The panel and the operation on it, over their texts.
pub struct Browser {
    pub panel: Option<Panel<Seq<char>>>,
    pub phase: Phase<Seq<char>>,
}

impl View for Panel<String> {
    type V = Panel<Seq<char>>;

    open spec fn view(&self) -> Panel<Seq<char>> {
        Panel {
            session: self.session@,
            endpoint: text::optional(self.endpoint),
            bootstrap: self.bootstrap@,
        }
    }
}

impl View for Goal<String> {
    type V = Goal<Seq<char>>;

    open spec fn view(&self) -> Goal<Seq<char>> {
        Goal {
            session: self.session@,
            endpoint: text::optional(self.endpoint),
            bootstrap: self.bootstrap@,
            url: self.url@,
            x: self.x,
            y: self.y,
            width: self.width,
            height: self.height,
        }
    }
}

impl View for Creation<String> {
    type V = Creation<Seq<char>>;

    open spec fn view(&self) -> Creation<Seq<char>> {
        Creation {
            label: self.label@,
            url: self.url@,
            data_dir: self.data_dir@,
            script: text::optional(self.script),
            x: self.x,
            y: self.y,
            width: self.width,
            height: self.height,
        }
    }
}

impl View for Action<String> {
    type V = Action<Seq<char>>;

    open spec fn view(&self) -> Action<Seq<char>> {
        match *self {
            Action::SetPosition { x, y } => Action::SetPosition { x, y },
            Action::SetSize { width, height } => Action::SetSize { width, height },
            Action::Show => Action::Show,
            Action::Hide => Action::Hide,
            Action::ReadUrl => Action::ReadUrl,
            Action::Navigate { url } => Action::Navigate { url: url@ },
            Action::Reload => Action::Reload,
            Action::Eval { script } => Action::Eval { script: script@ },
            Action::Close => Action::Close,
            Action::FindWindow => Action::FindWindow,
            Action::PrepareDataDir { name } => Action::PrepareDataDir { name: name@ },
            Action::Create(creation) => Action::Create(creation@),
            Action::InstallHandler => Action::InstallHandler,
        }
    }
}

impl View for Event<String> {
    type V = Event<Seq<char>>;

    open spec fn view(&self) -> Event<Seq<char>> {
        match *self {
            Event::Done => Event::Done,
            Event::Failed(error) => Event::Failed(error@),
            Event::CurrentUrl(url) => Event::CurrentUrl(text::optional(url)),
            Event::HandlerInstalled(installed) => Event::HandlerInstalled(installed),
            Event::DataDirUnresolved(error) => Event::DataDirUnresolved(error@),
            Event::DataDirNotCreated { dir, error } => Event::DataDirNotCreated {
                dir: dir@,
                error: error@,
            },
        }
    }
}

impl View for Progress<String> {
    type V = Progress<Seq<char>>;

    open spec fn view(&self) -> Progress<Seq<char>> {
        match *self {
            Progress::Act(action) => Progress::Act(action@),
            Progress::Finished(Ok(_)) => Progress::Finished(Ok(())),
            Progress::Finished(Err(error)) => Progress::Finished(Err(error@)),
        }
    }
}

impl View for Phase<String> {
    type V = Phase<Seq<char>>;

    open spec fn view(&self) -> Phase<Seq<char>> {
        match *self {
            Phase::Idle => Phase::Idle,
            Phase::Moving { width, height, then } => Phase::Moving {
                width,
                height,
                then: text::optional(then),
            },
            Phase::Resizing { then } => Phase::Resizing { then: text::optional(then) },
            Phase::Showing { then } => Phase::Showing { then: text::optional(then) },
            Phase::Comparing { url } => Phase::Comparing { url: url@ },
            Phase::Ending => Phase::Ending,
            Phase::Closing { next: Some(goal) } => Phase::Closing { next: Some(goal@) },
            Phase::Closing { next: None } => Phase::Closing { next: None },
            Phase::Locating { goal } => Phase::Locating { goal: goal@ },
            Phase::Preparing { goal } => Phase::Preparing { goal: goal@ },
            Phase::Creating { goal } => Phase::Creating { goal: goal@ },
            Phase::Attaching { goal } => Phase::Attaching { goal: goal@ },
        }
    }
}

impl View for OpenRequest {
    type V = Goal<Seq<char>>;

    open spec fn view(&self) -> Goal<Seq<char>> {
        Goal {
            session: self.session@,
            endpoint: text::optional(self.endpoint),
            bootstrap: self.bootstrap@,
            url: self.url@,
            x: self.x,
            y: self.y,
            width: self.width,
            height: self.height,
        }
    }
}

/// What one move of an operation comes to: the panel, the relay, and how far
/// the operation has come.
pub struct Step {
    pub browser: Browser,
    pub relay: RelayModel,
    pub progress: Progress<Seq<char>>,
}

impl Browser {
    /// No operation is under way.
    pub open spec fn idle(self) -> bool {
        self.phase is Idle
    }

    /// An operation on the panel goes with a panel, and one that is to create a
    /// panel goes without.
    pub open spec fn well_formed(self) -> bool {
        match self.phase {
            Phase::Idle => true,
            Phase::Moving { .. }
            | Phase::Resizing { .. }
            | Phase::Showing { .. }
            | Phase::Comparing { .. }
            | Phase::Ending => self.panel is Some,
            _ => self.panel is None,
        }
    }

    /// Whether the shell holds a webview.
    pub open spec fn live(self) -> bool {
        self.panel is Some || self.phase is Closing || self.phase is Attaching
    }

    /// The address that an operation is on its way to.
    pub open spec fn destination(self) -> Option<Seq<char>> {
        match self.phase {
            Phase::Moving { then, .. } => then,
            Phase::Resizing { then } => then,
            Phase::Showing { then } => then,
            Phase::Comparing { url } => Some(url),
            Phase::Closing { next: Some(goal) } => Some(goal.url),
            Phase::Locating { goal } => Some(goal.url),
            Phase::Preparing { goal } => Some(goal.url),
            Phase::Creating { goal } => Some(goal.url),
            Phase::Attaching { goal } => Some(goal.url),
            _ => None,
        }
    }

    /// The operation ends here, with this result.
    pub open spec fn finish(self, relay: RelayModel, result: Result<(), Seq<char>>) -> Step {
        Step {
            browser: Browser { panel: self.panel, phase: Phase::Idle },
            relay,
            progress: Progress::Finished(result),
        }
    }

    /// The operation goes on with this action.
    pub open spec fn act(
        self,
        relay: RelayModel,
        phase: Phase<Seq<char>>,
        action: Action<Seq<char>>,
    ) -> Step {
        Step {
            browser: Browser { panel: self.panel, phase },
            relay,
            progress: Progress::Act(action),
        }
    }

    /// The panel leaves, and the relay loses its target with it; what is next
    /// follows once its webview is closed.
    pub open spec fn close(self, next: Option<Goal<Seq<char>>>) -> Step {
        Step {
            browser: Browser { panel: None, phase: Phase::Closing { next } },
            relay: RelayModel { endpoint: None, armed: false },
            progress: Progress::Act(Action::Close),
        }
    }

    /// Opens the panel for a request whose address parsed to `parsed`.
    ///
    /// The panel of the same session, with the same bootstrap, is moved and
    /// shown, and goes to the address if it is elsewhere; its relay gets the new
    /// target, and still has its handler. Any other panel is closed first, and a
    /// new one is created.
    pub open spec fn open_parsed(
        self,
        relay: RelayModel,
        request: Goal<Seq<char>>,
        parsed: Result<(Seq<char>, Seq<char>), Seq<char>>,
    ) -> Step {
        match parsed {
            Err(error) => self.finish(relay, Err("invalid panel url: "@ + error)),
            Ok((scheme, url)) => if scheme != "http"@ && scheme != "https"@ {
                self.finish(relay, Err("panel url must be http(s)"@))
            } else {
                let goal = Goal { url, ..request };
                match self.panel {
                    Some(panel) => if panel.session == request.session && panel.bootstrap
                        == request.bootstrap {
                        Step {
                            browser: Browser {
                                panel: Some(Panel { endpoint: request.endpoint, ..panel }),
                                phase: Phase::Moving {
                                    width: request.width,
                                    height: request.height,
                                    then: Some(url),
                                },
                            },
                            relay: RelayModel { endpoint: request.endpoint, armed: relay.armed },
                            progress: Progress::Act(
                                Action::SetPosition { x: request.x, y: request.y },
                            ),
                        }
                    } else {
                        self.close(Some(goal))
                    },
                    None => self.act(relay, Phase::Locating { goal }, Action::FindWindow),
                }
            },
        }
    }

    /// Opens the panel for a request.
    pub open spec fn open(self, relay: RelayModel, request: Goal<Seq<char>>) -> Step {
        if is_below_one(request.width) || is_below_one(request.height) {
            self.finish(relay, Err("panel needs a positive size"@))
        } else {
            self.open_parsed(relay, request, web_url::parsed_url(request.url))
        }
    }

    /// Moves, resizes or hides the panel.
    pub open spec fn bounds(self, relay: RelayModel, request: BoundsRequest) -> Step {
        if self.panel is None {
            self.finish(relay, Err("no browser panel is open"@))
        } else if request.visible == Some(false) {
            self.act(relay, Phase::Ending, Action::Hide)
        } else {
            self.act(
                relay,
                Phase::Moving { width: request.width, height: request.height, then: None },
                Action::SetPosition { x: request.x, y: request.y },
            )
        }
    }

    /// Takes the panel to the address that parsed to `parsed`.
    pub open spec fn navigate(
        self,
        relay: RelayModel,
        parsed: Result<(Seq<char>, Seq<char>), Seq<char>>,
    ) -> Step {
        match parsed {
            Err(error) => self.finish(relay, Err("invalid url: "@ + error)),
            Ok((_, url)) => self.act(relay, Phase::Ending, Action::Navigate { url }),
        }
    }

    /// Runs one navigation or script command.
    pub open spec fn command(
        self,
        relay: RelayModel,
        kind: Seq<char>,
        url: Option<Seq<char>>,
        script: Option<Seq<char>>,
    ) -> Step {
        if kind == "close"@ {
            if self.panel is Some {
                self.close(None)
            } else {
                self.finish(relay, Ok(()))
            }
        } else if self.panel is None {
            self.finish(relay, Err("no browser panel is open"@))
        } else if kind == "reload"@ {
            self.act(relay, Phase::Ending, Action::Reload)
        } else if kind == "back"@ {
            self.act(relay, Phase::Ending, Action::Eval { script: BACK_SCRIPT@ })
        } else if kind == "forward"@ {
            self.act(relay, Phase::Ending, Action::Eval { script: FORWARD_SCRIPT@ })
        } else if kind == "navigate"@ {
            match url {
                None => self.finish(relay, Err("navigate needs a url"@)),
                Some(url) => self.navigate(relay, web_url::parsed_url(url)),
            }
        } else if kind == "eval"@ {
            match script {
                None => self.finish(relay, Err("eval needs a script"@)),
                Some(script) => self.act(relay, Phase::Ending, Action::Eval { script }),
            }
        } else {
            self.finish(relay, Err("unsupported panel command: "@ + kind))
        }
    }

    /// Goes on after the action that the operation was waiting for.
    pub open spec fn resume(self, relay: RelayModel, event: Event<Seq<char>>) -> Step {
        match self.phase {
            Phase::Idle => self.finish(relay, Ok(())),
            Phase::Moving { width, height, then } => match failure(event) {
                Some(error) => self.finish(relay, Err(error)),
                None => self.act(
                    relay,
                    Phase::Resizing { then },
                    Action::SetSize { width, height },
                ),
            },
            Phase::Resizing { then } => match failure(event) {
                Some(error) => self.finish(relay, Err(error)),
                None => self.act(relay, Phase::Showing { then }, Action::Show),
            },
            Phase::Showing { then } => match (failure(event), then) {
                (Some(error), _) => self.finish(relay, Err(error)),
                (None, None) => self.finish(relay, Ok(())),
                (None, Some(url)) => self.act(relay, Phase::Comparing { url }, Action::ReadUrl),
            },
            Phase::Comparing { url } => if event == Event::CurrentUrl(Some(url)) {
                self.finish(relay, Ok(()))
            } else {
                self.act(relay, Phase::Ending, Action::Navigate { url })
            },
            Phase::Ending => match failure(event) {
                Some(error) => self.finish(relay, Err(error)),
                None => self.finish(relay, Ok(())),
            },
            Phase::Closing { next: None } => self.finish(relay, Ok(())),
            Phase::Closing { next: Some(goal) } => self.act(
                relay,
                Phase::Locating { goal },
                Action::FindWindow,
            ),
            Phase::Locating { goal } => if failure(event) is Some {
                self.finish(relay, Err("the main window is not available"@))
            } else {
                self.act(
                    relay,
                    Phase::Preparing { goal },
                    Action::PrepareDataDir { name: DATA_DIR_NAME@ },
                )
            },
            Phase::Preparing { goal } => match failure(event) {
                Some(error) => self.finish(relay, Err(error)),
                None => self.act(
                    relay,
                    Phase::Creating { goal },
                    Action::Create(creation_of(goal)),
                ),
            },
            Phase::Creating { goal } => match failure(event) {
                Some(error) => self.finish(
                    relay,
                    Err("cannot create the browser panel: "@ + error),
                ),
                None => self.act(
                    RelayModel { endpoint: goal.endpoint, armed: false },
                    Phase::Attaching { goal },
                    Action::InstallHandler,
                ),
            },
            Phase::Attaching { goal } => Step {
                browser: Browser {
                    panel: Some(
                        Panel {
                            session: goal.session,
                            endpoint: goal.endpoint,
                            bootstrap: goal.bootstrap,
                        },
                    ),
                    phase: Phase::Idle,
                },
                relay: RelayModel {
                    endpoint: relay.endpoint,
                    armed: relay.armed || event == Event::<Seq<char>>::HandlerInstalled(true),
                },
                progress: Progress::Finished(Ok(())),
            },
        }
    }
}

/// A relay without a target, not armed.
pub open spec fn untargeted() -> RelayModel {
    RelayModel { endpoint: None, armed: false }
}

/// Whether an address is one of http or https.
pub open spec fn is_web(url: Seq<char>) -> bool {
    text::begins_with(url, "http:"@) || text::begins_with(url, "https:"@)
}

/// Why an action failed, if it did.
pub open spec fn failure(event: Event<Seq<char>>) -> Option<Seq<char>> {
    match event {
        Event::Failed(error) => Some(error),
        Event::DataDirUnresolved(error) => Some(
            "cannot resolve the app data directory: "@ + error,
        ),
        Event::DataDirNotCreated { dir, error } => Some(
            "cannot create "@ + dir + ": "@ + error,
        ),
        _ => None,
    }
}

/// The webview that a panel is created with: always with the persistent web data
/// directory. A bootstrap that is empty is no script.
pub open spec fn creation_of(goal: Goal<Seq<char>>) -> Creation<Seq<char>> {
    Creation {
        label: label_of(goal.session),
        url: goal.url,
        data_dir: DATA_DIR_NAME@,
        script: if goal.bootstrap.len() == 0 {
            None
        } else {
            Some(goal.bootstrap)
        },
        x: goal.x,
        y: goal.y,
        width: goal.width,
        height: goal.height,
    }
}

/// Owns the single browser panel that the shell can host.
pub struct NativeBrowser {
    panel: Option<Panel<String>>,
    phase: Phase<String>,
}

impl View for NativeBrowser {
    type V = Browser;

    closed spec fn view(&self) -> Browser {
        Browser {
            panel: match self.panel {
                Some(panel) => Some(panel@),
                None => None,
            },
            phase: self.phase@,
        }
    }
}

/// Why an action failed, if it did.
fn failure_text(event: Event<String>) -> (error: Option<String>)
    ensures
        text::optional(error) == failure(event@),
{
    match event {
        Event::Failed(error) => Some(error),
        Event::DataDirUnresolved(error) => Some(
            text::joined("cannot resolve the app data directory: ", error.as_str()),
        ),
        Event::DataDirNotCreated { dir, error } => {
            let mut message = text::joined("cannot create ", dir.as_str());
            message.append(": ");
            message.append(error.as_str());
            Some(message)
        },
        _ => None,
    }
}

fn refused(reason: &str) -> (progress: Progress<String>)
    ensures
        progress@ == Progress::<Seq<char>>::Finished(Err(reason@)),
{
    Progress::Finished(Err(reason.to_owned()))
}

fn finished(error: Option<String>) -> (progress: Progress<String>)
    ensures
        progress@ == Progress::<Seq<char>>::Finished(
            match text::optional(error) {
                Some(error) => Err(error),
                None => Ok(()),
            },
        ),
{
    match error {
        Some(error) => Progress::Finished(Err(error)),
        None => Progress::Finished(Ok(())),
    }
}

fn cloned_text(text: &Option<String>) -> (clone: Option<String>)
    ensures
        text::optional(clone) == text::optional(*text),
{
    match text {
        Some(text) => Some(text.clone()),
        None => None,
    }
}

impl NativeBrowser {
    /// No panel, and no operation under way.
    pub fn new() -> (browser: NativeBrowser)
        ensures
            browser@ == (Browser { panel: None, phase: Phase::Idle }),
    {
        NativeBrowser { panel: None, phase: Phase::Idle }
    }

    /// Whether no operation is under way.
    pub fn is_idle(&self) -> (idle: bool)
        ensures
            idle == self@.idle(),
    {
        match &self.phase {
            Phase::Idle => true,
            _ => false,
        }
    }

    /// Begins an operation that moves, resizes or hides the panel.
    pub fn bounds(&mut self, request: &BoundsRequest) -> (progress: Progress<String>)
        requires
            old(self)@.idle(),
        ensures
            forall|relay: RelayModel| #[trigger]
                old(self)@.bounds(relay, *request) == (Step {
                    browser: final(self)@,
                    relay,
                    progress: progress@,
                }),
            old(self)@.bounds(untargeted(), *request) == (Step {
                browser: final(self)@,
                relay: untargeted(),
                progress: progress@,
            }),
    {
        if self.panel.is_none() {
            return refused("no browser panel is open");
        }
        match request.visible {
            Some(false) => {
                self.phase = Phase::Ending;
                Progress::Act(Action::Hide)
            },
            _ => {
                self.phase = Phase::Moving {
                    width: request.width,
                    height: request.height,
                    then: None,
                };
                Progress::Act(Action::SetPosition { x: request.x, y: request.y })
            },
        }
    }

    /// The panel leaves, and the relay loses its target with it.
    fn close_current(&mut self, relay: &mut Relay, next: Option<Goal<String>>) -> (progress:
        Progress<String>)
        ensures
            old(self)@.close(
                match next {
                    Some(goal) => Some(goal@),
                    None => None,
                },
            ) == (Step { browser: final(self)@, relay: final(relay)@, progress: progress@ }),
    {
        self.panel = None;
        self.phase = Phase::Closing { next };
        panel_bridge::set_endpoint(relay, None);
        Progress::Act(Action::Close)
    }

    /// Begins an operation that opens the panel: what is done once the address
    /// of the request has been parsed.
    pub fn open_parsed(
        &mut self,
        relay: &mut Relay,
        request: &OpenRequest,
        parsed: Result<WebUrl, String>,
    ) -> (progress: Progress<String>)
        requires
            old(self)@.idle(),
        ensures
            old(self)@.open_parsed(old(relay)@, request@, web_url::url_model(parsed)) == (Step {
                browser: final(self)@,
                relay: final(relay)@,
                progress: progress@,
            }),
    {
        let url = match parsed {
            Ok(url) => url,
            Err(error) => {
                let message = text::joined("invalid panel url: ", error.as_str());
                return Progress::Finished(Err(message));
            },
        };
        if !text::same(url.scheme.as_str(), "http") && !text::same(url.scheme.as_str(), "https") {
            return refused("panel url must be http(s)");
        }
        let (open, same) = match &self.panel {
            Some(panel) => (
                true,
                panel.session == request.session && panel.bootstrap == request.bootstrap,
            ),
            None => (false, false),
        };
        if same {
            let carried = panel_bridge::armed(relay);
            panel_bridge::set_endpoint(relay, cloned_text(&request.endpoint));
            if carried {
                panel_bridge::arm(relay);
            }
            self.panel = Some(
                Panel {
                    session: request.session.clone(),
                    endpoint: cloned_text(&request.endpoint),
                    bootstrap: request.bootstrap.clone(),
                },
            );
            self.phase = Phase::Moving {
                width: request.width,
                height: request.height,
                then: Some(url.text),
            };
            return Progress::Act(Action::SetPosition { x: request.x, y: request.y });
        }
        let goal = Goal {
            session: request.session.clone(),
            endpoint: cloned_text(&request.endpoint),
            bootstrap: request.bootstrap.clone(),
            url: url.text,
            x: request.x,
            y: request.y,
            width: request.width,
            height: request.height,
        };
        if open {
            self.close_current(relay, Some(goal))
        } else {
            self.phase = Phase::Locating { goal };
            Progress::Act(Action::FindWindow)
        }
    }

    /// Begins an operation that opens the panel: it creates the panel, or reuses
    /// the one that is open.
    ///
    /// Whatever address is loaded by it is one of http or https.
    pub fn open(&mut self, relay: &mut Relay, request: &OpenRequest) -> (progress: Progress<String>)
        requires
            old(self)@.idle(),
        ensures
            old(self)@.open(old(relay)@, request@) == (Step {
                browser: final(self)@,
                relay: final(relay)@,
                progress: progress@,
            }),
            final(self)@.destination() matches Some(url) ==> is_web(url),
    {
        if below_one(request.width) || below_one(request.height) {
            return refused("panel needs a positive size");
        }
        let parsed = web_url::parse_url(request.url.as_str());
        proof {
            reveal_strlit(":");
            reveal_strlit("http");
            reveal_strlit("http:");
            reveal_strlit("https");
            reveal_strlit("https:");
            assert("http"@ + ":"@ =~= "http:"@);
            assert("https"@ + ":"@ =~= "https:"@);
        }
        self.open_parsed(relay, request, parsed)
    }

    /// Begins an operation that takes the panel to an address: what is done once
    /// the address has been parsed.
    pub fn navigate(&mut self, parsed: Result<WebUrl, String>) -> (progress: Progress<String>)
        requires
            old(self)@.idle(),
        ensures
            forall|relay: RelayModel| #[trigger]
                old(self)@.navigate(relay, web_url::url_model(parsed)) == (Step {
                    browser: final(self)@,
                    relay,
                    progress: progress@,
                }),
            old(self)@.navigate(untargeted(), web_url::url_model(parsed)) == (Step {
                browser: final(self)@,
                relay: untargeted(),
                progress: progress@,
            }),
    {
        match parsed {
            Ok(url) => {
                self.phase = Phase::Ending;
                Progress::Act(Action::Navigate { url: url.text })
            },
            Err(error) => {
                let message = text::joined("invalid url: ", error.as_str());
                Progress::Finished(Err(message))
            },
        }
    }

    /// Begins an operation that runs one navigation or script command.
    pub fn command(&mut self, relay: &mut Relay, request: &CommandRequest) -> (progress: Progress<
        String,
    >)
        requires
            old(self)@.idle(),
        ensures
            old(self)@.command(
                old(relay)@,
                request.kind@,
                text::optional(request.url),
                text::optional(request.script),
            ) == (Step { browser: final(self)@, relay: final(relay)@, progress: progress@ }),
    {
        let kind = request.kind.as_str();
        let open = self.panel.is_some();
        if text::same(kind, "close") {
            if open {
                return self.close_current(relay, None);
            }
            return Progress::Finished(Ok(()));
        }
        if !open {
            return refused("no browser panel is open");
        }
        if text::same(kind, "reload") {
            self.phase = Phase::Ending;
            Progress::Act(Action::Reload)
        } else if text::same(kind, "back") {
            self.phase = Phase::Ending;
            Progress::Act(Action::Eval { script: BACK_SCRIPT.to_owned() })
        } else if text::same(kind, "forward") {
            self.phase = Phase::Ending;
            Progress::Act(Action::Eval { script: FORWARD_SCRIPT.to_owned() })
        } else if text::same(kind, "navigate") {
            match &request.url {
                Some(url) => {
                    let parsed = web_url::parse_url(url.as_str());
                    self.navigate(parsed)
                },
                None => refused("navigate needs a url"),
            }
        } else if text::same(kind, "eval") {
            match &request.script {
                Some(script) => {
                    self.phase = Phase::Ending;
                    Progress::Act(Action::Eval { script: script.clone() })
                },
                None => refused("eval needs a script"),
            }
        } else {
            let message = text::joined("unsupported panel command: ", kind);
            Progress::Finished(Err(message))
        }
    }

    /// Goes on with the operation under way, after the action that it asked for.
    pub fn resume(&mut self, relay: &mut Relay, event: Event<String>) -> (progress: Progress<
        String,
    >)
        requires
            !old(self)@.idle(),
        ensures
            old(self)@.resume(old(relay)@, event@) == (Step {
                browser: final(self)@,
                relay: final(relay)@,
                progress: progress@,
            }),
    {
        let mut phase = Phase::Idle;
        core::mem::swap(&mut phase, &mut self.phase);
        match phase {
            Phase::Idle => Progress::Finished(Ok(())),
            Phase::Moving { width, height, then } => match failure_text(event) {
                Some(error) => Progress::Finished(Err(error)),
                None => {
                    self.phase = Phase::Resizing { then };
                    Progress::Act(Action::SetSize { width, height })
                },
            },
            Phase::Resizing { then } => match failure_text(event) {
                Some(error) => Progress::Finished(Err(error)),
                None => {
                    self.phase = Phase::Showing { then };
                    Progress::Act(Action::Show)
                },
            },
            Phase::Showing { then } => match (failure_text(event), then) {
                (Some(error), _) => Progress::Finished(Err(error)),
                (None, None) => Progress::Finished(Ok(())),
                (None, Some(url)) => {
                    self.phase = Phase::Comparing { url };
                    Progress::Act(Action::ReadUrl)
                },
            },
            Phase::Comparing { url } => {
                let arrived = match event {
                    Event::CurrentUrl(Some(current)) => current == url,
                    _ => false,
                };
                if arrived {
                    Progress::Finished(Ok(()))
                } else {
                    self.phase = Phase::Ending;
                    Progress::Act(Action::Navigate { url })
                }
            },
            Phase::Ending => finished(failure_text(event)),
            Phase::Closing { next: None } => Progress::Finished(Ok(())),
            Phase::Closing { next: Some(goal) } => {
                self.phase = Phase::Locating { goal };
                Progress::Act(Action::FindWindow)
            },
            Phase::Locating { goal } => if failure_text(event).is_some() {
                refused("the main window is not available")
            } else {
                self.phase = Phase::Preparing { goal };
                Progress::Act(Action::PrepareDataDir { name: DATA_DIR_NAME.to_owned() })
            },
            Phase::Preparing { goal } => match failure_text(event) {
                Some(error) => Progress::Finished(Err(error)),
                None => {
                    let creation = plan_creation(&goal);
                    self.phase = Phase::Creating { goal };
                    Progress::Act(Action::Create(creation))
                },
            },
            Phase::Creating { goal } => match failure_text(event) {
                Some(error) => {
                    let message = text::joined("cannot create the browser panel: ", error.as_str());
                    Progress::Finished(Err(message))
                },
                None => {
                    panel_bridge::set_endpoint(relay, cloned_text(&goal.endpoint));
                    self.phase = Phase::Attaching { goal };
                    Progress::Act(Action::InstallHandler)
                },
            },
            Phase::Attaching { goal } => {
                match event {
                    Event::HandlerInstalled(true) => panel_bridge::arm(relay),
                    _ => {},
                }
                self.panel = Some(
                    Panel {
                        session: goal.session,
                        endpoint: goal.endpoint,
                        bootstrap: goal.bootstrap,
                    },
                );
                Progress::Finished(Ok(()))
            },
        }
    }
}

impl PanelState {
    /// The state of no panel.
    pub open spec fn is_closed(self) -> bool {
        !self.open && self.session is None && self.url is None && self.bounds is None
            && !self.relay
    }

    /// What is told where no panel is open, or where the panel cannot be asked.
    pub fn closed() -> (state: PanelState)
        ensures
            state.is_closed(),
    {
        PanelState { open: false, session: None, url: None, bounds: None, relay: false }
    }
}

/// What the shell got when it captured the panel.
pub enum Capture {
    /// The webview could not be reached, with the reason.
    Unreachable(String),
    /// A PNG image.
    Png(Vec<u8>),
    /// The webview was reached, and gave no image.
    Failed(CaptureFailure),
    /// Nothing, in the time that was given.
    TimedOut,
}

/// Why a capture gave no image.
pub enum CaptureFailure {
    /// The webview reported an error.
    Reported(String),
    /// The webview gave nothing.
    NoImage,
    /// The image has no bitmap.
    NoBitmap,
    /// The bitmap cannot be decoded.
    NotDecodable,
    /// The bitmap cannot be encoded.
    NotEncodable,
    /// The image is empty.
    Empty,
    /// The platform cannot capture a panel.
    Unsupported,
}

impl CaptureFailure {
    /// What is told of a capture without an image.
    pub open spec fn text(self) -> Seq<char> {
        match self {
            CaptureFailure::Reported(error) => "panel snapshot failed: "@ + error@,
            CaptureFailure::NoImage => "panel snapshot returned no image"@,
            CaptureFailure::NoBitmap => "panel snapshot has no bitmap representation"@,
            CaptureFailure::NotDecodable => "panel snapshot is not decodable"@,
            CaptureFailure::NotEncodable => "panel snapshot could not be encoded as PNG"@,
            CaptureFailure::Empty => "empty snapshot"@,
            CaptureFailure::Unsupported => "panel snapshots need macOS"@,
        }
    }

    /// What is told of a capture without an image.
    pub fn message(&self) -> (message: String)
        ensures
            message@ == self.text(),
    {
        match self {
            CaptureFailure::Reported(error) => text::joined(
                "panel snapshot failed: ",
                error.as_str(),
            ),
            CaptureFailure::NoImage => "panel snapshot returned no image".to_owned(),
            CaptureFailure::NoBitmap => "panel snapshot has no bitmap representation".to_owned(),
            CaptureFailure::NotDecodable => "panel snapshot is not decodable".to_owned(),
            CaptureFailure::NotEncodable => "panel snapshot could not be encoded as PNG".to_owned(),
            CaptureFailure::Empty => "empty snapshot".to_owned(),
            CaptureFailure::Unsupported => "panel snapshots need macOS".to_owned(),
        }
    }
}

/// What a capture of the panel comes to: the image in base64, or why there is
/// none.
pub open spec fn captured(capture: Capture) -> Result<Seq<char>, Seq<char>> {
    match capture {
        Capture::Unreachable(error) => Err("cannot reach the panel: "@ + error@),
        Capture::Png(bytes) => Ok(base64_text::base64_of(bytes@)),
        Capture::Failed(failure) => Err(failure.text()),
        Capture::TimedOut => Err("panel snapshot timed out"@),
    }
}

impl NativeBrowser {
    /// What the panel currently shows. The shell tells which address the webview
    /// is at, and where it sits.
    pub fn state(
        &self,
        relay: &Relay,
        url: Option<String>,
        bounds: Option<PanelBounds>,
    ) -> (state: PanelState)
        ensures
            match self@.panel {
                Some(panel) => {
                    &&& state.open
                    &&& text::optional(state.session) == Some(panel.session)
                    &&& state.url == url
                    &&& state.bounds == bounds
                    &&& state.relay == relay.armed
                },
                None => state.is_closed(),
            },
    {
        match &self.panel {
            Some(panel) => PanelState {
                open: true,
                session: Some(panel.session.clone()),
                url,
                bounds,
                relay: panel_bridge::armed(relay),
            },
            None => PanelState::closed(),
        }
    }

    /// Whether there is a panel to capture.
    pub fn can_snapshot(&self) -> (result: Result<(), String>)
        ensures
            match result {
                Ok(_) => self@.panel is Some,
                Err(error) => self@.panel is None && error@ == "no browser panel is open"@,
            },
    {
        if self.panel.is_none() {
            Err("no browser panel is open".to_owned())
        } else {
            Ok(())
        }
    }

    /// A capture of the panel, as a PNG image in base64.
    pub fn snapshot(&self, capture: Capture) -> (image: Result<String, String>)
        requires
            capture matches Capture::Png(bytes) ==> base64_text::encodable(bytes@.len()),
        ensures
            match image {
                Ok(image) => self@.panel is Some && captured(capture) == Ok::<
                    Seq<char>,
                    Seq<char>,
                >(image@),
                Err(error) => if self@.panel is None {
                    error@ == "no browser panel is open"@
                } else {
                    captured(capture) == Err::<Seq<char>, Seq<char>>(error@)
                },
            },
    {
        match self.can_snapshot() {
            Ok(_) => {},
            Err(error) => return Err(error),
        }
        match capture {
            Capture::Unreachable(error) => Err(
                text::joined("cannot reach the panel: ", error.as_str()),
            ),
            Capture::Png(bytes) => Ok(base64_text::encode(bytes)),
            Capture::Failed(failure) => Err(failure.message()),
            Capture::TimedOut => Err("panel snapshot timed out".to_owned()),
        }
    }
}

/// The webview that a panel is created with.
fn plan_creation(goal: &Goal<String>) -> (creation: Creation<String>)
    ensures
        creation@ == creation_of(goal@),
{
    let script = if goal.bootstrap.as_str().is_empty() {
        None
    } else {
        Some(goal.bootstrap.clone())
    };
    Creation {
        label: panel_label(goal.session.as_str()),
        url: goal.url.clone(),
        data_dir: DATA_DIR_NAME.to_owned(),
        script,
        x: goal.x,
        y: goal.y,
        width: goal.width,
        height: goal.height,
    }
}

/// The characters of a session name that may stand in a label: ASCII letters
/// and digits, and the hyphen.
pub open spec fn is_label_char(c: char) -> bool {
    'a' <= c <= 'z' || 'A' <= c <= 'Z' || '0' <= c <= '9' || c == '-'
}

/// The persistent web data directory, in the app data directory: cookies and
/// logins survive restarts.
pub const DATA_DIR_NAME: &'static str = "浏览器面板";

/// The script that takes the webview one entry back in its history.
pub const BACK_SCRIPT: &'static str = "history.back()";

/// The script that takes the webview one entry forward in its history.
pub const FORWARD_SCRIPT: &'static str = "history.forward()";

/// How long a capture of the panel may take, in seconds.
pub const SNAPSHOT_SECONDS: u64 = 20;

/// The most characters of a session name that a label holds.
pub const LABEL_CHARS: usize = 48;

/// What a label takes from a session name: its first label characters, up to
/// [`LABEL_CHARS`] of them.
pub open spec fn clean_session(session: Seq<char>) -> Seq<char> {
    let clean = session.filter(|c: char| is_label_char(c));
    if clean.len() > LABEL_CHARS {
        clean.take(LABEL_CHARS as int)
    } else {
        clean
    }
}

/// The label of the webview for a session.
pub open spec fn label_of(session: Seq<char>) -> Seq<char> {
    "web-review-browser-"@ + clean_session(session)
}

/// The label of the webview for a session.
pub fn panel_label(session: &str) -> (label: String)
    ensures
        label@ == label_of(session@),
{
    let chars = text::characters(session);
    let mut clean = String::new();
    let mut kept: usize = 0;
    let mut i: usize = 0;
    let ghost keep = |c: char| is_label_char(c);
    proof {
        reveal(Seq::filter);
        assert(chars@.take(0) =~= Seq::<char>::empty());
    }
    while i < chars.len() && kept < LABEL_CHARS
        invariant
            i <= chars@.len(),
            kept <= LABEL_CHARS,
            kept == clean@.len(),
            keep == (|c: char| is_label_char(c)),
            clean@ == chars@.take(i as int).filter(keep),
        decreases chars@.len() - i,
    {
        let c: char = chars[i];
        proof {
            assert(chars@.take(i + 1).drop_last() =~= chars@.take(i as int));
            reveal(Seq::filter);
        }
        if ('a' <= c && c <= 'z') || ('A' <= c && c <= 'Z') || ('0' <= c && c <= '9') || c == '-' {
            clean.push(c);
            kept = kept + 1;
        }
        i = i + 1;
    }
    proof {
        lemma_filter_prefix(chars@, i as int, keep);
        assert(chars@.take(chars@.len() as int) =~= chars@);
        assert(clean@ =~= clean_session(chars@));
    }
    text::joined("web-review-browser-", clean.as_str())
}

/// A filtered prefix is a prefix of the filtered whole.
proof fn lemma_filter_prefix(whole: Seq<char>, length: int, keep: spec_fn(char) -> bool)
    requires
        0 <= length <= whole.len(),
    ensures
        whole.take(length).filter(keep).len() <= whole.filter(keep).len(),
        whole.filter(keep).take(whole.take(length).filter(keep).len() as int) == whole.take(
            length,
        ).filter(keep),
{
    let rest = whole.skip(length);
    assert(whole =~= whole.take(length) + rest);
    Seq::filter_distributes_over_add(whole.take(length), rest, keep);
    assert(whole.filter(keep).take(whole.take(length).filter(keep).len() as int)
        =~= whole.take(length).filter(keep));
}

} // verus!
