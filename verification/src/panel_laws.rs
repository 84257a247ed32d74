//! What holds of every operation on the panel, however its actions go.

use crate::native_browser;
use crate::native_browser::Action;
use crate::native_browser::BoundsRequest;
use crate::native_browser::Browser;
use crate::native_browser::Event;
use crate::native_browser::Goal;
use crate::native_browser::Panel;
use crate::native_browser::Phase;
use crate::native_browser::Progress;
use crate::native_browser::Step;
use crate::panel_bridge::RelayModel;
use vstd::prelude::*;

verus! {

/// A request for an operation on the panel.
pub enum Operation {
    Open(Goal<Seq<char>>),
    Bounds(BoundsRequest),
    Command { kind: Seq<char>, url: Option<Seq<char>>, script: Option<Seq<char>> },
}

/// How an operation begins.
pub open spec fn begin(browser: Browser, relay: RelayModel, operation: Operation) -> Step {
    match operation {
        Operation::Open(request) => browser.open(relay, request),
        Operation::Bounds(request) => browser.bounds(relay, request),
        Operation::Command { kind, url, script } => browser.command(relay, kind, url, script),
    }
}

/// How far an operation has come after its actions went as `events` tell.
pub open spec fn run(step: Step, events: Seq<Event<Seq<char>>>) -> Step
    decreases events.len(),
{
    if events.len() == 0 || step.progress is Finished {
        step
    } else {
        run(step.browser.resume(step.relay, events[0]), events.drop_first())
    }
}

/// Whether an action makes sense to a shell that holds a webview (`live`), or
/// holds none.
pub open spec fn possible(action: Action<Seq<char>>, live: bool) -> bool {
    match action {
        Action::Create(_) => !live,
        Action::FindWindow | Action::PrepareDataDir { .. } => true,
        _ => live,
    }
}

/// An operation waits exactly while it needs an action, and that action makes
/// sense.
pub open spec fn orderly(step: Step) -> bool {
    &&& step.browser.well_formed()
    &&& match step.progress {
        Progress::Finished(_) => step.browser.idle(),
        Progress::Act(action) => !step.browser.idle() && possible(action, step.browser.live()),
    }
}

/// The shell comes to hold a webview only by creating it, and ceases to hold one
/// only by closing it, if the action that it is to take goes as `event` tells.
pub open spec fn holds_on(step: Step, event: Event<Seq<char>>) -> bool {
    let next = step.browser.resume(step.relay, event);
    match step.progress {
        Progress::Finished(_) => true,
        Progress::Act(action) => {
            &&& !step.browser.live() && next.browser.live() ==> action is Create
            &&& step.browser.live() && !next.browser.live() ==> action is Close
        },
    }
}

/// The shell never holds more than the one webview, and loses sight of none:
/// whatever operation is asked for, and however its actions go, a webview is
/// created only while there is none, the webview is used only while there is
/// one, and there is one from its creation until it is closed.
pub proof fn law_single_webview(
    browser: Browser,
    relay: RelayModel,
    operation: Operation,
    events: Seq<Event<Seq<char>>>,
)
    requires
        browser.idle(),
    ensures
        begin(browser, relay, operation).browser.live() == browser.live(),
        orderly(run(begin(browser, relay, operation), events)),
        forall|event: Event<Seq<char>>| #[trigger]
            holds_on(run(begin(browser, relay, operation), events), event),
{
    lemma_run_orderly(begin(browser, relay, operation), events);
    lemma_run_holds_on(begin(browser, relay, operation), events);
}

spec fn handles_webview(step: Step) -> bool {
    match step.browser.phase {
        Phase::Closing { .. } => step.progress == Progress::Act(Action::<Seq<char>>::Close),
        Phase::Creating { .. } => step.progress matches Progress::Act(Action::Create(_)),
        _ => true,
    }
}

proof fn lemma_run_holds_on(step: Step, events: Seq<Event<Seq<char>>>)
    requires
        orderly(step),
        handles_webview(step),
    ensures
        forall|event: Event<Seq<char>>| #[trigger] holds_on(run(step, events), event),
    decreases events.len(),
{
    if events.len() > 0 && step.progress is Act {
        lemma_run_holds_on(step.browser.resume(step.relay, events[0]), events.drop_first());
    }
}

proof fn lemma_run_orderly(step: Step, events: Seq<Event<Seq<char>>>)
    requires
        orderly(step),
    ensures
        orderly(run(step, events)),
    decreases events.len(),
{
    if events.len() > 0 && step.progress is Act {
        lemma_run_orderly(step.browser.resume(step.relay, events[0]), events.drop_first());
    }
}

/// How many more actions an operation can need.
pub open spec fn actions_left(phase: Phase<Seq<char>>) -> nat {
    match phase {
        Phase::Idle => 0,
        Phase::Ending | Phase::Attaching { .. } => 1,
        Phase::Comparing { .. } | Phase::Creating { .. } => 2,
        Phase::Showing { .. } | Phase::Preparing { .. } => 3,
        Phase::Resizing { .. } | Phase::Locating { .. } => 4,
        Phase::Moving { .. } | Phase::Closing { .. } => 5,
    }
}

/// Every operation is over after five actions, however they go.
pub proof fn law_operations_end(
    browser: Browser,
    relay: RelayModel,
    operation: Operation,
    events: Seq<Event<Seq<char>>>,
)
    requires
        browser.idle(),
        events.len() >= 5,
    ensures
        run(begin(browser, relay, operation), events).progress is Finished,
{
    lemma_run_ends(begin(browser, relay, operation), events);
}

proof fn lemma_run_ends(step: Step, events: Seq<Event<Seq<char>>>)
    requires
        orderly(step),
        events.len() >= actions_left(step.browser.phase),
    ensures
        run(step, events).progress is Finished,
    decreases events.len(),
{
    if events.len() > 0 && step.progress is Act {
        let next = step.browser.resume(step.relay, events[0]);
        assert(next.progress is Act ==> actions_left(next.browser.phase) < actions_left(
            step.browser.phase,
        ));
        lemma_run_ends(next, events.drop_first());
    }
}

/// The panel that a request asks for.
pub open spec fn panel_for(request: Goal<Seq<char>>) -> Panel<Seq<char>> {
    Panel {
        session: request.session,
        endpoint: request.endpoint,
        bootstrap: request.bootstrap,
    }
}

/// What an operation that opens the panel for `request` keeps on its way.
spec fn opening(step: Step, request: Goal<Seq<char>>) -> bool {
    match step.progress {
        Progress::Finished(Err(_)) => true,
        Progress::Finished(Ok(_)) => step.browser.panel == Some(panel_for(request))
            && step.relay.endpoint == request.endpoint,
        Progress::Act(_) => match step.browser.phase {
            Phase::Idle => false,
            Phase::Closing { next: Some(goal) } => panel_for(goal) == panel_for(request),
            Phase::Closing { next: None } => false,
            Phase::Locating { goal } | Phase::Preparing { goal } | Phase::Creating {
                goal,
            } => panel_for(goal) == panel_for(request),
            Phase::Attaching { goal } => panel_for(goal) == panel_for(request)
                && step.relay.endpoint == request.endpoint,
            _ => step.browser.panel == Some(panel_for(request)) && step.relay.endpoint
                == request.endpoint,
        },
    }
}

/// An open that succeeds leaves the panel that was asked for: its session, its
/// bootstrap and its endpoint, and the relay points at that endpoint.
pub proof fn law_open_gives_the_panel(
    browser: Browser,
    relay: RelayModel,
    request: Goal<Seq<char>>,
    events: Seq<Event<Seq<char>>>,
)
    requires
        browser.idle(),
    ensures
        ({
            let end = run(browser.open(relay, request), events);
            end.progress == Progress::<Seq<char>>::Finished(Ok(())) ==> {
                &&& end.browser.panel == Some(panel_for(request))
                &&& end.relay.endpoint == request.endpoint
            }
        }),
{
    lemma_run_opening(browser.open(relay, request), request, events);
}

proof fn lemma_run_opening(step: Step, request: Goal<Seq<char>>, events: Seq<Event<Seq<char>>>)
    requires
        opening(step, request),
    ensures
        opening(run(step, events), request),
    decreases events.len(),
{
    if events.len() > 0 && step.progress is Act {
        lemma_run_opening(
            step.browser.resume(step.relay, events[0]),
            request,
            events.drop_first(),
        );
    }
}

/// A request that is refused at once changes neither the panel nor the relay.
pub proof fn law_refusal_changes_nothing(
    browser: Browser,
    relay: RelayModel,
    operation: Operation,
)
    requires
        browser.idle(),
        begin(browser, relay, operation).progress is Finished,
    ensures
        begin(browser, relay, operation).browser == browser,
        begin(browser, relay, operation).relay == relay,
{
}

/// The panel of the same session, with the same bootstrap, is reused: however
/// the actions go, its webview is neither closed nor created, and it stays.
pub proof fn law_same_session_is_reused(
    browser: Browser,
    relay: RelayModel,
    request: Goal<Seq<char>>,
    events: Seq<Event<Seq<char>>>,
)
    requires
        browser.idle(),
        browser.panel matches Some(panel) && panel.session == request.session && panel.bootstrap
            == request.bootstrap,
    ensures
        ({
            let end = run(browser.open(relay, request), events);
            &&& end.progress matches Progress::Act(action) ==> !(action is Create) && !(
            action is Close)
            &&& end.browser.panel matches Some(panel) && panel.session == request.session
                && panel.bootstrap == request.bootstrap
            &&& end.relay.armed == relay.armed
        }),
{
    lemma_run_reusing(browser.open(relay, request), request, relay.armed, events);
}

spec fn reusing(step: Step, request: Goal<Seq<char>>, armed: bool) -> bool {
    &&& step.browser.panel matches Some(panel) && panel.session == request.session
        && panel.bootstrap == request.bootstrap
    &&& step.relay.armed == armed
    &&& step.browser.well_formed()
    &&& step.progress matches Progress::Act(action) ==> !(action is Create) && !(action is Close)
}

proof fn lemma_run_reusing(
    step: Step,
    request: Goal<Seq<char>>,
    armed: bool,
    events: Seq<Event<Seq<char>>>,
)
    requires
        reusing(step, request, armed),
    ensures
        reusing(run(step, events), request, armed),
    decreases events.len(),
{
    if events.len() > 0 && step.progress is Act {
        lemma_run_reusing(
            step.browser.resume(step.relay, events[0]),
            request,
            armed,
            events.drop_first(),
        );
    }
}

/// Another session, or another bootstrap, replaces the panel outright: an open
/// that is not refused begins by closing the webview of the old panel.
pub proof fn law_new_session_replaces(
    browser: Browser,
    relay: RelayModel,
    request: Goal<Seq<char>>,
)
    requires
        browser.idle(),
        browser.panel matches Some(panel) && (panel.session != request.session || panel.bootstrap
            != request.bootstrap),
    ensures
        ({
            let step = browser.open(relay, request);
            step.progress is Act ==> {
                &&& step.progress == Progress::<Seq<char>>::Act(Action::Close)
                &&& step.browser.panel is None
            }
        }),
{
}

/// The relay goes with the panel: without a panel it has no target and is not
/// armed, and with one its target is the panel's.
pub open spec fn coherent(browser: Browser, relay: RelayModel) -> bool {
    match browser.phase {
        Phase::Attaching { goal } => relay.endpoint == goal.endpoint,
        _ => match browser.panel {
            Some(panel) => relay.endpoint == panel.endpoint,
            None => relay.endpoint is None && !relay.armed,
        },
    }
}

/// Every operation keeps the relay with the panel, at each of its moves.
pub proof fn law_relay_follows_panel(
    browser: Browser,
    relay: RelayModel,
    operation: Operation,
    events: Seq<Event<Seq<char>>>,
)
    requires
        browser.idle(),
        coherent(browser, relay),
    ensures
        ({
            let end = run(begin(browser, relay, operation), events);
            coherent(end.browser, end.relay)
        }),
{
    lemma_run_coherent(begin(browser, relay, operation), events);
}

proof fn lemma_run_coherent(step: Step, events: Seq<Event<Seq<char>>>)
    requires
        orderly(step),
        coherent(step.browser, step.relay),
    ensures
        coherent(run(step, events).browser, run(step, events).relay),
    decreases events.len(),
{
    if events.len() > 0 && step.progress is Act {
        lemma_run_coherent(step.browser.resume(step.relay, events[0]), events.drop_first());
    }
}

/// What all that happened has come to: operations, each with how its actions
/// went, from the start of the shell. An operation that is under way is over
/// before the next one begins.
pub open spec fn after(history: Seq<(Operation, Seq<Event<Seq<char>>>)>) -> Step
    decreases history.len(),
{
    if history.len() == 0 {
        Step {
            browser: Browser { panel: None, phase: Phase::Idle },
            relay: RelayModel { endpoint: None, armed: false },
            progress: Progress::Finished(Ok(())),
        }
    } else {
        let before = after(history.drop_last());
        let (operation, events) = history.last();
        if before.progress is Finished {
            run(begin(before.browser, before.relay, operation), events)
        } else {
            run(before, events)
        }
    }
}

/// In every state that the shell can come to, there is at most the one webview,
/// and the relay goes with the panel.
pub proof fn law_every_state(history: Seq<(Operation, Seq<Event<Seq<char>>>)>)
    ensures
        orderly(after(history)),
        coherent(after(history).browser, after(history).relay),
    decreases history.len(),
{
    if history.len() > 0 {
        let before = after(history.drop_last());
        let (operation, events) = history.last();
        law_every_state(history.drop_last());
        if before.progress is Finished {
            law_single_webview(before.browser, before.relay, operation, events);
            law_relay_follows_panel(before.browser, before.relay, operation, events);
        } else {
            lemma_run_orderly(before, events);
            lemma_run_coherent(before, events);
        }
    }
}

/// A target alone does not arm the relay: an operation leaves it armed only
/// where it was armed before, or where the shell told that the message handler
/// is installed.
pub proof fn law_arming_needs_the_handler(
    browser: Browser,
    relay: RelayModel,
    operation: Operation,
    events: Seq<Event<Seq<char>>>,
)
    requires
        browser.idle(),
        run(begin(browser, relay, operation), events).relay.armed,
    ensures
        relay.armed || events.contains(Event::HandlerInstalled(true)),
{
    lemma_run_arming(begin(browser, relay, operation), events);
}

proof fn lemma_run_arming(step: Step, events: Seq<Event<Seq<char>>>)
    requires
        run(step, events).relay.armed,
    ensures
        step.relay.armed || events.contains(Event::HandlerInstalled(true)),
    decreases events.len(),
{
    if events.len() > 0 && step.progress is Act {
        let rest = events.drop_first();
        lemma_run_arming(step.browser.resume(step.relay, events[0]), rest);
        if rest.contains(Event::HandlerInstalled(true)) {
            let i = choose|i: int| 0 <= i < rest.len() && rest[i] == Event::<Seq<char>>::HandlerInstalled(true);
            assert(events[i + 1] == rest[i]);
        } else if events[0] == Event::<Seq<char>>::HandlerInstalled(true) {
            assert(events.contains(events[0]));
        }
    }
}

/// The panel goes nowhere but where it was asked to: an address that an open
/// loads, in a new webview or the old one, is the one that it set out for.
pub proof fn law_open_loads_its_destination(
    browser: Browser,
    relay: RelayModel,
    request: Goal<Seq<char>>,
    events: Seq<Event<Seq<char>>>,
)
    requires
        browser.idle(),
    ensures
        ({
            let start = browser.open(relay, request);
            match run(start, events).progress {
                Progress::Act(Action::Navigate { url }) => start.browser.destination() == Some(url),
                Progress::Act(Action::Create(creation)) => start.browser.destination() == Some(
                    creation.url,
                ),
                _ => true,
            }
        }),
{
    let start = browser.open(relay, request);
    if start.progress is Act {
        lemma_run_heading(start, start.browser.destination()->0, events);
    }
}

spec fn heading(step: Step, url: Seq<char>) -> bool {
    match step.progress {
        Progress::Finished(_) => true,
        Progress::Act(Action::Navigate { url: to }) => step.browser.phase is Ending && to == url,
        Progress::Act(action) => {
            &&& step.browser.destination() == Some(url)
            &&& action matches Action::Create(creation) ==> creation.url == url
        },
    }
}

proof fn lemma_run_heading(step: Step, url: Seq<char>, events: Seq<Event<Seq<char>>>)
    requires
        heading(step, url),
    ensures
        heading(run(step, events), url),
    decreases events.len(),
{
    if events.len() > 0 && step.progress is Act {
        lemma_run_heading(step.browser.resume(step.relay, events[0]), url, events.drop_first());
    }
}

/// A webview is created as it was asked for: with the label of the session, at
/// the address that the open set out for, in the place and of the size that the
/// request gives, with the persistent web data directory, and with the bootstrap
/// as its script, unless that is empty. The directory was prepared for it.
pub proof fn law_open_creates_as_asked(
    browser: Browser,
    relay: RelayModel,
    request: Goal<Seq<char>>,
    events: Seq<Event<Seq<char>>>,
)
    requires
        browser.idle(),
    ensures
        ({
            let start = browser.open(relay, request);
            match run(start, events).progress {
                Progress::Act(Action::Create(creation)) => {
                    &&& start.browser.destination() is Some
                    &&& creation == native_browser::creation_of(
                        Goal { url: start.browser.destination()->0, ..request },
                    )
                },
                Progress::Act(Action::PrepareDataDir { name }) => name
                    == native_browser::DATA_DIR_NAME@,
                _ => true,
            }
        }),
{
    let start = browser.open(relay, request);
    if start.progress is Act {
        let goal = Goal { url: start.browser.destination()->0, ..request };
        lemma_run_aiming(start, goal, events);
    }
}

spec fn aiming(step: Step, goal: Goal<Seq<char>>) -> bool {
    &&& match step.browser.phase {
        Phase::Closing { next } => next == Some(goal),
        Phase::Locating { goal: aim } => aim == goal,
        Phase::Preparing { goal: aim } => aim == goal,
        Phase::Creating { goal: aim } => aim == goal,
        _ => true,
    }
    &&& match step.progress {
        Progress::Act(Action::Create(creation)) => creation == native_browser::creation_of(goal),
        Progress::Act(Action::PrepareDataDir { name }) => name == native_browser::DATA_DIR_NAME@,
        _ => true,
    }
}

proof fn lemma_run_aiming(step: Step, goal: Goal<Seq<char>>, events: Seq<Event<Seq<char>>>)
    requires
        aiming(step, goal),
    ensures
        aiming(run(step, events), goal),
    decreases events.len(),
{
    if events.len() > 0 && step.progress is Act {
        lemma_run_aiming(step.browser.resume(step.relay, events[0]), goal, events.drop_first());
    }
}

/// Closing always succeeds and leaves no panel, and no target for the relay;
/// closing once more changes nothing.
pub proof fn law_close_closes(
    browser: Browser,
    relay: RelayModel,
    url: Option<Seq<char>>,
    script: Option<Seq<char>>,
    events: Seq<Event<Seq<char>>>,
)
    requires
        browser.idle(),
        coherent(browser, relay),
        events.len() >= 1,
    ensures
        ({
            let end = run(browser.command(relay, "close"@, url, script), events);
            &&& end.progress == Progress::<Seq<char>>::Finished(Ok(()))
            &&& end.browser == (Browser { panel: None, phase: Phase::Idle })
            &&& end.relay == (RelayModel { endpoint: None, armed: false })
            &&& end.browser.command(end.relay, "close"@, url, script) == end
        }),
{
    let start = browser.command(relay, "close"@, url, script);
    if start.progress is Act {
        let next = start.browser.resume(start.relay, events[0]);
        assert(run(start, events) == run(next, events.drop_first()));
        assert(run(next, events.drop_first()) == next);
    }
}

/// An open that fails once the old panel is gone leaves no panel, and a relay
/// without a target.
pub proof fn law_failed_creation_leaves_nothing(
    browser: Browser,
    relay: RelayModel,
    request: Goal<Seq<char>>,
    events: Seq<Event<Seq<char>>>,
)
    requires
        browser.idle(),
        coherent(browser, relay),
        browser.open(relay, request).browser.panel is None,
        run(browser.open(relay, request), events).progress matches Progress::Finished(Err(_)),
    ensures
        ({
            let end = run(browser.open(relay, request), events);
            &&& end.browser.panel is None
            &&& end.relay == (RelayModel { endpoint: None, armed: false })
        }),
{
    lemma_run_creating(browser.open(relay, request), events);
}

spec fn creating(step: Step) -> bool {
    match step.progress {
        Progress::Finished(Err(_)) => step.browser.panel is None && step.relay.endpoint is None
            && !step.relay.armed,
        Progress::Finished(Ok(_)) => true,
        Progress::Act(_) => match step.browser.phase {
            Phase::Attaching { .. } => true,
            Phase::Closing { .. }
            | Phase::Locating { .. }
            | Phase::Preparing { .. }
            | Phase::Creating { .. } => step.browser.panel is None && step.relay.endpoint is None
                && !step.relay.armed,
            _ => false,
        },
    }
}

proof fn lemma_run_creating(step: Step, events: Seq<Event<Seq<char>>>)
    requires
        creating(step),
    ensures
        creating(run(step, events)),
    decreases events.len(),
{
    if events.len() > 0 && step.progress is Act {
        lemma_run_creating(step.browser.resume(step.relay, events[0]), events.drop_first());
    }
}

} // verus!
