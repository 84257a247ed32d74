//! What each operation on the panel does, move by move, and how the moves of one
//! operation relate to those of another.

use crate::base64_text;
use crate::native_browser;
use crate::native_browser::Action;
use crate::native_browser::BoundsRequest;
use crate::native_browser::Browser;
use crate::native_browser::Capture;
use crate::native_browser::CaptureFailure;
use crate::native_browser::CommandRequest;
use crate::native_browser::Coordinate;
use crate::native_browser::Event;
use crate::native_browser::Goal;
use crate::native_browser::NativeBrowser;
use crate::native_browser::OpenRequest;
use crate::native_browser::Panel;
use crate::native_browser::PanelBounds;
use crate::native_browser::PanelState;
use crate::native_browser::Phase;
use crate::native_browser::Progress;
use crate::native_browser::Step;
use crate::panel_bridge::Relay;
use crate::panel_bridge::RelayModel;
use crate::text;
use crate::web_url;
use crate::web_url::WebUrl;
use vstd::prelude::*;

verus! {

/// The action went well, or what it told is no failure.
pub open spec fn well(event: Event<Seq<char>>) -> bool {
    event is Done || event is CurrentUrl || event is HandlerInstalled
}

/// The panel of the same session, with the same bootstrap.
pub open spec fn is_for(panel: Option<Panel<Seq<char>>>, request: Goal<Seq<char>>) -> bool {
    panel matches Some(panel) && panel.session == request.session && panel.bootstrap
        == request.bootstrap
}

/// What an operation comes to if its next action goes as `event` tells.
pub open spec fn next(step: Step, event: Event<Seq<char>>) -> Step {
    step.browser.resume(step.relay, event)
}

/// The operation ends here, in success, and leaves the panel and the relay as they
/// are.
pub open spec fn succeeds(step: Step, before: Step) -> bool {
    &&& step.progress == Progress::<Seq<char>>::Finished(Ok(()))
    &&& step.browser.panel == before.browser.panel
    &&& step.browser.phase is Idle
    &&& step.relay == before.relay
}

/// The operation ends here, for this reason, and leaves the panel and the relay as
/// they are.
pub open spec fn fails(step: Step, before: Step, reason: Seq<char>) -> bool {
    &&& step.progress == Progress::<Seq<char>>::Finished(Err(reason))
    &&& step.browser.panel == before.browser.panel
    &&& step.browser.phase is Idle
    &&& step.relay == before.relay
}

/// The panel that is asked for again is moved to the place, resized to the size and
/// shown, in this order; it keeps its session and its bootstrap, gets the endpoint,
/// and its relay gets the endpoint and stays as armed as it was. Then its webview
/// is asked where it is: only if that is exactly the address asked for is the open
/// done; wherever else it is, and if it does not tell, it is taken there, and that
/// is the outcome.
pub proof fn law_reused_panel_arrives(
    browser: Browser,
    relay: RelayModel,
    request: Goal<Seq<char>>,
    scheme: Seq<char>,
    url: Seq<char>,
    moved: Event<Seq<char>>,
    sized: Event<Seq<char>>,
    shown: Event<Seq<char>>,
    told: Event<Seq<char>>,
    loaded: Event<Seq<char>>,
    reason: Seq<char>,
)
    requires
        browser.idle(),
        is_for(browser.panel, request),
        scheme == "http"@ || scheme == "https"@,
        well(moved) && well(sized) && well(shown),
    ensures
        ({
            let begun = browser.open_parsed(relay, request, Ok((scheme, url)));
            let placed = next(begun, moved);
            let fitted = next(placed, sized);
            let seen = next(fitted, shown);
            let there = next(seen, told);
            &&& begun.progress == Progress::<Seq<char>>::Act(Action::SetPosition { x: request.x, y: request.y })
            &&& begun.browser.panel == Some(
                Panel {
                    session: request.session,
                    endpoint: request.endpoint,
                    bootstrap: request.bootstrap,
                },
            )
            &&& begun.relay == (RelayModel { endpoint: request.endpoint, armed: relay.armed })
            &&& placed.progress == Progress::<Seq<char>>::Act(
                Action::SetSize { width: request.width, height: request.height },
            )
            &&& fitted.progress == Progress::<Seq<char>>::Act(Action::Show)
            &&& seen.progress == Progress::<Seq<char>>::Act(Action::ReadUrl)
            &&& seen.browser.panel == begun.browser.panel && seen.relay == begun.relay
            &&& told == Event::CurrentUrl(Some(url)) ==> succeeds(there, begun)
            &&& told != Event::CurrentUrl(Some(url)) ==> {
                &&& there.progress == Progress::<Seq<char>>::Act(Action::Navigate { url })
                &&& well(loaded) ==> succeeds(next(there, loaded), begun)
                &&& fails(next(there, Event::Failed(reason)), begun, reason)
            }
            &&& fails(next(begun, Event::Failed(reason)), begun, reason)
            &&& fails(next(placed, Event::Failed(reason)), begun, reason)
            &&& fails(next(fitted, Event::Failed(reason)), begun, reason)
        }),
{
}

/// Where no panel is open, the main window is looked up, the data directory is
/// prepared, and the webview is created: with the label of the session, at the
/// address, with the bootstrap unless that is empty, in the place and of the size
/// that was asked for. Then the relay gets the endpoint, not armed, and the message
/// handler is installed; the panel is open whether or not that worked, and the
/// relay is armed exactly if it did.
pub proof fn law_new_panel_is_created(
    relay: RelayModel,
    request: Goal<Seq<char>>,
    scheme: Seq<char>,
    url: Seq<char>,
    found: Event<Seq<char>>,
    prepared: Event<Seq<char>>,
    created: Event<Seq<char>>,
    installed: Event<Seq<char>>,
)
    requires
        scheme == "http"@ || scheme == "https"@,
        well(found) && well(prepared) && well(created),
    ensures
        ({
            let browser = Browser { panel: None, phase: Phase::Idle };
            let begun = browser.open_parsed(relay, request, Ok((scheme, url)));
            let located = next(begun, found);
            let ready = next(located, prepared);
            let made = next(ready, created);
            let end = next(made, installed);
            &&& begun.progress == Progress::<Seq<char>>::Act(Action::FindWindow)
            &&& begun.browser.panel is None && begun.relay == relay
            &&& located.progress == Progress::<Seq<char>>::Act(
                Action::PrepareDataDir { name: "浏览器面板"@ },
            )
            &&& ready.progress matches Progress::Act(Action::Create(creation)) && {
                &&& creation.label == native_browser::label_of(request.session)
                &&& creation.url == url
                &&& creation.data_dir == "浏览器面板"@
                &&& request.bootstrap.len() == 0 ==> creation.script is None
                &&& request.bootstrap.len() > 0 ==> creation.script == Some(request.bootstrap)
                &&& creation.x == request.x && creation.y == request.y
                &&& creation.width == request.width && creation.height == request.height
            }
            &&& ready.browser.panel is None && ready.relay == relay
            &&& made.progress == Progress::<Seq<char>>::Act(Action::InstallHandler)
            &&& made.relay == (RelayModel { endpoint: request.endpoint, armed: false })
            &&& end.progress == Progress::<Seq<char>>::Finished(Ok(()))
            &&& end.browser.phase is Idle
            &&& end.browser.panel == Some(
                Panel {
                    session: request.session,
                    endpoint: request.endpoint,
                    bootstrap: request.bootstrap,
                },
            )
            &&& end.relay.endpoint == request.endpoint
            &&& end.relay.armed <==> installed == Event::<Seq<char>>::HandlerInstalled(true)
        }),
{
}

/// A creation that fails ends with why it failed, whatever the reason is, and there
/// is no panel then.
pub proof fn law_failed_creation_says_why(
    relay: RelayModel,
    request: Goal<Seq<char>>,
    scheme: Seq<char>,
    url: Seq<char>,
    found: Event<Seq<char>>,
    prepared: Event<Seq<char>>,
    dir: Seq<char>,
    reason: Seq<char>,
)
    requires
        scheme == "http"@ || scheme == "https"@,
        well(found) && well(prepared),
    ensures
        ({
            let browser = Browser { panel: None, phase: Phase::Idle };
            let begun = browser.open_parsed(relay, request, Ok((scheme, url)));
            let located = next(begun, found);
            let ready = next(located, prepared);
            &&& fails(
                next(begun, Event::Failed(reason)),
                begun,
                "the main window is not available"@,
            )
            &&& fails(
                next(located, Event::DataDirUnresolved(reason)),
                begun,
                "cannot resolve the app data directory: "@ + reason,
            )
            &&& fails(
                next(located, Event::DataDirNotCreated { dir, error: reason }),
                begun,
                "cannot create "@ + dir + ": "@ + reason,
            )
            &&& fails(next(located, Event::Failed(reason)), begun, reason)
            &&& fails(
                next(ready, Event::Failed(reason)),
                begun,
                "cannot create the browser panel: "@ + reason,
            )
        }),
{
}

/// A panel of another session or bootstrap is closed first, and its relay with it;
/// from then on, however the closing went, the open is that of a shell which had
/// no panel.
pub proof fn law_other_panel_makes_way(
    browser: Browser,
    relay: RelayModel,
    request: Goal<Seq<char>>,
    scheme: Seq<char>,
    url: Seq<char>,
    closed: Event<Seq<char>>,
)
    requires
        browser.idle(),
        browser.panel is Some,
        !is_for(browser.panel, request),
        scheme == "http"@ || scheme == "https"@,
    ensures
        ({
            let begun = browser.open_parsed(relay, request, Ok((scheme, url)));
            let none = Browser { panel: None, phase: Phase::Idle };
            let bare = RelayModel { endpoint: None, armed: false };
            &&& begun.progress == Progress::<Seq<char>>::Act(Action::Close)
            &&& begun.browser.panel is None
            &&& begun.relay == bare
            &&& next(begun, closed) == none.open_parsed(bare, request, Ok((scheme, url)))
        }),
{
}

/// An open is refused for a size below one, for an address that does not parse, and
/// for one that is neither http nor https, in this order, each with its reason;
/// nothing else is refused, and what is refused changes nothing.
pub proof fn law_open_refuses_only_nonsense(
    browser: Browser,
    relay: RelayModel,
    request: Goal<Seq<char>>,
    scheme: Seq<char>,
    url: Seq<char>,
    error: Seq<char>,
)
    requires
        browser.idle(),
    ensures
        ({
            let before = Step { browser, relay, progress: Progress::Finished(Ok(())) };
            let small = native_browser::is_below_one(request.width)
                || native_browser::is_below_one(request.height);
            let parsed = web_url::parsed_url(request.url);
            let begun = browser.open(relay, request);
            &&& small ==> fails(begun, before, "panel needs a positive size"@)
            &&& !small ==> begun == browser.open_parsed(relay, request, parsed)
            &&& fails(
                browser.open_parsed(relay, request, Err(error)),
                before,
                "invalid panel url: "@ + error,
            )
            &&& scheme != "http"@ && scheme != "https"@ ==> fails(
                browser.open_parsed(relay, request, Ok((scheme, url))),
                before,
                "panel url must be http(s)"@,
            )
            &&& scheme == "http"@ || scheme == "https"@ ==> browser.open_parsed(
                relay,
                request,
                Ok((scheme, url)),
            ).progress is Act
        }),
{
}

/// The panel is hidden only where that is asked for; otherwise it is moved to the
/// place, resized to the size and shown, in this order, and is then where it was in
/// its history. A failure ends it, as it is told. Without a panel it is refused.
/// Neither the panel nor the relay changes.
pub proof fn law_bounds_are_applied(
    browser: Browser,
    relay: RelayModel,
    request: BoundsRequest,
    moved: Event<Seq<char>>,
    sized: Event<Seq<char>>,
    done: Event<Seq<char>>,
    reason: Seq<char>,
)
    requires
        browser.idle(),
        well(moved) && well(sized) && well(done),
    ensures
        ({
            let before = Step { browser, relay, progress: Progress::Finished(Ok(())) };
            let begun = browser.bounds(relay, request);
            let placed = next(begun, moved);
            let fitted = next(placed, sized);
            if browser.panel is None {
                fails(begun, before, "no browser panel is open"@)
            } else if request.visible == Some(false) {
                &&& begun.progress == Progress::<Seq<char>>::Act(Action::Hide)
                &&& succeeds(next(begun, done), before)
                &&& fails(next(begun, Event::Failed(reason)), before, reason)
            } else {
                &&& begun.progress == Progress::<Seq<char>>::Act(
                    Action::SetPosition { x: request.x, y: request.y },
                )
                &&& placed.progress == Progress::<Seq<char>>::Act(
                    Action::SetSize { width: request.width, height: request.height },
                )
                &&& fitted.progress == Progress::<Seq<char>>::Act(Action::Show)
                &&& succeeds(next(fitted, done), before)
                &&& fails(next(begun, Event::Failed(reason)), before, reason)
                &&& fails(next(placed, Event::Failed(reason)), before, reason)
                &&& fails(next(fitted, Event::Failed(reason)), before, reason)
            }
        }),
{
}

/// Each command that is not `close` is one action on the open panel, and the outcome
/// of that is the outcome of the command: reload, one entry back or forward in the
/// history, the address in the form that it parses to, whatever its scheme, or the
/// script as it is. What a command lacks, an address that does not parse, and any
/// other kind are refused with the reason; without a panel every one of them is.
pub proof fn law_commands_are_carried_out(
    browser: Browser,
    relay: RelayModel,
    kind: Seq<char>,
    url: Option<Seq<char>>,
    script: Option<Seq<char>>,
    done: Event<Seq<char>>,
    reason: Seq<char>,
)
    requires
        browser.idle(),
        kind != "close"@,
        well(done),
    ensures
        ({
            let before = Step { browser, relay, progress: Progress::Finished(Ok(())) };
            let begun = browser.command(relay, kind, url, script);
            &&& browser.panel is None ==> fails(begun, before, "no browser panel is open"@)
            &&& begun.progress is Act ==> {
                &&& succeeds(next(begun, done), before)
                &&& fails(next(begun, Event::Failed(reason)), before, reason)
            }
            &&& browser.panel is Some ==> {
                &&& kind == "reload"@ ==> begun.progress == Progress::<Seq<char>>::Act(
                    Action::Reload,
                )
                &&& kind == "back"@ ==> begun.progress == Progress::<Seq<char>>::Act(
                    Action::Eval { script: "history.back()"@ },
                )
                &&& kind == "forward"@ ==> begun.progress == Progress::<Seq<char>>::Act(
                    Action::Eval { script: "history.forward()"@ },
                )
                &&& kind == "navigate"@ ==> match url {
                    None => fails(begun, before, "navigate needs a url"@),
                    Some(url) => match web_url::parsed_url(url) {
                        Ok((_, to)) => begun.progress == Progress::<Seq<char>>::Act(
                            Action::Navigate { url: to },
                        ),
                        Err(error) => fails(begun, before, "invalid url: "@ + error),
                    },
                }
                &&& kind == "eval"@ ==> match script {
                    None => fails(begun, before, "eval needs a script"@),
                    Some(script) => begun.progress == Progress::<Seq<char>>::Act(Action::Eval { script }),
                }
                &&& kind != "reload"@ && kind != "back"@ && kind != "forward"@ && kind
                    != "navigate"@ && kind != "eval"@ ==> fails(
                    begun,
                    before,
                    "unsupported panel command: "@ + kind,
                )
            }
        }),
{
    reveal_strlit("close");
    reveal_strlit("reload");
    reveal_strlit("back");
    reveal_strlit("forward");
    reveal_strlit("navigate");
    reveal_strlit("eval");
    assert("back"@[0] != "eval"@[0]);
}

/// To go to an address is to be taken to the form that it parsed to, whatever its
/// scheme, or to be told why it did not parse.
pub proof fn law_navigation_takes_every_address(
    browser: Browser,
    relay: RelayModel,
    scheme: Seq<char>,
    url: Seq<char>,
    error: Seq<char>,
)
    requires
        browser.idle(),
    ensures
        ({
            let before = Step { browser, relay, progress: Progress::Finished(Ok(())) };
            let begun = browser.navigate(relay, Ok((scheme, url)));
            &&& begun.progress == Progress::<Seq<char>>::Act(Action::Navigate { url })
            &&& begun.browser.panel == browser.panel && begun.relay == relay
            &&& fails(
                browser.navigate(relay, Err(error)),
                before,
                "invalid url: "@ + error,
            )
        }),
{
}

/// A double is below one where it is a number, and either has its sign set or has an
/// exponent below that of one.
pub proof fn law_below_one(value: Coordinate, below: bool)
    requires
        call_ensures(native_browser::below_one, (value,), below),
    ensures
        below == native_browser::is_below_one(value),
        ({
            let negative = value.bits / 0x8000_0000_0000_0000 == 1;
            let exponent = value.bits / 0x10_0000_0000_0000 % 0x800;
            let fraction = value.bits % 0x10_0000_0000_0000;
            let number = exponent < 0x7ff || fraction == 0;
            below <==> number && (negative || exponent < 0x3ff)
        }),
{
}

/// The label of a session that is made of letters, digits and hyphens is the session
/// behind the prefix, as far as its first forty-eight characters.
pub proof fn law_label_keeps_safe_sessions(session: &str, label: String)
    requires
        call_ensures(native_browser::panel_label, (session,), label),
        forall|i: int|
            0 <= i < session@.len() ==> ({
                let c = #[trigger] session@[i];
                'a' <= c <= 'z' || 'A' <= c <= 'Z' || '0' <= c <= '9' || c == '-'
            }),
    ensures
        label@ == native_browser::label_of(session@),
        session@.len() <= 48 ==> label@ == "web-review-browser-"@ + session@,
        session@.len() > 48 ==> label@ == "web-review-browser-"@ + session@.take(48),
{
    let keep = |c: char| native_browser::is_label_char(c);
    assert(session@.filter(keep) == session@) by {
        lemma_filter_keeps(session@, keep);
    }
}

proof fn lemma_filter_keeps(session: Seq<char>, keep: spec_fn(char) -> bool)
    requires
        forall|i: int| 0 <= i < session.len() ==> keep(#[trigger] session[i]),
    ensures
        session.filter(keep) == session,
    decreases session.len(),
{
    reveal(Seq::filter);
    if session.len() > 0 {
        lemma_filter_keeps(session.drop_last(), keep);
        assert(session =~= session.drop_last().push(session.last()));
    }
}

/// Any other character does not count, wherever it stands in the session: with it and
/// without it the label is the same.
pub proof fn law_label_drops_the_rest(
    first: &str,
    second: &str,
    before: Seq<char>,
    c: char,
    after: Seq<char>,
    with: String,
    without: String,
)
    requires
        call_ensures(native_browser::panel_label, (first,), with),
        call_ensures(native_browser::panel_label, (second,), without),
        !('a' <= c <= 'z' || 'A' <= c <= 'Z' || '0' <= c <= '9' || c == '-'),
        first@ == before.push(c) + after,
        second@ == before + after,
    ensures
        with@ == without@,
        with@ == native_browser::label_of(first@),
{
    let keep = |c: char| native_browser::is_label_char(c);
    Seq::filter_distributes_over_add(before.push(c), after, keep);
    Seq::filter_distributes_over_add(before, after, keep);
    assert(before.push(c).filter(keep) == before.filter(keep)) by {
        reveal(Seq::filter);
        assert(before.push(c).drop_last() =~= before);
    }
}

/// The requests of a caller begin these operations, with all that the request holds,
/// and what the shell tells continues them.
pub proof fn law_open_begins_the_open(
    browser: &mut NativeBrowser,
    relay: &mut Relay,
    request: &OpenRequest,
    progress: Progress<String>,
)
    requires
        call_ensures(NativeBrowser::open, (browser, relay, request), progress),
    ensures
        old(browser)@.open(
            old(relay)@,
            Goal {
                session: request.session@,
                endpoint: text::optional(request.endpoint),
                bootstrap: request.bootstrap@,
                url: request.url@,
                x: request.x,
                y: request.y,
                width: request.width,
                height: request.height,
            },
        ) == (Step { browser: final(browser)@, relay: final(relay)@, progress: progress@ }),
{
}

/// An open whose address has been parsed begins with what that gave.
pub proof fn law_open_parsed_begins_the_open(
    browser: &mut NativeBrowser,
    relay: &mut Relay,
    request: &OpenRequest,
    parsed: Result<WebUrl, String>,
    progress: Progress<String>,
)
    requires
        call_ensures(NativeBrowser::open_parsed, (browser, relay, request, parsed), progress),
    ensures
        old(browser)@.open_parsed(
            old(relay)@,
            Goal {
                session: request.session@,
                endpoint: text::optional(request.endpoint),
                bootstrap: request.bootstrap@,
                url: request.url@,
                x: request.x,
                y: request.y,
                width: request.width,
                height: request.height,
            },
            match parsed {
                Ok(url) => Ok((url.scheme@, url.text@)),
                Err(error) => Err(error@),
            },
        ) == (Step { browser: final(browser)@, relay: final(relay)@, progress: progress@ }),
{
}

/// A request for other bounds begins that operation, and leaves the relay alone.
pub proof fn law_bounds_begins_the_move(
    browser: &mut NativeBrowser,
    relay: RelayModel,
    request: &BoundsRequest,
    progress: Progress<String>,
)
    requires
        call_ensures(NativeBrowser::bounds, (browser, request), progress),
    ensures
        old(browser)@.bounds(relay, *request) == (Step {
            browser: final(browser)@,
            relay,
            progress: progress@,
        }),
{
}

/// A navigation whose address has been parsed begins with what that gave.
pub proof fn law_navigate_begins_the_navigation(
    browser: &mut NativeBrowser,
    relay: RelayModel,
    parsed: Result<WebUrl, String>,
    progress: Progress<String>,
)
    requires
        call_ensures(NativeBrowser::navigate, (browser, parsed), progress),
    ensures
        old(browser)@.navigate(
            relay,
            match parsed {
                Ok(url) => Ok((url.scheme@, url.text@)),
                Err(error) => Err(error@),
            },
        ) == (Step { browser: final(browser)@, relay, progress: progress@ }),
{
}

/// A command begins with its kind, its address and its script as they were given.
pub proof fn law_command_begins_the_command(
    browser: &mut NativeBrowser,
    relay: &mut Relay,
    request: &CommandRequest,
    progress: Progress<String>,
)
    requires
        call_ensures(NativeBrowser::command, (browser, relay, request), progress),
    ensures
        old(browser)@.command(
            old(relay)@,
            request.kind@,
            text::optional(request.url),
            text::optional(request.script),
        ) == (Step { browser: final(browser)@, relay: final(relay)@, progress: progress@ }),
{
}

/// What the shell tells of an action takes the operation to its next move, whichever
/// move it was.
pub proof fn law_resume_continues(
    browser: &mut NativeBrowser,
    relay: &mut Relay,
    event: Event<String>,
    progress: Progress<String>,
    idle: bool,
)
    requires
        call_ensures(NativeBrowser::resume, (browser, relay, event), progress),
        call_ensures(NativeBrowser::is_idle, (final(browser),), idle),
    ensures
        old(browser)@.resume(old(relay)@, event@) == (Step {
            browser: final(browser)@,
            relay: final(relay)@,
            progress: progress@,
        }),
        idle == (final(browser)@.phase is Idle),
{
}

/// What is told of the panel is what there is: its session, where the webview is and
/// where it sits, as the shell told them, whether the relay is armed, and whether an
/// operation is under way; and of no panel nothing is told.
pub proof fn law_state_is_what_there_is(
    browser: &NativeBrowser,
    relay: &Relay,
    url: Option<String>,
    bounds: Option<PanelBounds>,
    state: PanelState,
    idle: bool,
    fresh: NativeBrowser,
)
    requires
        call_ensures(NativeBrowser::state, (browser, relay, url, bounds), state),
        call_ensures(NativeBrowser::is_idle, (browser,), idle),
        call_ensures(NativeBrowser::new, (), fresh),
    ensures
        browser@.panel matches Some(panel) ==> {
            &&& state.open
            &&& state.session is Some && state.session->0@ == panel.session
            &&& text::optional(state.url) == text::optional(url)
            &&& state.bounds == bounds
            &&& state.relay == relay.armed
        },
        browser@.panel is None ==> !state.open && state.session is None && state.url is None
            && state.bounds is None && !state.relay,
        idle <==> browser@.phase is Idle,
        fresh@.panel is None && fresh@.phase is Idle,
{
}

/// Every image that was captured is handed on in base64, and whatever went wrong is
/// told with its reason; without a panel there is nothing to capture.
pub proof fn law_captures_are_handed_on(
    browser: &NativeBrowser,
    capture: Capture,
    image: Result<String, String>,
    can: Result<(), String>,
)
    requires
        call_ensures(NativeBrowser::snapshot, (browser, capture), image),
        call_ensures(NativeBrowser::can_snapshot, (browser,), can),
    ensures
        can is Ok <==> browser@.panel is Some,
        can matches Err(reason) ==> reason@ == "no browser panel is open"@,
        browser@.panel is None ==> (image matches Err(reason) && reason@
            == "no browser panel is open"@),
        browser@.panel is Some ==> match capture {
            Capture::Png(bytes) => image matches Ok(told) && told@ == base64_text::base64_of(bytes@),
            Capture::Unreachable(why) => image matches Err(reason) && reason@
                == "cannot reach the panel: "@ + why@,
            Capture::TimedOut => image matches Err(reason) && reason@ == "panel snapshot timed out"@,
            Capture::Failed(failure) => image matches Err(reason) && reason@ == match failure {
                CaptureFailure::Reported(why) => "panel snapshot failed: "@ + why@,
                CaptureFailure::NoImage => "panel snapshot returned no image"@,
                CaptureFailure::NoBitmap => "panel snapshot has no bitmap representation"@,
                CaptureFailure::NotDecodable => "panel snapshot is not decodable"@,
                CaptureFailure::NotEncodable => "panel snapshot could not be encoded as PNG"@,
                CaptureFailure::Empty => "empty snapshot"@,
                CaptureFailure::Unsupported => "panel snapshots need macOS"@,
            },
        },
{
}

/// What is told of a capture without an image is the same on its own.
pub proof fn law_capture_failures_say_why(
    browser: &NativeBrowser,
    failure: CaptureFailure,
    image: Result<String, String>,
    message: String,
)
    requires
        browser@.panel is Some,
        call_ensures(NativeBrowser::snapshot, (browser, Capture::Failed(failure)), image),
        call_ensures(CaptureFailure::message, (&failure,), message),
    ensures
        image matches Err(reason) && reason@ == message@,
{
}

/// What is told where no panel is open, and how long a capture may take.
pub proof fn law_panel_terms(state: PanelState)
    requires
        call_ensures(PanelState::closed, (), state),
    ensures
        !state.open && state.session is None && state.url is None && state.bounds is None
            && !state.relay,
        native_browser::SNAPSHOT_SECONDS == 20,
        native_browser::DATA_DIR_NAME@ == "浏览器面板"@,
{
}

/// What an operation is said to need or to have come to is what it needs or has come
/// to: the same action, with the same texts, or the same result.
pub proof fn law_progress_is_as_said(progress: Progress<String>)
    ensures
        progress matches Progress::Finished(Ok(_)) <==> progress@ matches Progress::Finished(Ok(_)),
        progress matches Progress::Finished(Err(reason)) ==> progress@ == Progress::<
            Seq<char>,
        >::Finished(Err(reason@)),
        progress matches Progress::Act(action) ==> progress@ matches Progress::Act(said) && {
            &&& action matches Action::SetPosition { x, y } ==> said == (Action::<
                Seq<char>,
            >::SetPosition { x, y })
            &&& action matches Action::SetSize { width, height } ==> said == (Action::<
                Seq<char>,
            >::SetSize { width, height })
            &&& action matches Action::Navigate { url } ==> said == (Action::Navigate { url: url@ })
            &&& action matches Action::Eval { script } ==> said == (Action::Eval {
                script: script@,
            })
            &&& action matches Action::PrepareDataDir { name } ==> said == (
            Action::PrepareDataDir { name: name@ })
            &&& action matches Action::Create(made) ==> said matches Action::Create(told) && {
                &&& told.label == made.label@ && told.url == made.url@
                &&& told.data_dir == made.data_dir@
                &&& told.script == text::optional(made.script)
                &&& told.x == made.x && told.y == made.y
                &&& told.width == made.width && told.height == made.height
            }
            &&& action is Show <==> said is Show
            &&& action is Hide <==> said is Hide
            &&& action is ReadUrl <==> said is ReadUrl
            &&& action is Reload <==> said is Reload
            &&& action is Close <==> said is Close
            &&& action is FindWindow <==> said is FindWindow
            &&& action is InstallHandler <==> said is InstallHandler
        },
{
}

/// What the shell tells is taken as it was told, with the same texts.
pub proof fn law_events_are_as_told(event: Event<String>, relay: Relay)
    ensures
        event is Done <==> event@ is Done,
        event matches Event::Failed(why) ==> event@ == Event::Failed(why@),
        event matches Event::CurrentUrl(url) ==> event@ == Event::CurrentUrl(text::optional(url)),
        event matches Event::HandlerInstalled(yes) ==> event@ == Event::<
            Seq<char>,
        >::HandlerInstalled(yes),
        event matches Event::DataDirUnresolved(why) ==> event@ == Event::DataDirUnresolved(why@),
        event matches Event::DataDirNotCreated { dir, error } ==> event@ == (
        Event::DataDirNotCreated { dir: dir@, error: error@ }),
        relay@.endpoint == text::optional(relay.endpoint),
        relay@.armed == relay.armed,
{
}

} // verus!
