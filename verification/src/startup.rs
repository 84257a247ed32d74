//! The first page: the shell waits until the service listens and has announced
//! its address, and takes the window there. And what is due when it all ends.

use crate::harness::AuthenticatedUrl;
use crate::text;
use crate::web_url;
use crate::web_url::WebUrl;
use vstd::prelude::*;

verus! {

/// How long the shell waits for the service, in milliseconds.
pub const WAIT_MILLIS: u64 = 45_000;

/// How long one attempt to connect may take, in milliseconds.
pub const CONNECT_MILLIS: u64 = 250;

/// How long the shell sleeps between two attempts, in milliseconds.
pub const RETRY_MILLIS: u64 = 150;

/// One thing that the shell is asked to do, with texts of type `T`.
#[derive(Debug, PartialEq, Eq)]
pub enum WaitAction<T> {
    /// Tell how many milliseconds have passed since the wait began.
    ReadClock,
    /// Try to connect to the service for so many milliseconds.
    Connect { millis: u64 },
    /// Sleep for so many milliseconds.
    Sleep { millis: u64 },
    /// Take the main window to this address.
    Navigate { url: T },
}

/// How an action went.
#[derive(Clone, Copy, Debug, PartialEq, Eq, Structural)]
pub enum WaitEvent {
    /// It was tried.
    Done,
    /// So many milliseconds have passed.
    Elapsed { millis: u64 },
    /// Whether the service could be connected to.
    Connected { connected: bool },
}

/// Which action the wait is waiting for.
#[derive(Clone, Copy, Debug, PartialEq, Eq, Structural)]
pub enum WaitPhase {
    Timing,
    Connecting,
    Sleeping,
    Navigating,
    /// It is over.
    Over,
}

/// Where the wait is, and the action that it needs next; it needs none once it
/// is over.
#[derive(Debug, PartialEq, Eq)]
pub struct WaitStep<T> {
    pub phase: WaitPhase,
    pub action: Option<WaitAction<T>>,
}

impl View for WaitAction<String> {
    type V = WaitAction<Seq<char>>;

    open spec fn view(&self) -> WaitAction<Seq<char>> {
        match *self {
            WaitAction::ReadClock => WaitAction::ReadClock,
            WaitAction::Connect { millis } => WaitAction::Connect { millis },
            WaitAction::Sleep { millis } => WaitAction::Sleep { millis },
            WaitAction::Navigate { url } => WaitAction::Navigate { url: url@ },
        }
    }
}

impl View for WaitStep<String> {
    type V = WaitStep<Seq<char>>;

    open spec fn view(&self) -> WaitStep<Seq<char>> {
        WaitStep {
            phase: self.phase,
            action: match self.action {
                Some(action) => Some(action@),
                None => None,
            },
        }
    }
}

/// The wait needs this action.
pub open spec fn waiting(phase: WaitPhase, action: WaitAction<Seq<char>>) -> WaitStep<Seq<char>> {
    WaitStep { phase, action: Some(action) }
}

/// The wait is over.
pub open spec fn wait_over() -> WaitStep<Seq<char>> {
    WaitStep { phase: WaitPhase::Over, action: None }
}

/// The service listens and has announced an address that parsed to `parsed`.
/// An address that cannot be parsed ends the wait.
pub open spec fn wait_found(
    parsed: Result<(Seq<char>, Seq<char>), Seq<char>>,
) -> WaitStep<Seq<char>> {
    match parsed {
        Ok((_, url)) => waiting(WaitPhase::Navigating, WaitAction::Navigate { url }),
        Err(_) => wait_over(),
    }
}

/// How the wait goes on after the action that it was waiting for, while the
/// service has announced `announced`.
pub open spec fn wait_after(
    phase: WaitPhase,
    event: WaitEvent,
    announced: Option<Seq<char>>,
) -> WaitStep<Seq<char>> {
    match phase {
        WaitPhase::Timing => match event {
            WaitEvent::Elapsed { millis } => if millis < WAIT_MILLIS {
                waiting(WaitPhase::Connecting, WaitAction::Connect { millis: CONNECT_MILLIS })
            } else {
                wait_over()
            },
            _ => waiting(WaitPhase::Timing, WaitAction::ReadClock),
        },
        WaitPhase::Connecting => if event == (WaitEvent::Connected { connected: true })
            && announced is Some {
            wait_found(web_url::parsed_url(announced->0))
        } else {
            waiting(WaitPhase::Sleeping, WaitAction::Sleep { millis: RETRY_MILLIS })
        },
        WaitPhase::Sleeping => waiting(WaitPhase::Timing, WaitAction::ReadClock),
        WaitPhase::Navigating | WaitPhase::Over => wait_over(),
    }
}

/// Begins the wait.
pub fn begin_wait() -> (step: WaitStep<String>)
    ensures
        step@ == waiting(WaitPhase::Timing, WaitAction::ReadClock),
{
    WaitStep { phase: WaitPhase::Timing, action: Some(WaitAction::ReadClock) }
}

/// Goes on with the wait once the announced address has been parsed.
pub fn found(parsed: Result<WebUrl, String>) -> (step: WaitStep<String>)
    ensures
        step@ == wait_found(web_url::url_model(parsed)),
{
    match parsed {
        Ok(url) => WaitStep {
            phase: WaitPhase::Navigating,
            action: Some(WaitAction::Navigate { url: url.text }),
        },
        Err(_) => WaitStep { phase: WaitPhase::Over, action: None },
    }
}

/// Goes on with the wait, after the action that it asked for.
pub fn continue_wait(phase: WaitPhase, event: WaitEvent, target: &AuthenticatedUrl) -> (step:
    WaitStep<String>)
    ensures
        step@ == wait_after(phase, event, text::optional(target.url)),
{
    match phase {
        WaitPhase::Timing => match event {
            WaitEvent::Elapsed { millis } => if millis < WAIT_MILLIS {
                WaitStep {
                    phase: WaitPhase::Connecting,
                    action: Some(WaitAction::Connect { millis: CONNECT_MILLIS }),
                }
            } else {
                WaitStep { phase: WaitPhase::Over, action: None }
            },
            _ => WaitStep { phase: WaitPhase::Timing, action: Some(WaitAction::ReadClock) },
        },
        WaitPhase::Connecting => match (event, &target.url) {
            (WaitEvent::Connected { connected: true }, Some(url)) => {
                let parsed = web_url::parse_url(url.as_str());
                found(parsed)
            },
            _ => WaitStep {
                phase: WaitPhase::Sleeping,
                action: Some(WaitAction::Sleep { millis: RETRY_MILLIS }),
            },
        },
        WaitPhase::Sleeping => WaitStep {
            phase: WaitPhase::Timing,
            action: Some(WaitAction::ReadClock),
        },
        WaitPhase::Navigating | WaitPhase::Over => WaitStep { phase: WaitPhase::Over, action: None },
    }
}

/// The window is taken somewhere only once the service could be connected to
/// and has announced an address, and then to that address.
pub proof fn law_navigates_to_the_announced_address(
    phase: WaitPhase,
    event: WaitEvent,
    announced: Option<Seq<char>>,
    url: Seq<char>,
)
    requires
        wait_after(phase, event, announced).action == Some(WaitAction::Navigate { url }),
    ensures
        event == (WaitEvent::Connected { connected: true }),
        announced is Some,
        web_url::parsed_url(announced->0) matches Ok((_, parsed)) && parsed == url,
{
}

/// No attempt to connect is made once the time is over.
pub proof fn law_wait_is_bounded(event: WaitEvent, announced: Option<Seq<char>>)
    requires
        event matches WaitEvent::Elapsed { millis } && millis >= WAIT_MILLIS,
    ensures
        wait_after(WaitPhase::Timing, event, announced) == wait_over(),
{
}

/// How an action went, and what the service had announced by then.
pub struct Moment {
    pub event: WaitEvent,
    pub announced: Option<Seq<char>>,
}

/// The actions that a wait asks for from `step` on, while they go as `moments`
/// tell: each but the last is answered by the moment of the same index.
pub open spec fn asked(step: WaitStep<Seq<char>>, moments: Seq<Moment>) -> Seq<
    WaitAction<Seq<char>>,
>
    decreases moments.len(),
{
    match step.action {
        None => Seq::empty(),
        Some(action) => if moments.len() == 0 {
            seq![action]
        } else {
            seq![action] + asked(
                wait_after(step.phase, moments[0].event, moments[0].announced),
                moments.drop_first(),
            )
        },
    }
}

/// The action at `i` is preceded by an attempt to connect that succeeded, when the
/// service had announced an address that parses to `url`; and that by a look at
/// the clock, when the time was not over.
pub open spec fn earned(
    actions: Seq<WaitAction<Seq<char>>>,
    moments: Seq<Moment>,
    i: int,
    url: Seq<char>,
) -> bool {
    &&& i >= 2
    &&& actions[i - 2] == WaitAction::<Seq<char>>::ReadClock
    &&& moments[i - 2].event matches WaitEvent::Elapsed { millis } && millis < WAIT_MILLIS
    &&& actions[i - 1] == (WaitAction::<Seq<char>>::Connect { millis: CONNECT_MILLIS })
    &&& moments[i - 1].event == (WaitEvent::Connected { connected: true })
    &&& moments[i - 1].announced is Some
    &&& web_url::parsed_url(moments[i - 1].announced->0) matches Ok((_, parsed)) && parsed == url
}

/// However a wait goes, it takes the window somewhere at most once, and nothing
/// follows that; and it does so only right after it could connect to the service,
/// in an attempt begun before the time was over, and then to the address that the
/// service had announced.
pub proof fn law_wait_navigates_once(moments: Seq<Moment>)
    ensures
        ({
            let actions = asked(waiting(WaitPhase::Timing, WaitAction::ReadClock), moments);
            forall|i: int|
                0 <= i < actions.len() ==> (#[trigger] actions[i] matches WaitAction::Navigate {
                    url,
                } ==> i == actions.len() - 1 && earned(actions, moments, i, url))
        }),
{
    let start = waiting(WaitPhase::Timing, WaitAction::ReadClock);
    let actions = asked(start, moments);
    assert forall|i: int| 0 <= i < actions.len() implies (
    #[trigger] actions[i] matches WaitAction::Navigate { url } ==> i == actions.len() - 1 && earned(
        actions,
        moments,
        i,
        url,
    )) by {
        if actions[i] is Navigate {
            lemma_navigation(start, moments, i);
        }
    }
}

spec fn fits(step: WaitStep<Seq<char>>) -> bool {
    match step.phase {
        WaitPhase::Timing => step.action == Some(WaitAction::<Seq<char>>::ReadClock),
        WaitPhase::Connecting => step.action == Some(
            WaitAction::<Seq<char>>::Connect { millis: CONNECT_MILLIS },
        ),
        WaitPhase::Sleeping => step.action matches Some(WaitAction::Sleep { .. }),
        WaitPhase::Navigating => step.action matches Some(WaitAction::Navigate { .. }),
        WaitPhase::Over => step.action is None,
    }
}

proof fn lemma_navigation(step: WaitStep<Seq<char>>, moments: Seq<Moment>, i: int)
    requires
        fits(step),
        0 <= i < asked(step, moments).len(),
        asked(step, moments)[i] is Navigate,
    ensures
        ({
            let actions = asked(step, moments);
            &&& i == actions.len() - 1 <= moments.len()
            &&& i == 0 ==> step.phase is Navigating
            &&& i == 1 ==> step.phase is Connecting
            &&& i >= 1 ==> {
                &&& actions[i - 1] == (WaitAction::<Seq<char>>::Connect { millis: CONNECT_MILLIS })
                &&& moments[i - 1].event == (WaitEvent::Connected { connected: true })
                &&& moments[i - 1].announced is Some
                &&& web_url::parsed_url(moments[i - 1].announced->0) matches Ok((_, parsed))
                    && actions[i] == (WaitAction::Navigate { url: parsed })
            }
            &&& i >= 2 ==> {
                &&& actions[i - 2] == WaitAction::<Seq<char>>::ReadClock
                &&& moments[i - 2].event matches WaitEvent::Elapsed { millis } && millis
                    < WAIT_MILLIS
            }
        }),
    decreases moments.len(),
{
    let actions = asked(step, moments);
    if moments.len() > 0 {
        let next = wait_after(step.phase, moments[0].event, moments[0].announced);
        let rest = moments.drop_first();
        let later = asked(next, rest);
        assert(actions =~= seq![step.action->0] + later);
        if i > 0 {
            assert(later[i - 1] == actions[i]);
            lemma_navigation(next, rest, i - 1);
            if i >= 2 {
                assert(later[i - 2] == actions[i - 1]);
                assert(rest[i - 2] == moments[i - 1]);
            }
            if i >= 3 {
                assert(later[i - 3] == actions[i - 2]);
                assert(rest[i - 3] == moments[i - 2]);
            }
        }
    }
}

/// What happens to the application.
#[derive(Clone, Copy, Debug, PartialEq, Eq, Structural)]
pub enum AppEvent {
    /// A window is asked to close.
    CloseRequested,
    /// The application is asked to exit.
    ExitRequested,
    /// The application exits.
    Exit,
    /// Anything else.
    Other,
}

/// What is due when something happens to the application.
#[derive(Clone, Copy, Debug, PartialEq, Eq, Structural)]
pub struct Duties {
    /// Stop the service.
    pub stop_service: bool,
    /// Withdraw the descriptor of the control API.
    pub withdraw: bool,
}

/// What is due when something happens to the application: the service ends with
/// the window, and with the application; the descriptor goes with the
/// application.
pub fn duties(event: AppEvent) -> (duties: Duties)
    ensures
        duties.stop_service == (event != AppEvent::Other),
        duties.withdraw == (event == AppEvent::Exit || event == AppEvent::ExitRequested),
{
    match event {
        AppEvent::CloseRequested => Duties { stop_service: true, withdraw: false },
        AppEvent::ExitRequested | AppEvent::Exit => Duties { stop_service: true, withdraw: true },
        AppEvent::Other => Duties { stop_service: false, withdraw: false },
    }
}

/// Once the service can be connected to and has announced an address, the window
/// is taken there, whatever the address is, in the form that it parses to; an
/// address that does not parse ends the wait.
pub proof fn law_announced_service_is_shown(
    target: &AuthenticatedUrl,
    scheme: Seq<char>,
    url: Seq<char>,
    step: WaitStep<String>,
)
    requires
        call_ensures(
            continue_wait,
            (WaitPhase::Connecting, WaitEvent::Connected { connected: true }, target),
            step,
        ),
        target.url is Some,
    ensures
        web_url::parsed_url(target.url->0@) == Ok::<_, Seq<char>>((scheme, url)) ==> {
            &&& step.phase is Navigating
            &&& step.action matches Some(WaitAction::Navigate { url: to }) && to@ == url
        },
        web_url::parsed_url(target.url->0@) is Err ==> step.phase is Over && step.action is None,
{
    assert(step@.action == match step.action {
        Some(action) => Some(action@),
        None => None,
    });
}

/// As long as the service cannot be connected to, or has announced nothing, the
/// wait goes on: it sleeps, looks at the clock, and tries again until the time is
/// over. Nothing follows the navigation, nor the end.
pub proof fn law_wait_goes_round(
    phase: WaitPhase,
    event: WaitEvent,
    target: &AuthenticatedUrl,
    step: WaitStep<String>,
    start: WaitStep<String>,
)
    requires
        call_ensures(continue_wait, (phase, event, target), step),
        call_ensures(begin_wait, (), start),
    ensures
        start.phase is Timing && (start.action matches Some(action) && action is ReadClock),
        phase is Timing ==> match event {
            WaitEvent::Elapsed { millis } => {
                &&& millis < 45_000 ==> step.phase is Connecting && (step.action matches Some(
                    action,
                ) && action == (WaitAction::<String>::Connect { millis: 250 }))
                &&& millis >= 45_000 ==> step.phase is Over && step.action is None
            },
            _ => step.phase is Timing && (step.action matches Some(action) && action is ReadClock),
        },
        phase is Connecting && (event != (WaitEvent::Connected { connected: true })
            || target.url is None) ==> step.phase is Sleeping && (step.action matches Some(action)
            && action == (WaitAction::<String>::Sleep { millis: 150 })),
        phase is Sleeping ==> step.phase is Timing && (step.action matches Some(action)
            && action is ReadClock),
        phase is Navigating || phase is Over ==> step.phase is Over && step.action is None,
{
    assert(step@.action == match step.action {
        Some(action) => Some(action@),
        None => None,
    });
    assert(start@.action == match start.action {
        Some(action) => Some(action@),
        None => None,
    });
}

/// Every address that parses is gone to, in the form that it parsed to.
pub proof fn law_every_parsed_address_is_shown(
    parsed: Result<WebUrl, String>,
    step: WaitStep<String>,
)
    requires
        call_ensures(found, (parsed,), step),
    ensures
        parsed matches Ok(url) ==> step.phase is Navigating && (step.action matches Some(
            WaitAction::Navigate { url: to },
        ) && to@ == url.text@),
        parsed is Err ==> step.phase is Over && step.action is None,
{
    assert(step@.action == match step.action {
        Some(action) => Some(action@),
        None => None,
    });
}

/// A service that listens and has announced its address in time is shown, however
/// many attempts before that failed: from the look at the clock on, one attempt
/// that succeeds takes the window to the address, and one that fails, or comes
/// before the announcement, leads back to the clock.
pub proof fn law_service_in_time_is_shown(millis: u64, connected: bool, announced: Option<Seq<char>>)
    requires
        millis < 45_000,
    ensures
        ({
            let start = waiting(WaitPhase::Timing, WaitAction::ReadClock);
            let trying = wait_after(start.phase, WaitEvent::Elapsed { millis }, announced);
            let tried = wait_after(trying.phase, WaitEvent::Connected { connected }, announced);
            let slept = wait_after(tried.phase, WaitEvent::Done, announced);
            if connected && announced is Some {
                &&& web_url::parsed_url(announced->0) matches Ok((_, url)) ==> tried.action == Some(
                    WaitAction::Navigate { url },
                ) && slept.action is None
                &&& web_url::parsed_url(announced->0) is Err ==> tried.action is None
            } else {
                slept == start
            }
        }),
{
}

/// The service is stopped with the window and with the application, and the
/// descriptor goes with the application, and with it only.
pub proof fn law_what_is_due(event: AppEvent, due: Duties)
    requires
        call_ensures(duties, (event,), due),
    ensures
        event is CloseRequested ==> due.stop_service && !due.withdraw,
        event is ExitRequested || event is Exit ==> due.stop_service && due.withdraw,
        event is Other ==> !due.stop_service && !due.withdraw,
{
}

} // verus!
