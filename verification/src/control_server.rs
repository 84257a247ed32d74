//! Loopback control API for the native browser panel.
//!
//! The shell publishes a small JSON descriptor under `$DSH_HOME` and serves this
//! API on an ephemeral loopback port. This module decides what each request
//! asks for, how it is answered, and what the descriptor says; the shell owns
//! the socket and the files.
//!
//! | Path                 | Body / result                      |
//! |----------------------|------------------------------------|
//! | `/health`            | `{ ok, product, version }`         |
//! | `/panel/state`       | `{ open, session, url }`           |
//! | `/panel/open`        | `OpenRequest`                      |
//! | `/panel/bounds`      | `BoundsRequest`                    |
//! | `/panel/command`     | `CommandRequest`                   |
//! | `/window/state`      | `{ fullscreen, escapesSwallowed }` |
//! | `/window/fullscreen` | `{ value: bool }`                  |

use crate::json_value;
use crate::json_value::Json;
use crate::native_browser::BoundsRequest;
use crate::native_browser::CommandRequest;
use crate::native_browser::NativeBrowser;
use crate::native_browser::OpenRequest;
use crate::native_browser::PanelState;
use crate::native_browser::Progress;
use crate::native_browser::Step;
use crate::panel_bridge::Relay;
use crate::paths::JoinedPath;
use crate::text;
use crate::window_guard;
use crate::window_guard::WindowGuard;
use vstd::prelude::*;
use vstd::string::*;
use vstd::utf8;

verus! {

/// Descriptor filename that the shell advertises for clients to discover.
pub const DESCRIPTOR_NAME: &'static str = "native-browser.json";

/// The name under which the shell makes itself known.
pub const PRODUCT: &'static str = "deepseek-harness-desktop";

/// Where the control API listens: on loopback only, at a port of the system's
/// choice.
pub const BIND_ADDRESS: &'static str = "127.0.0.1:0";

/// The content type of every answer but the one that there is no such endpoint.
pub const CONTENT_TYPE: &'static str = "application/json; charset=utf-8";

/// The most bytes of a request's body that are read.
pub const BODY_LIMIT: usize = 1_048_576;

/// What a request is for.
#[derive(Clone, Copy, Debug, PartialEq, Eq, Structural)]
pub enum Endpoint {
    Health,
    PanelState,
    PanelOpen,
    PanelBounds,
    PanelCommand,
    WindowState,
    WindowFullscreen,
    Unknown,
}

/// The path of a request's target: all of it up to the first question mark.
pub open spec fn path_of(url: Seq<char>) -> Seq<char> {
    match text::find_from(url, "?"@, 0) {
        Some(mark) => url.take(mark),
        None => url,
    }
}

/// What a path is for.
pub open spec fn endpoint_of(path: Seq<char>) -> Endpoint {
    if path == "/health"@ {
        Endpoint::Health
    } else if path == "/panel/state"@ {
        Endpoint::PanelState
    } else if path == "/panel/open"@ {
        Endpoint::PanelOpen
    } else if path == "/panel/bounds"@ {
        Endpoint::PanelBounds
    } else if path == "/panel/command"@ {
        Endpoint::PanelCommand
    } else if path == "/window/state"@ {
        Endpoint::WindowState
    } else if path == "/window/fullscreen"@ {
        Endpoint::WindowFullscreen
    } else {
        Endpoint::Unknown
    }
}

/// What a request is for, by its target.
pub fn route(url: &str) -> (endpoint: Endpoint)
    ensures
        endpoint == endpoint_of(path_of(url@)),
{
    let chars = text::characters(url);
    let end = match text::find(&chars, "?") {
        Some(mark) => {
            proof {
                text::lemma_find_from(chars@, "?"@, 0);
            }
            mark
        },
        None => chars.len(),
    };
    let path = text::slice_text(&chars, 0, end);
    assert(path@ =~= path_of(url@));
    let path = path.as_str();
    if text::same(path, "/health") {
        Endpoint::Health
    } else if text::same(path, "/panel/state") {
        Endpoint::PanelState
    } else if text::same(path, "/panel/open") {
        Endpoint::PanelOpen
    } else if text::same(path, "/panel/bounds") {
        Endpoint::PanelBounds
    } else if text::same(path, "/panel/command") {
        Endpoint::PanelCommand
    } else if text::same(path, "/window/state") {
        Endpoint::WindowState
    } else if text::same(path, "/window/fullscreen") {
        Endpoint::WindowFullscreen
    } else {
        Endpoint::Unknown
    }
}

/// A query does not matter to what a request is for.
pub proof fn law_query_is_ignored(path: Seq<char>, query: Seq<char>)
    requires
        text::find_from(path, "?"@, 0) is None,
    ensures
        path_of(path + "?"@ + query) == path,
        path_of(path) == path,
{
    reveal_strlit("?");
    let url = path + "?"@ + query;
    let mark = path.len() as int;
    text::lemma_find_from(path, "?"@, 0);
    assert(url.subrange(mark, mark + 1) =~= "?"@);
    assert forall|earlier: int| 0 <= earlier < mark implies !text::occurs_at(url, "?"@, earlier) by {
        if text::occurs_at(url, "?"@, earlier) {
            assert(path.subrange(earlier, earlier + 1) =~= url.subrange(earlier, earlier + 1));
            assert(text::occurs_at(path, "?"@, earlier));
        }
    }
    text::lemma_find_from_is(url, "?"@, 0, mark);
    assert(url.take(mark) =~= path);
}

/// `String::from_utf8` of the standard library: the text whose UTF-8 form the
/// bytes are, if they are valid UTF-8.
#[verifier::external_body]
fn from_utf8(bytes: Vec<u8>) -> (text: Option<String>)
    ensures
        text matches Some(text) ==> utf8::encode_utf8(text@) == bytes@,
        text is None ==> !utf8::valid_utf8(bytes@),
{
    String::from_utf8(bytes).ok()
}

/// The text of a request's body: what its first bytes, up to the limit, say in
/// UTF-8; nothing, if they are not UTF-8.
pub open spec fn body_of(bytes: Seq<u8>) -> Seq<char> {
    let read = if bytes.len() > BODY_LIMIT {
        bytes.take(BODY_LIMIT as int)
    } else {
        bytes
    };
    if utf8::valid_utf8(read) {
        utf8::decode_utf8(read)
    } else {
        Seq::empty()
    }
}

/// The text of a request's body.
pub fn body_text(bytes: Vec<u8>) -> (text: String)
    ensures
        text@ == body_of(bytes@),
{
    let mut read = bytes;
    if read.len() > BODY_LIMIT {
        read.truncate(BODY_LIMIT);
        assert(read@ =~= bytes@.take(BODY_LIMIT as int));
    }
    match from_utf8(read) {
        Some(text) => {
            proof {
                utf8::encode_utf8_valid_utf8(text@);
                utf8::encode_utf8_decode_utf8(text@);
            }
            text
        },
        None => String::new(),
    }
}

/// The answer to a health probe.
#[derive(Debug)]
pub struct Health {
    pub ok: bool,
    pub product: String,
    pub version: String,
}

/// A request to enter or leave fullscreen.
#[derive(Clone, Copy, Debug, PartialEq, Eq, Structural)]
pub struct FullscreenRequest {
    pub value: bool,
}

/// What the window is doing.
#[derive(Clone, Copy, Debug, PartialEq, Eq, Structural)]
pub struct WindowState {
    pub fullscreen: bool,
    pub escapes_swallowed: u64,
}

/// The answer to a request that was carried out, or was refused.
#[derive(Debug)]
pub struct Ack {
    pub ok: bool,
    pub error: Option<String>,
}

/// The answer to a request.
#[derive(Debug)]
pub enum Reply {
    Health(Health),
    Ack(Ack),
    Panel(PanelState),
    Window(WindowState),
    /// There is no such endpoint.
    NotFound,
}

/// What the body of a request is to hold.
#[derive(Clone, Copy, Debug, PartialEq, Eq, Structural)]
pub enum BodyKind {
    Open,
    Bounds,
    Command,
    Fullscreen,
}

/// What it takes to answer a request.
#[derive(Debug)]
pub enum Dispatch {
    /// Nothing: this is the answer.
    Answer(Reply),
    /// The state of the panel.
    ReportPanel,
    /// The state of the window.
    ReportWindow,
    /// The request's body, and what it asks for to be done.
    ReadBody(BodyKind),
}

/// What it takes to answer a request to an endpoint.
pub open spec fn dispatches(dispatch: Dispatch, endpoint: Endpoint, version: Seq<char>) -> bool {
    match endpoint {
        Endpoint::Health => dispatch matches Dispatch::Answer(Reply::Health(health)) && health.ok
            && health.product@ == PRODUCT@ && health.version@ == version,
        Endpoint::PanelState => dispatch is ReportPanel,
        Endpoint::PanelOpen => dispatch == Dispatch::ReadBody(BodyKind::Open),
        Endpoint::PanelBounds => dispatch == Dispatch::ReadBody(BodyKind::Bounds),
        Endpoint::PanelCommand => dispatch == Dispatch::ReadBody(BodyKind::Command),
        Endpoint::WindowState => dispatch is ReportWindow,
        Endpoint::WindowFullscreen => dispatch == Dispatch::ReadBody(BodyKind::Fullscreen),
        Endpoint::Unknown => dispatch == Dispatch::Answer(Reply::NotFound),
    }
}

/// Takes a request by its target, in a shell of this version.
pub fn dispatch(url: &str, version: &str) -> (dispatch: Dispatch)
    ensures
        dispatches(dispatch, endpoint_of(path_of(url@)), version@),
{
    match route(url) {
        Endpoint::Health => Dispatch::Answer(
            Reply::Health(
                Health { ok: true, product: PRODUCT.to_owned(), version: version.to_owned() },
            ),
        ),
        Endpoint::PanelState => Dispatch::ReportPanel,
        Endpoint::PanelOpen => Dispatch::ReadBody(BodyKind::Open),
        Endpoint::PanelBounds => Dispatch::ReadBody(BodyKind::Bounds),
        Endpoint::PanelCommand => Dispatch::ReadBody(BodyKind::Command),
        Endpoint::WindowState => Dispatch::ReportWindow,
        Endpoint::WindowFullscreen => Dispatch::ReadBody(BodyKind::Fullscreen),
        Endpoint::Unknown => Dispatch::Answer(Reply::NotFound),
    }
}

impl BodyKind {
    /// What is told of a body that does not hold what it is to hold.
    pub open spec fn complaint(self) -> Seq<char> {
        match self {
            BodyKind::Open => "invalid open request: "@,
            BodyKind::Bounds => "invalid bounds request: "@,
            BodyKind::Command => "invalid command request: "@,
            BodyKind::Fullscreen => "invalid fullscreen request: "@,
        }
    }
}

/// Takes what the body of a request was read as, or why it could not be.
pub fn decoded<T>(kind: BodyKind, parsed: Result<T, String>) -> (result: Result<T, String>)
    ensures
        match (parsed, result) {
            (Ok(value), Ok(taken)) => taken == value,
            (Err(error), Err(message)) => message@ == kind.complaint() + error@,
            _ => false,
        },
{
    match parsed {
        Ok(value) => Ok(value),
        Err(error) => {
            let complaint = match kind {
                BodyKind::Open => "invalid open request: ",
                BodyKind::Bounds => "invalid bounds request: ",
                BodyKind::Command => "invalid command request: ",
                BodyKind::Fullscreen => "invalid fullscreen request: ",
            };
            Err(text::joined(complaint, error.as_str()))
        },
    }
}

/// What the body of a request to the panel holds.
#[derive(Debug)]
pub enum PanelRequest {
    Open(OpenRequest),
    Bounds(BoundsRequest),
    Command(CommandRequest),
}

/// Begins what a request to the panel asks for, once its body has been read. A
/// body that could not be read changes nothing.
pub fn serve(
    browser: &mut NativeBrowser,
    relay: &mut Relay,
    kind: BodyKind,
    parsed: Result<PanelRequest, String>,
) -> (progress: Progress<String>)
    requires
        old(browser)@.idle(),
    ensures
        ({
            let begun = Step {
                browser: final(browser)@,
                relay: final(relay)@,
                progress: progress@,
            };
            match parsed {
                Ok(PanelRequest::Open(request)) => begun == old(browser)@.open(
                    old(relay)@,
                    request@,
                ),
                Ok(PanelRequest::Bounds(request)) => begun == old(browser)@.bounds(
                    old(relay)@,
                    request,
                ),
                Ok(PanelRequest::Command(request)) => begun == old(browser)@.command(
                    old(relay)@,
                    request.kind@,
                    text::optional(request.url),
                    text::optional(request.script),
                ),
                Err(error) => {
                    &&& *final(browser) == *old(browser)
                    &&& *final(relay) == *old(relay)
                    &&& progress@ == Progress::<Seq<char>>::Finished(
                        Err(kind.complaint() + error@),
                    )
                },
            }
        }),
{
    match decoded(kind, parsed) {
        Ok(PanelRequest::Open(request)) => browser.open(relay, &request),
        Ok(PanelRequest::Bounds(request)) => browser.bounds(&request),
        Ok(PanelRequest::Command(request)) => browser.command(relay, &request),
        Err(message) => Progress::Finished(Err(message)),
    }
}

/// Decides a request to enter or leave fullscreen, once its body has been read
/// and the main window looked up: what the window is to be set to, or why not.
pub fn fullscreen(parsed: Result<FullscreenRequest, String>, window: bool) -> (result: Result<
    bool,
    String,
>)
    ensures
        match (parsed, result) {
            (Ok(request), Ok(value)) => window && value == request.value,
            (Ok(_), Err(message)) => !window && message@ == "the main window is not available"@,
            (Err(error), Err(message)) => message@ == BodyKind::Fullscreen.complaint() + error@,
            _ => false,
        },
{
    match decoded(BodyKind::Fullscreen, parsed) {
        Ok(request) => if window {
            Ok(request.value)
        } else {
            Err("the main window is not available".to_owned())
        },
        Err(message) => Err(message),
    }
}

/// The answer to a request that came to this result: it tells whether the
/// request was carried out, and if it was not, why.
pub fn acknowledge(result: Result<(), String>) -> (reply: Reply)
    ensures
        reply matches Reply::Ack(ack) && {
            &&& ack.ok == (result is Ok)
            &&& ack.error == match result {
                Ok(_) => None::<String>,
                Err(error) => Some(error),
            }
        },
{
    match result {
        Ok(_) => Reply::Ack(Ack { ok: true, error: None }),
        Err(error) => Reply::Ack(Ack { ok: false, error: Some(error) }),
    }
}

/// The answer to a question for the state of the panel: that state.
pub fn report_panel(state: PanelState) -> (reply: Reply)
    ensures
        reply == Reply::Panel(state),
{
    Reply::Panel(state)
}

/// The answer to a question for the state of the window, which may not be known.
pub fn report_window(fullscreen: Option<bool>, guard: &WindowGuard) -> (reply: Reply)
    ensures
        reply == Reply::Window(
            WindowState {
                fullscreen: fullscreen == Some(true),
                escapes_swallowed: guard.swallowed,
            },
        ),
{
    Reply::Window(
        WindowState {
            fullscreen: match fullscreen {
                Some(fullscreen) => fullscreen,
                None => false,
            },
            escapes_swallowed: window_guard::escapes_swallowed(guard),
        },
    )
}

impl Reply {
    /// The HTTP status of the answer.
    pub fn status(&self) -> (status: u16)
        ensures
            status == if self is NotFound {
                404u16
            } else {
                200u16
            },
    {
        match self {
            Reply::NotFound => 404,
            _ => 200,
        }
    }

    /// The body of the answer, where there is nothing to write out, or where
    /// writing it out failed.
    pub fn plain_body(&self) -> (body: String)
        ensures
            body@ == match self {
                Reply::Health(_) => "{\"ok\":false}"@,
                Reply::NotFound => "{\"ok\":false,\"error\":\"unknown endpoint\"}"@,
                _ => Seq::empty(),
            },
    {
        match self {
            Reply::Health(_) => "{\"ok\":false}".to_owned(),
            Reply::NotFound => "{\"ok\":false,\"error\":\"unknown endpoint\"}".to_owned(),
            _ => String::new(),
        }
    }
}

/// Why the control API could not be started.
pub enum StartFailure {
    /// No port could be bound, with the reason.
    Bind(String),
    /// The server has no TCP address.
    NoAddress,
}

impl StartFailure {
    /// What is told.
    pub fn message(&self) -> (message: String)
        ensures
            message@ == match self {
                StartFailure::Bind(error) => "cannot bind the control API: "@ + error@,
                StartFailure::NoAddress => "the control API has no TCP address"@,
            },
    {
        match self {
            StartFailure::Bind(error) => text::joined(
                "cannot bind the control API: ",
                error.as_str(),
            ),
            StartFailure::NoAddress => "the control API has no TCP address".to_owned(),
        }
    }
}

/// The environment variables `DSH_HOME` and `HOME`, as far as they are texts.
pub struct Environment {
    pub dsh_home: Option<String>,
    pub home: Option<String>,
}

/// Where the service keeps its files: the base, and the names under it. It is
/// `$DSH_HOME`, if that is not blank; else `.dsh` in the home directory, or in
/// the current one.
pub open spec fn home_of(environment: Environment) -> (Seq<char>, Seq<Seq<char>>) {
    match environment.dsh_home {
        Some(value) if !text::is_blank(value@) => (value@, Seq::empty()),
        _ => (
            match environment.home {
                Some(home) => home@,
                None => "."@,
            },
            seq![".dsh"@],
        ),
    }
}

/// Where the service keeps its files: resolved in the same way as the service
/// does, so both sides agree.
pub fn dsh_home(environment: &Environment) -> (path: JoinedPath<String>)
    ensures
        (path.base@, path.names()) == home_of(*environment),
{
    match &environment.dsh_home {
        Some(value) => {
            if !text::blank(value.as_str()) {
                return JoinedPath::at(value.clone());
            }
        },
        None => {},
    }
    let home = match &environment.home {
        Some(home) => home.clone(),
        None => ".".to_owned(),
    };
    let path = JoinedPath::at(home).join(".dsh");
    assert(path.names() =~= seq![".dsh"@]);
    path
}

/// The directory of the descriptor.
pub open spec fn descriptor_dir(environment: Environment) -> (Seq<char>, Seq<Seq<char>>) {
    (home_of(environment).0, home_of(environment).1.push("web-review"@))
}

/// The descriptor itself.
pub open spec fn descriptor_file(environment: Environment) -> (Seq<char>, Seq<Seq<char>>) {
    (descriptor_dir(environment).0, descriptor_dir(environment).1.push(DESCRIPTOR_NAME@))
}

/// What the descriptor says.
pub open spec fn descriptor(port: u16, pid: u32, version: Seq<char>) -> Json {
    Json::Record(
        seq![
            ("capabilities"@, Json::List(seq![Json::Text("browser-panel"@)])),
            ("pid"@, Json::Number(pid as u64)),
            ("port"@, Json::Number(port as u64)),
            ("product"@, Json::Text(PRODUCT@)),
            ("schema"@, Json::Number(1)),
            ("version"@, Json::Text(version)),
        ],
    )
}

/// What is to be written, and where, so that a client can discover the shell.
pub struct Advertisement {
    pub dir: JoinedPath<String>,
    pub file: JoinedPath<String>,
    pub payload: String,
}

/// The keys of the descriptor.
spec fn descriptor_keys() -> Seq<Seq<char>> {
    seq!["capabilities"@, "pid"@, "port"@, "product"@, "schema"@, "version"@]
}

/// The keys of the descriptor stand in order.
proof fn lemma_descriptor_keys()
    ensures
        forall|i: int, j: int|
            0 <= i < j < descriptor_keys().len() ==> json_value::precedes(
                #[trigger] descriptor_keys()[i],
                #[trigger] descriptor_keys()[j],
            ),
{
    reveal_strlit("capabilities");
    reveal_strlit("pid");
    reveal_strlit("port");
    reveal_strlit("product");
    reveal_strlit("schema");
    reveal_strlit("version");
    reveal_with_fuel(json_value::precedes, 2);
}

/// The contents of the descriptor file: the JSON text on a line of its own.
pub fn descriptor_line(json: String) -> (line: String)
    ensures
        line@ == json@.push('\n'),
{
    let mut line = json;
    line.push('\n');
    line
}

/// The descriptor of a shell that serves the control API at `port`.
pub fn advertise(port: u16, pid: u32, version: &str, environment: &Environment) -> (advertisement:
    Advertisement)
    ensures
        (advertisement.dir.base@, advertisement.dir.names()) == descriptor_dir(*environment),
        (advertisement.file.base@, advertisement.file.names()) == descriptor_file(*environment),
        advertisement.payload@ == json_value::json_text(descriptor(port, pid, version@)).push(
            '\n',
        ),
{
    let dir = dsh_home(environment).join("web-review");
    let file = withdraw(environment);
    let mut capabilities: Vec<serde_json::Value> = Vec::new();
    capabilities.push(json_value::string("browser-panel"));
    let ghost listed = capabilities@.map_values(
        |item: serde_json::Value| json_value::json_of(item),
    );
    assert(listed =~= seq![Json::Text("browser-panel"@)]);
    let mut fields: Vec<(&str, serde_json::Value)> = Vec::new();
    fields.push(("capabilities", json_value::list(capabilities)));
    fields.push(("pid", json_value::number(pid as u64)));
    fields.push(("port", json_value::number(port as u64)));
    fields.push(("product", json_value::string(PRODUCT)));
    fields.push(("schema", json_value::number(1)));
    fields.push(("version", json_value::string(version)));
    proof {
        lemma_descriptor_keys();
        assert forall|i: int| 0 <= i < fields@.len() implies (#[trigger] fields@[i]).0@
            == descriptor_keys()[i] by {}
        let said = fields@.map_values(
            |field: (&str, serde_json::Value)| (field.0@, json_value::json_of(field.1)),
        );
        assert(Json::Record(said) == descriptor(port, pid, version@)) by {
            assert(said =~= descriptor(port, pid, version@)->Record_0);
        }
    }
    let value = json_value::record(fields);
    let payload = descriptor_line(json_value::write_json(&value));
    Advertisement { dir, file, payload }
}

/// The file to remove on shutdown, so that a stale port is never advertised: the
/// one that is advertised.
pub fn withdraw(environment: &Environment) -> (file: JoinedPath<String>)
    ensures
        (file.base@, file.names()) == descriptor_file(*environment),
{
    dsh_home(environment).join("web-review").join(DESCRIPTOR_NAME)
}

/// Why the descriptor could not be published, with its path.
pub enum AdvertiseFailure {
    /// Its directory could not be created.
    Dir { dir: String, error: String },
    /// It could not be written.
    File { file: String, error: String },
}

impl AdvertiseFailure {
    /// What is told.
    pub fn message(&self) -> (message: String)
        ensures
            message@ == match self {
                AdvertiseFailure::Dir { dir, error } => "cannot create "@ + dir@ + ": "@ + error@,
                AdvertiseFailure::File { file, error } => "cannot write "@ + file@ + ": "@ + error@,
            },
    {
        let (verb, path, error) = match self {
            AdvertiseFailure::Dir { dir, error } => ("cannot create ", dir, error),
            AdvertiseFailure::File { file, error } => ("cannot write ", file, error),
        };
        let mut message = text::joined(verb, path.as_str());
        message.append(": ");
        message.append(error.as_str());
        message
    }
}

/// A request is told by its path alone, which ends at the first question mark: each
/// endpoint has one path, with any query or none, and every other path is none.
pub proof fn law_each_path_has_its_endpoint(
    url: &str,
    path: Seq<char>,
    query: Seq<char>,
    endpoint: Endpoint,
)
    requires
        call_ensures(route, (url,), endpoint),
        forall|i: int| 0 <= i < path.len() ==> #[trigger] path[i] != '?',
        url@ == path || url@ == path + "?"@ + query,
    ensures
        endpoint is Health <==> path == "/health"@,
        endpoint is PanelState <==> path == "/panel/state"@,
        endpoint is PanelOpen <==> path == "/panel/open"@,
        endpoint is PanelBounds <==> path == "/panel/bounds"@,
        endpoint is PanelCommand <==> path == "/panel/command"@,
        endpoint is WindowState <==> path == "/window/state"@,
        endpoint is WindowFullscreen <==> path == "/window/fullscreen"@,
{
    reveal_strlit("?");
    reveal_strlit("/health");
    reveal_strlit("/panel/state");
    reveal_strlit("/panel/open");
    reveal_strlit("/panel/bounds");
    reveal_strlit("/panel/command");
    reveal_strlit("/window/state");
    reveal_strlit("/window/fullscreen");
    text::lemma_find_from(path, "?"@, 0);
    if let Some(at) = text::find_from(path, "?"@, 0) {
        assert(path.subrange(at, at + 1)[0] == path[at]);
    }
    law_query_is_ignored(path, query);
    assert("/panel/state"@[7] != "/panel/open"@[7]);
    assert("/health"@[1] != "/panel/state"@[1]);
    assert("/panel/open"@.len() != "/panel/bounds"@.len());
    assert("/window/state"@.len() != "/window/fullscreen"@.len());
    assert("/panel/bounds"@[1] != "/window/state"@[1]);
}

/// What a request leads to is what its endpoint is for: a probe is answered with
/// the product and the version of the shell, a question for a state asks for that
/// state, an order has its body read, and what is no endpoint is told so.
pub proof fn law_dispatch_follows_the_endpoint(
    url: &str,
    version: &str,
    endpoint: Endpoint,
    led: Dispatch,
)
    requires
        call_ensures(route, (url,), endpoint),
        call_ensures(dispatch, (url, version), led),
    ensures
        match endpoint {
            Endpoint::Health => led matches Dispatch::Answer(Reply::Health(health)) && health.ok
                && health.product@ == "deepseek-harness-desktop"@ && health.version@ == version@,
            Endpoint::PanelState => led is ReportPanel,
            Endpoint::WindowState => led is ReportWindow,
            Endpoint::PanelOpen => led matches Dispatch::ReadBody(kind) && kind is Open,
            Endpoint::PanelBounds => led matches Dispatch::ReadBody(kind) && kind is Bounds,
            Endpoint::PanelCommand => led matches Dispatch::ReadBody(kind) && kind is Command,
            Endpoint::WindowFullscreen => led matches Dispatch::ReadBody(kind)
                && kind is Fullscreen,
            Endpoint::Unknown => led matches Dispatch::Answer(reply) && reply is NotFound,
        },
{
}

/// A body of up to a mebibyte is read as the text that was written, whatever that
/// text is; of a longer body only the first mebibyte counts; and bytes that are
/// no text are read as the empty text.
pub proof fn law_body_reads_back(
    written: Seq<char>,
    rest: Seq<u8>,
    bytes: Vec<u8>,
    text: String,
)
    requires
        call_ensures(body_text, (bytes,), text),
    ensures
        bytes@ == utf8::encode_utf8(written) && bytes@.len() <= 1024 * 1024 ==> text@ == written,
        bytes@ == utf8::encode_utf8(written) + rest && utf8::encode_utf8(written).len() == 1024
            * 1024 ==> text@ == written,
        bytes@.len() <= 1024 * 1024 && !utf8::valid_utf8(bytes@) ==> text@.len() == 0,
        bytes@.len() > 1024 * 1024 && !utf8::valid_utf8(bytes@.take(0x10_0000)) ==> text@.len()
            == 0,
{
    utf8::encode_utf8_valid_utf8(written);
    utf8::encode_utf8_decode_utf8(written);
    let form = utf8::encode_utf8(written);
    if bytes@ == form + rest && form.len() == 1024 * 1024 {
        assert(bytes@.take(0x10_0000) =~= form);
        if rest.len() == 0 {
            assert(bytes@ =~= form);
        }
    }
}

/// A body that was understood is handed on as it is; one that was not is refused
/// with what it was to be, and why.
pub proof fn law_decoded_is_handed_on<T>(
    kind: BodyKind,
    parsed: Result<T, String>,
    result: Result<T, String>,
)
    requires
        call_ensures(decoded::<T>, (kind, parsed), result),
    ensures
        parsed matches Ok(value) ==> result == Ok::<T, String>(value),
        parsed matches Err(error) ==> result matches Err(message) && message@ == match kind {
            BodyKind::Open => "invalid open request: "@,
            BodyKind::Bounds => "invalid bounds request: "@,
            BodyKind::Command => "invalid command request: "@,
            BodyKind::Fullscreen => "invalid fullscreen request: "@,
        } + error@,
{
}

/// A request that came with a body is carried out as it is asked of the panel
/// itself: serving it and asking the panel come to the same.
pub proof fn law_serving_an_open_is_opening(
    browser: &mut NativeBrowser,
    relay: &mut Relay,
    kind: BodyKind,
    request: OpenRequest,
    served: Progress<String>,
    direct: &mut NativeBrowser,
    bridge: &mut Relay,
    opened: Progress<String>,
)
    requires
        call_ensures(serve, (browser, relay, kind, Ok(PanelRequest::Open(request))), served),
        call_ensures(NativeBrowser::open, (direct, bridge, &request), opened),
        old(browser)@ == old(direct)@,
        old(relay)@ == old(bridge)@,
    ensures
        final(browser)@ == final(direct)@,
        final(relay)@ == final(bridge)@,
        served@ == opened@,
{
}

/// Serving a request for other bounds and asking the panel come to the same, and
/// the relay stays as it was.
pub proof fn law_serving_bounds_is_moving(
    browser: &mut NativeBrowser,
    relay: &mut Relay,
    kind: BodyKind,
    request: BoundsRequest,
    served: Progress<String>,
    direct: &mut NativeBrowser,
    moved: Progress<String>,
)
    requires
        call_ensures(serve, (browser, relay, kind, Ok(PanelRequest::Bounds(request))), served),
        call_ensures(NativeBrowser::bounds, (direct, &request), moved),
        old(browser)@ == old(direct)@,
    ensures
        final(browser)@ == final(direct)@,
        served@ == moved@,
        final(relay)@ == old(relay)@,
{
    assert(old(direct)@.bounds(old(relay)@, request).browser == final(direct)@);
}

/// Serving a command and giving it to the panel come to the same.
pub proof fn law_serving_a_command_is_commanding(
    browser: &mut NativeBrowser,
    relay: &mut Relay,
    kind: BodyKind,
    request: CommandRequest,
    served: Progress<String>,
    direct: &mut NativeBrowser,
    bridge: &mut Relay,
    commanded: Progress<String>,
)
    requires
        call_ensures(serve, (browser, relay, kind, Ok(PanelRequest::Command(request))), served),
        call_ensures(NativeBrowser::command, (direct, bridge, &request), commanded),
        old(browser)@ == old(direct)@,
        old(relay)@ == old(bridge)@,
    ensures
        final(browser)@ == final(direct)@,
        final(relay)@ == final(bridge)@,
        served@ == commanded@,
{
}

/// A body that was not understood is refused, and nothing changes.
pub proof fn law_serving_nonsense_changes_nothing(
    browser: &mut NativeBrowser,
    relay: &mut Relay,
    kind: BodyKind,
    error: String,
    served: Progress<String>,
)
    requires
        call_ensures(
            serve,
            (browser, relay, kind, Err::<PanelRequest, String>(error)),
            served,
        ),
    ensures
        final(browser)@ == old(browser)@,
        final(relay)@ == old(relay)@,
        served matches Progress::Finished(Err(message)) && message@ == match kind {
            BodyKind::Open => "invalid open request: "@,
            BodyKind::Bounds => "invalid bounds request: "@,
            BodyKind::Command => "invalid command request: "@,
            BodyKind::Fullscreen => "invalid fullscreen request: "@,
        } + error@,
{
    assert(served@ matches Progress::Finished(Err(_)));
}

/// The window is set to exactly what was asked for, if there is a window; without
/// one, and for a request that was not understood, it is told why not.
pub proof fn law_fullscreen_is_as_asked(
    parsed: Result<FullscreenRequest, String>,
    window: bool,
    result: Result<bool, String>,
)
    requires
        call_ensures(fullscreen, (parsed, window), result),
    ensures
        parsed matches Ok(request) ==> window ==> result == Ok::<bool, String>(request.value),
        parsed is Ok && !window ==> (result matches Err(message) && message@
            == "the main window is not available"@),
        parsed matches Err(error) ==> result matches Err(message) && message@
            == "invalid fullscreen request: "@ + error@,
{
}

/// Success is answered as success and without a reason, a refusal as one and with
/// the reason; both are well-formed answers, so their status is that of one.
pub proof fn law_outcomes_are_answered(result: Result<(), String>, reply: Reply, status: u16)
    requires
        call_ensures(acknowledge, (result,), reply),
        call_ensures(Reply::status, (&reply,), status),
    ensures
        status == 200,
        reply matches Reply::Ack(ack) && match result {
            Ok(_) => ack.ok && ack.error is None,
            Err(reason) => !ack.ok && ack.error == Some(reason),
        },
{
}

/// What is asked of the panel and of the window is answered with just that: the
/// state of the panel as it is, whether the window is known to be fullscreen, and
/// how many Escape presses were consumed.
pub proof fn law_states_are_reported(
    state: PanelState,
    panel: Reply,
    fullscreen: Option<bool>,
    guard: &WindowGuard,
    window: Reply,
)
    requires
        call_ensures(report_panel, (state,), panel),
        call_ensures(report_window, (fullscreen, guard), window),
    ensures
        panel matches Reply::Panel(told) && told == state,
        window matches Reply::Window(told) && told.escapes_swallowed == guard.swallowed
            && told.fullscreen == (fullscreen is Some && fullscreen->0),
{
}

/// Only what is no endpoint is answered with a status of its own; and only there,
/// and where a probe cannot be answered, does a body stand ready.
pub proof fn law_status_and_plain_body(reply: Reply, status: u16, body: String)
    requires
        call_ensures(Reply::status, (&reply,), status),
        call_ensures(Reply::plain_body, (&reply,), body),
    ensures
        status == 404 <==> reply is NotFound,
        status == 200 <==> !(reply is NotFound),
        reply is NotFound ==> body@ == "{\"ok\":false,\"error\":\"unknown endpoint\"}"@,
        reply is Health ==> body@ == "{\"ok\":false}"@,
        reply is Ack || reply is Panel || reply is Window ==> body@.len() == 0,
{
}

/// A home that is named is taken as it is, unless it is all white space; otherwise
/// it is `.dsh` in the user's home, or in the current directory.
pub proof fn law_home_is_the_named_one(environment: &Environment, path: JoinedPath<String>)
    requires
        call_ensures(dsh_home, (environment,), path),
    ensures
        (environment.dsh_home matches Some(named) && exists|i: int|
            0 <= i < named@.len() && !text::is_white_space(#[trigger] named@[i])) ==> path.base@
            == environment.dsh_home->0@ && path.names().len() == 0,
        (environment.dsh_home matches Some(named) ==> forall|i: int|
            0 <= i < named@.len() ==> text::is_white_space(#[trigger] named@[i])) ==> {
            &&& path.names().len() == 1 && path.names()[0] == ".dsh"@
            &&& environment.home matches Some(home) ==> path.base@ == home@
            &&& environment.home is None ==> path.base@ == "."@
        },
{
}

/// The descriptor stands in `web-review` in the home, under one name, and what is
/// removed on shutdown is what was written: it goes by the environment alone.
pub proof fn law_what_is_advertised_is_withdrawn(
    port: u16,
    pid: u32,
    version: &str,
    environment: &Environment,
    home: JoinedPath<String>,
    advertisement: Advertisement,
    removed: JoinedPath<String>,
)
    requires
        call_ensures(dsh_home, (environment,), home),
        call_ensures(advertise, (port, pid, version, environment), advertisement),
        call_ensures(withdraw, (environment,), removed),
    ensures
        advertisement.dir.base@ == home.base@,
        advertisement.dir.names() == home.names().push("web-review"@),
        advertisement.file.base@ == home.base@,
        advertisement.file.names() == home.names().push("web-review"@).push(
            "native-browser.json"@,
        ),
        removed.base@ == advertisement.file.base@,
        removed.names() == advertisement.file.names(),
{
}

/// The value of a field, if there is one of that name: that of the last such field.
pub open spec fn field(fields: Seq<(Seq<char>, Json)>, name: Seq<char>) -> Option<Json>
    decreases fields.len(),
{
    if fields.len() == 0 {
        None
    } else if fields.last().0 == name {
        Some(fields.last().1)
    } else {
        field(fields.drop_last(), name)
    }
}

/// The descriptor is the text of one record, on a line of its own. For every port,
/// process and version it holds exactly these, as they are, and beside them the
/// schema, the product and the capability; and nothing else.
pub proof fn law_descriptor_tells_the_port(
    port: u16,
    pid: u32,
    version: &str,
    environment: &Environment,
    advertisement: Advertisement,
)
    requires
        call_ensures(advertise, (port, pid, version, environment), advertisement),
    ensures
        exists|fields: Seq<(Seq<char>, Json)>|
            {
                &&& advertisement.payload@ == #[trigger] json_value::json_text(
                    Json::Record(fields),
                ).push('\n')
                &&& fields.len() == 6
                &&& field(fields, "port"@) == Some(Json::Number(port as u64))
                &&& field(fields, "pid"@) == Some(Json::Number(pid as u64))
                &&& field(fields, "version"@) == Some(Json::Text(version@))
                &&& field(fields, "product"@) == Some(Json::Text("deepseek-harness-desktop"@))
                &&& field(fields, "schema"@) == Some(Json::Number(1))
                &&& field(fields, "capabilities"@) == Some(
                    Json::List(seq![Json::Text("browser-panel"@)]),
                )
            },
{
    let fields = descriptor(port, pid, version@)->Record_0;
    lemma_descriptor_fields(port, pid, version@);
    assert(advertisement.payload@ == json_value::json_text(Json::Record(fields)).push('\n'));
}

proof fn lemma_descriptor_fields(port: u16, pid: u32, version: Seq<char>)
    ensures
        descriptor(port, pid, version) is Record,
        ({
            let fields = descriptor(port, pid, version)->Record_0;
            &&& fields.len() == 6
            &&& field(fields, "port"@) == Some(Json::Number(port as u64))
            &&& field(fields, "pid"@) == Some(Json::Number(pid as u64))
            &&& field(fields, "version"@) == Some(Json::Text(version))
            &&& field(fields, "product"@) == Some(Json::Text("deepseek-harness-desktop"@))
            &&& field(fields, "schema"@) == Some(Json::Number(1))
            &&& field(fields, "capabilities"@) == Some(
                Json::List(seq![Json::Text("browser-panel"@)]),
            )
        }),
{
    reveal_strlit("capabilities");
    reveal_strlit("pid");
    reveal_strlit("port");
    reveal_strlit("product");
    reveal_strlit("schema");
    reveal_strlit("version");
    reveal_with_fuel(field, 7);
    assert("port"@[1] != "pid"@[1]);
    assert("schema"@[0] != "pid"@[0]);
    assert("product"@.len() != "port"@.len());
    assert("product"@[0] != "version"@[0]);
    let fields = descriptor(port, pid, version)->Record_0;
    let five = fields.drop_last();
    let four = five.drop_last();
    let three = four.drop_last();
    let two = three.drop_last();
    let one = two.drop_last();
    assert(five.last() == fields[4] && four.last() == fields[3] && three.last() == fields[2]);
    assert(two.last() == fields[1] && one.last() == fields[0]);
}

/// Different shells are told apart: descriptors that say the same are of the same
/// port, the same process and the same version.
pub proof fn law_descriptors_tell_shells_apart(
    port: u16,
    pid: u32,
    version: Seq<char>,
    other_port: u16,
    other_pid: u32,
    other_version: Seq<char>,
)
    requires
        descriptor(port, pid, version) == descriptor(other_port, other_pid, other_version),
    ensures
        port == other_port,
        pid == other_pid,
        version == other_version,
{
    lemma_descriptor_fields(port, pid, version);
    lemma_descriptor_fields(other_port, other_pid, other_version);
}

/// A failure is told with what failed and why, and the reason is kept as it is.
pub proof fn law_failures_say_why(
    start: StartFailure,
    start_message: String,
    publish: AdvertiseFailure,
    publish_message: String,
)
    requires
        call_ensures(StartFailure::message, (&start,), start_message),
        call_ensures(AdvertiseFailure::message, (&publish,), publish_message),
    ensures
        start matches StartFailure::Bind(why) ==> start_message@
            == "cannot bind the control API: "@ + why@,
        start is NoAddress ==> start_message@ == "the control API has no TCP address"@,
        publish matches AdvertiseFailure::Dir { dir, error } ==> publish_message@
            == "cannot create "@ + dir@ + ": "@ + error@,
        publish matches AdvertiseFailure::File { file, error } ==> publish_message@
            == "cannot write "@ + file@ + ": "@ + error@,
{
}

/// Where the control API listens, and what its answers are.
pub proof fn law_api_terms()
    ensures
        BIND_ADDRESS@ == "127.0.0.1:0"@,
        CONTENT_TYPE@ == "application/json; charset=utf-8"@,
        DESCRIPTOR_NAME@ == "native-browser.json"@,
        BODY_LIMIT == 1024 * 1024,
{
}

/// The descriptor file is the text of the descriptor, on a line of its own.
pub proof fn law_descriptor_is_one_line(json: String, line: String)
    requires
        call_ensures(descriptor_line, (json,), line),
    ensures
        line@.len() == json@.len() + 1,
        line@.last() == '\n',
        line@.drop_last() == json@,
{
    assert(line@.drop_last() =~= json@);
}

} // verus!
