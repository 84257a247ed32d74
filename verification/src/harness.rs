//! The bundled service: where it lies, how it is started, what it announces,
//! and how it is stopped.

use crate::paths::JoinedPath;
use crate::text;
use vstd::prelude::*;

verus! {

/// The names of the bundled Node.js executable under the resource directory.
pub open spec fn node_names(windows: bool) -> Seq<Seq<char>> {
    if windows {
        seq!["resources"@, "node"@, "node.exe"@]
    } else {
        seq!["resources"@, "node"@, "bin"@, "node"@]
    }
}

/// The names of the bundled service under the resource directory.
pub open spec fn harness_names() -> Seq<Seq<char>> {
    seq!["resources"@, "harness"@]
}

/// The names of the service's entry script under the service.
pub open spec fn entry_names() -> Seq<Seq<char>> {
    seq!["node_modules"@, "@deepseek-ai"@, "dsh"@, "lib"@, "bin.js"@]
}

/// Where the bundled Node.js executable and the bundled service lie.
pub fn runtime_paths<'a, B>(resource_dir: &'a B, windows: bool) -> (paths: (
    JoinedPath<&'a B>,
    JoinedPath<&'a B>,
))
    ensures
        paths.0.base == resource_dir,
        paths.0.names() == node_names(windows),
        paths.1.base == resource_dir,
        paths.1.names() == harness_names(),
{
    let harness = JoinedPath::at(resource_dir).join("resources").join("harness");
    let node = if windows {
        JoinedPath::at(resource_dir).join("resources").join("node").join("node.exe")
    } else {
        JoinedPath::at(resource_dir).join("resources").join("node").join("bin").join("node")
    };
    assert(harness.names() =~= harness_names());
    assert(node.names() =~= node_names(windows));
    (node, harness)
}

/// The entry script of the service that lies at `harness`.
pub fn entry_path<B>(harness: JoinedPath<B>) -> (entry: JoinedPath<B>)
    ensures
        entry.base == harness.base,
        entry.names() == harness.names() + entry_names(),
{
    let entry = harness.join("node_modules").join("@deepseek-ai").join("dsh").join("lib").join(
        "bin.js",
    );
    assert(entry.names() =~= harness.names() + entry_names());
    entry
}

/// Why the service could not be started.
pub enum LaunchFailure {
    /// The resource directory is not known, with the reason.
    Resources(String),
    /// A part of the bundle is missing.
    Incomplete,
    /// No local port could be had, with the reason.
    Port(String),
    /// The process could not be started, with the reason.
    Spawn(String),
}

impl LaunchFailure {
    /// What the user is told.
    pub open spec fn text(self) -> Seq<char> {
        match self {
            LaunchFailure::Resources(error) => "无法定位应用资源："@ + error@,
            LaunchFailure::Incomplete => "Harness 运行资源不完整，请重新安装应用。"@,
            LaunchFailure::Port(error) => "无法分配本地端口："@ + error@,
            LaunchFailure::Spawn(error) => "无法启动 Harness："@ + error@,
        }
    }

    /// What the user is told.
    pub fn message(&self) -> (message: String)
        ensures
            message@ == self.text(),
    {
        match self {
            LaunchFailure::Resources(error) => text::joined(
                "无法定位应用资源：",
                error.as_str(),
            ),
            LaunchFailure::Incomplete => "Harness 运行资源不完整，请重新安装应用。".to_owned(),
            LaunchFailure::Port(error) => text::joined("无法分配本地端口：", error.as_str()),
            LaunchFailure::Spawn(error) => text::joined("无法启动 Harness：", error.as_str()),
        }
    }
}

/// Whether the bundle is complete: both the executable and the entry script are
/// files.
pub fn check_bundle(node_is_file: bool, entry_is_file: bool) -> (result: Result<(), LaunchFailure>)
    ensures
        result == if node_is_file && entry_is_file {
            Ok::<(), LaunchFailure>(())
        } else {
            Err(LaunchFailure::Incomplete)
        },
{
    if !node_is_file || !entry_is_file {
        Err(LaunchFailure::Incomplete)
    } else {
        Ok(())
    }
}

/// What follows the entry script on the service's command line: serve on the
/// loopback address at `port`, and open no browser.
pub open spec fn serve_arguments(port: u16) -> Seq<Seq<char>> {
    seq![
        "web"@,
        "--no-open"@,
        "--host"@,
        "127.0.0.1"@,
        "--port"@,
        text::decimal_of(port as nat),
    ]
}

/// The arguments that follow the entry script on the service's command line.
pub fn launch_arguments(port: u16) -> (arguments: Vec<String>)
    ensures
        text::each(arguments@) == serve_arguments(port),
{
    let mut arguments: Vec<String> = Vec::new();
    arguments.push("web".to_owned());
    arguments.push("--no-open".to_owned());
    arguments.push("--host".to_owned());
    arguments.push("127.0.0.1".to_owned());
    arguments.push("--port".to_owned());
    arguments.push(text::decimal(port as u64));
    assert(text::each(arguments@) =~= serve_arguments(port));
    arguments
}

/// Whether a word is an address with an access token: `http://.../?token=...`.
pub open spec fn is_token_address(word: Seq<char>) -> bool {
    text::begins_with(word, "http://"@) && text::find_from(word, "/?token="@, 0) is Some
}

/// The address that is announced at `at` in a line: the first word after a
/// `dsh web: ` that stands there, where that is an address with an access token.
/// Any other word announces nothing.
pub open spec fn announced_at(line: Seq<char>, at: int) -> Option<Seq<char>> {
    if text::occurs_at(line, "dsh web: "@, at) {
        match text::first_word(line.skip(at + "dsh web: "@.len())) {
            Some(word) if is_token_address(word) => Some(word),
            _ => None,
        }
    } else {
        None
    }
}

/// The first address that is announced in a line, at `from` or after it.
pub open spec fn announced_from(line: Seq<char>, from: int) -> Option<Seq<char>>
    decreases line.len() - from,
{
    if from >= line.len() {
        None
    } else if announced_at(line, from) is Some {
        announced_at(line, from)
    } else {
        announced_from(line, from + 1)
    }
}

/// The address that a line of the service's output announces, if it does: the
/// first that is announced in it.
pub open spec fn announced(line: Seq<char>) -> Option<Seq<char>> {
    announced_from(line, 0)
}

/// Where nothing is announced from `from` up to `to`, a search may begin at `to`.
proof fn lemma_nothing_announced(line: Seq<char>, from: int, to: int)
    requires
        0 <= from <= to <= line.len(),
        forall|at: int| from <= at < to ==> #[trigger] announced_at(line, at) is None,
    ensures
        announced_from(line, from) == announced_from(line, to),
    decreases to - from,
{
    if from < to {
        lemma_nothing_announced(line, from + 1, to);
    }
}

/// What follows the white space after a word does not change which word it is.
proof fn lemma_first_word(word: Seq<char>, after: Seq<char>)
    requires
        word.len() > 0,
        forall|i: int| 0 <= i < word.len() ==> !text::is_white_space(#[trigger] word[i]),
        after.len() > 0 ==> text::is_white_space(after[0]),
    ensures
        text::first_word(word + after) == Some(word),
{
    let rest = word + after;
    text::lemma_span(rest, true);
    assert(rest[0] == word[0]);
    assert(text::span(rest, true) == 0);
    assert(rest.skip(0) =~= rest);
    text::lemma_span(rest, false);
    let end = text::span(rest, false) as int;
    if end < word.len() {
        assert(rest[end] == word[end]);
    }
    if end > word.len() {
        assert(rest[word.len() as int] == after[0]);
    }
    assert(rest.take(end) =~= word);
}

/// Whether a word is an address with an access token.
fn token_address(word: &str) -> (is: bool)
    ensures
        is == is_token_address(word@),
{
    let letters = text::characters(word);
    text::starts_with(&letters, "http://") && text::find(&letters, "/?token=").is_some()
}

/// The address that a line of the service's output announces, if it does.
pub fn announced_url(line: &str) -> (url: Option<String>)
    ensures
        text::optional(url) == announced(line@),
        url matches Some(url) ==> is_token_address(url@),
{
    let chars = text::characters(line);
    let mark = text::characters("dsh web: ");
    let mut at: usize = 0;
    while at < chars.len() && mark.len() <= chars.len() - at
        invariant
            chars@ == line@,
            mark@ == "dsh web: "@,
            at <= chars@.len(),
            announced(line@) == announced_from(line@, at as int),
        decreases chars@.len() - at,
    {
        if text::stands_at(&chars, &mark, at) {
            if let Some(word) = text::word_after(&chars, at + mark.len()) {
                if token_address(word.as_str()) {
                    return Some(word);
                }
            }
        }
        at = at + 1;
    }
    proof {
        lemma_nothing_announced(line@, at as int, line@.len() as int);
    }
    None
}

/// The address that the service has announced, with its access token.
pub struct AuthenticatedUrl {
    pub url: Option<String>,
}

impl AuthenticatedUrl {
    /// Nothing has been announced yet.
    pub fn new() -> (target: AuthenticatedUrl)
        ensures
            target.url is None,
    {
        AuthenticatedUrl { url: None }
    }

    /// Takes a line of one of the service's streams. The result tells whether
    /// that stream has announced the address, so that no more of it is read.
    pub fn offer(&mut self, line: &str) -> (found: bool)
        ensures
            found == (announced(line@) is Some),
            text::optional(final(self).url) == match announced(line@) {
                Some(url) => Some(url),
                None => text::optional(old(self).url),
            },
    {
        match announced_url(line) {
            Some(url) => {
                self.url = Some(url);
                true
            },
            None => false,
        }
    }
}

/// An address with an access token is read back from the line that announces it,
/// whatever stands before the announcement without being an announcement itself,
/// and whatever follows the white space after it.
pub proof fn law_announcement_reads_back(before: Seq<char>, url: Seq<char>, after: Seq<char>)
    requires
        forall|at: int|
            0 <= at < before.len() ==> #[trigger] announced_at(
                before + "dsh web: "@ + url + after,
                at,
            ) is None,
        is_token_address(url),
        forall|i: int| 0 <= i < url.len() ==> !text::is_white_space(#[trigger] url[i]),
        after.len() > 0 ==> text::is_white_space(after[0]),
    ensures
        announced(before + "dsh web: "@ + url + after) == Some(url),
{
    reveal_strlit("http://");
    let mark = "dsh web: "@;
    let start = before.len() as int;
    let line = before + mark + url + after;
    assert(line.subrange(start, start + mark.len()) =~= mark);
    assert(line.skip(start + mark.len()) =~= url + after);
    lemma_first_word(url, after);
    lemma_nothing_announced(line, 0, start);
}

/// Whether a line holds an announcement of `url` at `at`: the mark stands there, the
/// first word after it is `url`, and that begins as an http address does and has a
/// token somewhere in it.
pub open spec fn announces(line: Seq<char>, at: int, url: Seq<char>) -> bool {
    &&& text::occurs_at(line, "dsh web: "@, at)
    &&& text::first_word(line.skip(at + "dsh web: "@.len())) == Some(url)
    &&& text::begins_with(url, "http://"@)
    &&& exists|token: int| text::occurs_at(url, "/?token="@, token)
}

proof fn lemma_announces(line: Seq<char>, at: int, url: Seq<char>)
    ensures
        announces(line, at, url) <==> announced_at(line, at) == Some(url),
        announces(line, at, url) ==> at < line.len(),
{
    reveal_strlit("dsh web: ");
    text::lemma_find_from(url, "/?token="@, 0);
    if let Some(token) = text::find_from(url, "/?token="@, 0) {
        assert(text::occurs_at(url, "/?token="@, token));
    }
}

proof fn lemma_first_announced(line: Seq<char>, from: int)
    requires
        0 <= from,
    ensures
        match announced_from(line, from) {
            Some(url) => exists|at: int|
                {
                    &&& from <= at
                    &&& #[trigger] announces(line, at, url)
                    &&& forall|earlier: int, other: Seq<char>|
                        from <= earlier < at ==> !#[trigger] announces(line, earlier, other)
                },
            None => forall|at: int, url: Seq<char>| from <= at ==> !#[trigger] announces(
                line,
                at,
                url,
            ),
        },
    decreases line.len() - from,
{
    assert forall|at: int, url: Seq<char>| #[trigger] announces(line, at, url) implies announced_at(
        line,
        at,
    ) == Some(url) && at < line.len() by {
        lemma_announces(line, at, url);
    }
    if from < line.len() {
        if let Some(url) = announced_at(line, from) {
            lemma_announces(line, from, url);
        } else {
            lemma_first_announced(line, from + 1);
            if let Some(url) = announced_from(line, from + 1) {
                let at = choose|at: int|
                    {
                        &&& from + 1 <= at
                        &&& #[trigger] announces(line, at, url)
                        &&& forall|earlier: int, other: Seq<char>|
                            from + 1 <= earlier < at ==> !#[trigger] announces(line, earlier, other)
                    };
                assert forall|earlier: int, other: Seq<char>|
                    from <= earlier < at implies !#[trigger] announces(line, earlier, other) by {}
            }
        }
    }
}

/// The address that is told of a line is one that the line announces, and the first
/// such; a line of which none is told announces none.
pub proof fn law_first_announcement_is_told(line: &str, url: Option<String>)
    requires
        call_ensures(announced_url, (line,), url),
    ensures
        match url {
            Some(url) => exists|at: int|
                {
                    &&& #[trigger] announces(line@, at, url@)
                    &&& forall|earlier: int, other: Seq<char>|
                        earlier < at ==> !#[trigger] announces(line@, earlier, other)
                },
            None => forall|at: int, url: Seq<char>| !#[trigger] announces(line@, at, url),
        },
{
    lemma_first_announced(line@, 0);
    if let Some(url) = url {
        let at = choose|at: int|
            {
                &&& 0 <= at
                &&& #[trigger] announces(line@, at, url@)
                &&& forall|earlier: int, other: Seq<char>|
                    0 <= earlier < at ==> !#[trigger] announces(line@, earlier, other)
            };
        assert(announces(line@, at, url@));
        assert forall|earlier: int, other: Seq<char>|
            earlier < at implies !#[trigger] announces(line@, earlier, other) by {}
    }
}

/// What the service prints is understood: whatever the host, the token, the text
/// before the mark and the text after the address are, and however much white
/// space there is between, the address is told as it was printed.
pub proof fn law_printed_address_is_told(
    line: &str,
    before: Seq<char>,
    gap: Seq<char>,
    host: Seq<char>,
    token: Seq<char>,
    after: Seq<char>,
    url: Option<String>,
)
    requires
        call_ensures(announced_url, (line,), url),
        line@ == before + "dsh web: "@ + gap + ("http://"@ + host + "/?token="@ + token) + after,
        forall|i: int| 0 <= i < gap.len() ==> text::is_white_space(#[trigger] gap[i]),
        forall|i: int| 0 <= i < host.len() ==> !text::is_white_space(#[trigger] host[i]),
        forall|i: int| 0 <= i < token.len() ==> !text::is_white_space(#[trigger] token[i]),
        after.len() > 0 ==> text::is_white_space(after[0]),
        forall|earlier: int, other: Seq<char>|
            earlier < before.len() ==> !#[trigger] announces(line@, earlier, other),
    ensures
        url is Some,
        url->0@ == "http://"@ + host + "/?token="@ + token,
{
    let word = "http://"@ + host + "/?token="@ + token;
    lemma_printed_word(host, token);
    lemma_printed_line(before, gap, word, after);
    let start = before.len() as int;
    assert(announces(line@, start, word));
    law_first_announcement_is_told(line, url);
    let told = url->0@;
    let at = choose|at: int|
        {
            &&& #[trigger] announces(line@, at, told)
            &&& forall|earlier: int, other: Seq<char>|
                earlier < at ==> !#[trigger] announces(line@, earlier, other)
        };
    assert(announces(line@, at, told));
    assert(at == start);
}

/// What is printed as an address with a token is a word, and such an address.
proof fn lemma_printed_word(host: Seq<char>, token: Seq<char>)
    requires
        forall|i: int| 0 <= i < host.len() ==> !text::is_white_space(#[trigger] host[i]),
        forall|i: int| 0 <= i < token.len() ==> !text::is_white_space(#[trigger] token[i]),
    ensures
        ({
            let word = "http://"@ + host + "/?token="@ + token;
            &&& word.len() > 0
            &&& forall|i: int| 0 <= i < word.len() ==> !text::is_white_space(#[trigger] word[i])
            &&& text::begins_with(word, "http://"@)
            &&& exists|at: int| text::occurs_at(word, "/?token="@, at)
        }),
{
    reveal_strlit("http://");
    reveal_strlit("/?token=");
    let word = "http://"@ + host + "/?token="@ + token;
    let mark = 7 + host.len() as int;
    assert forall|i: int| 0 <= i < word.len() implies !text::is_white_space(#[trigger] word[i]) by {
        if i < 7 {
            assert(word[i] == "http://"@[i]);
        } else if i < mark {
            assert(word[i] == host[i - 7]);
        } else if i < mark + 8 {
            assert(word[i] == "/?token="@[i - mark]);
        } else {
            assert(word[i] == token[i - mark - 8]);
        }
    }
    assert(word.subrange(0, 7) =~= "http://"@);
    assert(word.subrange(mark, mark + 8) =~= "/?token="@);
    assert(text::occurs_at(word, "/?token="@, mark));
}

/// The word behind a mark and white space is the first one after the mark.
proof fn lemma_printed_line(
    before: Seq<char>,
    gap: Seq<char>,
    word: Seq<char>,
    after: Seq<char>,
)
    requires
        word.len() > 0,
        forall|i: int| 0 <= i < gap.len() ==> text::is_white_space(#[trigger] gap[i]),
        forall|i: int| 0 <= i < word.len() ==> !text::is_white_space(#[trigger] word[i]),
        after.len() > 0 ==> text::is_white_space(after[0]),
    ensures
        ({
            let line = before + "dsh web: "@ + gap + word + after;
            &&& text::occurs_at(line, "dsh web: "@, before.len() as int)
            &&& text::first_word(line.skip(before.len() + "dsh web: "@.len() as int)) == Some(word)
        }),
{
    let mark = "dsh web: "@;
    let start = before.len() as int;
    let line = before + mark + gap + word + after;
    assert(line.subrange(start, start + mark.len()) =~= mark);
    assert(line.skip(start + mark.len()) =~= gap + word + after);
    text::law_first_word(gap, word, after);
}

/// A stream is read until it announces an address, and that one is kept from then
/// on; a line that announces none leaves what was kept.
pub proof fn law_offer_keeps_what_is_announced(
    target: &mut AuthenticatedUrl,
    line: &str,
    found: bool,
    url: Option<String>,
    fresh: AuthenticatedUrl,
)
    requires
        call_ensures(AuthenticatedUrl::offer, (target, line), found),
        call_ensures(announced_url, (line,), url),
        call_ensures(AuthenticatedUrl::new, (), fresh),
    ensures
        found == (url is Some),
        found ==> final(target).url is Some && final(target).url->0@ == url->0@,
        !found ==> text::optional(final(target).url) == text::optional(old(target).url),
        fresh.url is None,
{
}

/// The runtime lies under the resources, wherever they are: the executable where
/// the platform has it, and the entry script in the service.
pub proof fn law_runtime_lies_in_the_resources<'a, B>(
    resource_dir: &'a B,
    windows: bool,
    paths: (JoinedPath<&'a B>, JoinedPath<&'a B>),
    entry: JoinedPath<&'a B>,
)
    requires
        call_ensures(runtime_paths::<B>, (resource_dir, windows), paths),
        call_ensures(entry_path::<&'a B>, (paths.1,), entry),
    ensures
        paths.0.base == resource_dir,
        paths.1.base == resource_dir,
        entry.base == resource_dir,
        windows ==> paths.0.names() == seq!["resources"@, "node"@, "node.exe"@],
        !windows ==> paths.0.names() == seq!["resources"@, "node"@, "bin"@, "node"@],
        paths.1.names() == seq!["resources"@, "harness"@],
        entry.names() == paths.1.names() + seq![
            "node_modules"@,
            "@deepseek-ai"@,
            "dsh"@,
            "lib"@,
            "bin.js"@,
        ],
{
}

/// A bundle is complete exactly where both of its files are there, and an
/// incomplete one is refused as that.
pub proof fn law_both_files_are_needed(
    node: bool,
    entry: bool,
    result: Result<(), LaunchFailure>,
)
    requires
        call_ensures(check_bundle, (node, entry), result),
    ensures
        result is Ok <==> node && entry,
        result matches Err(failure) ==> failure is Incomplete,
{
}

/// The service is told to serve on loopback, at exactly the port that was found
/// for it, and to open no browser.
pub proof fn law_service_is_told_its_port(port: u16, arguments: Vec<String>)
    requires
        call_ensures(launch_arguments, (port,), arguments),
    ensures
        arguments@.len() == 6,
        arguments@[0]@ == "web"@,
        arguments@[1]@ == "--no-open"@,
        arguments@[2]@ == "--host"@,
        arguments@[3]@ == "127.0.0.1"@,
        arguments@[4]@ == "--port"@,
        text::value_of(arguments@[5]@) == port,
        arguments@[5]@.len() > 1 ==> arguments@[5]@[0] != '0',
        forall|i: int|
            0 <= i < arguments@[5]@.len() ==> '0' <= #[trigger] arguments@[5]@[i] <= '9',
{
    let texts = text::each(arguments@);
    assert(texts.len() == arguments@.len());
    assert(texts[0] == arguments@[0]@ && texts[1] == arguments@[1]@ && texts[2] == arguments@[2]@);
    assert(texts[3] == arguments@[3]@ && texts[4] == arguments@[4]@ && texts[5] == arguments@[5]@);
    text::law_decimal_reads_back(port as nat);
}

/// What the user is told of a failed start names what failed, and keeps the reason
/// as it is.
pub proof fn law_launch_failures_say_why(failure: LaunchFailure, message: String)
    requires
        call_ensures(LaunchFailure::message, (&failure,), message),
    ensures
        failure matches LaunchFailure::Resources(why) ==> message@ == "无法定位应用资源："@ + why@,
        failure is Incomplete ==> message@ == "Harness 运行资源不完整，请重新安装应用。"@,
        failure matches LaunchFailure::Port(why) ==> message@ == "无法分配本地端口："@ + why@,
        failure matches LaunchFailure::Spawn(why) ==> message@ == "无法启动 Harness："@ + why@,
{
}

} // verus!
