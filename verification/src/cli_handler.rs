//! What the program does for a command, step by step. Each function here
//! says what is to be done next; the program around this crate does it
//! and comes back with what happened.

use crate::backend::auth::{
    auth_interactive, auth_prompt, login_call, login_outcome, login_report, logout, logout_call,
    logout_line, logout_report, password_prompt,
};
use crate::backend::global::{
    alt_speed_outcome, alt_speed_report, get_alt_speed, logs, logs_outcome, logs_report,
    plain_call, shutdown, toggle_alt_speed, version, version_outcome, version_report,
};
use crate::backend::request::{
    built, check_reply, judged, parse_url, url_parsed, Body, Expect, Reply, Request, RequestView,
};
use crate::backend::torrents::{
    add_call, add_outcome, add_report, add_torrent, content_call, content_failed_message,
    content_outcome, content_report, content_torrent, delete_call, delete_line, delete_question,
    delete_report, delete_torrents, hash_call, list_start, list_torrents, pause_torrent,
    reannounce, recheck, resume_torrent, sent_line, sent_report, AddSource, ListModel, ListView,
};
use crate::backend::util::{
    confirm, confirm_prompt_text, confirms, expired_message, DefaultChoice, STATUS_FORBIDDEN,
};
use crate::cli::{
    AuthCommands, BaseCommand, Commands, GlobalCommands, TorrentCommands, TorrentSortingOptions,
};
use crate::config::{list_text, Config, RequestInfo, SessionView, StoreView};
use crate::error::{failure, ErrorKind, Failure};
use vstd::prelude::*;
use vstd::string::*;

verus! {

/// The request whose answer is awaited, with what is needed to take the
/// answer.
#[derive(Debug, PartialEq, Eq)]
pub enum Call {
    /// Logging in to the url.
    Login { url: String },
    /// Logging out of the url.
    Logout { url: String },
    Content,
    Add(AddSource),
    /// Deleting so many torrents.
    Delete { count: usize },
    Pause,
    Resume,
    Recheck,
    Reannounce,
    Shutdown,
    Version,
    Logs,
    /// Asking for the alternative speed limits.
    AltSpeed,
    /// Switching the alternative speed limits; `then` is the request that
    /// asks for them afterwards.
    ToggleAltSpeed { then: Request },
    /// Asking for the alternative speed limits after they were switched.
    AltSpeedToggled,
}

/// A call, with texts in place of strings.
pub enum CallView {
    Login { url: Seq<char> },
    Logout { url: Seq<char> },
    Content,
    Add(AddSource),
    Delete { count: usize },
    Pause,
    Resume,
    Recheck,
    Reannounce,
    Shutdown,
    Version,
    Logs,
    AltSpeed,
    ToggleAltSpeed { then: RequestView },
    AltSpeedToggled,
}

impl View for Call {
    type V = CallView;

    open spec fn view(&self) -> CallView {
        match self {
            Call::Login { url } => CallView::Login { url: url@ },
            Call::Logout { url } => CallView::Logout { url: url@ },
            Call::Content => CallView::Content,
            Call::Add(source) => CallView::Add(*source),
            Call::Delete { count } => CallView::Delete { count: *count },
            Call::Pause => CallView::Pause,
            Call::Resume => CallView::Resume,
            Call::Recheck => CallView::Recheck,
            Call::Reannounce => CallView::Reannounce,
            Call::Shutdown => CallView::Shutdown,
            Call::Version => CallView::Version,
            Call::Logs => CallView::Logs,
            Call::AltSpeed => CallView::AltSpeed,
            Call::ToggleAltSpeed { then } => CallView::ToggleAltSpeed { then: then@ },
            Call::AltSpeedToggled => CallView::AltSpeedToggled,
        }
    }
}

/// What the program is to do next.
#[derive(Debug, PartialEq, Eq)]
pub enum Step {
    /// The command is over, and the program leaves at once with 0 after it
    /// has printed the text: the store is not written.
    Leave(String),
    /// The command is over. What it has to say is printed: the text of
    /// `Ok` as it is, the message of a failure as a line of its own on the
    /// error stream. Then the store is written, and the program leaves
    /// with 0 after `Ok` and with the exit code of the failure otherwise.
    /// Only on a fatal failure it leaves at once, without writing the
    /// store.
    Done(Result<String, Failure>),
    /// Ask for the password with `prompt`, then go on with
    /// `password_given`.
    AskPassword { prompt: String, url: String, username: String },
    /// Ask the user with `prompt`, then go on with `answer_given`.
    Confirm { prompt: String, default: DefaultChoice, call: Call, request: Request },
    /// Send the request, then go on with `reply_given`.
    Send { call: Call, request: Request },
    /// Send the request of the view, then run the view.
    Watch(ListView),
}

/// A step, with texts in place of strings.
pub enum StepView {
    Leave(Seq<char>),
    Done(Result<Seq<char>, (ErrorKind, Seq<char>)>),
    AskPassword { prompt: Seq<char>, url: Seq<char>, username: Seq<char> },
    Confirm { prompt: Seq<char>, default: DefaultChoice, call: CallView, request: RequestView },
    Send { call: CallView, request: RequestView },
    Watch(ListModel),
}

impl View for Step {
    type V = StepView;

    open spec fn view(&self) -> StepView {
        match self {
            Step::Leave(text) => StepView::Leave(text@),
            Step::Done(Ok(text)) => StepView::Done(Ok(text@)),
            Step::Done(Err(f)) => StepView::Done(Err(f@)),
            Step::AskPassword { prompt, url, username } => StepView::AskPassword {
                prompt: prompt@,
                url: url@,
                username: username@,
            },
            Step::Confirm { prompt, default, call, request } => StepView::Confirm {
                prompt: prompt@,
                default: *default,
                call: call@,
                request: request@,
            },
            Step::Send { call, request } => StepView::Send { call: call@, request: request@ },
            Step::Watch(view) => StepView::Watch(view@),
        }
    }
}

/// The step that sends a request, or that ends the command where the
/// request could not be made.
pub open spec fn sending(call: CallView, request: Result<RequestView, (ErrorKind, Seq<char>)>)
    -> StepView {
    match request {
        Ok(request) => StepView::Send { call, request },
        Err(e) => StepView::Done(Err(e)),
    }
}

fn send(call: Call, request: Result<Request, Failure>) -> (r: Step)
    ensures
        r@ == sending(call@, built(request)),
{
    match request {
        Ok(request) => Step::Send { call, request },
        Err(f) => Step::Done(Err(f)),
    }
}

/// The line that tells the user that no session can be used.
pub open spec fn not_configured_message() -> Seq<char> {
    "No (default) url configured. Please configure a url using the auth subcommand!"@
}

/// The session of the store, with texts in place of strings, or the
/// failure that is reported where there is none.
pub open spec fn session_of(store: StoreView) -> Result<SessionView, (ErrorKind, Seq<char>)> {
    match store.resolve_active() {
        Ok(session) => Ok(SessionView { url: session.0, cookie: session.1 }),
        Err(kind) => Err((kind, not_configured_message())),
    }
}

/// The session that the commands use: the default url of the store with
/// its cookie. A store without a default gives none, and the failure
/// carries the line that tells the user so.
pub fn get_info_if_default(config: &Config) -> (r: Result<RequestInfo, Failure>)
    ensures
        match session_of(config@) {
            Ok(session) => r matches Ok(info) && info@ == session,
            Err(e) => r matches Err(f) && f@ == e,
        },
{
    match config.get_request_info() {
        Ok(info) => Ok(info),
        Err(kind) => Err(
            failure(
                kind,
                "No (default) url configured. Please configure a url using the auth subcommand!",
            ),
        ),
    }
}

/// The line that tells the user that what was given is no url.
pub open spec fn not_a_url_message(input: Seq<char>) -> Seq<char> {
    "'"@ + input + "' is not a url"@
}

fn not_a_url(input: &str) -> (r: Step)
    ensures
        r@ == StepView::Done(Err((ErrorKind::InvalidInput, not_a_url_message(input@)))),
{
    let mut message = String::from_str("'");
    message.append(input);
    message.append("' is not a url");
    Step::Done(Err(Failure { kind: ErrorKind::InvalidInput, message }))
}

/// The line that says where the configuration is kept.
pub open spec fn config_dir_line(config_dir: Seq<char>) -> Seq<char> {
    "Config dir at: "@ + config_dir + "\n"@
}

/// The line that says which url is the default now.
pub open spec fn set_default_line(url: Seq<char>) -> Seq<char> {
    "Set "@ + url + " as the default\n"@
}

/// The line that tells the user that a url cannot be the default because
/// it is not stored.
pub open spec fn not_registered_message(url: Seq<char>) -> Seq<char> {
    "Url "@ + url + " is not registered. Use add subcommand to add it."@
}

/// The line that says that a url was removed.
pub open spec fn removed_line(url: Seq<char>) -> Seq<char> {
    "Removed "@ + url + "\n"@
}

/// The line that says that a url was not stored when it was to be
/// removed.
pub open spec fn not_stored_line(url: Seq<char>) -> Seq<char> {
    url + " is not stored.\n"@
}

/// The step that follows when the password is known: the request that
/// logs in is sent.
pub open spec fn with_password(url: Seq<char>, username: Seq<char>, password: Seq<char>)
    -> StepView {
    sending(CallView::Login { url }, login_call(url, username, password))
}

/// Goes on when the password is known.
pub fn password_given(url: String, username: String, password: String) -> (r: Step)
    ensures
        r@ == with_password(url@, username@, password@),
{
    let request = auth_interactive(url.as_str(), username, password);
    send(Call::Login { url }, request)
}

/// The step that follows the answer of the user to a question: the
/// request is sent where the answer confirms, and the command is over
/// with the word `Cancelled` otherwise.
pub open spec fn with_answer(
    answer: Seq<char>,
    default: DefaultChoice,
    call: CallView,
    request: RequestView,
) -> StepView {
    if confirms(answer, default) {
        StepView::Send { call, request }
    } else {
        StepView::Done(Ok("Cancelled\n"@))
    }
}

/// Goes on when the user has answered a question.
pub fn answer_given(answer: &str, default: DefaultChoice, call: Call, request: Request) -> (r: Step)
    ensures
        r@ == with_answer(answer@, default, call@, request@),
{
    if confirm(answer, default) {
        Step::Send { call, request }
    } else {
        Step::Done(Ok(String::from_str("Cancelled\n")))
    }
}

/// What a command on the store or on the login does first, and the store
/// after it. A url is read first, and one that does not read as a url
/// ends the command; the store is asked and changed with the url in its
/// normal form.
pub open spec fn auth_plan(command: AuthCommands, store: StoreView) -> (StepView, StoreView) {
    match command {
        AuthCommands::List { show_secrets } => (
            StepView::Done(Ok(list_text(store.listing(), store.active, show_secrets))),
            store,
        ),
        AuthCommands::SetDefault { url } => match url_parsed(url@) {
            None => (StepView::Done(Err((ErrorKind::InvalidInput, not_a_url_message(url@)))), store),
            Some(url) => if store.has(url) {
                (StepView::Done(Ok(set_default_line(url))), store.activate(url))
            } else {
                (
                    StepView::Done(
                        Err((ErrorKind::UnknownEndpoint, not_registered_message(url))),
                    ),
                    store,
                )
            },
        },
        AuthCommands::Add { url, username, password } => match url_parsed(url@) {
            None => (StepView::Done(Err((ErrorKind::InvalidInput, not_a_url_message(url@)))), store),
            Some(url) => match password {
                Some(password) => (with_password(url, username@, password@), store),
                None => (
                    StepView::AskPassword {
                        prompt: password_prompt(username@),
                        url,
                        username: username@,
                    },
                    store,
                ),
            },
        },
        AuthCommands::Remove { url } => match url_parsed(url@) {
            None => (StepView::Done(Err((ErrorKind::InvalidInput, not_a_url_message(url@)))), store),
            Some(url) => (
                StepView::Done(
                    Ok(
                        if store.has(url) {
                            removed_line(url)
                        } else {
                            not_stored_line(url)
                        },
                    ),
                ),
                store.remove(url),
            ),
        },
        AuthCommands::Logout { url } => match url_parsed(url@) {
            None => (StepView::Done(Err((ErrorKind::InvalidInput, not_a_url_message(url@)))), store),
            Some(url) => (sending(CallView::Logout { url }, logout_call(url)), store),
        },
    }
}

/// What a command on torrents does first with the session.
pub open spec fn torrent_plan(command: TorrentCommands, info: SessionView) -> StepView {
    match command {
        TorrentCommands::List { sort, reverse, limit, interval } => match list_start(
            info,
            match sort {
                Some(sort_by) => sort_by,
                None => TorrentSortingOptions::Name,
            },
            reverse,
            limit,
            interval,
        ) {
            Ok(view) => StepView::Watch(view),
            Err(e) => StepView::Done(Err(e)),
        },
        TorrentCommands::Content { hash } => sending(CallView::Content, content_call(info, hash@)),
        TorrentCommands::Add { url_or_path, pause } => sending(
            CallView::Add(
                if url_parsed(url_or_path@) is Some {
                    AddSource::Url
                } else {
                    AddSource::File
                },
            ),
            add_call(info, url_or_path@, pause),
        ),
        TorrentCommands::Delete { hashes, delete_files } => match delete_call(
            info,
            hashes@,
            delete_files,
        ) {
            Ok(request) => StepView::Confirm {
                prompt: confirm_prompt_text(
                    delete_question(hashes@.len(), delete_files),
                    DefaultChoice::No,
                ),
                default: DefaultChoice::No,
                call: CallView::Delete { count: hashes@.len() as usize },
                request,
            },
            Err(e) => StepView::Done(Err(e)),
        },
        TorrentCommands::Pause { hash } => sending(
            CallView::Pause,
            hash_call(info, "api/v2/torrents/pause"@, hash@),
        ),
        TorrentCommands::Resume { hash } => sending(
            CallView::Resume,
            hash_call(info, "api/v2/torrents/resume"@, hash@),
        ),
        TorrentCommands::Recheck { hash } => sending(
            CallView::Recheck,
            hash_call(info, "api/v2/torrents/recheck"@, hash@),
        ),
        TorrentCommands::Reannounce { hash } => sending(
            CallView::Reannounce,
            hash_call(info, "api/v2/torrents/reannounce"@, hash@),
        ),
    }
}

/// What a command on the service as a whole does first with the session.
/// To switch the alternative speed limits, the request that switches them
/// is sent first, and the one that asks for them is kept for afterwards.
pub open spec fn global_plan(command: GlobalCommands, info: SessionView) -> StepView {
    match command {
        GlobalCommands::Shutdown => sending(
            CallView::Shutdown,
            plain_call(info, "api/v2/app/shutdown"@, Expect::Nothing),
        ),
        GlobalCommands::Version => sending(
            CallView::Version,
            plain_call(info, "api/v2/app/version"@, Expect::Text),
        ),
        GlobalCommands::Log => sending(
            CallView::Logs,
            plain_call(info, "api/v2/log/main"@, Expect::Logs),
        ),
        GlobalCommands::AltSpeed { toggle } => {
            let ask = plain_call(info, "api/v2/transfer/speedLimitsMode"@, Expect::Text);
            if toggle {
                match ask {
                    Ok(then) => sending(
                        CallView::ToggleAltSpeed { then },
                        plain_call(
                            info,
                            "api/v2/transfer/toggleSpeedLimitsMode"@,
                            Expect::Nothing,
                        ),
                    ),
                    Err(e) => StepView::Done(Err(e)),
                }
            } else {
                sending(CallView::AltSpeed, ask)
            }
        },
    }
}

/// What the program does first for a command, and the store after it.
/// To say where the configuration is kept, the program prints the line
/// and leaves at once. A command on torrents or on the service needs the
/// session of the store and ends at once where there is none.
pub open spec fn planned(args: BaseCommand, config_dir: Seq<char>, store: StoreView) -> (
    StepView,
    StoreView,
) {
    match args.commands {
        Commands::ConfigDir => (StepView::Leave(config_dir_line(config_dir)), store),
        Commands::Auth(auth) => auth_plan(auth.commands, store),
        Commands::Torrent(torrent) => match session_of(store) {
            Ok(info) => (torrent_plan(torrent.commands, info), store),
            Err(e) => (StepView::Done(Err(e)), store),
        },
        Commands::Global(global) => match session_of(store) {
            Ok(info) => (global_plan(global.commands, info), store),
            Err(e) => (StepView::Done(Err(e)), store),
        },
    }
}

fn handle_auth(command: AuthCommands, config: &mut Config) -> (r: Step)
    ensures
        (r@, final(config)@) == auth_plan(command, old(config)@),
{
    match command {
        AuthCommands::List { show_secrets } => Step::Done(Ok(config.list_cookies(show_secrets))),
        AuthCommands::SetDefault { url } => match parse_url(url.as_str()) {
            None => not_a_url(url.as_str()),
            Some(url) => match config.activate_url(url.as_str()) {
                Ok(()) => {
                    let mut line = String::from_str("Set ");
                    line.append(url.as_str());
                    line.append(" as the default\n");
                    Step::Done(Ok(line))
                },
                Err(kind) => {
                    let mut message = String::from_str("Url ");
                    message.append(url.as_str());
                    message.append(" is not registered. Use add subcommand to add it.");
                    Step::Done(Err(Failure { kind, message }))
                },
            },
        },
        AuthCommands::Add { url, username, password } => match parse_url(url.as_str()) {
            None => not_a_url(url.as_str()),
            Some(url) => match password {
                Some(password) => password_given(url, username, password),
                None => Step::AskPassword { prompt: auth_prompt(username.as_str()), url, username },
            },
        },
        AuthCommands::Remove { url } => match parse_url(url.as_str()) {
            None => not_a_url(url.as_str()),
            Some(url) => {
                if config.remove_url(url.as_str()) {
                    let mut line = String::from_str("Removed ");
                    line.append(url.as_str());
                    line.append("\n");
                    Step::Done(Ok(line))
                } else {
                    let mut line = url;
                    line.append(" is not stored.\n");
                    Step::Done(Ok(line))
                }
            },
        },
        AuthCommands::Logout { url } => match parse_url(url.as_str()) {
            None => not_a_url(url.as_str()),
            Some(url) => {
                let request = logout(url.as_str());
                send(Call::Logout { url }, request)
            },
        },
    }
}

fn handle_torrent(command: TorrentCommands, info: &RequestInfo) -> (r: Step)
    ensures
        r@ == torrent_plan(command, info@),
{
    match command {
        TorrentCommands::List { sort, reverse, limit, interval } => {
            let sort_by = match sort {
                Some(sort_by) => sort_by,
                None => TorrentSortingOptions::Name,
            };
            match list_torrents(info, sort_by, reverse, limit, interval) {
                Ok(view) => Step::Watch(view),
                Err(f) => Step::Done(Err(f)),
            }
        },
        TorrentCommands::Content { hash } => send(Call::Content, content_torrent(info, hash)),
        TorrentCommands::Add { url_or_path, pause } => match add_torrent(info, url_or_path, pause) {
            Ok((source, request)) => Step::Send { call: Call::Add(source), request },
            Err(f) => Step::Done(Err(f)),
        },
        TorrentCommands::Delete { hashes, delete_files } => match delete_torrents(
            info,
            &hashes,
            delete_files,
        ) {
            Ok((prompt, request)) => Step::Confirm {
                prompt,
                default: DefaultChoice::No,
                call: Call::Delete { count: hashes.len() },
                request,
            },
            Err(f) => Step::Done(Err(f)),
        },
        TorrentCommands::Pause { hash } => send(Call::Pause, pause_torrent(info, hash)),
        TorrentCommands::Resume { hash } => send(Call::Resume, resume_torrent(info, hash)),
        TorrentCommands::Recheck { hash } => send(Call::Recheck, recheck(info, hash)),
        TorrentCommands::Reannounce { hash } => send(Call::Reannounce, reannounce(info, hash)),
    }
}

fn handle_global(command: GlobalCommands, info: &RequestInfo) -> (r: Step)
    ensures
        r@ == global_plan(command, info@),
{
    match command {
        GlobalCommands::Shutdown => send(Call::Shutdown, shutdown(info)),
        GlobalCommands::Version => send(Call::Version, version(info)),
        GlobalCommands::Log => send(Call::Logs, logs(info)),
        GlobalCommands::AltSpeed { toggle } => {
            let ask = get_alt_speed(info);
            if toggle {
                match ask {
                    Ok(then) => send(Call::ToggleAltSpeed { then }, toggle_alt_speed(info)),
                    Err(f) => Step::Done(Err(f)),
                }
            } else {
                send(Call::AltSpeed, ask)
            }
        },
    }
}

/// Says what the program does first for a command, and changes the store
/// as the command asks.
pub fn handle_cli(args: BaseCommand, config_dir: &str, config: &mut Config) -> (r: Step)
    ensures
        (r@, final(config)@) == planned(args, config_dir@, old(config)@),
{
    match args.commands {
        Commands::ConfigDir => {
            let mut line = String::from_str("Config dir at: ");
            line.append(config_dir);
            line.append("\n");
            Step::Leave(line)
        },
        Commands::Auth(auth) => handle_auth(auth.commands, config),
        Commands::Torrent(torrent) => match get_info_if_default(config) {
            Ok(info) => handle_torrent(torrent.commands, &info),
            Err(f) => Step::Done(Err(f)),
        },
        Commands::Global(global) => match get_info_if_default(config) {
            Ok(info) => handle_global(global.commands, &info),
            Err(f) => Step::Done(Err(f)),
        },
    }
}

/// The step that a result ends the command with.
pub open spec fn ending(outcome: Result<Seq<char>, (ErrorKind, Seq<char>)>) -> StepView {
    StepView::Done(outcome)
}

/// What the body of an answer leads to for a call, and the store after
/// it. Only the answer to a login changes the store. After the
/// alternative speed limits were switched, the request that asks for them
/// is sent; every other call ends the command with what it prints.
pub open spec fn taken(call: Call, body: Body, store: StoreView) -> (StepView, StoreView) {
    match call {
        Call::Login { url } => (
            ending(login_outcome(store, url@, body).0),
            login_outcome(store, url@, body).1,
        ),
        Call::Logout { url } => (ending(Ok(logout_line(url@))), store),
        Call::Content => (ending(content_outcome(body)), store),
        Call::Add(source) => (ending(add_outcome(source, body)), store),
        Call::Delete { count } => (ending(Ok(delete_line(count as nat))), store),
        Call::Pause => (ending(Ok(sent_line("pause"@))), store),
        Call::Resume => (ending(Ok(sent_line("resume"@))), store),
        Call::Recheck => (ending(Ok(sent_line("recheck"@))), store),
        Call::Reannounce => (ending(Ok(sent_line("reannounce"@))), store),
        Call::Shutdown => (ending(Ok("Sent request to shutdown the app.\n"@)), store),
        Call::Version => (ending(version_outcome(body)), store),
        Call::Logs => (ending(logs_outcome(body)), store),
        Call::AltSpeed => (ending(alt_speed_outcome(false, body)), store),
        Call::ToggleAltSpeed { then } => (
            StepView::Send { call: CallView::AltSpeedToggled, request: then@ },
            store,
        ),
        Call::AltSpeedToggled => (ending(alt_speed_outcome(true, body)), store),
    }
}

/// What a reply leads to for a call, and the store after it. A reply that
/// is a failure ends the command with that failure and leaves the store
/// as it is; where the files of a torrent were asked for, a body that
/// could not be read is reported with a hint at the hash.
pub open spec fn concluded(call: Call, reply: Reply, store: StoreView) -> (StepView, StoreView) {
    match judged(reply) {
        Ok(body) => taken(call, body, store),
        Err(e) => if call is Content && e.0 == ErrorKind::Decode {
            (ending(Err((ErrorKind::Decode, content_failed_message()))), store)
        } else {
            (ending(Err(e)), store)
        },
    }
}

/// A rejected cookie ends every command with the one fatal failure,
/// whatever the call was, and leaves the store as it is.
pub proof fn lemma_rejected_cookie_is_fatal(call: Call, body: Option<Body>, store: StoreView)
    ensures
        concluded(call, Reply::Answer { status: STATUS_FORBIDDEN, body }, store) == (
            StepView::Done(Err((ErrorKind::SessionExpired, expired_message()))),
            store,
        ),
        ErrorKind::SessionExpired.is_fatal(),
{
}

/// No other failure of a reply is fatal, and none changes the store.
pub proof fn lemma_failed_reply_keeps_the_store(call: Call, reply: Reply, store: StoreView)
    requires
        judged(reply) is Err,
    ensures
        concluded(call, reply, store).1 == store,
        concluded(call, reply, store).0 matches StepView::Done(Err(e)) && e.0.is_fatal() == (
        reply matches Reply::Answer { status, .. } && status == STATUS_FORBIDDEN),
{
}

fn end(outcome: Result<String, Failure>) -> (r: Step)
    ensures
        r@ == ending(
            match outcome {
                Ok(text) => Ok(text@),
                Err(f) => Err(f@),
            },
        ),
{
    Step::Done(outcome)
}

/// Goes on when a request was answered, or failed: judges the reply, and
/// takes the body of a good one as the call asks.
pub fn reply_given(call: Call, reply: Reply, config: &mut Config) -> (r: Step)
    ensures
        (r@, final(config)@) == concluded(call, reply, old(config)@),
{
    let body = match check_reply(reply) {
        Ok(body) => body,
        Err(f) => {
            return match call {
                Call::Content => if f.kind == ErrorKind::Decode {
                    Step::Done(
                        Err(
                            failure(
                                ErrorKind::Decode,
                                "Request failed, make sure the hash is valid",
                            ),
                        ),
                    )
                } else {
                    Step::Done(Err(f))
                },
                _ => Step::Done(Err(f)),
            };
        },
    };
    match call {
        Call::Login { url } => end(login_report(config, url, body)),
        Call::Logout { url } => end(Ok(logout_report(url.as_str()))),
        Call::Content => end(content_report(body)),
        Call::Add(source) => end(add_report(source, body)),
        Call::Delete { count } => end(Ok(delete_report(count))),
        Call::Pause => end(Ok(sent_report("pause"))),
        Call::Resume => end(Ok(sent_report("resume"))),
        Call::Recheck => end(Ok(sent_report("recheck"))),
        Call::Reannounce => end(Ok(sent_report("reannounce"))),
        Call::Shutdown => end(Ok(String::from_str("Sent request to shutdown the app.\n"))),
        Call::Version => end(version_report(body)),
        Call::Logs => end(logs_report(body)),
        Call::AltSpeed => end(alt_speed_report(false, body)),
        Call::ToggleAltSpeed { then } => Step::Send { call: Call::AltSpeedToggled, request: then },
        Call::AltSpeedToggled => end(alt_speed_report(true, body)),
    }
}

} // verus!
