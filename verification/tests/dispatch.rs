use qbtrs::backend::request::{Body, Encoding, Expect, Method, Reply, Request};
use qbtrs::backend::torrents::{AddSource, ListState};
use qbtrs::backend::util::DefaultChoice;
use qbtrs::cli::{
    Auth, AuthCommands, BaseCommand, Commands, Global, GlobalCommands, Torrent, TorrentCommands,
    TorrentSortingOptions,
};
use qbtrs::cli_handler::{
    answer_given, get_info_if_default, handle_cli, password_given, reply_given, Call, Step,
};
use qbtrs::config::Config;
use qbtrs::error::{failure, ErrorKind, Failure};

fn auth(commands: AuthCommands) -> BaseCommand {
    BaseCommand { commands: Commands::Auth(Auth { commands }) }
}

fn torrent(commands: TorrentCommands) -> BaseCommand {
    BaseCommand { commands: Commands::Torrent(Torrent { commands }) }
}

fn global(commands: GlobalCommands) -> BaseCommand {
    BaseCommand { commands: Commands::Global(Global { commands }) }
}

fn configured() -> Config {
    let mut config = Config::new();
    config.add_url("http://localhost:8080/".to_string(), "SID=abc;".to_string());
    config
}

fn run(args: BaseCommand, config: &mut Config) -> Step {
    handle_cli(args, "/home/u/.config/qbtrs", config)
}

fn said(text: &str) -> Step {
    Step::Done(Ok(text.to_string()))
}

fn failed(kind: ErrorKind, message: &str) -> Step {
    Step::Done(Err(failure(kind, message)))
}

fn plain(url: &str, expects: Expect) -> Request {
    Request {
        method: Method::Post,
        url: url.to_string(),
        referer: None,
        cookie: Some("SID=abc;".to_string()),
        encoding: Encoding::Plain,
        fields: vec![],
        file: None,
        expects,
    }
}

fn answered(body: Body) -> Reply {
    Reply::Answer { status: 200, body: Some(body) }
}

const NOT_CONFIGURED: &str =
    "No (default) url configured. Please configure a url using the auth subcommand!";

#[test]
fn failure_holds_kind_and_message() {
    assert_eq!(
        failure(ErrorKind::Decode, "x"),
        Failure { kind: ErrorKind::Decode, message: "x".to_string() }
    );
}

#[test]
fn config_dir_is_printed() {
    let mut config = configured();
    assert_eq!(
        run(BaseCommand { commands: Commands::ConfigDir }, &mut config),
        Step::Leave("Config dir at: /home/u/.config/qbtrs\n".to_string())
    );
    let mut empty = Config::new();
    assert_eq!(
        run(BaseCommand { commands: Commands::ConfigDir }, &mut empty),
        Step::Leave("Config dir at: /home/u/.config/qbtrs\n".to_string())
    );
    assert!(empty.is_empty());
    assert_eq!(config, configured());
}

#[test]
fn commands_need_a_session() {
    let commands = vec![
        torrent(TorrentCommands::List { sort: None, reverse: false, limit: None, interval: None }),
        torrent(TorrentCommands::Content { hash: "a".to_string() }),
        torrent(TorrentCommands::Add { url_or_path: "a".to_string(), pause: false }),
        torrent(TorrentCommands::Delete { hashes: vec![], delete_files: false }),
        torrent(TorrentCommands::Delete { hashes: vec!["a".to_string()], delete_files: false }),
        torrent(TorrentCommands::Pause { hash: "a".to_string() }),
        torrent(TorrentCommands::Resume { hash: "a".to_string() }),
        torrent(TorrentCommands::Recheck { hash: "a".to_string() }),
        torrent(TorrentCommands::Reannounce { hash: "a".to_string() }),
        global(GlobalCommands::Shutdown),
        global(GlobalCommands::Version),
        global(GlobalCommands::Log),
        global(GlobalCommands::AltSpeed { toggle: false }),
        global(GlobalCommands::AltSpeed { toggle: true }),
    ];
    for args in commands {
        let mut config = Config::new();
        assert_eq!(run(args, &mut config), failed(ErrorKind::NotConfigured, NOT_CONFIGURED));
        assert!(config.is_empty());
    }
}

#[test]
fn store_without_a_default_is_not_configured() {
    let mut config = configured();
    config.add_url("http://other/".to_string(), "O".to_string());
    assert!(config.remove_url("http://localhost:8080/"));
    assert!(!config.is_empty());
    assert_eq!(get_info_if_default(&config).unwrap_err().kind, ErrorKind::NotConfigured);
    assert_eq!(
        run(global(GlobalCommands::Version), &mut config),
        failed(ErrorKind::NotConfigured, NOT_CONFIGURED)
    );
}

#[test]
fn set_default_reads_the_url_first() {
    let mut config = configured();
    config.add_url("https://h/".to_string(), "H".to_string());
    assert_eq!(
        run(auth(AuthCommands::SetDefault { url: "https://h".to_string() }), &mut config),
        said("Set https://h/ as the default\n")
    );
    assert_eq!(config.default_url(), Some(&"https://h/".to_string()));
    assert_eq!(get_info_if_default(&config).unwrap().cookie, "H");
}

#[test]
fn set_default_refuses_what_is_not_stored() {
    let mut config = configured();
    assert_eq!(
        run(auth(AuthCommands::SetDefault { url: "https://never/".to_string() }), &mut config),
        failed(
            ErrorKind::UnknownEndpoint,
            "Url https://never/ is not registered. Use add subcommand to add it."
        )
    );
    assert_eq!(config, configured());
}

#[test]
fn auth_commands_refuse_what_is_no_url() {
    let commands = vec![
        AuthCommands::SetDefault { url: "nonsense".to_string() },
        AuthCommands::Add {
            url: "nonsense".to_string(),
            username: "u".to_string(),
            password: Some("p".to_string()),
        },
        AuthCommands::Add { url: "nonsense".to_string(), username: "u".to_string(), password: None },
        AuthCommands::Remove { url: "nonsense".to_string() },
        AuthCommands::Logout { url: "nonsense".to_string() },
    ];
    for command in commands {
        let mut config = configured();
        assert_eq!(
            run(auth(command), &mut config),
            failed(ErrorKind::InvalidInput, "'nonsense' is not a url")
        );
        assert_eq!(config, configured());
    }
}

#[test]
fn list_of_sessions() {
    let mut config = configured();
    assert_eq!(
        run(auth(AuthCommands::List { show_secrets: true }), &mut config),
        said("DEFAULT\tURL\tCOOKIE\n[*]\thttp://localhost:8080/: SID=abc;\n")
    );
    assert_eq!(
        run(auth(AuthCommands::List { show_secrets: false }), &mut config),
        said("NOTE: secrets are redacted. To reveal, pass --show-secrets\n\nDEFAULT\tURL\tCOOKIE\n[*]\thttp://localhost:8080/: [REDACTED]\n")
    );
    let mut empty = Config::new();
    assert_eq!(
        run(auth(AuthCommands::List { show_secrets: false }), &mut empty),
        said("No stored cookies!\n")
    );
}

#[test]
fn remove_says_whether_the_url_was_stored() {
    let mut config = configured();
    assert_eq!(
        run(auth(AuthCommands::Remove { url: "http://localhost:8080".to_string() }), &mut config),
        said("Removed http://localhost:8080/\n")
    );
    assert!(config.is_empty());
    assert_eq!(config.default_url(), None);
    assert_eq!(
        run(auth(AuthCommands::Remove { url: "http://localhost:8080".to_string() }), &mut config),
        said("http://localhost:8080/ is not stored.\n")
    );
    assert!(config.is_empty());
}

fn login_request() -> Request {
    Request {
        method: Method::Post,
        url: "https://h/api/v2/auth/login".to_string(),
        referer: Some("https://h/".to_string()),
        cookie: None,
        encoding: Encoding::Form,
        fields: vec![
            ("username".to_string(), "admin".to_string()),
            ("password".to_string(), "secret".to_string()),
        ],
        file: None,
        expects: Expect::Cookies,
    }
}

#[test]
fn add_with_a_password_logs_in_at_once() {
    let mut config = Config::new();
    let step = run(
        auth(AuthCommands::Add {
            url: "https://h".to_string(),
            username: "admin".to_string(),
            password: Some("secret".to_string()),
        }),
        &mut config,
    );
    assert_eq!(
        step,
        Step::Send { call: Call::Login { url: "https://h/".to_string() }, request: login_request() }
    );
    assert!(config.is_empty());
}

#[test]
fn add_without_a_password_asks_for_it() {
    let mut config = Config::new();
    let step = run(
        auth(AuthCommands::Add {
            url: "https://h".to_string(),
            username: "admin".to_string(),
            password: None,
        }),
        &mut config,
    );
    assert_eq!(
        step,
        Step::AskPassword {
            prompt: "Please provide the password for user admin: ".to_string(),
            url: "https://h/".to_string(),
            username: "admin".to_string(),
        }
    );
    assert_eq!(
        password_given("https://h/".to_string(), "admin".to_string(), "secret".to_string()),
        Step::Send { call: Call::Login { url: "https://h/".to_string() }, request: login_request() }
    );
}

#[test]
fn login_with_cookies_stores_the_session() {
    let mut config = Config::new();
    let step = reply_given(
        Call::Login { url: "https://h/".to_string() },
        answered(Body::Cookies(vec![("SID".to_string(), "abc".to_string())])),
        &mut config,
    );
    assert_eq!(step, said("Authentication successful!\n"));
    let info = get_info_if_default(&config).unwrap();
    assert_eq!(info.url, "https://h/");
    assert_eq!(info.cookie, "SID=abc;");
    let pause = run(torrent(TorrentCommands::Pause { hash: "x".to_string() }), &mut config);
    match pause {
        Step::Send { call, request } => {
            assert_eq!(call, Call::Pause);
            assert_eq!(request.url, "https://h/api/v2/torrents/pause");
            assert_eq!(request.cookie, Some("SID=abc;".to_string()));
        }
        other => panic!("unexpected step {:?}", other),
    }
}

#[test]
fn login_without_cookies_fails_even_with_status_200() {
    let mut config = configured();
    let step = reply_given(
        Call::Login { url: "https://h/".to_string() },
        answered(Body::Cookies(vec![])),
        &mut config,
    );
    assert_eq!(step, failed(ErrorKind::AuthFailure, "Authentication failed!"));
    assert_eq!(config, configured());
}

#[test]
fn logout_is_sent_without_a_cookie() {
    let mut config = configured();
    let step = run(auth(AuthCommands::Logout { url: "https://h/x/".to_string() }), &mut config);
    assert_eq!(
        step,
        Step::Send {
            call: Call::Logout { url: "https://h/x/".to_string() },
            request: Request {
                method: Method::Post,
                url: "https://h/api/v2/auth/logout".to_string(),
                referer: None,
                cookie: None,
                encoding: Encoding::Plain,
                fields: vec![],
                file: None,
                expects: Expect::Nothing,
            },
        }
    );
    assert_eq!(
        reply_given(Call::Logout { url: "https://h/x/".to_string() }, answered(Body::Nothing), &mut config),
        said("Logged out of https://h/x/.\n")
    );
    assert_eq!(config, configured());
}

#[test]
fn list_command_starts_the_view() {
    let mut config = configured();
    let step = run(
        torrent(TorrentCommands::List {
            sort: None,
            reverse: true,
            limit: Some(3),
            interval: Some(500),
        }),
        &mut config,
    );
    match step {
        Step::Watch(view) => {
            assert_eq!(view.state, ListState::Fetch);
            assert_eq!(view.sort_by, TorrentSortingOptions::Name);
            assert!(view.reverse);
            assert_eq!(view.interval, Some(500));
            assert_eq!(view.refresh_counter, 0);
            assert_eq!(
                view.request.fields,
                vec![
                    ("sort".to_string(), "name".to_string()),
                    ("reverse".to_string(), "true".to_string()),
                    ("limit".to_string(), "3".to_string()),
                ]
            );
        }
        other => panic!("unexpected step {:?}", other),
    }
    let sorted = run(
        torrent(TorrentCommands::List {
            sort: Some(TorrentSortingOptions::Ratio),
            reverse: false,
            limit: None,
            interval: None,
        }),
        &mut config,
    );
    match sorted {
        Step::Watch(view) => {
            assert_eq!(view.sort_by, TorrentSortingOptions::Ratio);
            assert_eq!(view.request.fields, vec![("sort".to_string(), "ratio".to_string())]);
        }
        other => panic!("unexpected step {:?}", other),
    }
}

#[test]
fn delete_without_a_hash_sends_nothing() {
    let mut config = configured();
    assert_eq!(
        run(torrent(TorrentCommands::Delete { hashes: vec![], delete_files: true }), &mut config),
        failed(ErrorKind::InvalidInput, "At least one hash must be provided!")
    );
}

#[test]
fn delete_is_sent_only_when_confirmed() {
    let mut config = configured();
    let step = run(
        torrent(TorrentCommands::Delete {
            hashes: vec!["a".to_string(), "b".to_string()],
            delete_files: false,
        }),
        &mut config,
    );
    let (prompt, default, call, request) = match step {
        Step::Confirm { prompt, default, call, request } => (prompt, default, call, request),
        other => panic!("unexpected step {:?}", other),
    };
    assert_eq!(prompt, "You are about to delete 2 torrent(s). Are you sure? [y/N] ");
    assert_eq!(default, DefaultChoice::No);
    assert_eq!(call, Call::Delete { count: 2 });
    assert_eq!(request.url, "http://localhost:8080/api/v2/torrents/delete");
    assert_eq!(
        request.fields,
        vec![
            ("deleteFiles".to_string(), "false".to_string()),
            ("hashes".to_string(), "a|b".to_string()),
        ]
    );
    let again = || plain("http://localhost:8080/api/v2/torrents/delete", Expect::Nothing);
    assert_eq!(
        answer_given("", DefaultChoice::No, Call::Delete { count: 2 }, again()),
        said("Cancelled\n")
    );
    assert_eq!(
        answer_given("n", DefaultChoice::No, Call::Delete { count: 2 }, again()),
        said("Cancelled\n")
    );
    assert_eq!(
        answer_given("what", DefaultChoice::Yes, Call::Delete { count: 2 }, again()),
        said("Cancelled\n")
    );
    assert_eq!(
        answer_given("y", DefaultChoice::No, Call::Delete { count: 2 }, again()),
        Step::Send { call: Call::Delete { count: 2 }, request: again() }
    );
    assert_eq!(
        answer_given("", DefaultChoice::Yes, Call::Delete { count: 2 }, again()),
        Step::Send { call: Call::Delete { count: 2 }, request: again() }
    );
    assert_eq!(
        reply_given(Call::Delete { count: 2 }, answered(Body::Nothing), &mut config),
        said("Sent request to delete 2 torrent(s).\n")
    );
}

#[test]
fn add_command_tells_url_from_path() {
    let mut config = configured();
    let by_url = run(
        torrent(TorrentCommands::Add {
            url_or_path: "magnet:?xt=urn:btih:abc".to_string(),
            pause: false,
        }),
        &mut config,
    );
    match by_url {
        Step::Send { call, request } => {
            assert_eq!(call, Call::Add(AddSource::Url));
            assert_eq!(request.encoding, Encoding::Multipart);
            assert_eq!(request.file, None);
            assert_eq!(
                request.fields,
                vec![
                    ("urls".to_string(), "magnet:?xt=urn:btih:abc".to_string()),
                    ("paused".to_string(), "false".to_string()),
                ]
            );
        }
        other => panic!("unexpected step {:?}", other),
    }
    let by_path = run(
        torrent(TorrentCommands::Add { url_or_path: "a.torrent".to_string(), pause: true }),
        &mut config,
    );
    match by_path {
        Step::Send { call, request } => {
            assert_eq!(call, Call::Add(AddSource::File));
            assert_eq!(request.file, Some(("torrents".to_string(), "a.torrent".to_string())));
            assert_eq!(request.fields, vec![("paused".to_string(), "true".to_string())]);
        }
        other => panic!("unexpected step {:?}", other),
    }
    assert_eq!(
        reply_given(
            Call::Add(AddSource::File),
            Reply::Unsendable("a.torrent: No such file or directory".to_string()),
            &mut config
        ),
        failed(
            ErrorKind::InvalidInput,
            "Failed reading file: a.torrent: No such file or directory"
        )
    );
    assert_eq!(
        reply_given(Call::Add(AddSource::Url), answered(Body::Text("Ok.".to_string())), &mut config),
        said("Added url.\n")
    );
}

#[test]
fn commands_send_their_request() {
    let mut config = configured();
    let cases = vec![
        (
            torrent(TorrentCommands::Content { hash: "h".to_string() }),
            Call::Content,
            "http://localhost:8080/api/v2/torrents/files",
        ),
        (
            torrent(TorrentCommands::Pause { hash: "h".to_string() }),
            Call::Pause,
            "http://localhost:8080/api/v2/torrents/pause",
        ),
        (
            torrent(TorrentCommands::Resume { hash: "h".to_string() }),
            Call::Resume,
            "http://localhost:8080/api/v2/torrents/resume",
        ),
        (
            torrent(TorrentCommands::Recheck { hash: "h".to_string() }),
            Call::Recheck,
            "http://localhost:8080/api/v2/torrents/recheck",
        ),
        (
            torrent(TorrentCommands::Reannounce { hash: "h".to_string() }),
            Call::Reannounce,
            "http://localhost:8080/api/v2/torrents/reannounce",
        ),
        (global(GlobalCommands::Shutdown), Call::Shutdown, "http://localhost:8080/api/v2/app/shutdown"),
        (global(GlobalCommands::Version), Call::Version, "http://localhost:8080/api/v2/app/version"),
        (global(GlobalCommands::Log), Call::Logs, "http://localhost:8080/api/v2/log/main"),
        (
            global(GlobalCommands::AltSpeed { toggle: false }),
            Call::AltSpeed,
            "http://localhost:8080/api/v2/transfer/speedLimitsMode",
        ),
    ];
    for (args, expected, url) in cases {
        match run(args, &mut config) {
            Step::Send { call, request } => {
                assert_eq!(call, expected);
                assert_eq!(request.url, url);
                assert_eq!(request.cookie, Some("SID=abc;".to_string()));
            }
            other => panic!("unexpected step {:?}", other),
        }
    }
    assert_eq!(config, configured());
}

#[test]
fn toggle_switches_first_and_asks_then() {
    let mut config = configured();
    let ask = plain("http://localhost:8080/api/v2/transfer/speedLimitsMode", Expect::Text);
    let step = run(global(GlobalCommands::AltSpeed { toggle: true }), &mut config);
    assert_eq!(
        step,
        Step::Send {
            call: Call::ToggleAltSpeed {
                then: plain("http://localhost:8080/api/v2/transfer/speedLimitsMode", Expect::Text)
            },
            request: plain(
                "http://localhost:8080/api/v2/transfer/toggleSpeedLimitsMode",
                Expect::Nothing
            ),
        }
    );
    let next = reply_given(Call::ToggleAltSpeed { then: ask }, answered(Body::Nothing), &mut config);
    assert_eq!(
        next,
        Step::Send {
            call: Call::AltSpeedToggled,
            request: plain("http://localhost:8080/api/v2/transfer/speedLimitsMode", Expect::Text),
        }
    );
    assert_eq!(
        reply_given(Call::AltSpeedToggled, answered(Body::Text("1".to_string())), &mut config),
        said("Alternative speed limits toggled. They are now: Enabled\n")
    );
    assert_eq!(
        reply_given(Call::AltSpeed, answered(Body::Text("0".to_string())), &mut config),
        said("Alternative speed limits are currently: Disabled\n")
    );
}

#[test]
fn answers_end_the_commands() {
    let mut config = configured();
    assert_eq!(
        reply_given(Call::Pause, answered(Body::Nothing), &mut config),
        said("Sent request to pause torrent.\n")
    );
    assert_eq!(
        reply_given(Call::Resume, answered(Body::Nothing), &mut config),
        said("Sent request to resume torrent.\n")
    );
    assert_eq!(
        reply_given(Call::Recheck, answered(Body::Nothing), &mut config),
        said("Sent request to recheck torrent.\n")
    );
    assert_eq!(
        reply_given(Call::Reannounce, answered(Body::Nothing), &mut config),
        said("Sent request to reannounce torrent.\n")
    );
    assert_eq!(
        reply_given(Call::Shutdown, answered(Body::Nothing), &mut config),
        said("Sent request to shutdown the app.\n")
    );
    assert_eq!(
        reply_given(Call::Version, answered(Body::Text("v5".to_string())), &mut config),
        said("The qBittorrent app is running: v5\n")
    );
    assert_eq!(
        reply_given(Call::Logs, answered(Body::Logs(vec![])), &mut config),
        said("ID\tTYPE\tTIME\t\t\tMESSAGE\n\n")
    );
    assert_eq!(
        reply_given(Call::Content, answered(Body::Files(vec![])), &mut config),
        said("\n\nTorrent contains 0 files.\n")
    );
    assert_eq!(config, configured());
}

#[test]
fn rejected_cookie_is_fatal_for_every_call() {
    let calls = vec![
        Call::Login { url: "https://h/".to_string() },
        Call::Logout { url: "https://h/".to_string() },
        Call::Content,
        Call::Add(AddSource::Url),
        Call::Delete { count: 1 },
        Call::Pause,
        Call::Version,
        Call::Logs,
        Call::AltSpeed,
        Call::ToggleAltSpeed { then: plain("http://h/", Expect::Text) },
        Call::AltSpeedToggled,
    ];
    for call in calls {
        let mut config = configured();
        let step = reply_given(call, Reply::Answer { status: 403, body: None }, &mut config);
        match step {
            Step::Done(Err(f)) => {
                assert_eq!(f.kind, ErrorKind::SessionExpired);
                assert!(f.kind.is_fatal());
                assert_eq!(
                    f.message,
                    "Your cookie is expired. Run the auth add command again to renew it."
                );
            }
            other => panic!("unexpected step {:?}", other),
        }
        assert_eq!(config, configured());
    }
}

#[test]
fn other_failures_end_the_command_only() {
    let mut config = configured();
    assert_eq!(
        reply_given(Call::Pause, Reply::Unreachable("refused".to_string()), &mut config),
        failed(ErrorKind::Transport, "The request failed: refused")
    );
    assert_eq!(
        reply_given(Call::Version, Reply::Answer { status: 404, body: None }, &mut config),
        failed(ErrorKind::Transport, "The service answered with status 404")
    );
    assert_eq!(
        reply_given(Call::Version, Reply::Answer { status: 200, body: None }, &mut config),
        failed(ErrorKind::Decode, "The answer of the service could not be read.")
    );
    assert_eq!(
        reply_given(Call::Content, Reply::Answer { status: 200, body: None }, &mut config),
        failed(ErrorKind::Decode, "Request failed, make sure the hash is valid")
    );
    assert_eq!(
        reply_given(Call::Content, Reply::Answer { status: 404, body: None }, &mut config),
        failed(ErrorKind::Transport, "The service answered with status 404")
    );
    assert!(!ErrorKind::Transport.is_fatal());
    assert!(!ErrorKind::Decode.is_fatal());
    assert_eq!(config, configured());
}
