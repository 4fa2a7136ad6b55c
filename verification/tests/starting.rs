use realm_control::startup::{
    from_cmd, from_env, start_from_conf, CmdInput, ConfStep, EnvConf, Features, FullConf,
    ReloadCtx, StartStep, Startup,
};

type Start = Startup<&'static str, &'static str, u8>;

fn features(transport: bool) -> Features {
    Features { multi_thread: true, transport, unix: true }
}

#[test]
fn the_environment_goes_first() {
    let start: Option<Start> = from_env(EnvConf::Parsed("conf"));
    assert_eq!(start, Some(Startup::Ready("conf")));
    let start = start.unwrap();
    assert_eq!(start.conf_steps(), vec![]);
    assert_eq!(start.into_reload(), None);
}

#[test]
fn a_missing_or_malformed_environment_is_passed_over() {
    let unset: Option<Start> = from_env(EnvConf::Unset);
    let malformed: Option<Start> = from_env(EnvConf::Malformed);
    assert_eq!(unset, None);
    assert_eq!(malformed, None);
}

#[test]
fn one_endpoint_of_the_command_line() {
    let start: Start = from_cmd(CmdInput::Endpoint("endpoint", 1));
    assert_eq!(
        start.conf_steps(),
        vec![
            ConfStep::Default,
            ConfStep::AddEndpoint(&"endpoint"),
            ConfStep::ApplyGlobalOpts,
            ConfStep::ApplyCmdOpts(&1),
        ]
    );
    assert_eq!(start.into_reload(), None);
}

#[test]
fn a_file_is_read_the_same_way_again() {
    let start: Start = from_cmd(CmdInput::Config(String::from("realm.toml"), 2));
    let path = String::from("realm.toml");
    let steps = vec![
        ConfStep::ReadFile(&path),
        ConfStep::ApplyGlobalOpts,
        ConfStep::ApplyCmdOpts(&2),
    ];
    assert_eq!(start.conf_steps(), steps);
    let ctx = start.into_reload().unwrap();
    assert_eq!(ctx, ReloadCtx { path: path.clone(), opts: 2 });
    assert_eq!(ctx.reload(), steps);
}

#[test]
fn nothing_to_run_exits_well() {
    let start: Start = from_cmd(CmdInput::Nothing);
    assert_eq!(start, Startup::Exit { code: 0 });
}

#[test]
fn logging_comes_first_and_the_relays_last() {
    let full = || FullConf { log: "log", dns: "dns", endpoints: vec![1, 2] };
    assert_eq!(
        start_from_conf::<_, _, _, u8>(full(), None, features(false)),
        vec![
            StartStep::SetupLog("log"),
            StartStep::SetupDns("dns"),
            StartStep::Supervise { endpoints: vec![1, 2], reload: None },
        ]
    );
    assert_eq!(
        start_from_conf::<_, _, _, u8>(full(), None, features(true)),
        vec![
            StartStep::SetupLog("log"),
            StartStep::SetupDns("dns"),
            StartStep::InstallTls,
            StartStep::Supervise { endpoints: vec![1, 2], reload: None },
        ]
    );
}

#[test]
fn the_reload_context_reaches_the_relays() {
    let start: Start = from_cmd(CmdInput::Config(String::from("realm.toml"), 2));
    let full = FullConf { log: "log", dns: "dns", endpoints: vec![1] };
    let steps = start_from_conf(full, start.into_reload(), features(false));
    assert_eq!(
        steps.last(),
        Some(&StartStep::Supervise {
            endpoints: vec![1],
            reload: Some(ReloadCtx { path: String::from("realm.toml"), opts: 2 }),
        })
    );
}
