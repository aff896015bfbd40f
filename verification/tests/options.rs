use std::path::PathBuf;

use qmanager::cliopts::{ConfigValues, Opt, OptCommand, OptError, DEFAULT_PORT};
use qmanager::runner::AppKeys;

fn opt(cmd: OptCommand) -> Opt {
    Opt {
        ca: None,
        insecure: false,
        host: String::new(),
        port: 0,
        dump_json: false,
        loglevel: String::new(),
        config: PathBuf::from("/etc/qmanager.conf"),
        state_file: None,
        appkeys: AppKeys::new(),
        cmd,
    }
}

fn daemon() -> OptCommand {
    OptCommand::Daemon { foreground: false, cert: None, key: None, pidfile: None, notify_url: None }
}

fn conf() -> ConfigValues {
    ConfigValues {
        ca: None,
        insecure: None,
        port: None,
        host: None,
        dump_json: None,
        cert: None,
        key: None,
        pidfile: None,
        notify_url: None,
        state_file: None,
        appkeys: Vec::new(),
        loglevel: None,
    }
}

#[test]
fn defaults_fill_what_nobody_gives() {
    let mut o = opt(OptCommand::Status);
    o.merge_config(conf());
    assert_eq!(o.port, 1337);
    assert_eq!(DEFAULT_PORT, 1337);
    assert_eq!(o.host, "localhost");
    assert_eq!(o.loglevel, "Info");
    assert!(!o.insecure && !o.dump_json);
    assert!(o.ca.is_none());
}

#[test]
fn the_configuration_fills_what_the_command_line_left_open() {
    let mut o = opt(daemon());
    let mut c = conf();
    c.ca = Some(PathBuf::from("/ca.pem"));
    c.port = Some(8080);
    c.host = Some("queue.example".to_string());
    c.dump_json = Some(true);
    c.cert = Some(PathBuf::from("/cert.pem"));
    c.key = Some(PathBuf::from("/key.pem"));
    c.pidfile = Some(PathBuf::from("/run/q.pid"));
    c.notify_url = Some("http://n/".to_string());
    c.loglevel = Some("Debug".to_string());
    c.state_file = Some(PathBuf::from("/var/lib/q.json"));
    c.appkeys = vec![
        ("echo".to_string(), "/bin/echo".to_string()),
        ("echo".to_string(), "/usr/bin/echo".to_string()),
        ("sleep".to_string(), "/bin/sleep".to_string()),
    ];
    o.merge_config(c);
    assert_eq!(o.ca, Some(PathBuf::from("/ca.pem")));
    assert_eq!(o.port, 8080);
    assert_eq!(o.host, "queue.example");
    assert!(o.dump_json);
    assert_eq!(o.loglevel, "Debug");
    assert_eq!(o.state_file, Some(PathBuf::from("/var/lib/q.json")));
    assert_eq!(o.appkeys.get("echo").map(|s| s.as_str()), Some("/usr/bin/echo"));
    assert_eq!(o.appkeys.get("sleep").map(|s| s.as_str()), Some("/bin/sleep"));
    match o.cmd {
        OptCommand::Daemon { foreground, cert, key, pidfile, notify_url } => {
            assert!(!foreground);
            assert_eq!(cert, Some(PathBuf::from("/cert.pem")));
            assert_eq!(key, Some(PathBuf::from("/key.pem")));
            assert_eq!(pidfile, Some(PathBuf::from("/run/q.pid")));
            assert_eq!(notify_url, Some("http://n/".to_string()));
        }
        other => panic!("unexpected command {:?}", other),
    }
}

#[test]
fn the_command_line_stands_against_the_configuration() {
    let mut o = opt(OptCommand::Daemon {
        foreground: true,
        cert: Some(PathBuf::from("/mine.pem")),
        key: None,
        pidfile: None,
        notify_url: Some("http://mine/".to_string()),
    });
    o.ca = Some(PathBuf::from("/my-ca.pem"));
    o.port = 9;
    o.host = "h".to_string();
    o.loglevel = "Warn".to_string();
    o.dump_json = true;
    o.state_file = Some(PathBuf::from("/mine.json"));
    let mut c = conf();
    c.ca = Some(PathBuf::from("/ca.pem"));
    c.state_file = Some(PathBuf::from("/var/lib/q.json"));
    c.port = Some(8080);
    c.host = Some("queue.example".to_string());
    c.dump_json = Some(false);
    c.cert = Some(PathBuf::from("/cert.pem"));
    c.key = Some(PathBuf::from("/key.pem"));
    c.notify_url = Some("http://n/".to_string());
    c.loglevel = Some("Debug".to_string());
    o.merge_config(c);
    assert_eq!(o.ca, Some(PathBuf::from("/my-ca.pem")));
    assert_eq!(o.port, 9);
    assert_eq!(o.host, "h");
    assert_eq!(o.loglevel, "Warn");
    assert!(o.dump_json);
    assert_eq!(o.state_file, Some(PathBuf::from("/mine.json")));
    match o.cmd {
        OptCommand::Daemon { foreground, cert, key, pidfile, notify_url } => {
            assert!(foreground);
            assert_eq!(cert, Some(PathBuf::from("/mine.pem")));
            assert_eq!(key, Some(PathBuf::from("/key.pem")));
            assert_eq!(pidfile, None);
            assert_eq!(notify_url, Some("http://mine/".to_string()));
        }
        other => panic!("unexpected command {:?}", other),
    }
}

#[test]
fn an_insecure_command_line_reads_no_authority() {
    let mut o = opt(OptCommand::Status);
    o.insecure = true;
    let mut c = conf();
    c.ca = Some(PathBuf::from("/ca.pem"));
    c.insecure = Some(false);
    o.merge_config(c);
    assert!(o.insecure);
    assert!(o.ca.is_none());
    let mut o = opt(OptCommand::Status);
    let mut c = conf();
    c.ca = Some(PathBuf::from("/ca.pem"));
    c.insecure = Some(true);
    o.merge_config(c);
    assert!(o.insecure);
    assert_eq!(o.ca, Some(PathBuf::from("/ca.pem")));
}

#[test]
fn a_configured_port_is_cut_to_sixteen_bits() {
    for (given, expected) in [(65535i64, 65535u16), (65536, 0), (70000, 4464), (-1, 65535), (1337, 1337)] {
        let mut o = opt(OptCommand::Status);
        let mut c = conf();
        c.port = Some(given);
        o.merge_config(c);
        assert_eq!(o.port, expected);
    }
}

#[test]
fn options_that_make_no_sense_are_told_apart() {
    let mut o = opt(OptCommand::Status);
    assert_eq!(o.verify(), Err(OptError::NeitherCaNorInsecure));
    o.ca = Some(PathBuf::from("/ca.pem"));
    assert_eq!(o.verify(), Ok(()));
    o.insecure = true;
    assert_eq!(o.verify(), Err(OptError::InsecureWithCa));
    o.ca = None;
    assert_eq!(o.verify(), Ok(()));

    let mut d = opt(daemon());
    d.insecure = true;
    assert_eq!(d.verify(), Ok(()));
    d.cmd = OptCommand::Daemon {
        foreground: false,
        cert: None,
        key: Some(PathBuf::from("/k")),
        pidfile: None,
        notify_url: None,
    };
    assert_eq!(d.verify(), Err(OptError::InsecureWithCert));
    d.insecure = false;
    d.ca = Some(PathBuf::from("/ca.pem"));
    assert_eq!(d.verify(), Err(OptError::DaemonWithoutCert));
    d.cmd = OptCommand::Daemon {
        foreground: false,
        cert: Some(PathBuf::from("/c")),
        key: Some(PathBuf::from("/k")),
        pidfile: None,
        notify_url: None,
    };
    assert_eq!(d.verify(), Ok(()));
}

#[test]
fn each_error_has_its_message() {
    assert_eq!(OptError::InsecureWithCa.message(), "You cannot specify both --insecure and --ca!");
    assert_eq!(
        OptError::InsecureWithCert.message(),
        "You cannot specify --insecure in combination with --cert and --key!"
    );
    assert_eq!(
        OptError::NeitherCaNorInsecure.message(),
        "You need to specify either --ca or --insecure!"
    );
    assert_eq!(
        OptError::DaemonWithoutCert.message(),
        "You cannot use daemon mode without specifying both --cert and --key!"
    );
}
