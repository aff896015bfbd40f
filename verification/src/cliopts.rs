//! The options of the program: what the command line gives, what the
//! configuration file adds, and which combinations make sense.

use std::path::PathBuf;
use vstd::prelude::*;

use crate::runner::entries_of;
use crate::runner::with_entries;
use crate::runner::AppKeys;

verus! {

/// The port that is used when neither the command line nor the
/// configuration names one.
pub const DEFAULT_PORT: u16 = 1337;

/// The host that clients connect to when they are told no other.
pub open spec fn default_host() -> Seq<char> {
    "localhost"@
}

/// The log level that is used when none is given.
pub open spec fn default_loglevel() -> Seq<char> {
    "Info"@
}

/// What the program is asked to do.
#[derive(Debug)]
pub enum OptCommand {
    /// Start the daemon.
    Daemon {
        /// Stay in the foreground; the pidfile is then ignored.
        foreground: bool,
        /// The certificate file for TLS.
        cert: Option<PathBuf>,
        /// The key of the certificate.
        key: Option<PathBuf>,
        /// Where the process id is noted.
        pidfile: Option<PathBuf>,
        /// The address that is told of every job that has ended.
        notify_url: Option<String>,
    },
    /// Show the state of the queue and its jobs.
    Status,
    /// Let the queue run.
    Start,
    /// Let the queue stop after its job.
    Stop,
    /// Submit a job to the queue.
    Submit { cmdline: String },
    /// Remove a job from the queue.
    Remove { job_id: u64 },
    /// Ask a running job to terminate.
    Kill { job_id: u64 },
}

/// The text of `o`, if there is one.
pub open spec fn text_of(o: Option<String>) -> Option<Seq<char>> {
    match o {
        Some(s) => Some(s@),
        None => None,
    }
}

/// A command as the contracts see it.
pub enum OptCommandView {
    Daemon {
        foreground: bool,
        cert: Option<PathBuf>,
        key: Option<PathBuf>,
        pidfile: Option<PathBuf>,
        notify_url: Option<Seq<char>>,
    },
    Status,
    Start,
    Stop,
    Submit { cmdline: Seq<char> },
    Remove { job_id: u64 },
    Kill { job_id: u64 },
}

impl View for OptCommand {
    type V = OptCommandView;

    open spec fn view(&self) -> OptCommandView {
        match self {
            OptCommand::Daemon { foreground, cert, key, pidfile, notify_url } => OptCommandView::Daemon {
                foreground: *foreground,
                cert: *cert,
                key: *key,
                pidfile: *pidfile,
                notify_url: text_of(*notify_url),
            },
            OptCommand::Status => OptCommandView::Status,
            OptCommand::Start => OptCommandView::Start,
            OptCommand::Stop => OptCommandView::Stop,
            OptCommand::Submit { cmdline } => OptCommandView::Submit { cmdline: cmdline@ },
            OptCommand::Remove { job_id } => OptCommandView::Remove { job_id: *job_id },
            OptCommand::Kill { job_id } => OptCommandView::Kill { job_id: *job_id },
        }
    }
}

/// The options of the program.
pub struct Opt {
    /// The certificate of the authority that signed the daemon's.
    pub ca: Option<PathBuf>,
    /// Use plain TCP instead of TLS.
    pub insecure: bool,
    /// For clients, the host to connect to; empty if none was given.
    pub host: String,
    /// The port to connect to or to listen on; zero if none was given.
    pub port: u16,
    /// Dump requests and responses.
    pub dump_json: bool,
    /// The log level; empty if none was given.
    pub loglevel: String,
    /// The configuration file.
    pub config: PathBuf,
    /// The file in which the daemon stores the queue.
    pub state_file: Option<PathBuf>,
    /// The executables that jobs may run.
    pub appkeys: AppKeys,
    /// What the program is asked to do.
    pub cmd: OptCommand,
}

/// The options as the contracts see them.
pub struct OptView {
    pub ca: Option<PathBuf>,
    pub insecure: bool,
    pub host: Seq<char>,
    pub port: u16,
    pub dump_json: bool,
    pub loglevel: Seq<char>,
    pub config: PathBuf,
    pub state_file: Option<PathBuf>,
    pub appkeys: Map<Seq<char>, Seq<char>>,
    pub cmd: OptCommandView,
}

impl View for Opt {
    type V = OptView;

    open spec fn view(&self) -> OptView {
        OptView {
            ca: self.ca,
            insecure: self.insecure,
            host: self.host@,
            port: self.port,
            dump_json: self.dump_json,
            loglevel: self.loglevel@,
            config: self.config,
            state_file: self.state_file,
            appkeys: self.appkeys@,
            cmd: self.cmd@,
        }
    }
}

/// What the configuration file holds of the settings that the program
/// reads from it.
pub struct ConfigValues {
    pub ca: Option<PathBuf>,
    pub insecure: Option<bool>,
    pub port: Option<i64>,
    pub host: Option<String>,
    pub dump_json: Option<bool>,
    pub cert: Option<PathBuf>,
    pub key: Option<PathBuf>,
    pub pidfile: Option<PathBuf>,
    pub notify_url: Option<String>,
    pub state_file: Option<PathBuf>,
    /// The appkeys with their executables, in the order in which they are
    /// to be entered.
    pub appkeys: Vec<(String, String)>,
    pub loglevel: Option<String>,
}

/// `given`, or `other` where nothing was given.
pub open spec fn or_else<T>(given: Option<T>, other: Option<T>) -> Option<T> {
    if given is Some {
        given
    } else {
        other
    }
}

/// The command after the configuration filled in what the command line
/// left open: only the daemon reads settings of its own.
pub open spec fn merged_command(cmd: OptCommandView, conf: ConfigValues) -> OptCommandView {
    match cmd {
        OptCommandView::Daemon { foreground, cert, key, pidfile, notify_url } => OptCommandView::Daemon {
            foreground,
            cert: or_else(cert, conf.cert),
            key: or_else(key, conf.key),
            pidfile: or_else(pidfile, conf.pidfile),
            notify_url: or_else(notify_url, text_of(conf.notify_url)),
        },
        other => other,
    }
}

/// The port after the merge: the one of the command line unless it is
/// zero; else that of the configuration, cut to 16 bits, or the default.
pub open spec fn merged_port(port: u16, conf: Option<i64>) -> u16 {
    if port != 0 {
        port
    } else {
        match conf {
            Some(p) => p as u16,
            None => DEFAULT_PORT,
        }
    }
}

/// The options after the configuration filled in what the command line
/// left open. What the command line gives stands; the appkeys of the
/// configuration are added to those that are there.
pub open spec fn merged(opt: OptView, conf: ConfigValues) -> OptView {
    OptView {
        ca: if opt.insecure {
            opt.ca
        } else {
            or_else(opt.ca, conf.ca)
        },
        insecure: opt.insecure || conf.insecure == Some(true),
        host: if opt.host.len() == 0 {
            match conf.host {
                Some(h) => h@,
                None => default_host(),
            }
        } else {
            opt.host
        },
        port: merged_port(opt.port, conf.port),
        dump_json: opt.dump_json || conf.dump_json == Some(true),
        loglevel: if opt.loglevel.len() == 0 {
            match conf.loglevel {
                Some(l) => l@,
                None => default_loglevel(),
            }
        } else {
            opt.loglevel
        },
        config: opt.config,
        state_file: or_else(opt.state_file, conf.state_file),
        appkeys: with_entries(opt.appkeys, entries_of(conf.appkeys@)),
        cmd: merged_command(opt.cmd, conf),
    }
}

/// Why a combination of options makes no sense.
#[derive(Debug, PartialEq, Eq, Clone, Copy, Structural)]
pub enum OptError {
    /// Both plain TCP and a certificate authority were asked for.
    InsecureWithCa,
    /// The daemon was asked for plain TCP and given a certificate or a key.
    InsecureWithCert,
    /// Neither plain TCP nor a certificate authority was asked for.
    NeitherCaNorInsecure,
    /// The daemon was not given both a certificate and a key.
    DaemonWithoutCert,
}

/// What is wrong with the options, if anything is.
pub open spec fn verdict(opt: OptView) -> Result<(), OptError> {
    if opt.insecure {
        if opt.ca is Some {
            Err(OptError::InsecureWithCa)
        } else if opt.cmd matches OptCommandView::Daemon { cert, key, .. } && (cert is Some || key is Some) {
            Err(OptError::InsecureWithCert)
        } else {
            Ok(())
        }
    } else {
        if opt.ca is None {
            Err(OptError::NeitherCaNorInsecure)
        } else if opt.cmd matches OptCommandView::Daemon { cert, key, .. } && (cert is None || key is None) {
            Err(OptError::DaemonWithoutCert)
        } else {
            Ok(())
        }
    }
}

impl OptError {
    /// What the user is told of the error.
    pub open spec fn text(self) -> Seq<char> {
        match self {
            OptError::InsecureWithCa => "You cannot specify both --insecure and --ca!"@,
            OptError::InsecureWithCert => "You cannot specify --insecure in combination with --cert and --key!"@,
            OptError::NeitherCaNorInsecure => "You need to specify either --ca or --insecure!"@,
            OptError::DaemonWithoutCert => "You cannot use daemon mode without specifying both --cert and --key!"@,
        }
    }

    /// Says what the user is told of the error.
    pub fn message(&self) -> (res: String)
        ensures
            res@ == self.text(),
    {
        match self {
            OptError::InsecureWithCa => "You cannot specify both --insecure and --ca!".to_owned(),
            OptError::InsecureWithCert => "You cannot specify --insecure in combination with --cert and --key!".to_owned(),
            OptError::NeitherCaNorInsecure => "You need to specify either --ca or --insecure!".to_owned(),
            OptError::DaemonWithoutCert => "You cannot use daemon mode without specifying both --cert and --key!".to_owned(),
        }
    }
}

impl Opt {
    /// Fills in from the configuration what the command line left open.
    pub fn merge_config(&mut self, conf: ConfigValues)
        ensures
            final(self)@ == merged(old(self)@, conf),
    {
        let ConfigValues {
            ca,
            insecure,
            port,
            host,
            dump_json,
            cert,
            key,
            pidfile,
            notify_url,
            state_file,
            appkeys,
            loglevel,
        } = conf;
        if !self.insecure {
            if self.ca.is_none() {
                self.ca = ca;
            }
            if let Some(true) = insecure {
                self.insecure = true;
            }
        }
        if self.port == 0 {
            self.port = match port {
                Some(p) => #[verifier::truncate] (p as u16),
                None => DEFAULT_PORT,
            };
        }
        if self.host.as_str().unicode_len() == 0 {
            self.host = match host {
                Some(h) => h,
                None => "localhost".to_owned(),
            };
        }
        if !self.dump_json {
            if let Some(true) = dump_json {
                self.dump_json = true;
            }
        }
        match &mut self.cmd {
            OptCommand::Daemon { cert: own_cert, key: own_key, pidfile: own_pidfile, notify_url: own_url, .. } => {
                if own_cert.is_none() {
                    *own_cert = cert;
                }
                if own_key.is_none() {
                    *own_key = key;
                }
                if own_pidfile.is_none() {
                    *own_pidfile = pidfile;
                }
                if own_url.is_none() {
                    *own_url = notify_url;
                }
            },
            _ => {},
        }
        if self.state_file.is_none() {
            self.state_file = state_file;
        }
        self.appkeys.extend(&appkeys);
        if self.loglevel.as_str().unicode_len() == 0 {
            self.loglevel = match loglevel {
                Some(l) => l,
                None => "Info".to_owned(),
            };
        }
    }

    /// Checks that the options make sense together.
    pub fn verify(&self) -> (res: Result<(), OptError>)
        ensures
            res == verdict(self@),
    {
        if self.insecure {
            if self.ca.is_some() {
                return Err(OptError::InsecureWithCa);
            }
            if let OptCommand::Daemon { cert, key, .. } = &self.cmd {
                if cert.is_some() || key.is_some() {
                    return Err(OptError::InsecureWithCert);
                }
            }
        } else {
            if self.ca.is_none() {
                return Err(OptError::NeitherCaNorInsecure);
            }
            if let OptCommand::Daemon { cert, key, .. } = &self.cmd {
                if cert.is_none() || key.is_none() {
                    return Err(OptError::DaemonWithoutCert);
                }
            }
        }
        Ok(())
    }
}

} // verus!
