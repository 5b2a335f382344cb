//! The command line, once parsed, and what the program starts with.

use crate::aliyun_cli::{AliyunCli, AliyunCliView};
use crate::ping::{
    kick_ping, kick_ping_of, udp_scheme, url_parts, PingError, PingTarget, PingTargetView,
};
use crate::reconcile::{Target, TargetView};
use vstd::prelude::*;

verus! {

/// The values of the command-line options.
#[derive(Debug, PartialEq, Eq)]
pub struct CmdArgs {
    /// Path of the provider's command-line tool.
    pub cli: String,
    /// The provider's region.
    pub region: String,
    /// The DNS zone.
    pub domain: String,
    /// The host prefix of the record to keep current.
    pub rr: String,
    /// The keepalive target, written as a URL.
    pub ping: Option<String>,
}

/// The mathematical content of a [`CmdArgs`].
pub struct CmdArgsView {
    pub cli: Seq<char>,
    pub region: Seq<char>,
    pub domain: Seq<char>,
    pub rr: Seq<char>,
    pub ping: Option<Seq<char>>,
}

impl View for CmdArgs {
    type V = CmdArgsView;

    open spec fn view(&self) -> CmdArgsView {
        CmdArgsView {
            cli: self.cli@,
            region: self.region@,
            domain: self.domain@,
            rr: self.rr@,
            ping: self.ping.deep_view(),
        }
    }
}

impl Clone for CmdArgs {
    fn clone(&self) -> (copy: Self)
        ensures
            copy@ == self@,
    {
        CmdArgs {
            cli: self.cli.clone(),
            region: self.region.clone(),
            domain: self.domain.clone(),
            rr: self.rr.clone(),
            ping: match &self.ping {
                Some(ping) => Some(ping.clone()),
                None => None,
            },
        }
    }
}

/// What the program runs with once its options are accepted.
#[derive(Debug)]
pub struct Startup {
    /// The keepalive to run beside the update loop, if any.
    pub ping: Option<PingTarget>,
    /// The provider client of the update loop.
    pub cli: AliyunCli,
    /// The record the update loop keeps current.
    pub target: Target,
}

/// The mathematical content of a [`Startup`].
pub struct StartupView {
    pub ping: Option<PingTargetView>,
    pub cli: AliyunCliView,
    pub target: TargetView,
}

impl View for Startup {
    type V = StartupView;

    open spec fn view(&self) -> StartupView {
        StartupView {
            ping: ping_view(self.ping),
            cli: self.cli@,
            target: self.target@,
        }
    }
}

/// The view of an optional ping target.
pub open spec fn ping_view(ping: Option<PingTarget>) -> Option<PingTargetView> {
    match ping {
        Some(target) => Some(target@),
        None => None,
    }
}

/// What the program runs with, given its options and the keepalive read
/// from them.
pub open spec fn startup_of(args: CmdArgsView, ping: Option<PingTargetView>) -> StartupView {
    StartupView {
        ping,
        cli: AliyunCliView { cli_path: args.cli, region: args.region },
        target: TargetView { domain: args.domain, rr: args.rr },
    }
}

/// What the options give: a failure where the ping target is rejected,
/// and otherwise what the program runs with.
pub open spec fn run_me_of(args: CmdArgsView) -> Result<StartupView, PingError> {
    match args.ping {
        None => Ok(startup_of(args, None)),
        Some(text) => match kick_ping_of(url_parts(text)) {
            Ok(target) => Ok(startup_of(args, Some(target))),
            Err(e) => Err(e),
        },
    }
}

/// The view of a result that holds what the program runs with.
pub open spec fn startup_result_view(r: Result<Startup, PingError>) -> Result<
    StartupView,
    PingError,
> {
    match r {
        Ok(startup) => Ok(startup@),
        Err(e) => Err(e),
    }
}

/// Puts together what the program runs with.
pub fn startup(args: CmdArgs, ping: Option<PingTarget>) -> (r: Startup)
    ensures
        r@ == startup_of(args@, ping_view(ping)),
{
    Startup {
        ping,
        cli: AliyunCli::new(args.cli, args.region),
        target: Target { domain: args.domain, rr: args.rr },
    }
}

/// Checks the options before anything is started.
///
/// A ping target that is given and rejected fails the start; nothing else
/// does.
pub fn run_me(args: CmdArgs) -> (r: Result<Startup, PingError>)
    ensures
        startup_result_view(r) == run_me_of(args@),
{
    let ping = match &args.ping {
        Some(text) => match kick_ping(text.as_str()) {
            Ok(target) => Some(target),
            Err(e) => {
                return Err(e);
            },
        },
        None => None,
    };
    Ok(startup(args, ping))
}

/// A ping target with any scheme but `udp` fails the start, and so does any
/// other rejected ping target: the start then gives nothing to run with.
pub proof fn rejected_ping_fails_the_start(args: CmdArgsView)
    requires
        args.ping is Some,
    ensures
        kick_ping_of(url_parts(args.ping->0)) matches Err(e) ==> run_me_of(args) == Err::<
            StartupView,
            _,
        >(e),
        url_parts(args.ping->0) matches Some(parts) && parts.scheme != udp_scheme() ==> run_me_of(
            args,
        ) == Err::<StartupView, _>(PingError::UnsupportedScheme),
{
}

/// Without a ping target the start cannot fail.
pub proof fn start_without_ping_succeeds(args: CmdArgsView)
    requires
        args.ping is None,
    ensures
        run_me_of(args) == Ok::<_, PingError>(startup_of(args, None)),
{
}

} // verus!
