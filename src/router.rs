use vstd::prelude::*;
use crate::types::RouteError;

verus! {

/// Where an inbound message comes from.
#[derive(Debug, Clone, Copy, PartialEq, Eq)]
pub enum Origin {
    /// The local HTTP server: control requests and channel traffic.
    HttpServer,
    /// Anything else is taken to be the coordinator.
    Coordinator,
}

/// The control endpoints that the provider serves.
#[derive(Debug, Clone, Copy, PartialEq, Eq)]
pub enum Endpoint {
    RegisterProvider,
    Coordinators,
}

/// What an execution channel asks for, by the tag of its message.
#[derive(Debug, Clone, Copy, PartialEq, Eq)]
pub enum ChannelCommand {
    WorkResult,
    WorkFailed,
    StillBound,
    GoOffline,
    ProgressUpdate,
    /// A tag that no handler takes: logged and ignored.
    Unknown,
}

pub open spec fn http_server_process() -> Seq<char> {
    "http_server:distro:sys"@
}

/// Classifies a message by the process that sent it.
pub fn origin_of(process: &String) -> (r: Origin)
    ensures
        r == Origin::HttpServer <==> process@ == http_server_process(),
{
    let server: String = "http_server:distro:sys".to_owned();
    proof {
        reveal_strlit("http_server:distro:sys");
    }
    if *process == server {
        Origin::HttpServer
    } else {
        Origin::Coordinator
    }
}

/// The endpoint that a control request addresses; any other path is unroutable.
pub fn endpoint_of(path: &String) -> (r: Result<Endpoint, RouteError>)
    ensures
        path@ == "/register_provider"@ <==> r == Ok::<_, RouteError>(Endpoint::RegisterProvider),
        path@ == "/coordinators"@ <==> r == Ok::<_, RouteError>(Endpoint::Coordinators),
        r is Err ==> r == Err::<Endpoint, _>(RouteError::UnroutableMessage),
{
    let register: String = "/register_provider".to_owned();
    let list: String = "/coordinators".to_owned();
    proof {
        reveal_strlit("/register_provider");
        reveal_strlit("/coordinators");
        assert("/register_provider"@[1] != "/coordinators"@[1]);
    }
    if *path == register {
        Ok(Endpoint::RegisterProvider)
    } else if *path == list {
        Ok(Endpoint::Coordinators)
    } else {
        Err(RouteError::UnroutableMessage)
    }
}

/// The command that a channel message's tag names.
pub fn channel_command(tag: &String) -> (r: ChannelCommand)
    ensures
        tag@ == "work_result"@ <==> r == ChannelCommand::WorkResult,
        tag@ == "work_failed"@ <==> r == ChannelCommand::WorkFailed,
        tag@ == "still_bound"@ <==> r == ChannelCommand::StillBound,
        tag@ == "go_offline"@ <==> r == ChannelCommand::GoOffline,
        tag@ == "progress_update"@ <==> r == ChannelCommand::ProgressUpdate,
{
    let work_result: String = "work_result".to_owned();
    let work_failed: String = "work_failed".to_owned();
    let still_bound: String = "still_bound".to_owned();
    let go_offline: String = "go_offline".to_owned();
    let progress_update: String = "progress_update".to_owned();
    proof {
        reveal_strlit("work_result");
        reveal_strlit("work_failed");
        reveal_strlit("still_bound");
        reveal_strlit("go_offline");
        reveal_strlit("progress_update");
        assert("work_result"@[5] != "work_failed"@[5]);
        assert("work_result"@[0] != "still_bound"@[0]);
        assert("work_result"@[0] != "go_offline"@[0]);
        assert("work_result"@[0] != "progress_update"@[0]);
        assert("work_failed"@[0] != "still_bound"@[0]);
        assert("work_failed"@[0] != "go_offline"@[0]);
        assert("work_failed"@[0] != "progress_update"@[0]);
        assert("still_bound"@[0] != "go_offline"@[0]);
        assert("still_bound"@[0] != "progress_update"@[0]);
        assert("go_offline"@[0] != "progress_update"@[0]);
    }
    if *tag == work_result {
        ChannelCommand::WorkResult
    } else if *tag == work_failed {
        ChannelCommand::WorkFailed
    } else if *tag == still_bound {
        ChannelCommand::StillBound
    } else if *tag == go_offline {
        ChannelCommand::GoOffline
    } else if *tag == progress_update {
        ChannelCommand::ProgressUpdate
    } else {
        ChannelCommand::Unknown
    }
}

} // verus!
