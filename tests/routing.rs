use provider::{
    channel_command, endpoint_of, origin_of, ChannelCommand, ChannelSet, Endpoint, Origin,
    RouteError,
};

#[test]
fn channels_open_and_close() {
    let mut c = ChannelSet::new();
    assert!(!c.contains(3));
    c.open(3);
    c.open(4);
    c.open(3);
    assert!(c.contains(3));
    assert_eq!(c.ids().len(), 2);
    assert_eq!(c.check(4), Ok(()));
    assert!(c.close(3));
    assert!(!c.close(3));
    assert_eq!(c.check(3), Err(RouteError::UnknownChannel(3)));
    assert_eq!(c.ids(), vec![4]);
}

#[test]
fn origin_by_process() {
    assert_eq!(origin_of(&"http_server:distro:sys".to_string()), Origin::HttpServer);
    assert_eq!(origin_of(&"coordinator:coordinator:haeceity.os".to_string()), Origin::Coordinator);
}

#[test]
fn endpoints() {
    assert_eq!(endpoint_of(&"/register_provider".to_string()), Ok(Endpoint::RegisterProvider));
    assert_eq!(endpoint_of(&"/coordinators".to_string()), Ok(Endpoint::Coordinators));
    assert_eq!(endpoint_of(&"/nope".to_string()), Err(RouteError::UnroutableMessage));
}

#[test]
fn channel_tags() {
    assert_eq!(channel_command(&"work_result".to_string()), ChannelCommand::WorkResult);
    assert_eq!(channel_command(&"work_failed".to_string()), ChannelCommand::WorkFailed);
    assert_eq!(channel_command(&"still_bound".to_string()), ChannelCommand::StillBound);
    assert_eq!(channel_command(&"go_offline".to_string()), ChannelCommand::GoOffline);
    assert_eq!(channel_command(&"progress_update".to_string()), ChannelCommand::ProgressUpdate);
    assert_eq!(channel_command(&"dance".to_string()), ChannelCommand::Unknown);
}
