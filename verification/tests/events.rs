use ts3::event::{ClientEnterView, Event, ReasonId, TextMessage};
use ts3::shared::{ChannelGroupId, ChannelId, ClientDatabaseId, ClientId, ServerGroupId};
use ts3::{Decode, DecodeError, Error, ErrorKind, IntErrorKind};

#[test]
fn reason_id_is_read_from_its_number() {
    assert_eq!(ReasonId::decode(b"0").unwrap(), ReasonId::SwitchChannel);
    assert_eq!(ReasonId::decode(b"1").unwrap(), ReasonId::Moved);
    assert_eq!(ReasonId::decode(b"2").unwrap(), ReasonId::Timeout);
    assert_eq!(ReasonId::decode(b"3").unwrap(), ReasonId::ChannelKick);
    assert_eq!(ReasonId::decode(b"4").unwrap(), ReasonId::ServerKick);
    assert_eq!(ReasonId::decode(b"5").unwrap(), ReasonId::Ban);
    assert_eq!(ReasonId::decode(b"6").unwrap(), ReasonId::ServerLeave);
    assert_eq!(ReasonId::decode(b"7").unwrap(), ReasonId::Edited);
    assert_eq!(ReasonId::decode(b"8").unwrap(), ReasonId::ServerShutdown);
    assert_eq!(ReasonId::decode(b"+08").unwrap(), ReasonId::ServerShutdown);
    assert_eq!(ReasonId::default(), ReasonId::SwitchChannel);
}

#[test]
fn reason_id_fails_on_a_number_without_reason() {
    match ReasonId::decode(b"9") {
        Err(Error(ErrorKind::Decode(DecodeError::InvalidReasonId(n)))) => assert_eq!(n, 9),
        other => panic!("{:?}", other),
    }
    match ReasonId::decode(b"255") {
        Err(Error(ErrorKind::Decode(DecodeError::InvalidReasonId(n)))) => assert_eq!(n, 255),
        other => panic!("{:?}", other),
    }
    assert!(matches!(
        ReasonId::decode(b"256"),
        Err(Error(ErrorKind::ParseInt(IntErrorKind::PosOverflow)))
    ));
}

#[test]
fn text_message_event_is_read() {
    let line = b"notifytextmessage targetmode=1 msg=Hello\\sWorld! target=3 invokerid=7 \
invokername=Some\\pOne invokeruid=abc=";
    match Event::from_line(line) {
        Some(Ok(Event::TextMessage(TextMessage {
            targetmode,
            msg,
            target,
            invokerid,
            invokername,
            invokeruid,
        }))) => {
            assert_eq!(targetmode, 1);
            assert_eq!(msg, "Hello World!");
            assert_eq!(target, ClientId(3));
            assert_eq!(invokerid, ClientId(7));
            assert_eq!(invokername, "Some|One");
            assert_eq!(invokeruid, "abc=");
        }
        other => panic!("{:?}", other),
    }
}

#[test]
fn client_enter_view_event_is_read() {
    let line = b"notifycliententerview cfid=0 ctid=1 reasonid=0 clid=5 \
client_unique_identifier=uid= client_nickname=Nick client_input_muted=1 client_output_muted=0 \
client_outputonly_muted=1 client_input_hardware=1 client_output_hardware=2 client_meta_data \
client_is_recording=1 client_database_id=9 client_channel_group_id=8 client_servergroups=6,7,12 \
client_away=0 client_away_message client_type=1 client_flag_avatar client_talk_power=75 \
client_talk_request=1 client_talk_request_msg client_description=A\\sB client_is_talker=1 \
client_nickname_phoentic=nik client_needed_serverquey_view_power=3 client_icon_id=4 \
client_country=DE client_channel_group_inherited_channel_id=1 client_badges=Overwolf=0";
    let event: ClientEnterView = match Event::from_line(line) {
        Some(Ok(Event::ClientEnterView(event))) => event,
        other => panic!("{:?}", other),
    };
    assert_eq!(event.cfid, ChannelId(0));
    assert_eq!(event.ctid, ChannelId(1));
    assert_eq!(event.reasonid, ReasonId::SwitchChannel);
    assert_eq!(event.clid, ClientId(5));
    assert_eq!(event.client_unique_identifier, "uid=");
    assert_eq!(event.client_nickname, "Nick");
    assert_eq!(event.client_input_muted, false);
    assert_eq!(event.client_output_muted, true);
    assert_eq!(event.client_outputonly_muted, false);
    assert_eq!(event.client_input_hardware, 1);
    assert_eq!(event.client_output_hardware, 2);
    assert_eq!(event.client_is_recording, false);
    assert_eq!(event.client_database_id, ClientDatabaseId(9));
    assert_eq!(event.client_channel_group_id, ChannelGroupId(8));
    assert_eq!(
        event.client_servergroups.into_inner(),
        vec![ServerGroupId(6), ServerGroupId(7), ServerGroupId(12)]
    );
    assert_eq!(event.client_away, true);
    assert_eq!(event.client_away_message, "");
    assert_eq!(event.client_type, 1);
    assert_eq!(event.client_talk_power, 75);
    assert_eq!(event.client_talk_request, false);
    assert_eq!(event.client_talk_request_msg, "");
    assert_eq!(event.client_description, "A B");
    assert_eq!(event.client_is_talker, false);
    assert_eq!(event.client_nickname_phoentic, "nik");
    assert_eq!(event.client_needed_serverquey_view_power, 3);
    assert_eq!(event.client_icon_id, 4);
    assert_eq!(event.client_country, "DE");
    assert_eq!(event.client_channel_group_inherited_channel_id, 1);
    assert_eq!(event.client_badges, "Overwolf=0");
}

#[test]
fn every_event_name_is_known() {
    assert!(matches!(
        Event::from_line(b"notifycliententerview clid=1"),
        Some(Ok(Event::ClientEnterView(_)))
    ));
    match Event::from_line(b"notifyclientleftview cfid=1 ctid=0 reasonid=8 reasonmsg=bye clid=4") {
        Some(Ok(Event::ClientLeftView(e))) => {
            assert_eq!(e.cfid, ChannelId(1));
            assert_eq!(e.reasonid, ReasonId::ServerShutdown);
            assert_eq!(e.reasonmsg, "bye");
            assert_eq!(e.clid, ClientId(4));
            assert_eq!(e.bantime, 0);
        }
        other => panic!("{:?}", other),
    }
    match Event::from_line(b"notifyserveredited reasonid=7 virtualserver_name=New\\sName") {
        Some(Ok(Event::ServerEdited(e))) => {
            assert_eq!(e.reasonid, ReasonId::Edited);
            assert_eq!(e.virtualserver_name, "New Name");
        }
        other => panic!("{:?}", other),
    }
    match Event::from_line(b"notifychanneldescriptionchanged cid=3") {
        Some(Ok(Event::ChannelDescriptionChanged(e))) => assert_eq!(e.cid, ChannelId(3)),
        other => panic!("{:?}", other),
    }
    match Event::from_line(b"notifychannelpasswordchanged cid=4") {
        Some(Ok(Event::ChannelPasswordChanged(e))) => assert_eq!(e.cid, ChannelId(4)),
        other => panic!("{:?}", other),
    }
    match Event::from_line(b"notifychannelmoved cid=4 cpid=2 order=1 reasonid=1 invokerid=9") {
        Some(Ok(Event::ChannelMoved(e))) => {
            assert_eq!(e.cpid, ChannelId(2));
            assert_eq!(e.order, 1);
            assert_eq!(e.reasonid, ReasonId::Moved);
        }
        other => panic!("{:?}", other),
    }
    match Event::from_line(b"notifychanneledited cid=4 channel_flag_password=x channel_codec=4") {
        Some(Ok(Event::ChannelEdited(e))) => {
            assert_eq!(e.channel_flag_password, "x");
            assert_eq!(e.channel_codec, 4);
        }
        other => panic!("{:?}", other),
    }
    match Event::from_line(b"notifychannelcreated cid=4 channel_flag_password=0 channel_maxclients=5")
    {
        Some(Ok(Event::ChannelCreated(e))) => {
            assert_eq!(e.channel_flag_password, true);
            assert_eq!(e.channel_maxclients, 5);
        }
        other => panic!("{:?}", other),
    }
    match Event::from_line(b"notifychanneldeleted invokerid=0 invokername=Server cid=5") {
        Some(Ok(Event::ChannelDeleted(e))) => {
            assert_eq!(e.invokername, "Server");
            assert_eq!(e.cid, ChannelId(5));
        }
        other => panic!("{:?}", other),
    }
    match Event::from_line(b"notifyclientmoved ctid=2 reasonid=0 clid=6") {
        Some(Ok(Event::ClientMoved(e))) => {
            assert_eq!(e.ctid, ChannelId(2));
            assert_eq!(e.clid, ChannelId(6));
        }
        other => panic!("{:?}", other),
    }
    assert!(matches!(
        Event::from_line(b"notifytextmessage msg=x"),
        Some(Ok(Event::TextMessage(_)))
    ));
    match Event::from_line(b"notifytokenused clid=1 cldbid=2 token=abc token1=6 token2=0") {
        Some(Ok(Event::TokenUsed(e))) => {
            assert_eq!(e.cldbid, ClientDatabaseId(2));
            assert_eq!(e.token, "abc");
            assert_eq!(e.token1, 6);
        }
        other => panic!("{:?}", other),
    }
}

#[test]
fn unknown_event_name_is_no_event() {
    assert!(Event::from_line(b"notifysomethingelse a=1").is_none());
    assert!(Event::from_line(b"error id=0 msg=ok").is_none());
    assert!(Event::from_line(b"version=3.13.7 build=1 platform=Linux").is_none());
    assert!(Event::from_line(b"notifytextmessag msg=x").is_none());
    assert!(Event::from_line(b"notifytextmessages msg=x").is_none());
    assert!(Event::from_line(b"Notifytextmessage msg=x").is_none());
    assert!(Event::from_line(b" notifytextmessage msg=x").is_none());
    assert!(Event::from_line(b"").is_none());
}

#[test]
fn event_name_alone_is_an_event_with_defaults() {
    match Event::from_line(b"notifytextmessage") {
        Some(Ok(Event::TextMessage(e))) => {
            assert_eq!(e.targetmode, 0);
            assert_eq!(e.msg, "");
        }
        other => panic!("{:?}", other),
    }
}

#[test]
fn event_with_a_malformed_field_is_an_event_that_fails() {
    assert!(matches!(
        Event::from_line(b"notifytextmessage targetmode=x msg=a"),
        Some(Err(Error(ErrorKind::ParseInt(IntErrorKind::InvalidDigit))))
    ));
    assert!(matches!(
        Event::from_line(b"notifyclientleftview reasonid=12"),
        Some(Err(Error(ErrorKind::Decode(DecodeError::InvalidReasonId(12)))))
    ));
}
