//! Events that tell of clients: who entered the view, who left it, who was moved.

use vstd::prelude::*;
use crate::codec::Decode;
use crate::error::{Error, SpecError};
use crate::event::ReasonId;
use crate::record::{decode_record, decoded_record, put, Record};
use crate::shared::list::Comma;
use crate::shared::{ChannelGroupId, ChannelId, ClientDatabaseId, ClientId, List, ServerGroupId};
use crate::wire::{is_word, word_bytes};

verus! {

/// Data for a `cliententerview` event.
#[derive(Debug)]
pub struct ClientEnterView {
    pub cfid: ChannelId,
    pub ctid: ChannelId,
    pub reasonid: ReasonId,
    pub clid: ClientId,
    pub client_unique_identifier: String,
    pub client_nickname: String,
    pub client_input_muted: bool,
    pub client_output_muted: bool,
    pub client_outputonly_muted: bool,
    pub client_input_hardware: u64,
    pub client_output_hardware: u64,
    pub client_is_recording: bool,
    pub client_database_id: ClientDatabaseId,
    pub client_channel_group_id: ChannelGroupId,
    pub client_servergroups: List<ServerGroupId, Comma>,
    pub client_away: bool,
    pub client_away_message: String,
    pub client_type: u8,
    pub client_talk_power: u64,
    pub client_talk_request: bool,
    pub client_talk_request_msg: String,
    pub client_description: String,
    pub client_is_talker: bool,
    pub client_nickname_phoentic: String,
    pub client_needed_serverquey_view_power: u64,
    pub client_icon_id: u64,
    pub client_country: String,
    pub client_channel_group_inherited_channel_id: u64,
    pub client_badges: String,
}

/// The view of a [`ClientEnterView`].
pub struct SpecClientEnterView {
    pub cfid: ChannelId,
    pub ctid: ChannelId,
    pub reasonid: ReasonId,
    pub clid: ClientId,
    pub client_unique_identifier: Seq<char>,
    pub client_nickname: Seq<char>,
    pub client_input_muted: bool,
    pub client_output_muted: bool,
    pub client_outputonly_muted: bool,
    pub client_input_hardware: u64,
    pub client_output_hardware: u64,
    pub client_is_recording: bool,
    pub client_database_id: ClientDatabaseId,
    pub client_channel_group_id: ChannelGroupId,
    pub client_servergroups: Seq<ServerGroupId>,
    pub client_away: bool,
    pub client_away_message: Seq<char>,
    pub client_type: u8,
    pub client_talk_power: u64,
    pub client_talk_request: bool,
    pub client_talk_request_msg: Seq<char>,
    pub client_description: Seq<char>,
    pub client_is_talker: bool,
    pub client_nickname_phoentic: Seq<char>,
    pub client_needed_serverquey_view_power: u64,
    pub client_icon_id: u64,
    pub client_country: Seq<char>,
    pub client_channel_group_inherited_channel_id: u64,
    pub client_badges: Seq<char>,
}

impl View for ClientEnterView {
    type V = SpecClientEnterView;

    open spec fn view(&self) -> SpecClientEnterView {
        SpecClientEnterView {
            cfid: self.cfid@,
            ctid: self.ctid@,
            reasonid: self.reasonid@,
            clid: self.clid@,
            client_unique_identifier: self.client_unique_identifier@,
            client_nickname: self.client_nickname@,
            client_input_muted: self.client_input_muted@,
            client_output_muted: self.client_output_muted@,
            client_outputonly_muted: self.client_outputonly_muted@,
            client_input_hardware: self.client_input_hardware@,
            client_output_hardware: self.client_output_hardware@,
            client_is_recording: self.client_is_recording@,
            client_database_id: self.client_database_id@,
            client_channel_group_id: self.client_channel_group_id@,
            client_servergroups: self.client_servergroups@,
            client_away: self.client_away@,
            client_away_message: self.client_away_message@,
            client_type: self.client_type@,
            client_talk_power: self.client_talk_power@,
            client_talk_request: self.client_talk_request@,
            client_talk_request_msg: self.client_talk_request_msg@,
            client_description: self.client_description@,
            client_is_talker: self.client_is_talker@,
            client_nickname_phoentic: self.client_nickname_phoentic@,
            client_needed_serverquey_view_power: self.client_needed_serverquey_view_power@,
            client_icon_id: self.client_icon_id@,
            client_country: self.client_country@,
            client_channel_group_inherited_channel_id: self.client_channel_group_inherited_channel_id@,
            client_badges: self.client_badges@,
        }
    }
}

impl Default for ClientEnterView {
    fn default() -> (r: Self)
        ensures
            r@ == Self::blank(),
    {
        let r = ClientEnterView {
            cfid: ChannelId(0),
            ctid: ChannelId(0),
            reasonid: ReasonId::SwitchChannel,
            clid: ClientId(0),
            client_unique_identifier: String::new(),
            client_nickname: String::new(),
            client_input_muted: false,
            client_output_muted: false,
            client_outputonly_muted: false,
            client_input_hardware: 0,
            client_output_hardware: 0,
            client_is_recording: false,
            client_database_id: ClientDatabaseId(0),
            client_channel_group_id: ChannelGroupId(0),
            client_servergroups: List::new(Vec::new()),
            client_away: false,
            client_away_message: String::new(),
            client_type: 0,
            client_talk_power: 0,
            client_talk_request: false,
            client_talk_request_msg: String::new(),
            client_description: String::new(),
            client_is_talker: false,
            client_nickname_phoentic: String::new(),
            client_needed_serverquey_view_power: 0,
            client_icon_id: 0,
            client_country: String::new(),
            client_channel_group_inherited_channel_id: 0,
            client_badges: String::new(),
        };
        assert(r.client_servergroups@ =~= Seq::empty());
        r
    }
}

impl Record for ClientEnterView {
    open spec fn blank() -> SpecClientEnterView {
        SpecClientEnterView {
            cfid: ChannelId(0),
            ctid: ChannelId(0),
            reasonid: ReasonId::SwitchChannel,
            clid: ClientId(0),
            client_unique_identifier: Seq::empty(),
            client_nickname: Seq::empty(),
            client_input_muted: false,
            client_output_muted: false,
            client_outputonly_muted: false,
            client_input_hardware: 0,
            client_output_hardware: 0,
            client_is_recording: false,
            client_database_id: ClientDatabaseId(0),
            client_channel_group_id: ChannelGroupId(0),
            client_servergroups: Seq::empty(),
            client_away: false,
            client_away_message: Seq::empty(),
            client_type: 0,
            client_talk_power: 0,
            client_talk_request: false,
            client_talk_request_msg: Seq::empty(),
            client_description: Seq::empty(),
            client_is_talker: false,
            client_nickname_phoentic: Seq::empty(),
            client_needed_serverquey_view_power: 0,
            client_icon_id: 0,
            client_country: Seq::empty(),
            client_channel_group_inherited_channel_id: 0,
            client_badges: Seq::empty(),
        }
    }

    open spec fn assigned(v: SpecClientEnterView, key: Seq<u8>, value: Seq<u8>) -> Result<
        SpecClientEnterView,
        SpecError,
    > {
        if key == word_bytes("cfid") {
            put(ChannelId::decoded(value), |x: ChannelId| SpecClientEnterView { cfid: x, ..v })
        } else if key == word_bytes("ctid") {
            put(ChannelId::decoded(value), |x: ChannelId| SpecClientEnterView { ctid: x, ..v })
        } else if key == word_bytes("reasonid") {
            put(ReasonId::decoded(value), |x: ReasonId| SpecClientEnterView { reasonid: x, ..v })
        } else if key == word_bytes("clid") {
            put(ClientId::decoded(value), |x: ClientId| SpecClientEnterView { clid: x, ..v })
        } else if key == word_bytes("client_unique_identifier") {
            put(
                String::decoded(value),
                |x: Seq<char>| SpecClientEnterView { client_unique_identifier: x, ..v },
            )
        } else if key == word_bytes("client_nickname") {
            put(
                String::decoded(value),
                |x: Seq<char>| SpecClientEnterView { client_nickname: x, ..v },
            )
        } else if key == word_bytes("client_input_muted") {
            put(bool::decoded(value), |x: bool| SpecClientEnterView { client_input_muted: x, ..v })
        } else if key == word_bytes("client_output_muted") {
            put(bool::decoded(value), |x: bool| SpecClientEnterView { client_output_muted: x, ..v })
        } else if key == word_bytes("client_outputonly_muted") {
            put(
                bool::decoded(value),
                |x: bool| SpecClientEnterView { client_outputonly_muted: x, ..v },
            )
        } else if key == word_bytes("client_input_hardware") {
            put(u64::decoded(value), |x: u64| SpecClientEnterView { client_input_hardware: x, ..v })
        } else if key == word_bytes("client_output_hardware") {
            put(
                u64::decoded(value),
                |x: u64| SpecClientEnterView { client_output_hardware: x, ..v },
            )
        } else if key == word_bytes("client_is_recording") {
            put(bool::decoded(value), |x: bool| SpecClientEnterView { client_is_recording: x, ..v })
        } else if key == word_bytes("client_database_id") {
            put(
                ClientDatabaseId::decoded(value),
                |x: ClientDatabaseId| SpecClientEnterView { client_database_id: x, ..v },
            )
        } else if key == word_bytes("client_channel_group_id") {
            put(
                ChannelGroupId::decoded(value),
                |x: ChannelGroupId| SpecClientEnterView { client_channel_group_id: x, ..v },
            )
        } else if key == word_bytes("client_servergroups") {
            put(
                <List<ServerGroupId, Comma>>::decoded(value),
                |x: Seq<ServerGroupId>| SpecClientEnterView { client_servergroups: x, ..v },
            )
        } else if key == word_bytes("client_away") {
            put(bool::decoded(value), |x: bool| SpecClientEnterView { client_away: x, ..v })
        } else if key == word_bytes("client_away_message") {
            put(
                String::decoded(value),
                |x: Seq<char>| SpecClientEnterView { client_away_message: x, ..v },
            )
        } else if key == word_bytes("client_type") {
            put(u8::decoded(value), |x: u8| SpecClientEnterView { client_type: x, ..v })
        } else if key == word_bytes("client_talk_power") {
            put(u64::decoded(value), |x: u64| SpecClientEnterView { client_talk_power: x, ..v })
        } else if key == word_bytes("client_talk_request") {
            put(bool::decoded(value), |x: bool| SpecClientEnterView { client_talk_request: x, ..v })
        } else if key == word_bytes("client_talk_request_msg") {
            put(
                String::decoded(value),
                |x: Seq<char>| SpecClientEnterView { client_talk_request_msg: x, ..v },
            )
        } else if key == word_bytes("client_description") {
            put(
                String::decoded(value),
                |x: Seq<char>| SpecClientEnterView { client_description: x, ..v },
            )
        } else if key == word_bytes("client_is_talker") {
            put(bool::decoded(value), |x: bool| SpecClientEnterView { client_is_talker: x, ..v })
        } else if key == word_bytes("client_nickname_phoentic") {
            put(
                String::decoded(value),
                |x: Seq<char>| SpecClientEnterView { client_nickname_phoentic: x, ..v },
            )
        } else if key == word_bytes("client_needed_serverquey_view_power") {
            put(
                u64::decoded(value),
                |x: u64| SpecClientEnterView { client_needed_serverquey_view_power: x, ..v },
            )
        } else if key == word_bytes("client_icon_id") {
            put(u64::decoded(value), |x: u64| SpecClientEnterView { client_icon_id: x, ..v })
        } else if key == word_bytes("client_country") {
            put(
                String::decoded(value),
                |x: Seq<char>| SpecClientEnterView { client_country: x, ..v },
            )
        } else if key == word_bytes("client_channel_group_inherited_channel_id") {
            put(
                u64::decoded(value),
                |x: u64| SpecClientEnterView { client_channel_group_inherited_channel_id: x, ..v },
            )
        } else if key == word_bytes("client_badges") {
            put(
                String::decoded(value),
                |x: Seq<char>| SpecClientEnterView { client_badges: x, ..v },
            )
        } else {
            Ok(v)
        }
    }

    fn empty() -> (r: Self) {
        Self::default()
    }

    #[verifier::rlimit(100)]
    fn assign(self, key: &[u8], value: &[u8]) -> (r: Result<Self, Error>) {
        if is_word(key, "cfid") {
            return Ok(Self { cfid: ChannelId::decode(value)?, ..self });
        }
        if is_word(key, "ctid") {
            return Ok(Self { ctid: ChannelId::decode(value)?, ..self });
        }
        if is_word(key, "reasonid") {
            return Ok(Self { reasonid: ReasonId::decode(value)?, ..self });
        }
        if is_word(key, "clid") {
            return Ok(Self { clid: ClientId::decode(value)?, ..self });
        }
        if is_word(key, "client_unique_identifier") {
            return Ok(Self { client_unique_identifier: String::decode(value)?, ..self });
        }
        if is_word(key, "client_nickname") {
            return Ok(Self { client_nickname: String::decode(value)?, ..self });
        }
        if is_word(key, "client_input_muted") {
            return Ok(Self { client_input_muted: bool::decode(value)?, ..self });
        }
        if is_word(key, "client_output_muted") {
            return Ok(Self { client_output_muted: bool::decode(value)?, ..self });
        }
        if is_word(key, "client_outputonly_muted") {
            return Ok(Self { client_outputonly_muted: bool::decode(value)?, ..self });
        }
        if is_word(key, "client_input_hardware") {
            return Ok(Self { client_input_hardware: u64::decode(value)?, ..self });
        }
        if is_word(key, "client_output_hardware") {
            return Ok(Self { client_output_hardware: u64::decode(value)?, ..self });
        }
        if is_word(key, "client_is_recording") {
            return Ok(Self { client_is_recording: bool::decode(value)?, ..self });
        }
        if is_word(key, "client_database_id") {
            return Ok(Self { client_database_id: ClientDatabaseId::decode(value)?, ..self });
        }
        if is_word(key, "client_channel_group_id") {
            return Ok(Self { client_channel_group_id: ChannelGroupId::decode(value)?, ..self });
        }
        if is_word(key, "client_servergroups") {
            let x = <List<ServerGroupId, Comma>>::decode(value)?;
            return Ok(Self { client_servergroups: x, ..self });
        }
        if is_word(key, "client_away") {
            return Ok(Self { client_away: bool::decode(value)?, ..self });
        }
        if is_word(key, "client_away_message") {
            return Ok(Self { client_away_message: String::decode(value)?, ..self });
        }
        if is_word(key, "client_type") {
            return Ok(Self { client_type: u8::decode(value)?, ..self });
        }
        if is_word(key, "client_talk_power") {
            return Ok(Self { client_talk_power: u64::decode(value)?, ..self });
        }
        if is_word(key, "client_talk_request") {
            return Ok(Self { client_talk_request: bool::decode(value)?, ..self });
        }
        if is_word(key, "client_talk_request_msg") {
            return Ok(Self { client_talk_request_msg: String::decode(value)?, ..self });
        }
        if is_word(key, "client_description") {
            return Ok(Self { client_description: String::decode(value)?, ..self });
        }
        if is_word(key, "client_is_talker") {
            return Ok(Self { client_is_talker: bool::decode(value)?, ..self });
        }
        if is_word(key, "client_nickname_phoentic") {
            return Ok(Self { client_nickname_phoentic: String::decode(value)?, ..self });
        }
        if is_word(key, "client_needed_serverquey_view_power") {
            return Ok(Self { client_needed_serverquey_view_power: u64::decode(value)?, ..self });
        }
        if is_word(key, "client_icon_id") {
            return Ok(Self { client_icon_id: u64::decode(value)?, ..self });
        }
        if is_word(key, "client_country") {
            return Ok(Self { client_country: String::decode(value)?, ..self });
        }
        if is_word(key, "client_channel_group_inherited_channel_id") {
            let x = u64::decode(value)?;
            return Ok(Self { client_channel_group_inherited_channel_id: x, ..self });
        }
        if is_word(key, "client_badges") {
            return Ok(Self { client_badges: String::decode(value)?, ..self });
        }
        Ok(self)
    }
}

impl Decode for ClientEnterView {
    open spec fn decoded(buf: Seq<u8>) -> Result<SpecClientEnterView, SpecError> {
        decoded_record::<ClientEnterView>(buf)
    }

    fn decode(buf: &[u8]) -> (r: Result<Self, Error>) {
        decode_record(buf)
    }
}

/// Data for a `clientleftview` event.
#[derive(Debug)]
pub struct ClientLeftView {
    pub cfid: ChannelId,
    pub ctid: ChannelId,
    pub reasonid: ReasonId,
    pub invokerid: ClientId,
    pub invokername: String,
    pub invokeruid: String,
    pub reasonmsg: String,
    pub bantime: u64,
    pub clid: ClientId,
}

/// The view of a [`ClientLeftView`].
pub struct SpecClientLeftView {
    pub cfid: ChannelId,
    pub ctid: ChannelId,
    pub reasonid: ReasonId,
    pub invokerid: ClientId,
    pub invokername: Seq<char>,
    pub invokeruid: Seq<char>,
    pub reasonmsg: Seq<char>,
    pub bantime: u64,
    pub clid: ClientId,
}

impl View for ClientLeftView {
    type V = SpecClientLeftView;

    open spec fn view(&self) -> SpecClientLeftView {
        SpecClientLeftView {
            cfid: self.cfid@,
            ctid: self.ctid@,
            reasonid: self.reasonid@,
            invokerid: self.invokerid@,
            invokername: self.invokername@,
            invokeruid: self.invokeruid@,
            reasonmsg: self.reasonmsg@,
            bantime: self.bantime@,
            clid: self.clid@,
        }
    }
}

impl Default for ClientLeftView {
    fn default() -> (r: Self)
        ensures
            r@ == Self::blank(),
    {
        ClientLeftView {
            cfid: ChannelId(0),
            ctid: ChannelId(0),
            reasonid: ReasonId::SwitchChannel,
            invokerid: ClientId(0),
            invokername: String::new(),
            invokeruid: String::new(),
            reasonmsg: String::new(),
            bantime: 0,
            clid: ClientId(0),
        }
    }
}

impl Record for ClientLeftView {
    open spec fn blank() -> SpecClientLeftView {
        SpecClientLeftView {
            cfid: ChannelId(0),
            ctid: ChannelId(0),
            reasonid: ReasonId::SwitchChannel,
            invokerid: ClientId(0),
            invokername: Seq::empty(),
            invokeruid: Seq::empty(),
            reasonmsg: Seq::empty(),
            bantime: 0,
            clid: ClientId(0),
        }
    }

    open spec fn assigned(v: SpecClientLeftView, key: Seq<u8>, value: Seq<u8>) -> Result<
        SpecClientLeftView,
        SpecError,
    > {
        if key == word_bytes("cfid") {
            put(ChannelId::decoded(value), |x: ChannelId| SpecClientLeftView { cfid: x, ..v })
        } else if key == word_bytes("ctid") {
            put(ChannelId::decoded(value), |x: ChannelId| SpecClientLeftView { ctid: x, ..v })
        } else if key == word_bytes("reasonid") {
            put(ReasonId::decoded(value), |x: ReasonId| SpecClientLeftView { reasonid: x, ..v })
        } else if key == word_bytes("invokerid") {
            put(ClientId::decoded(value), |x: ClientId| SpecClientLeftView { invokerid: x, ..v })
        } else if key == word_bytes("invokername") {
            put(String::decoded(value), |x: Seq<char>| SpecClientLeftView { invokername: x, ..v })
        } else if key == word_bytes("invokeruid") {
            put(String::decoded(value), |x: Seq<char>| SpecClientLeftView { invokeruid: x, ..v })
        } else if key == word_bytes("reasonmsg") {
            put(String::decoded(value), |x: Seq<char>| SpecClientLeftView { reasonmsg: x, ..v })
        } else if key == word_bytes("bantime") {
            put(u64::decoded(value), |x: u64| SpecClientLeftView { bantime: x, ..v })
        } else if key == word_bytes("clid") {
            put(ClientId::decoded(value), |x: ClientId| SpecClientLeftView { clid: x, ..v })
        } else {
            Ok(v)
        }
    }

    fn empty() -> (r: Self) {
        Self::default()
    }

    fn assign(self, key: &[u8], value: &[u8]) -> (r: Result<Self, Error>) {
        if is_word(key, "cfid") {
            return Ok(Self { cfid: ChannelId::decode(value)?, ..self });
        }
        if is_word(key, "ctid") {
            return Ok(Self { ctid: ChannelId::decode(value)?, ..self });
        }
        if is_word(key, "reasonid") {
            return Ok(Self { reasonid: ReasonId::decode(value)?, ..self });
        }
        if is_word(key, "invokerid") {
            return Ok(Self { invokerid: ClientId::decode(value)?, ..self });
        }
        if is_word(key, "invokername") {
            return Ok(Self { invokername: String::decode(value)?, ..self });
        }
        if is_word(key, "invokeruid") {
            return Ok(Self { invokeruid: String::decode(value)?, ..self });
        }
        if is_word(key, "reasonmsg") {
            return Ok(Self { reasonmsg: String::decode(value)?, ..self });
        }
        if is_word(key, "bantime") {
            return Ok(Self { bantime: u64::decode(value)?, ..self });
        }
        if is_word(key, "clid") {
            return Ok(Self { clid: ClientId::decode(value)?, ..self });
        }
        Ok(self)
    }
}

impl Decode for ClientLeftView {
    open spec fn decoded(buf: Seq<u8>) -> Result<SpecClientLeftView, SpecError> {
        decoded_record::<ClientLeftView>(buf)
    }

    fn decode(buf: &[u8]) -> (r: Result<Self, Error>) {
        decode_record(buf)
    }
}

/// Data for a `clientmoved` event.
#[derive(Debug)]
pub struct ClientMoved {
    pub ctid: ChannelId,
    pub reasonid: ReasonId,
    pub invokerid: ClientId,
    pub invokername: String,
    pub invokeruid: String,
    pub clid: ChannelId,
}

/// The view of a [`ClientMoved`].
pub struct SpecClientMoved {
    pub ctid: ChannelId,
    pub reasonid: ReasonId,
    pub invokerid: ClientId,
    pub invokername: Seq<char>,
    pub invokeruid: Seq<char>,
    pub clid: ChannelId,
}

impl View for ClientMoved {
    type V = SpecClientMoved;

    open spec fn view(&self) -> SpecClientMoved {
        SpecClientMoved {
            ctid: self.ctid@,
            reasonid: self.reasonid@,
            invokerid: self.invokerid@,
            invokername: self.invokername@,
            invokeruid: self.invokeruid@,
            clid: self.clid@,
        }
    }
}

impl Default for ClientMoved {
    fn default() -> (r: Self)
        ensures
            r@ == Self::blank(),
    {
        ClientMoved {
            ctid: ChannelId(0),
            reasonid: ReasonId::SwitchChannel,
            invokerid: ClientId(0),
            invokername: String::new(),
            invokeruid: String::new(),
            clid: ChannelId(0),
        }
    }
}

impl Record for ClientMoved {
    open spec fn blank() -> SpecClientMoved {
        SpecClientMoved {
            ctid: ChannelId(0),
            reasonid: ReasonId::SwitchChannel,
            invokerid: ClientId(0),
            invokername: Seq::empty(),
            invokeruid: Seq::empty(),
            clid: ChannelId(0),
        }
    }

    open spec fn assigned(v: SpecClientMoved, key: Seq<u8>, value: Seq<u8>) -> Result<
        SpecClientMoved,
        SpecError,
    > {
        if key == word_bytes("ctid") {
            put(ChannelId::decoded(value), |x: ChannelId| SpecClientMoved { ctid: x, ..v })
        } else if key == word_bytes("reasonid") {
            put(ReasonId::decoded(value), |x: ReasonId| SpecClientMoved { reasonid: x, ..v })
        } else if key == word_bytes("invokerid") {
            put(ClientId::decoded(value), |x: ClientId| SpecClientMoved { invokerid: x, ..v })
        } else if key == word_bytes("invokername") {
            put(String::decoded(value), |x: Seq<char>| SpecClientMoved { invokername: x, ..v })
        } else if key == word_bytes("invokeruid") {
            put(String::decoded(value), |x: Seq<char>| SpecClientMoved { invokeruid: x, ..v })
        } else if key == word_bytes("clid") {
            put(ChannelId::decoded(value), |x: ChannelId| SpecClientMoved { clid: x, ..v })
        } else {
            Ok(v)
        }
    }

    fn empty() -> (r: Self) {
        Self::default()
    }

    fn assign(self, key: &[u8], value: &[u8]) -> (r: Result<Self, Error>) {
        if is_word(key, "ctid") {
            return Ok(Self { ctid: ChannelId::decode(value)?, ..self });
        }
        if is_word(key, "reasonid") {
            return Ok(Self { reasonid: ReasonId::decode(value)?, ..self });
        }
        if is_word(key, "invokerid") {
            return Ok(Self { invokerid: ClientId::decode(value)?, ..self });
        }
        if is_word(key, "invokername") {
            return Ok(Self { invokername: String::decode(value)?, ..self });
        }
        if is_word(key, "invokeruid") {
            return Ok(Self { invokeruid: String::decode(value)?, ..self });
        }
        if is_word(key, "clid") {
            return Ok(Self { clid: ChannelId::decode(value)?, ..self });
        }
        Ok(self)
    }
}

impl Decode for ClientMoved {
    open spec fn decoded(buf: Seq<u8>) -> Result<SpecClientMoved, SpecError> {
        decoded_record::<ClientMoved>(buf)
    }

    fn decode(buf: &[u8]) -> (r: Result<Self, Error>) {
        decode_record(buf)
    }
}

} // verus!
