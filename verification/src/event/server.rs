//! Events that tell of the server: what was edited, what was said, which token was used.

use vstd::prelude::*;
use crate::codec::Decode;
use crate::error::{Error, SpecError};
use crate::event::ReasonId;
use crate::record::{decode_record, decoded_record, put, Record};
use crate::shared::{ChannelGroupId, ClientDatabaseId, ClientId, ServerGroupId};
use crate::wire::{is_word, word_bytes};

verus! {

/// Data for a `serveredited` event.
#[derive(Debug)]
pub struct ServerEdited {
    pub reasonid: ReasonId,
    pub invokerid: ClientId,
    pub invokername: String,
    pub invokeruid: String,
    pub virtualserver_name: String,
    pub virtualserver_codec_encryption_mode: String,
    pub virtualserver_default_server_group: ServerGroupId,
    pub virtualserver_default_channel_group: ChannelGroupId,
    pub virtualserver_hostbanner_url: String,
    pub virtualserver_hostbanner_gfx_url: String,
    pub virtualserver_hostbanner_gfx_interval: u64,
    pub virtualserver_priority_speaker_dimm_modificator: String,
    pub virtualserver_hostbutton_tooltip: String,
    pub virtualserver_hostbutton_url: String,
    pub virtualserver_hostbutton_gfx_url: String,
    pub virtualserver_name_phoentic: String,
    pub virtualserver_icon_id: u64,
    pub virtualserver_hostbanner_mode: String,
    pub virtualserver_channel_temp_delete_delay_default: u64,
}

/// The view of a [`ServerEdited`].
pub struct SpecServerEdited {
    pub reasonid: ReasonId,
    pub invokerid: ClientId,
    pub invokername: Seq<char>,
    pub invokeruid: Seq<char>,
    pub virtualserver_name: Seq<char>,
    pub virtualserver_codec_encryption_mode: Seq<char>,
    pub virtualserver_default_server_group: ServerGroupId,
    pub virtualserver_default_channel_group: ChannelGroupId,
    pub virtualserver_hostbanner_url: Seq<char>,
    pub virtualserver_hostbanner_gfx_url: Seq<char>,
    pub virtualserver_hostbanner_gfx_interval: u64,
    pub virtualserver_priority_speaker_dimm_modificator: Seq<char>,
    pub virtualserver_hostbutton_tooltip: Seq<char>,
    pub virtualserver_hostbutton_url: Seq<char>,
    pub virtualserver_hostbutton_gfx_url: Seq<char>,
    pub virtualserver_name_phoentic: Seq<char>,
    pub virtualserver_icon_id: u64,
    pub virtualserver_hostbanner_mode: Seq<char>,
    pub virtualserver_channel_temp_delete_delay_default: u64,
}

impl View for ServerEdited {
    type V = SpecServerEdited;

    open spec fn view(&self) -> SpecServerEdited {
        SpecServerEdited {
            reasonid: self.reasonid@,
            invokerid: self.invokerid@,
            invokername: self.invokername@,
            invokeruid: self.invokeruid@,
            virtualserver_name: self.virtualserver_name@,
            virtualserver_codec_encryption_mode: self.virtualserver_codec_encryption_mode@,
            virtualserver_default_server_group: self.virtualserver_default_server_group@,
            virtualserver_default_channel_group: self.virtualserver_default_channel_group@,
            virtualserver_hostbanner_url: self.virtualserver_hostbanner_url@,
            virtualserver_hostbanner_gfx_url: self.virtualserver_hostbanner_gfx_url@,
            virtualserver_hostbanner_gfx_interval: self.virtualserver_hostbanner_gfx_interval@,
            virtualserver_priority_speaker_dimm_modificator: self.virtualserver_priority_speaker_dimm_modificator@,
            virtualserver_hostbutton_tooltip: self.virtualserver_hostbutton_tooltip@,
            virtualserver_hostbutton_url: self.virtualserver_hostbutton_url@,
            virtualserver_hostbutton_gfx_url: self.virtualserver_hostbutton_gfx_url@,
            virtualserver_name_phoentic: self.virtualserver_name_phoentic@,
            virtualserver_icon_id: self.virtualserver_icon_id@,
            virtualserver_hostbanner_mode: self.virtualserver_hostbanner_mode@,
            virtualserver_channel_temp_delete_delay_default: self.virtualserver_channel_temp_delete_delay_default@,
        }
    }
}

impl Default for ServerEdited {
    fn default() -> (r: Self)
        ensures
            r@ == Self::blank(),
    {
        ServerEdited {
            reasonid: ReasonId::SwitchChannel,
            invokerid: ClientId(0),
            invokername: String::new(),
            invokeruid: String::new(),
            virtualserver_name: String::new(),
            virtualserver_codec_encryption_mode: String::new(),
            virtualserver_default_server_group: ServerGroupId(0),
            virtualserver_default_channel_group: ChannelGroupId(0),
            virtualserver_hostbanner_url: String::new(),
            virtualserver_hostbanner_gfx_url: String::new(),
            virtualserver_hostbanner_gfx_interval: 0,
            virtualserver_priority_speaker_dimm_modificator: String::new(),
            virtualserver_hostbutton_tooltip: String::new(),
            virtualserver_hostbutton_url: String::new(),
            virtualserver_hostbutton_gfx_url: String::new(),
            virtualserver_name_phoentic: String::new(),
            virtualserver_icon_id: 0,
            virtualserver_hostbanner_mode: String::new(),
            virtualserver_channel_temp_delete_delay_default: 0,
        }
    }
}

impl Record for ServerEdited {
    open spec fn blank() -> SpecServerEdited {
        SpecServerEdited {
            reasonid: ReasonId::SwitchChannel,
            invokerid: ClientId(0),
            invokername: Seq::empty(),
            invokeruid: Seq::empty(),
            virtualserver_name: Seq::empty(),
            virtualserver_codec_encryption_mode: Seq::empty(),
            virtualserver_default_server_group: ServerGroupId(0),
            virtualserver_default_channel_group: ChannelGroupId(0),
            virtualserver_hostbanner_url: Seq::empty(),
            virtualserver_hostbanner_gfx_url: Seq::empty(),
            virtualserver_hostbanner_gfx_interval: 0,
            virtualserver_priority_speaker_dimm_modificator: Seq::empty(),
            virtualserver_hostbutton_tooltip: Seq::empty(),
            virtualserver_hostbutton_url: Seq::empty(),
            virtualserver_hostbutton_gfx_url: Seq::empty(),
            virtualserver_name_phoentic: Seq::empty(),
            virtualserver_icon_id: 0,
            virtualserver_hostbanner_mode: Seq::empty(),
            virtualserver_channel_temp_delete_delay_default: 0,
        }
    }

    open spec fn assigned(v: SpecServerEdited, key: Seq<u8>, value: Seq<u8>) -> Result<
        SpecServerEdited,
        SpecError,
    > {
        if key == word_bytes("reasonid") {
            put(ReasonId::decoded(value), |x: ReasonId| SpecServerEdited { reasonid: x, ..v })
        } else if key == word_bytes("invokerid") {
            put(ClientId::decoded(value), |x: ClientId| SpecServerEdited { invokerid: x, ..v })
        } else if key == word_bytes("invokername") {
            put(String::decoded(value), |x: Seq<char>| SpecServerEdited { invokername: x, ..v })
        } else if key == word_bytes("invokeruid") {
            put(String::decoded(value), |x: Seq<char>| SpecServerEdited { invokeruid: x, ..v })
        } else if key == word_bytes("virtualserver_name") {
            put(
                String::decoded(value),
                |x: Seq<char>| SpecServerEdited { virtualserver_name: x, ..v },
            )
        } else if key == word_bytes("virtualserver_codec_encryption_mode") {
            put(
                String::decoded(value),
                |x: Seq<char>| SpecServerEdited { virtualserver_codec_encryption_mode: x, ..v },
            )
        } else if key == word_bytes("virtualserver_default_server_group") {
            put(
                ServerGroupId::decoded(value),
                |x: ServerGroupId| SpecServerEdited { virtualserver_default_server_group: x, ..v },
            )
        } else if key == word_bytes("virtualserver_default_channel_group") {
            put(
                ChannelGroupId::decoded(value),
                |x: ChannelGroupId| SpecServerEdited { virtualserver_default_channel_group: x, ..v },
            )
        } else if key == word_bytes("virtualserver_hostbanner_url") {
            put(
                String::decoded(value),
                |x: Seq<char>| SpecServerEdited { virtualserver_hostbanner_url: x, ..v },
            )
        } else if key == word_bytes("virtualserver_hostbanner_gfx_url") {
            put(
                String::decoded(value),
                |x: Seq<char>| SpecServerEdited { virtualserver_hostbanner_gfx_url: x, ..v },
            )
        } else if key == word_bytes("virtualserver_hostbanner_gfx_interval") {
            put(
                u64::decoded(value),
                |x: u64| SpecServerEdited { virtualserver_hostbanner_gfx_interval: x, ..v },
            )
        } else if key == word_bytes("virtualserver_priority_speaker_dimm_modificator") {
            put(
                String::decoded(value),
                |x: Seq<char>| SpecServerEdited { virtualserver_priority_speaker_dimm_modificator: x, ..v },
            )
        } else if key == word_bytes("virtualserver_hostbutton_tooltip") {
            put(
                String::decoded(value),
                |x: Seq<char>| SpecServerEdited { virtualserver_hostbutton_tooltip: x, ..v },
            )
        } else if key == word_bytes("virtualserver_hostbutton_url") {
            put(
                String::decoded(value),
                |x: Seq<char>| SpecServerEdited { virtualserver_hostbutton_url: x, ..v },
            )
        } else if key == word_bytes("virtualserver_hostbutton_gfx_url") {
            put(
                String::decoded(value),
                |x: Seq<char>| SpecServerEdited { virtualserver_hostbutton_gfx_url: x, ..v },
            )
        } else if key == word_bytes("virtualserver_name_phoentic") {
            put(
                String::decoded(value),
                |x: Seq<char>| SpecServerEdited { virtualserver_name_phoentic: x, ..v },
            )
        } else if key == word_bytes("virtualserver_icon_id") {
            put(u64::decoded(value), |x: u64| SpecServerEdited { virtualserver_icon_id: x, ..v })
        } else if key == word_bytes("virtualserver_hostbanner_mode") {
            put(
                String::decoded(value),
                |x: Seq<char>| SpecServerEdited { virtualserver_hostbanner_mode: x, ..v },
            )
        } else if key == word_bytes("virtualserver_channel_temp_delete_delay_default") {
            put(
                u64::decoded(value),
                |x: u64| SpecServerEdited { virtualserver_channel_temp_delete_delay_default: x, ..v },
            )
        } else {
            Ok(v)
        }
    }

    fn empty() -> (r: Self) {
        Self::default()
    }

    fn assign(self, key: &[u8], value: &[u8]) -> (r: Result<Self, Error>) {
        if is_word(key, "reasonid") {
            return Ok(Self { reasonid: ReasonId::decode(value)?, ..self });
        }
        if is_word(key, "invokerid") {
            return Ok(Self { invokerid: ClientId::decode(value)?, ..self });
        }
        if is_word(key, "invokername") {
            return Ok(Self { invokername: String::decode(value)?, ..self });
        }
        if is_word(key, "invokeruid") {
            return Ok(Self { invokeruid: String::decode(value)?, ..self });
        }
        if is_word(key, "virtualserver_name") {
            return Ok(Self { virtualserver_name: String::decode(value)?, ..self });
        }
        if is_word(key, "virtualserver_codec_encryption_mode") {
            return Ok(Self { virtualserver_codec_encryption_mode: String::decode(value)?, ..self });
        }
        if is_word(key, "virtualserver_default_server_group") {
            let x = ServerGroupId::decode(value)?;
            return Ok(Self { virtualserver_default_server_group: x, ..self });
        }
        if is_word(key, "virtualserver_default_channel_group") {
            let x = ChannelGroupId::decode(value)?;
            return Ok(Self { virtualserver_default_channel_group: x, ..self });
        }
        if is_word(key, "virtualserver_hostbanner_url") {
            return Ok(Self { virtualserver_hostbanner_url: String::decode(value)?, ..self });
        }
        if is_word(key, "virtualserver_hostbanner_gfx_url") {
            return Ok(Self { virtualserver_hostbanner_gfx_url: String::decode(value)?, ..self });
        }
        if is_word(key, "virtualserver_hostbanner_gfx_interval") {
            return Ok(Self { virtualserver_hostbanner_gfx_interval: u64::decode(value)?, ..self });
        }
        if is_word(key, "virtualserver_priority_speaker_dimm_modificator") {
            let x = String::decode(value)?;
            return Ok(Self { virtualserver_priority_speaker_dimm_modificator: x, ..self });
        }
        if is_word(key, "virtualserver_hostbutton_tooltip") {
            return Ok(Self { virtualserver_hostbutton_tooltip: String::decode(value)?, ..self });
        }
        if is_word(key, "virtualserver_hostbutton_url") {
            return Ok(Self { virtualserver_hostbutton_url: String::decode(value)?, ..self });
        }
        if is_word(key, "virtualserver_hostbutton_gfx_url") {
            return Ok(Self { virtualserver_hostbutton_gfx_url: String::decode(value)?, ..self });
        }
        if is_word(key, "virtualserver_name_phoentic") {
            return Ok(Self { virtualserver_name_phoentic: String::decode(value)?, ..self });
        }
        if is_word(key, "virtualserver_icon_id") {
            return Ok(Self { virtualserver_icon_id: u64::decode(value)?, ..self });
        }
        if is_word(key, "virtualserver_hostbanner_mode") {
            return Ok(Self { virtualserver_hostbanner_mode: String::decode(value)?, ..self });
        }
        if is_word(key, "virtualserver_channel_temp_delete_delay_default") {
            let x = u64::decode(value)?;
            return Ok(Self { virtualserver_channel_temp_delete_delay_default: x, ..self });
        }
        Ok(self)
    }
}

impl Decode for ServerEdited {
    open spec fn decoded(buf: Seq<u8>) -> Result<SpecServerEdited, SpecError> {
        decoded_record::<ServerEdited>(buf)
    }

    fn decode(buf: &[u8]) -> (r: Result<Self, Error>) {
        decode_record(buf)
    }
}

/// Data for a `textmessage` event.
#[derive(Debug)]
pub struct TextMessage {
    pub targetmode: u64,
    pub msg: String,
    pub target: ClientId,
    pub invokerid: ClientId,
    pub invokername: String,
    pub invokeruid: String,
}

/// The view of a [`TextMessage`].
pub struct SpecTextMessage {
    pub targetmode: u64,
    pub msg: Seq<char>,
    pub target: ClientId,
    pub invokerid: ClientId,
    pub invokername: Seq<char>,
    pub invokeruid: Seq<char>,
}

impl View for TextMessage {
    type V = SpecTextMessage;

    open spec fn view(&self) -> SpecTextMessage {
        SpecTextMessage {
            targetmode: self.targetmode@,
            msg: self.msg@,
            target: self.target@,
            invokerid: self.invokerid@,
            invokername: self.invokername@,
            invokeruid: self.invokeruid@,
        }
    }
}

impl Default for TextMessage {
    fn default() -> (r: Self)
        ensures
            r@ == Self::blank(),
    {
        TextMessage {
            targetmode: 0,
            msg: String::new(),
            target: ClientId(0),
            invokerid: ClientId(0),
            invokername: String::new(),
            invokeruid: String::new(),
        }
    }
}

impl Record for TextMessage {
    open spec fn blank() -> SpecTextMessage {
        SpecTextMessage {
            targetmode: 0,
            msg: Seq::empty(),
            target: ClientId(0),
            invokerid: ClientId(0),
            invokername: Seq::empty(),
            invokeruid: Seq::empty(),
        }
    }

    open spec fn assigned(v: SpecTextMessage, key: Seq<u8>, value: Seq<u8>) -> Result<
        SpecTextMessage,
        SpecError,
    > {
        if key == word_bytes("targetmode") {
            put(u64::decoded(value), |x: u64| SpecTextMessage { targetmode: x, ..v })
        } else if key == word_bytes("msg") {
            put(String::decoded(value), |x: Seq<char>| SpecTextMessage { msg: x, ..v })
        } else if key == word_bytes("target") {
            put(ClientId::decoded(value), |x: ClientId| SpecTextMessage { target: x, ..v })
        } else if key == word_bytes("invokerid") {
            put(ClientId::decoded(value), |x: ClientId| SpecTextMessage { invokerid: x, ..v })
        } else if key == word_bytes("invokername") {
            put(String::decoded(value), |x: Seq<char>| SpecTextMessage { invokername: x, ..v })
        } else if key == word_bytes("invokeruid") {
            put(String::decoded(value), |x: Seq<char>| SpecTextMessage { invokeruid: x, ..v })
        } else {
            Ok(v)
        }
    }

    fn empty() -> (r: Self) {
        Self::default()
    }

    fn assign(self, key: &[u8], value: &[u8]) -> (r: Result<Self, Error>) {
        if is_word(key, "targetmode") {
            return Ok(Self { targetmode: u64::decode(value)?, ..self });
        }
        if is_word(key, "msg") {
            return Ok(Self { msg: String::decode(value)?, ..self });
        }
        if is_word(key, "target") {
            return Ok(Self { target: ClientId::decode(value)?, ..self });
        }
        if is_word(key, "invokerid") {
            return Ok(Self { invokerid: ClientId::decode(value)?, ..self });
        }
        if is_word(key, "invokername") {
            return Ok(Self { invokername: String::decode(value)?, ..self });
        }
        if is_word(key, "invokeruid") {
            return Ok(Self { invokeruid: String::decode(value)?, ..self });
        }
        Ok(self)
    }
}

impl Decode for TextMessage {
    open spec fn decoded(buf: Seq<u8>) -> Result<SpecTextMessage, SpecError> {
        decoded_record::<TextMessage>(buf)
    }

    fn decode(buf: &[u8]) -> (r: Result<Self, Error>) {
        decode_record(buf)
    }
}

/// Data for a `tokenused` event.
#[derive(Debug)]
pub struct TokenUsed {
    pub clid: ClientId,
    pub cldbid: ClientDatabaseId,
    pub cluid: String,
    pub token: String,
    pub tokencustomset: String,
    /// GroupID assigned by the token.
    pub token1: u64,
    /// ChannelID for the token, 0 if Server Group.
    pub token2: u64,
}

/// The view of a [`TokenUsed`].
pub struct SpecTokenUsed {
    pub clid: ClientId,
    pub cldbid: ClientDatabaseId,
    pub cluid: Seq<char>,
    pub token: Seq<char>,
    pub tokencustomset: Seq<char>,
    pub token1: u64,
    pub token2: u64,
}

impl View for TokenUsed {
    type V = SpecTokenUsed;

    open spec fn view(&self) -> SpecTokenUsed {
        SpecTokenUsed {
            clid: self.clid@,
            cldbid: self.cldbid@,
            cluid: self.cluid@,
            token: self.token@,
            tokencustomset: self.tokencustomset@,
            token1: self.token1@,
            token2: self.token2@,
        }
    }
}

impl Default for TokenUsed {
    fn default() -> (r: Self)
        ensures
            r@ == Self::blank(),
    {
        TokenUsed {
            clid: ClientId(0),
            cldbid: ClientDatabaseId(0),
            cluid: String::new(),
            token: String::new(),
            tokencustomset: String::new(),
            token1: 0,
            token2: 0,
        }
    }
}

impl Record for TokenUsed {
    open spec fn blank() -> SpecTokenUsed {
        SpecTokenUsed {
            clid: ClientId(0),
            cldbid: ClientDatabaseId(0),
            cluid: Seq::empty(),
            token: Seq::empty(),
            tokencustomset: Seq::empty(),
            token1: 0,
            token2: 0,
        }
    }

    open spec fn assigned(v: SpecTokenUsed, key: Seq<u8>, value: Seq<u8>) -> Result<
        SpecTokenUsed,
        SpecError,
    > {
        if key == word_bytes("clid") {
            put(ClientId::decoded(value), |x: ClientId| SpecTokenUsed { clid: x, ..v })
        } else if key == word_bytes("cldbid") {
            put(
                ClientDatabaseId::decoded(value),
                |x: ClientDatabaseId| SpecTokenUsed { cldbid: x, ..v },
            )
        } else if key == word_bytes("cluid") {
            put(String::decoded(value), |x: Seq<char>| SpecTokenUsed { cluid: x, ..v })
        } else if key == word_bytes("token") {
            put(String::decoded(value), |x: Seq<char>| SpecTokenUsed { token: x, ..v })
        } else if key == word_bytes("tokencustomset") {
            put(String::decoded(value), |x: Seq<char>| SpecTokenUsed { tokencustomset: x, ..v })
        } else if key == word_bytes("token1") {
            put(u64::decoded(value), |x: u64| SpecTokenUsed { token1: x, ..v })
        } else if key == word_bytes("token2") {
            put(u64::decoded(value), |x: u64| SpecTokenUsed { token2: x, ..v })
        } else {
            Ok(v)
        }
    }

    fn empty() -> (r: Self) {
        Self::default()
    }

    fn assign(self, key: &[u8], value: &[u8]) -> (r: Result<Self, Error>) {
        if is_word(key, "clid") {
            return Ok(Self { clid: ClientId::decode(value)?, ..self });
        }
        if is_word(key, "cldbid") {
            return Ok(Self { cldbid: ClientDatabaseId::decode(value)?, ..self });
        }
        if is_word(key, "cluid") {
            return Ok(Self { cluid: String::decode(value)?, ..self });
        }
        if is_word(key, "token") {
            return Ok(Self { token: String::decode(value)?, ..self });
        }
        if is_word(key, "tokencustomset") {
            return Ok(Self { tokencustomset: String::decode(value)?, ..self });
        }
        if is_word(key, "token1") {
            return Ok(Self { token1: u64::decode(value)?, ..self });
        }
        if is_word(key, "token2") {
            return Ok(Self { token2: u64::decode(value)?, ..self });
        }
        Ok(self)
    }
}

impl Decode for TokenUsed {
    open spec fn decoded(buf: Seq<u8>) -> Result<SpecTokenUsed, SpecError> {
        decoded_record::<TokenUsed>(buf)
    }

    fn decode(buf: &[u8]) -> (r: Result<Self, Error>) {
        decode_record(buf)
    }
}

} // verus!
