//! Events that tell of channels: what was created, changed, moved or deleted.

use vstd::prelude::*;
use crate::codec::Decode;
use crate::error::{Error, SpecError};
use crate::event::ReasonId;
use crate::record::{decode_record, decoded_record, put, Record};
use crate::shared::{ChannelId, ClientId};
use crate::wire::{is_word, word_bytes};

verus! {

/// Data for a `channeldescriptionchanged` event.
#[derive(Debug)]
pub struct ChannelDescriptionChanged {
    pub cid: ChannelId,
}

/// The view of a [`ChannelDescriptionChanged`].
pub struct SpecChannelDescriptionChanged {
    pub cid: ChannelId,
}

impl View for ChannelDescriptionChanged {
    type V = SpecChannelDescriptionChanged;

    open spec fn view(&self) -> SpecChannelDescriptionChanged {
        SpecChannelDescriptionChanged {
            cid: self.cid@,
        }
    }
}

impl Default for ChannelDescriptionChanged {
    fn default() -> (r: Self)
        ensures
            r@ == Self::blank(),
    {
        ChannelDescriptionChanged {
            cid: ChannelId(0),
        }
    }
}

impl Record for ChannelDescriptionChanged {
    open spec fn blank() -> SpecChannelDescriptionChanged {
        SpecChannelDescriptionChanged {
            cid: ChannelId(0),
        }
    }

    open spec fn assigned(v: SpecChannelDescriptionChanged, key: Seq<u8>, value: Seq<u8>) -> Result<
        SpecChannelDescriptionChanged,
        SpecError,
    > {
        if key == word_bytes("cid") {
            put(
                ChannelId::decoded(value),
                |x: ChannelId| SpecChannelDescriptionChanged { cid: x, ..v },
            )
        } else {
            Ok(v)
        }
    }

    fn empty() -> (r: Self) {
        Self::default()
    }

    fn assign(self, key: &[u8], value: &[u8]) -> (r: Result<Self, Error>) {
        if is_word(key, "cid") {
            return Ok(Self { cid: ChannelId::decode(value)?, ..self });
        }
        Ok(self)
    }
}

impl Decode for ChannelDescriptionChanged {
    open spec fn decoded(buf: Seq<u8>) -> Result<SpecChannelDescriptionChanged, SpecError> {
        decoded_record::<ChannelDescriptionChanged>(buf)
    }

    fn decode(buf: &[u8]) -> (r: Result<Self, Error>) {
        decode_record(buf)
    }
}

/// Data for a `channelpasswordchanged` event.
#[derive(Debug)]
pub struct ChannelPasswordChanged {
    pub cid: ChannelId,
}

/// The view of a [`ChannelPasswordChanged`].
pub struct SpecChannelPasswordChanged {
    pub cid: ChannelId,
}

impl View for ChannelPasswordChanged {
    type V = SpecChannelPasswordChanged;

    open spec fn view(&self) -> SpecChannelPasswordChanged {
        SpecChannelPasswordChanged {
            cid: self.cid@,
        }
    }
}

impl Default for ChannelPasswordChanged {
    fn default() -> (r: Self)
        ensures
            r@ == Self::blank(),
    {
        ChannelPasswordChanged {
            cid: ChannelId(0),
        }
    }
}

impl Record for ChannelPasswordChanged {
    open spec fn blank() -> SpecChannelPasswordChanged {
        SpecChannelPasswordChanged {
            cid: ChannelId(0),
        }
    }

    open spec fn assigned(v: SpecChannelPasswordChanged, key: Seq<u8>, value: Seq<u8>) -> Result<
        SpecChannelPasswordChanged,
        SpecError,
    > {
        if key == word_bytes("cid") {
            put(
                ChannelId::decoded(value),
                |x: ChannelId| SpecChannelPasswordChanged { cid: x, ..v },
            )
        } else {
            Ok(v)
        }
    }

    fn empty() -> (r: Self) {
        Self::default()
    }

    fn assign(self, key: &[u8], value: &[u8]) -> (r: Result<Self, Error>) {
        if is_word(key, "cid") {
            return Ok(Self { cid: ChannelId::decode(value)?, ..self });
        }
        Ok(self)
    }
}

impl Decode for ChannelPasswordChanged {
    open spec fn decoded(buf: Seq<u8>) -> Result<SpecChannelPasswordChanged, SpecError> {
        decoded_record::<ChannelPasswordChanged>(buf)
    }

    fn decode(buf: &[u8]) -> (r: Result<Self, Error>) {
        decode_record(buf)
    }
}

/// Data for a `channelmoved` event.
#[derive(Debug)]
pub struct ChannelMoved {
    pub cid: ChannelId,
    pub cpid: ChannelId,
    pub order: u64,
    pub reasonid: ReasonId,
    pub invokerid: ClientId,
    pub invokername: String,
    pub invokeruid: String,
}

/// The view of a [`ChannelMoved`].
pub struct SpecChannelMoved {
    pub cid: ChannelId,
    pub cpid: ChannelId,
    pub order: u64,
    pub reasonid: ReasonId,
    pub invokerid: ClientId,
    pub invokername: Seq<char>,
    pub invokeruid: Seq<char>,
}

impl View for ChannelMoved {
    type V = SpecChannelMoved;

    open spec fn view(&self) -> SpecChannelMoved {
        SpecChannelMoved {
            cid: self.cid@,
            cpid: self.cpid@,
            order: self.order@,
            reasonid: self.reasonid@,
            invokerid: self.invokerid@,
            invokername: self.invokername@,
            invokeruid: self.invokeruid@,
        }
    }
}

impl Default for ChannelMoved {
    fn default() -> (r: Self)
        ensures
            r@ == Self::blank(),
    {
        ChannelMoved {
            cid: ChannelId(0),
            cpid: ChannelId(0),
            order: 0,
            reasonid: ReasonId::SwitchChannel,
            invokerid: ClientId(0),
            invokername: String::new(),
            invokeruid: String::new(),
        }
    }
}

impl Record for ChannelMoved {
    open spec fn blank() -> SpecChannelMoved {
        SpecChannelMoved {
            cid: ChannelId(0),
            cpid: ChannelId(0),
            order: 0,
            reasonid: ReasonId::SwitchChannel,
            invokerid: ClientId(0),
            invokername: Seq::empty(),
            invokeruid: Seq::empty(),
        }
    }

    open spec fn assigned(v: SpecChannelMoved, key: Seq<u8>, value: Seq<u8>) -> Result<
        SpecChannelMoved,
        SpecError,
    > {
        if key == word_bytes("cid") {
            put(ChannelId::decoded(value), |x: ChannelId| SpecChannelMoved { cid: x, ..v })
        } else if key == word_bytes("cpid") {
            put(ChannelId::decoded(value), |x: ChannelId| SpecChannelMoved { cpid: x, ..v })
        } else if key == word_bytes("order") {
            put(u64::decoded(value), |x: u64| SpecChannelMoved { order: x, ..v })
        } else if key == word_bytes("reasonid") {
            put(ReasonId::decoded(value), |x: ReasonId| SpecChannelMoved { reasonid: x, ..v })
        } else if key == word_bytes("invokerid") {
            put(ClientId::decoded(value), |x: ClientId| SpecChannelMoved { invokerid: x, ..v })
        } else if key == word_bytes("invokername") {
            put(String::decoded(value), |x: Seq<char>| SpecChannelMoved { invokername: x, ..v })
        } else if key == word_bytes("invokeruid") {
            put(String::decoded(value), |x: Seq<char>| SpecChannelMoved { invokeruid: x, ..v })
        } else {
            Ok(v)
        }
    }

    fn empty() -> (r: Self) {
        Self::default()
    }

    fn assign(self, key: &[u8], value: &[u8]) -> (r: Result<Self, Error>) {
        if is_word(key, "cid") {
            return Ok(Self { cid: ChannelId::decode(value)?, ..self });
        }
        if is_word(key, "cpid") {
            return Ok(Self { cpid: ChannelId::decode(value)?, ..self });
        }
        if is_word(key, "order") {
            return Ok(Self { order: u64::decode(value)?, ..self });
        }
        if is_word(key, "reasonid") {
            return Ok(Self { reasonid: ReasonId::decode(value)?, ..self });
        }
        if is_word(key, "invokerid") {
            return Ok(Self { invokerid: ClientId::decode(value)?, ..self });
        }
        if is_word(key, "invokername") {
            return Ok(Self { invokername: String::decode(value)?, ..self });
        }
        if is_word(key, "invokeruid") {
            return Ok(Self { invokeruid: String::decode(value)?, ..self });
        }
        Ok(self)
    }
}

impl Decode for ChannelMoved {
    open spec fn decoded(buf: Seq<u8>) -> Result<SpecChannelMoved, SpecError> {
        decoded_record::<ChannelMoved>(buf)
    }

    fn decode(buf: &[u8]) -> (r: Result<Self, Error>) {
        decode_record(buf)
    }
}

/// Data for a `channeledited` event. The fields `cid`, `reasonid`,
/// `invokerid`, `invokername` and `invokeruid` are always included.
/// All fields prefixed channel_... are only included if the value of
/// the channel was changed.
#[derive(Debug)]
pub struct ChannelEdited {
    pub cid: ChannelId,
    pub reasonid: ReasonId,
    pub invokerid: ClientId,
    pub invokername: String,
    pub invokeruid: String,
    pub channel_name: String,
    pub channel_topic: String,
    /// 4 for Opus Voice, 5 for Opus Music
    pub channel_codec: u8,
    pub channel_codec_quality: u8,
    pub channel_maxclients: u16,
    pub channel_maxfamilyclients: u16,
    pub channel_order: u64,
    pub channel_flag_permanent: bool,
    pub channel_flag_semi_permanent: bool,
    pub channel_flag_default: bool,
    pub channel_flag_password: String,
    pub channel_codec_latency_factor: u64,
    pub channel_codec_is_unencrypted: bool,
    pub channel_delete_delay: u32,
    pub channel_flag_maxclients_unlimited: bool,
    pub channel_flag_maxfamilyclients_unlimited: bool,
    pub channel_flag_maxfamilyclients_inherited: bool,
    pub channel_needed_talk_power: u32,
    pub channel_name_phonetic: String,
    pub channel_icon_id: u64,
}

/// The view of a [`ChannelEdited`].
pub struct SpecChannelEdited {
    pub cid: ChannelId,
    pub reasonid: ReasonId,
    pub invokerid: ClientId,
    pub invokername: Seq<char>,
    pub invokeruid: Seq<char>,
    pub channel_name: Seq<char>,
    pub channel_topic: Seq<char>,
    pub channel_codec: u8,
    pub channel_codec_quality: u8,
    pub channel_maxclients: u16,
    pub channel_maxfamilyclients: u16,
    pub channel_order: u64,
    pub channel_flag_permanent: bool,
    pub channel_flag_semi_permanent: bool,
    pub channel_flag_default: bool,
    pub channel_flag_password: Seq<char>,
    pub channel_codec_latency_factor: u64,
    pub channel_codec_is_unencrypted: bool,
    pub channel_delete_delay: u32,
    pub channel_flag_maxclients_unlimited: bool,
    pub channel_flag_maxfamilyclients_unlimited: bool,
    pub channel_flag_maxfamilyclients_inherited: bool,
    pub channel_needed_talk_power: u32,
    pub channel_name_phonetic: Seq<char>,
    pub channel_icon_id: u64,
}

impl View for ChannelEdited {
    type V = SpecChannelEdited;

    open spec fn view(&self) -> SpecChannelEdited {
        SpecChannelEdited {
            cid: self.cid@,
            reasonid: self.reasonid@,
            invokerid: self.invokerid@,
            invokername: self.invokername@,
            invokeruid: self.invokeruid@,
            channel_name: self.channel_name@,
            channel_topic: self.channel_topic@,
            channel_codec: self.channel_codec@,
            channel_codec_quality: self.channel_codec_quality@,
            channel_maxclients: self.channel_maxclients@,
            channel_maxfamilyclients: self.channel_maxfamilyclients@,
            channel_order: self.channel_order@,
            channel_flag_permanent: self.channel_flag_permanent@,
            channel_flag_semi_permanent: self.channel_flag_semi_permanent@,
            channel_flag_default: self.channel_flag_default@,
            channel_flag_password: self.channel_flag_password@,
            channel_codec_latency_factor: self.channel_codec_latency_factor@,
            channel_codec_is_unencrypted: self.channel_codec_is_unencrypted@,
            channel_delete_delay: self.channel_delete_delay@,
            channel_flag_maxclients_unlimited: self.channel_flag_maxclients_unlimited@,
            channel_flag_maxfamilyclients_unlimited: self.channel_flag_maxfamilyclients_unlimited@,
            channel_flag_maxfamilyclients_inherited: self.channel_flag_maxfamilyclients_inherited@,
            channel_needed_talk_power: self.channel_needed_talk_power@,
            channel_name_phonetic: self.channel_name_phonetic@,
            channel_icon_id: self.channel_icon_id@,
        }
    }
}

impl Default for ChannelEdited {
    fn default() -> (r: Self)
        ensures
            r@ == Self::blank(),
    {
        ChannelEdited {
            cid: ChannelId(0),
            reasonid: ReasonId::SwitchChannel,
            invokerid: ClientId(0),
            invokername: String::new(),
            invokeruid: String::new(),
            channel_name: String::new(),
            channel_topic: String::new(),
            channel_codec: 0,
            channel_codec_quality: 0,
            channel_maxclients: 0,
            channel_maxfamilyclients: 0,
            channel_order: 0,
            channel_flag_permanent: false,
            channel_flag_semi_permanent: false,
            channel_flag_default: false,
            channel_flag_password: String::new(),
            channel_codec_latency_factor: 0,
            channel_codec_is_unencrypted: false,
            channel_delete_delay: 0,
            channel_flag_maxclients_unlimited: false,
            channel_flag_maxfamilyclients_unlimited: false,
            channel_flag_maxfamilyclients_inherited: false,
            channel_needed_talk_power: 0,
            channel_name_phonetic: String::new(),
            channel_icon_id: 0,
        }
    }
}

impl Record for ChannelEdited {
    open spec fn blank() -> SpecChannelEdited {
        SpecChannelEdited {
            cid: ChannelId(0),
            reasonid: ReasonId::SwitchChannel,
            invokerid: ClientId(0),
            invokername: Seq::empty(),
            invokeruid: Seq::empty(),
            channel_name: Seq::empty(),
            channel_topic: Seq::empty(),
            channel_codec: 0,
            channel_codec_quality: 0,
            channel_maxclients: 0,
            channel_maxfamilyclients: 0,
            channel_order: 0,
            channel_flag_permanent: false,
            channel_flag_semi_permanent: false,
            channel_flag_default: false,
            channel_flag_password: Seq::empty(),
            channel_codec_latency_factor: 0,
            channel_codec_is_unencrypted: false,
            channel_delete_delay: 0,
            channel_flag_maxclients_unlimited: false,
            channel_flag_maxfamilyclients_unlimited: false,
            channel_flag_maxfamilyclients_inherited: false,
            channel_needed_talk_power: 0,
            channel_name_phonetic: Seq::empty(),
            channel_icon_id: 0,
        }
    }

    open spec fn assigned(v: SpecChannelEdited, key: Seq<u8>, value: Seq<u8>) -> Result<
        SpecChannelEdited,
        SpecError,
    > {
        if key == word_bytes("cid") {
            put(ChannelId::decoded(value), |x: ChannelId| SpecChannelEdited { cid: x, ..v })
        } else if key == word_bytes("reasonid") {
            put(ReasonId::decoded(value), |x: ReasonId| SpecChannelEdited { reasonid: x, ..v })
        } else if key == word_bytes("invokerid") {
            put(ClientId::decoded(value), |x: ClientId| SpecChannelEdited { invokerid: x, ..v })
        } else if key == word_bytes("invokername") {
            put(String::decoded(value), |x: Seq<char>| SpecChannelEdited { invokername: x, ..v })
        } else if key == word_bytes("invokeruid") {
            put(String::decoded(value), |x: Seq<char>| SpecChannelEdited { invokeruid: x, ..v })
        } else if key == word_bytes("channel_name") {
            put(String::decoded(value), |x: Seq<char>| SpecChannelEdited { channel_name: x, ..v })
        } else if key == word_bytes("channel_topic") {
            put(String::decoded(value), |x: Seq<char>| SpecChannelEdited { channel_topic: x, ..v })
        } else if key == word_bytes("channel_codec") {
            put(u8::decoded(value), |x: u8| SpecChannelEdited { channel_codec: x, ..v })
        } else if key == word_bytes("channel_codec_quality") {
            put(u8::decoded(value), |x: u8| SpecChannelEdited { channel_codec_quality: x, ..v })
        } else if key == word_bytes("channel_maxclients") {
            put(u16::decoded(value), |x: u16| SpecChannelEdited { channel_maxclients: x, ..v })
        } else if key == word_bytes("channel_maxfamilyclients") {
            put(
                u16::decoded(value),
                |x: u16| SpecChannelEdited { channel_maxfamilyclients: x, ..v },
            )
        } else if key == word_bytes("channel_order") {
            put(u64::decoded(value), |x: u64| SpecChannelEdited { channel_order: x, ..v })
        } else if key == word_bytes("channel_flag_permanent") {
            put(
                bool::decoded(value),
                |x: bool| SpecChannelEdited { channel_flag_permanent: x, ..v },
            )
        } else if key == word_bytes("channel_flag_semi_permanent") {
            put(
                bool::decoded(value),
                |x: bool| SpecChannelEdited { channel_flag_semi_permanent: x, ..v },
            )
        } else if key == word_bytes("channel_flag_default") {
            put(bool::decoded(value), |x: bool| SpecChannelEdited { channel_flag_default: x, ..v })
        } else if key == word_bytes("channel_flag_password") {
            put(
                String::decoded(value),
                |x: Seq<char>| SpecChannelEdited { channel_flag_password: x, ..v },
            )
        } else if key == word_bytes("channel_codec_latency_factor") {
            put(
                u64::decoded(value),
                |x: u64| SpecChannelEdited { channel_codec_latency_factor: x, ..v },
            )
        } else if key == word_bytes("channel_codec_is_unencrypted") {
            put(
                bool::decoded(value),
                |x: bool| SpecChannelEdited { channel_codec_is_unencrypted: x, ..v },
            )
        } else if key == word_bytes("channel_delete_delay") {
            put(u32::decoded(value), |x: u32| SpecChannelEdited { channel_delete_delay: x, ..v })
        } else if key == word_bytes("channel_flag_maxclients_unlimited") {
            put(
                bool::decoded(value),
                |x: bool| SpecChannelEdited { channel_flag_maxclients_unlimited: x, ..v },
            )
        } else if key == word_bytes("channel_flag_maxfamilyclients_unlimited") {
            put(
                bool::decoded(value),
                |x: bool| SpecChannelEdited { channel_flag_maxfamilyclients_unlimited: x, ..v },
            )
        } else if key == word_bytes("channel_flag_maxfamilyclients_inherited") {
            put(
                bool::decoded(value),
                |x: bool| SpecChannelEdited { channel_flag_maxfamilyclients_inherited: x, ..v },
            )
        } else if key == word_bytes("channel_needed_talk_power") {
            put(
                u32::decoded(value),
                |x: u32| SpecChannelEdited { channel_needed_talk_power: x, ..v },
            )
        } else if key == word_bytes("channel_name_phonetic") {
            put(
                String::decoded(value),
                |x: Seq<char>| SpecChannelEdited { channel_name_phonetic: x, ..v },
            )
        } else if key == word_bytes("channel_icon_id") {
            put(u64::decoded(value), |x: u64| SpecChannelEdited { channel_icon_id: x, ..v })
        } else {
            Ok(v)
        }
    }

    fn empty() -> (r: Self) {
        Self::default()
    }

    #[verifier::rlimit(50)]
    fn assign(self, key: &[u8], value: &[u8]) -> (r: Result<Self, Error>) {
        if is_word(key, "cid") {
            return Ok(Self { cid: ChannelId::decode(value)?, ..self });
        }
        if is_word(key, "reasonid") {
            return Ok(Self { reasonid: ReasonId::decode(value)?, ..self });
        }
        if is_word(key, "invokerid") {
            return Ok(Self { invokerid: ClientId::decode(value)?, ..self });
        }
        if is_word(key, "invokername") {
            return Ok(Self { invokername: String::decode(value)?, ..self });
        }
        if is_word(key, "invokeruid") {
            return Ok(Self { invokeruid: String::decode(value)?, ..self });
        }
        if is_word(key, "channel_name") {
            return Ok(Self { channel_name: String::decode(value)?, ..self });
        }
        if is_word(key, "channel_topic") {
            return Ok(Self { channel_topic: String::decode(value)?, ..self });
        }
        if is_word(key, "channel_codec") {
            return Ok(Self { channel_codec: u8::decode(value)?, ..self });
        }
        if is_word(key, "channel_codec_quality") {
            return Ok(Self { channel_codec_quality: u8::decode(value)?, ..self });
        }
        if is_word(key, "channel_maxclients") {
            return Ok(Self { channel_maxclients: u16::decode(value)?, ..self });
        }
        if is_word(key, "channel_maxfamilyclients") {
            return Ok(Self { channel_maxfamilyclients: u16::decode(value)?, ..self });
        }
        if is_word(key, "channel_order") {
            return Ok(Self { channel_order: u64::decode(value)?, ..self });
        }
        if is_word(key, "channel_flag_permanent") {
            return Ok(Self { channel_flag_permanent: bool::decode(value)?, ..self });
        }
        if is_word(key, "channel_flag_semi_permanent") {
            return Ok(Self { channel_flag_semi_permanent: bool::decode(value)?, ..self });
        }
        if is_word(key, "channel_flag_default") {
            return Ok(Self { channel_flag_default: bool::decode(value)?, ..self });
        }
        if is_word(key, "channel_flag_password") {
            return Ok(Self { channel_flag_password: String::decode(value)?, ..self });
        }
        if is_word(key, "channel_codec_latency_factor") {
            return Ok(Self { channel_codec_latency_factor: u64::decode(value)?, ..self });
        }
        if is_word(key, "channel_codec_is_unencrypted") {
            return Ok(Self { channel_codec_is_unencrypted: bool::decode(value)?, ..self });
        }
        if is_word(key, "channel_delete_delay") {
            return Ok(Self { channel_delete_delay: u32::decode(value)?, ..self });
        }
        if is_word(key, "channel_flag_maxclients_unlimited") {
            return Ok(Self { channel_flag_maxclients_unlimited: bool::decode(value)?, ..self });
        }
        if is_word(key, "channel_flag_maxfamilyclients_unlimited") {
            let x = bool::decode(value)?;
            return Ok(Self { channel_flag_maxfamilyclients_unlimited: x, ..self });
        }
        if is_word(key, "channel_flag_maxfamilyclients_inherited") {
            let x = bool::decode(value)?;
            return Ok(Self { channel_flag_maxfamilyclients_inherited: x, ..self });
        }
        if is_word(key, "channel_needed_talk_power") {
            return Ok(Self { channel_needed_talk_power: u32::decode(value)?, ..self });
        }
        if is_word(key, "channel_name_phonetic") {
            return Ok(Self { channel_name_phonetic: String::decode(value)?, ..self });
        }
        if is_word(key, "channel_icon_id") {
            return Ok(Self { channel_icon_id: u64::decode(value)?, ..self });
        }
        Ok(self)
    }
}

impl Decode for ChannelEdited {
    open spec fn decoded(buf: Seq<u8>) -> Result<SpecChannelEdited, SpecError> {
        decoded_record::<ChannelEdited>(buf)
    }

    fn decode(buf: &[u8]) -> (r: Result<Self, Error>) {
        decode_record(buf)
    }
}

/// Data for a `channelcreated` event.
#[derive(Debug)]
pub struct ChannelCreated {
    pub cid: ChannelId,
    pub cpid: ChannelId,
    pub channel_name: String,
    pub channel_topic: String,
    /// 4 for Opus Voice, 5 for Opus Music
    pub channel_codec: u8,
    pub channel_codec_quality: u8,
    pub channel_maxclients: u16,
    pub channel_maxfamilyclients: u16,
    pub channel_order: u64,
    pub channel_flag_permanent: bool,
    pub channel_flag_semi_permanent: bool,
    pub channel_flag_default: bool,
    pub channel_flag_password: bool,
    pub channel_codec_latency_factor: u64,
    pub channel_codec_is_unencrypted: bool,
    pub channel_delete_delay: u32,
    pub channel_flag_maxclients_unlimited: bool,
    pub channel_flag_maxfamilyclients_unlimited: bool,
    pub channel_flag_maxfamilyclients_inherited: bool,
    pub channel_needed_talk_power: u32,
    pub channel_name_phonetic: String,
    pub channel_icon_id: u64,
    pub invokerid: ClientId,
    pub invokername: String,
    pub invokeruid: String,
}

/// The view of a [`ChannelCreated`].
pub struct SpecChannelCreated {
    pub cid: ChannelId,
    pub cpid: ChannelId,
    pub channel_name: Seq<char>,
    pub channel_topic: Seq<char>,
    pub channel_codec: u8,
    pub channel_codec_quality: u8,
    pub channel_maxclients: u16,
    pub channel_maxfamilyclients: u16,
    pub channel_order: u64,
    pub channel_flag_permanent: bool,
    pub channel_flag_semi_permanent: bool,
    pub channel_flag_default: bool,
    pub channel_flag_password: bool,
    pub channel_codec_latency_factor: u64,
    pub channel_codec_is_unencrypted: bool,
    pub channel_delete_delay: u32,
    pub channel_flag_maxclients_unlimited: bool,
    pub channel_flag_maxfamilyclients_unlimited: bool,
    pub channel_flag_maxfamilyclients_inherited: bool,
    pub channel_needed_talk_power: u32,
    pub channel_name_phonetic: Seq<char>,
    pub channel_icon_id: u64,
    pub invokerid: ClientId,
    pub invokername: Seq<char>,
    pub invokeruid: Seq<char>,
}

impl View for ChannelCreated {
    type V = SpecChannelCreated;

    open spec fn view(&self) -> SpecChannelCreated {
        SpecChannelCreated {
            cid: self.cid@,
            cpid: self.cpid@,
            channel_name: self.channel_name@,
            channel_topic: self.channel_topic@,
            channel_codec: self.channel_codec@,
            channel_codec_quality: self.channel_codec_quality@,
            channel_maxclients: self.channel_maxclients@,
            channel_maxfamilyclients: self.channel_maxfamilyclients@,
            channel_order: self.channel_order@,
            channel_flag_permanent: self.channel_flag_permanent@,
            channel_flag_semi_permanent: self.channel_flag_semi_permanent@,
            channel_flag_default: self.channel_flag_default@,
            channel_flag_password: self.channel_flag_password@,
            channel_codec_latency_factor: self.channel_codec_latency_factor@,
            channel_codec_is_unencrypted: self.channel_codec_is_unencrypted@,
            channel_delete_delay: self.channel_delete_delay@,
            channel_flag_maxclients_unlimited: self.channel_flag_maxclients_unlimited@,
            channel_flag_maxfamilyclients_unlimited: self.channel_flag_maxfamilyclients_unlimited@,
            channel_flag_maxfamilyclients_inherited: self.channel_flag_maxfamilyclients_inherited@,
            channel_needed_talk_power: self.channel_needed_talk_power@,
            channel_name_phonetic: self.channel_name_phonetic@,
            channel_icon_id: self.channel_icon_id@,
            invokerid: self.invokerid@,
            invokername: self.invokername@,
            invokeruid: self.invokeruid@,
        }
    }
}

impl Default for ChannelCreated {
    fn default() -> (r: Self)
        ensures
            r@ == Self::blank(),
    {
        ChannelCreated {
            cid: ChannelId(0),
            cpid: ChannelId(0),
            channel_name: String::new(),
            channel_topic: String::new(),
            channel_codec: 0,
            channel_codec_quality: 0,
            channel_maxclients: 0,
            channel_maxfamilyclients: 0,
            channel_order: 0,
            channel_flag_permanent: false,
            channel_flag_semi_permanent: false,
            channel_flag_default: false,
            channel_flag_password: false,
            channel_codec_latency_factor: 0,
            channel_codec_is_unencrypted: false,
            channel_delete_delay: 0,
            channel_flag_maxclients_unlimited: false,
            channel_flag_maxfamilyclients_unlimited: false,
            channel_flag_maxfamilyclients_inherited: false,
            channel_needed_talk_power: 0,
            channel_name_phonetic: String::new(),
            channel_icon_id: 0,
            invokerid: ClientId(0),
            invokername: String::new(),
            invokeruid: String::new(),
        }
    }
}

impl Record for ChannelCreated {
    open spec fn blank() -> SpecChannelCreated {
        SpecChannelCreated {
            cid: ChannelId(0),
            cpid: ChannelId(0),
            channel_name: Seq::empty(),
            channel_topic: Seq::empty(),
            channel_codec: 0,
            channel_codec_quality: 0,
            channel_maxclients: 0,
            channel_maxfamilyclients: 0,
            channel_order: 0,
            channel_flag_permanent: false,
            channel_flag_semi_permanent: false,
            channel_flag_default: false,
            channel_flag_password: false,
            channel_codec_latency_factor: 0,
            channel_codec_is_unencrypted: false,
            channel_delete_delay: 0,
            channel_flag_maxclients_unlimited: false,
            channel_flag_maxfamilyclients_unlimited: false,
            channel_flag_maxfamilyclients_inherited: false,
            channel_needed_talk_power: 0,
            channel_name_phonetic: Seq::empty(),
            channel_icon_id: 0,
            invokerid: ClientId(0),
            invokername: Seq::empty(),
            invokeruid: Seq::empty(),
        }
    }

    open spec fn assigned(v: SpecChannelCreated, key: Seq<u8>, value: Seq<u8>) -> Result<
        SpecChannelCreated,
        SpecError,
    > {
        if key == word_bytes("cid") {
            put(ChannelId::decoded(value), |x: ChannelId| SpecChannelCreated { cid: x, ..v })
        } else if key == word_bytes("cpid") {
            put(ChannelId::decoded(value), |x: ChannelId| SpecChannelCreated { cpid: x, ..v })
        } else if key == word_bytes("channel_name") {
            put(String::decoded(value), |x: Seq<char>| SpecChannelCreated { channel_name: x, ..v })
        } else if key == word_bytes("channel_topic") {
            put(String::decoded(value), |x: Seq<char>| SpecChannelCreated { channel_topic: x, ..v })
        } else if key == word_bytes("channel_codec") {
            put(u8::decoded(value), |x: u8| SpecChannelCreated { channel_codec: x, ..v })
        } else if key == word_bytes("channel_codec_quality") {
            put(u8::decoded(value), |x: u8| SpecChannelCreated { channel_codec_quality: x, ..v })
        } else if key == word_bytes("channel_maxclients") {
            put(u16::decoded(value), |x: u16| SpecChannelCreated { channel_maxclients: x, ..v })
        } else if key == word_bytes("channel_maxfamilyclients") {
            put(
                u16::decoded(value),
                |x: u16| SpecChannelCreated { channel_maxfamilyclients: x, ..v },
            )
        } else if key == word_bytes("channel_order") {
            put(u64::decoded(value), |x: u64| SpecChannelCreated { channel_order: x, ..v })
        } else if key == word_bytes("channel_flag_permanent") {
            put(
                bool::decoded(value),
                |x: bool| SpecChannelCreated { channel_flag_permanent: x, ..v },
            )
        } else if key == word_bytes("channel_flag_semi_permanent") {
            put(
                bool::decoded(value),
                |x: bool| SpecChannelCreated { channel_flag_semi_permanent: x, ..v },
            )
        } else if key == word_bytes("channel_flag_default") {
            put(bool::decoded(value), |x: bool| SpecChannelCreated { channel_flag_default: x, ..v })
        } else if key == word_bytes("channel_flag_password") {
            put(
                bool::decoded(value),
                |x: bool| SpecChannelCreated { channel_flag_password: x, ..v },
            )
        } else if key == word_bytes("channel_codec_latency_factor") {
            put(
                u64::decoded(value),
                |x: u64| SpecChannelCreated { channel_codec_latency_factor: x, ..v },
            )
        } else if key == word_bytes("channel_codec_is_unencrypted") {
            put(
                bool::decoded(value),
                |x: bool| SpecChannelCreated { channel_codec_is_unencrypted: x, ..v },
            )
        } else if key == word_bytes("channel_delete_delay") {
            put(u32::decoded(value), |x: u32| SpecChannelCreated { channel_delete_delay: x, ..v })
        } else if key == word_bytes("channel_flag_maxclients_unlimited") {
            put(
                bool::decoded(value),
                |x: bool| SpecChannelCreated { channel_flag_maxclients_unlimited: x, ..v },
            )
        } else if key == word_bytes("channel_flag_maxfamilyclients_unlimited") {
            put(
                bool::decoded(value),
                |x: bool| SpecChannelCreated { channel_flag_maxfamilyclients_unlimited: x, ..v },
            )
        } else if key == word_bytes("channel_flag_maxfamilyclients_inherited") {
            put(
                bool::decoded(value),
                |x: bool| SpecChannelCreated { channel_flag_maxfamilyclients_inherited: x, ..v },
            )
        } else if key == word_bytes("channel_needed_talk_power") {
            put(
                u32::decoded(value),
                |x: u32| SpecChannelCreated { channel_needed_talk_power: x, ..v },
            )
        } else if key == word_bytes("channel_name_phonetic") {
            put(
                String::decoded(value),
                |x: Seq<char>| SpecChannelCreated { channel_name_phonetic: x, ..v },
            )
        } else if key == word_bytes("channel_icon_id") {
            put(u64::decoded(value), |x: u64| SpecChannelCreated { channel_icon_id: x, ..v })
        } else if key == word_bytes("invokerid") {
            put(ClientId::decoded(value), |x: ClientId| SpecChannelCreated { invokerid: x, ..v })
        } else if key == word_bytes("invokername") {
            put(String::decoded(value), |x: Seq<char>| SpecChannelCreated { invokername: x, ..v })
        } else if key == word_bytes("invokeruid") {
            put(String::decoded(value), |x: Seq<char>| SpecChannelCreated { invokeruid: x, ..v })
        } else {
            Ok(v)
        }
    }

    fn empty() -> (r: Self) {
        Self::default()
    }

    #[verifier::rlimit(50)]
    fn assign(self, key: &[u8], value: &[u8]) -> (r: Result<Self, Error>) {
        if is_word(key, "cid") {
            return Ok(Self { cid: ChannelId::decode(value)?, ..self });
        }
        if is_word(key, "cpid") {
            return Ok(Self { cpid: ChannelId::decode(value)?, ..self });
        }
        if is_word(key, "channel_name") {
            return Ok(Self { channel_name: String::decode(value)?, ..self });
        }
        if is_word(key, "channel_topic") {
            return Ok(Self { channel_topic: String::decode(value)?, ..self });
        }
        if is_word(key, "channel_codec") {
            return Ok(Self { channel_codec: u8::decode(value)?, ..self });
        }
        if is_word(key, "channel_codec_quality") {
            return Ok(Self { channel_codec_quality: u8::decode(value)?, ..self });
        }
        if is_word(key, "channel_maxclients") {
            return Ok(Self { channel_maxclients: u16::decode(value)?, ..self });
        }
        if is_word(key, "channel_maxfamilyclients") {
            return Ok(Self { channel_maxfamilyclients: u16::decode(value)?, ..self });
        }
        if is_word(key, "channel_order") {
            return Ok(Self { channel_order: u64::decode(value)?, ..self });
        }
        if is_word(key, "channel_flag_permanent") {
            return Ok(Self { channel_flag_permanent: bool::decode(value)?, ..self });
        }
        if is_word(key, "channel_flag_semi_permanent") {
            return Ok(Self { channel_flag_semi_permanent: bool::decode(value)?, ..self });
        }
        if is_word(key, "channel_flag_default") {
            return Ok(Self { channel_flag_default: bool::decode(value)?, ..self });
        }
        if is_word(key, "channel_flag_password") {
            return Ok(Self { channel_flag_password: bool::decode(value)?, ..self });
        }
        if is_word(key, "channel_codec_latency_factor") {
            return Ok(Self { channel_codec_latency_factor: u64::decode(value)?, ..self });
        }
        if is_word(key, "channel_codec_is_unencrypted") {
            return Ok(Self { channel_codec_is_unencrypted: bool::decode(value)?, ..self });
        }
        if is_word(key, "channel_delete_delay") {
            return Ok(Self { channel_delete_delay: u32::decode(value)?, ..self });
        }
        if is_word(key, "channel_flag_maxclients_unlimited") {
            return Ok(Self { channel_flag_maxclients_unlimited: bool::decode(value)?, ..self });
        }
        if is_word(key, "channel_flag_maxfamilyclients_unlimited") {
            let x = bool::decode(value)?;
            return Ok(Self { channel_flag_maxfamilyclients_unlimited: x, ..self });
        }
        if is_word(key, "channel_flag_maxfamilyclients_inherited") {
            let x = bool::decode(value)?;
            return Ok(Self { channel_flag_maxfamilyclients_inherited: x, ..self });
        }
        if is_word(key, "channel_needed_talk_power") {
            return Ok(Self { channel_needed_talk_power: u32::decode(value)?, ..self });
        }
        if is_word(key, "channel_name_phonetic") {
            return Ok(Self { channel_name_phonetic: String::decode(value)?, ..self });
        }
        if is_word(key, "channel_icon_id") {
            return Ok(Self { channel_icon_id: u64::decode(value)?, ..self });
        }
        if is_word(key, "invokerid") {
            return Ok(Self { invokerid: ClientId::decode(value)?, ..self });
        }
        if is_word(key, "invokername") {
            return Ok(Self { invokername: String::decode(value)?, ..self });
        }
        if is_word(key, "invokeruid") {
            return Ok(Self { invokeruid: String::decode(value)?, ..self });
        }
        Ok(self)
    }
}

impl Decode for ChannelCreated {
    open spec fn decoded(buf: Seq<u8>) -> Result<SpecChannelCreated, SpecError> {
        decoded_record::<ChannelCreated>(buf)
    }

    fn decode(buf: &[u8]) -> (r: Result<Self, Error>) {
        decode_record(buf)
    }
}

/// Data for a `channeldeleted` event.
#[derive(Debug)]
pub struct ChannelDeleted {
    /// 0 if deleted by the server after exceeding the channel_delete_delay.
    pub invokerid: ClientId,
    /// "Server" if deleted by the server after exceeding the channel_delete_delay.
    pub invokername: String,
    /// Empty if deleted by the server after exceeding the channel_delete_delay.
    pub invokeruid: String,
    pub cid: ChannelId,
}

/// The view of a [`ChannelDeleted`].
pub struct SpecChannelDeleted {
    pub invokerid: ClientId,
    pub invokername: Seq<char>,
    pub invokeruid: Seq<char>,
    pub cid: ChannelId,
}

impl View for ChannelDeleted {
    type V = SpecChannelDeleted;

    open spec fn view(&self) -> SpecChannelDeleted {
        SpecChannelDeleted {
            invokerid: self.invokerid@,
            invokername: self.invokername@,
            invokeruid: self.invokeruid@,
            cid: self.cid@,
        }
    }
}

impl Default for ChannelDeleted {
    fn default() -> (r: Self)
        ensures
            r@ == Self::blank(),
    {
        ChannelDeleted {
            invokerid: ClientId(0),
            invokername: String::new(),
            invokeruid: String::new(),
            cid: ChannelId(0),
        }
    }
}

impl Record for ChannelDeleted {
    open spec fn blank() -> SpecChannelDeleted {
        SpecChannelDeleted {
            invokerid: ClientId(0),
            invokername: Seq::empty(),
            invokeruid: Seq::empty(),
            cid: ChannelId(0),
        }
    }

    open spec fn assigned(v: SpecChannelDeleted, key: Seq<u8>, value: Seq<u8>) -> Result<
        SpecChannelDeleted,
        SpecError,
    > {
        if key == word_bytes("invokerid") {
            put(ClientId::decoded(value), |x: ClientId| SpecChannelDeleted { invokerid: x, ..v })
        } else if key == word_bytes("invokername") {
            put(String::decoded(value), |x: Seq<char>| SpecChannelDeleted { invokername: x, ..v })
        } else if key == word_bytes("invokeruid") {
            put(String::decoded(value), |x: Seq<char>| SpecChannelDeleted { invokeruid: x, ..v })
        } else if key == word_bytes("cid") {
            put(ChannelId::decoded(value), |x: ChannelId| SpecChannelDeleted { cid: x, ..v })
        } else {
            Ok(v)
        }
    }

    fn empty() -> (r: Self) {
        Self::default()
    }

    fn assign(self, key: &[u8], value: &[u8]) -> (r: Result<Self, Error>) {
        if is_word(key, "invokerid") {
            return Ok(Self { invokerid: ClientId::decode(value)?, ..self });
        }
        if is_word(key, "invokername") {
            return Ok(Self { invokername: String::decode(value)?, ..self });
        }
        if is_word(key, "invokeruid") {
            return Ok(Self { invokeruid: String::decode(value)?, ..self });
        }
        if is_word(key, "cid") {
            return Ok(Self { cid: ChannelId::decode(value)?, ..self });
        }
        Ok(self)
    }
}

impl Decode for ChannelDeleted {
    open spec fn decoded(buf: Seq<u8>) -> Result<SpecChannelDeleted, SpecError> {
        decoded_record::<ChannelDeleted>(buf)
    }

    fn decode(buf: &[u8]) -> (r: Result<Self, Error>) {
        decode_record(buf)
    }
}

} // verus!
