//! The numbers that name servers, clients, channels and groups.

use vstd::prelude::*;
use crate::codec::{round_trips, Decode, Encode};
use crate::error::{Error, SpecError};
use crate::number::{decimal, lemma_u64_round_trip};

verus! {

/// The number of a virtual server.
#[derive(Copy, Clone, Debug, PartialEq, Eq, Structural, Hash)]
pub struct ServerId(pub u64);

impl View for ServerId {
    type V = ServerId;

    open spec fn view(&self) -> ServerId {
        *self
    }
}

impl Default for ServerId {
    fn default() -> (r: Self)
        ensures
            r == ServerId(0),
    {
        ServerId(0)
    }
}

impl Encode for ServerId {
    open spec fn encoded(&self) -> Seq<char> {
        decimal(self.0 as int)
    }

    fn encode(&self, buf: &mut String) {
        self.0.encode(buf)
    }
}

impl Decode for ServerId {
    open spec fn decoded(buf: Seq<u8>) -> Result<ServerId, SpecError> {
        match u64::decoded(buf) {
            Ok(n) => Ok(ServerId(n)),
            Err(e) => Err(e),
        }
    }

    fn decode(buf: &[u8]) -> (r: Result<Self, Error>) {
        match u64::decode(buf) {
            Ok(n) => Ok(ServerId(n)),
            Err(e) => Err(e),
        }
    }
}

/// The number of a client that is connected.
#[derive(Copy, Clone, Debug, PartialEq, Eq, Structural, Hash)]
pub struct ClientId(pub u64);

impl View for ClientId {
    type V = ClientId;

    open spec fn view(&self) -> ClientId {
        *self
    }
}

impl Default for ClientId {
    fn default() -> (r: Self)
        ensures
            r == ClientId(0),
    {
        ClientId(0)
    }
}

impl Encode for ClientId {
    open spec fn encoded(&self) -> Seq<char> {
        decimal(self.0 as int)
    }

    fn encode(&self, buf: &mut String) {
        self.0.encode(buf)
    }
}

impl Decode for ClientId {
    open spec fn decoded(buf: Seq<u8>) -> Result<ClientId, SpecError> {
        match u64::decoded(buf) {
            Ok(n) => Ok(ClientId(n)),
            Err(e) => Err(e),
        }
    }

    fn decode(buf: &[u8]) -> (r: Result<Self, Error>) {
        match u64::decode(buf) {
            Ok(n) => Ok(ClientId(n)),
            Err(e) => Err(e),
        }
    }
}

/// The number under which the database holds a client.
#[derive(Copy, Clone, Debug, PartialEq, Eq, Structural, Hash)]
pub struct ClientDatabaseId(pub u64);

impl View for ClientDatabaseId {
    type V = ClientDatabaseId;

    open spec fn view(&self) -> ClientDatabaseId {
        *self
    }
}

impl Default for ClientDatabaseId {
    fn default() -> (r: Self)
        ensures
            r == ClientDatabaseId(0),
    {
        ClientDatabaseId(0)
    }
}

impl Encode for ClientDatabaseId {
    open spec fn encoded(&self) -> Seq<char> {
        decimal(self.0 as int)
    }

    fn encode(&self, buf: &mut String) {
        self.0.encode(buf)
    }
}

impl Decode for ClientDatabaseId {
    open spec fn decoded(buf: Seq<u8>) -> Result<ClientDatabaseId, SpecError> {
        match u64::decoded(buf) {
            Ok(n) => Ok(ClientDatabaseId(n)),
            Err(e) => Err(e),
        }
    }

    fn decode(buf: &[u8]) -> (r: Result<Self, Error>) {
        match u64::decode(buf) {
            Ok(n) => Ok(ClientDatabaseId(n)),
            Err(e) => Err(e),
        }
    }
}

/// The number of a channel.
#[derive(Copy, Clone, Debug, PartialEq, Eq, Structural, Hash)]
pub struct ChannelId(pub u64);

impl View for ChannelId {
    type V = ChannelId;

    open spec fn view(&self) -> ChannelId {
        *self
    }
}

impl Default for ChannelId {
    fn default() -> (r: Self)
        ensures
            r == ChannelId(0),
    {
        ChannelId(0)
    }
}

impl Encode for ChannelId {
    open spec fn encoded(&self) -> Seq<char> {
        decimal(self.0 as int)
    }

    fn encode(&self, buf: &mut String) {
        self.0.encode(buf)
    }
}

impl Decode for ChannelId {
    open spec fn decoded(buf: Seq<u8>) -> Result<ChannelId, SpecError> {
        match u64::decoded(buf) {
            Ok(n) => Ok(ChannelId(n)),
            Err(e) => Err(e),
        }
    }

    fn decode(buf: &[u8]) -> (r: Result<Self, Error>) {
        match u64::decode(buf) {
            Ok(n) => Ok(ChannelId(n)),
            Err(e) => Err(e),
        }
    }
}

/// The number of a server group.
#[derive(Copy, Clone, Debug, PartialEq, Eq, Structural, Hash)]
pub struct ServerGroupId(pub u64);

impl View for ServerGroupId {
    type V = ServerGroupId;

    open spec fn view(&self) -> ServerGroupId {
        *self
    }
}

impl Default for ServerGroupId {
    fn default() -> (r: Self)
        ensures
            r == ServerGroupId(0),
    {
        ServerGroupId(0)
    }
}

impl Encode for ServerGroupId {
    open spec fn encoded(&self) -> Seq<char> {
        decimal(self.0 as int)
    }

    fn encode(&self, buf: &mut String) {
        self.0.encode(buf)
    }
}

impl Decode for ServerGroupId {
    open spec fn decoded(buf: Seq<u8>) -> Result<ServerGroupId, SpecError> {
        match u64::decoded(buf) {
            Ok(n) => Ok(ServerGroupId(n)),
            Err(e) => Err(e),
        }
    }

    fn decode(buf: &[u8]) -> (r: Result<Self, Error>) {
        match u64::decode(buf) {
            Ok(n) => Ok(ServerGroupId(n)),
            Err(e) => Err(e),
        }
    }
}

/// The number of a channel group.
#[derive(Copy, Clone, Debug, PartialEq, Eq, Structural, Hash)]
pub struct ChannelGroupId(pub u64);

impl View for ChannelGroupId {
    type V = ChannelGroupId;

    open spec fn view(&self) -> ChannelGroupId {
        *self
    }
}

impl Default for ChannelGroupId {
    fn default() -> (r: Self)
        ensures
            r == ChannelGroupId(0),
    {
        ChannelGroupId(0)
    }
}

impl Encode for ChannelGroupId {
    open spec fn encoded(&self) -> Seq<char> {
        decimal(self.0 as int)
    }

    fn encode(&self, buf: &mut String) {
        self.0.encode(buf)
    }
}

impl Decode for ChannelGroupId {
    open spec fn decoded(buf: Seq<u8>) -> Result<ChannelGroupId, SpecError> {
        match u64::decoded(buf) {
            Ok(n) => Ok(ChannelGroupId(n)),
            Err(e) => Err(e),
        }
    }

    fn decode(buf: &[u8]) -> (r: Result<Self, Error>) {
        match u64::decode(buf) {
            Ok(n) => Ok(ChannelGroupId(n)),
            Err(e) => Err(e),
        }
    }
}

/// Round trip of `ServerId`: what `encode` writes, `decode` reads back.
pub proof fn lemma_server_id_round_trip(value: ServerId)
    ensures
        round_trips(value),
{
    lemma_u64_round_trip(value.0);
}

/// Round trip of `ClientId`: what `encode` writes, `decode` reads back.
pub proof fn lemma_client_id_round_trip(value: ClientId)
    ensures
        round_trips(value),
{
    lemma_u64_round_trip(value.0);
}

/// Round trip of `ClientDatabaseId`: what `encode` writes, `decode` reads back.
pub proof fn lemma_client_database_id_round_trip(value: ClientDatabaseId)
    ensures
        round_trips(value),
{
    lemma_u64_round_trip(value.0);
}

/// Round trip of `ChannelId`: what `encode` writes, `decode` reads back.
pub proof fn lemma_channel_id_round_trip(value: ChannelId)
    ensures
        round_trips(value),
{
    lemma_u64_round_trip(value.0);
}

/// Round trip of `ServerGroupId`: what `encode` writes, `decode` reads back.
pub proof fn lemma_server_group_id_round_trip(value: ServerGroupId)
    ensures
        round_trips(value),
{
    lemma_u64_round_trip(value.0);
}

/// Round trip of `ChannelGroupId`: what `encode` writes, `decode` reads back.
pub proof fn lemma_channel_group_id_round_trip(value: ChannelGroupId)
    ensures
        round_trips(value),
{
    lemma_u64_round_trip(value.0);
}

} // verus!
