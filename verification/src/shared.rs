//! Types shared between requests and responses.

pub mod list;

use vstd::prelude::*;
use vstd::string::StringExecFns;
use crate::codec::{lemma_unescape_plain, round_trips, Decode, Encode};
use crate::error::{DecodeError, Error, ErrorKind, SpecDecodeError, SpecError};
use crate::wire::str_eq;

pub use crate::types::{
    ChannelGroupId, ChannelId, ClientDatabaseId, ClientId, ServerGroupId, ServerId,
};
pub use list::List;

verus! {

/// What an API key allows.
#[derive(Copy, Clone, Debug, PartialEq, Eq, Structural, Hash)]
pub enum ApiKeyScope {
    Manage,
    Write,
    Read,
}

impl ApiKeyScope {
    pub const MANAGE: &'static str = "manage";

    pub const WRITE: &'static str = "write";

    pub const READ: &'static str = "read";
}

impl View for ApiKeyScope {
    type V = ApiKeyScope;

    open spec fn view(&self) -> ApiKeyScope {
        *self
    }
}

impl Default for ApiKeyScope {
    fn default() -> (r: Self)
        ensures
            r == ApiKeyScope::Manage,
    {
        Self::Manage
    }
}

impl Encode for ApiKeyScope {
    /// The word that names the scope.
    open spec fn encoded(&self) -> Seq<char> {
        match self {
            ApiKeyScope::Manage => Self::MANAGE@,
            ApiKeyScope::Write => Self::WRITE@,
            ApiKeyScope::Read => Self::READ@,
        }
    }

    fn encode(&self, buf: &mut String) {
        match self {
            Self::Manage => buf.append(Self::MANAGE),
            Self::Write => buf.append(Self::WRITE),
            Self::Read => buf.append(Self::READ),
        }
    }
}

impl Decode for ApiKeyScope {
    /// The scope that the unescaped text names; any other text is
    /// `InvalidApiKeyScope` with that text.
    open spec fn decoded(buf: Seq<u8>) -> Result<ApiKeyScope, SpecError> {
        match String::decoded(buf) {
            Ok(s) => {
                if s == Self::MANAGE@ {
                    Ok(ApiKeyScope::Manage)
                } else if s == Self::WRITE@ {
                    Ok(ApiKeyScope::Write)
                } else if s == Self::READ@ {
                    Ok(ApiKeyScope::Read)
                } else {
                    Err(SpecError::Decode(SpecDecodeError::InvalidApiKeyScope(s)))
                }
            },
            Err(e) => Err(e),
        }
    }

    fn decode(buf: &[u8]) -> (r: Result<Self, Error>) {
        let s = match String::decode(buf) {
            Ok(s) => s,
            Err(e) => {
                return Err(e);
            },
        };
        if str_eq(s.as_str(), Self::MANAGE) {
            Ok(Self::Manage)
        } else if str_eq(s.as_str(), Self::WRITE) {
            Ok(Self::Write)
        } else if str_eq(s.as_str(), Self::READ) {
            Ok(Self::Read)
        } else {
            Err(Error(ErrorKind::Decode(DecodeError::InvalidApiKeyScope(s))))
        }
    }
}

/// Round trip of scopes: what `encode` writes, `decode` reads back.
pub proof fn lemma_scope_round_trip(scope: ApiKeyScope)
    ensures
        round_trips(scope),
{
    reveal_strlit("manage");
    reveal_strlit("write");
    reveal_strlit("read");
    let text = scope.encoded();
    lemma_unescape_plain(text);
    assert(ApiKeyScope::MANAGE@.len() == 6);
    assert(ApiKeyScope::WRITE@.len() == 5);
    assert(ApiKeyScope::READ@.len() == 4);
}

} // verus!
