//! The identity context and the stream key it derives.
//!
//! A trader identifier and an instance identifier are supplied once at
//! construction and fix the per-adapter namespace on the durable log:
//! `prefix:trader_id:instance_id`, as UTF-8 bytes with `:` between the
//! parts.

use vstd::prelude::*;
use vstd::string::StrSliceExecFns;
use vstd::string::StringExecFns;
use vstd::string::StringSliceAdditionalSpecFns;
use vstd::utf8::encode_utf8;

use crate::errors::ConstructionError;

verus! {

/// The byte `:` that separates the parts of a stream key.
pub open spec fn key_separator() -> u8 {
    58u8
}

/// The stream key derived from a prefix and the two identifiers.
pub open spec fn stream_key_spec(prefix: Seq<char>, trader: Seq<char>, instance: Seq<char>) -> Seq<
    u8,
> {
    encode_utf8(prefix) + seq![key_separator()] + encode_utf8(trader) + seq![key_separator()]
        + encode_utf8(instance)
}

/// Who this adapter publishes and reads for. Immutable for the adapter's
/// lifetime; used only to derive the stream key namespace.
pub struct IdentityContext {
    trader_id: String,
    instance_id: String,
}

impl IdentityContext {
    /// The trader identifier's characters.
    pub closed spec fn trader(&self) -> Seq<char> {
        self.trader_id@
    }

    /// The instance identifier's characters.
    pub closed spec fn instance(&self) -> Seq<char> {
        self.instance_id@
    }

    /// Accepts the two identifiers; each must be non-empty.
    pub fn new(trader_id: String, instance_id: String) -> (r: Result<
        IdentityContext,
        ConstructionError,
    >)
        ensures
            match r {
                Ok(id) => {
                    &&& trader_id@.len() > 0
                    &&& instance_id@.len() > 0
                    &&& id.trader() == trader_id@
                    &&& id.instance() == instance_id@
                },
                Err(e) => {
                    &&& (e == ConstructionError::EmptyTraderId || e
                        == ConstructionError::EmptyInstanceId)
                    &&& (e == ConstructionError::EmptyTraderId <==> trader_id@.len() == 0)
                    &&& (e == ConstructionError::EmptyInstanceId ==> trader_id@.len() > 0
                        && instance_id@.len() == 0)
                },
            },
            r is Ok <==> trader_id@.len() > 0 && instance_id@.len() > 0,
    {
        if trader_id.as_str().is_empty() {
            return Err(ConstructionError::EmptyTraderId);
        }
        if instance_id.as_str().is_empty() {
            return Err(ConstructionError::EmptyInstanceId);
        }
        Ok(IdentityContext { trader_id, instance_id })
    }

    /// A copy of the trader identifier.
    pub fn trader_id(&self) -> (s: String)
        ensures
            s@ == self.trader(),
    {
        String::from_str(self.trader_id.as_str())
    }

    /// A copy of the instance identifier.
    pub fn instance_id(&self) -> (s: String)
        ensures
            s@ == self.instance(),
    {
        String::from_str(self.instance_id.as_str())
    }

    /// Derives the stream key bytes under the given prefix.
    pub fn derive_stream_key(&self, prefix: &str) -> (key: Vec<u8>)
        ensures
            key@ == stream_key_spec(prefix@, self.trader(), self.instance()),
    {
        let mut key = prefix.as_bytes_vec();
        key.push(58u8);
        let mut trader = self.trader_id.as_str().as_bytes_vec();
        key.append(&mut trader);
        key.push(58u8);
        let mut instance = self.instance_id.as_str().as_bytes_vec();
        key.append(&mut instance);
        proof {
            assert(key@ =~= stream_key_spec(prefix@, self.trader(), self.instance()));
        }
        key
    }
}

} // verus!
