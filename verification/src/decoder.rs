//! Decoding of data-frame payloads into configuration documents.
//!
//! A payload is a JSON document of the shape `{"settings": {...}}`. The JSON
//! work is done by `serde_json` behind trusted wrappers; each opaque setting
//! value is carried as its compact JSON text, so the rest of the library
//! works on plain strings.

use vstd::prelude::*;

use crate::errors::ConfigError;

verus! {

/// What decoding UTF-8 bytes yields: the characters, or nothing when the
/// bytes are not valid UTF-8. The result depends on the bytes alone.
pub uninterp spec fn utf8_chars(bytes: Seq<u8>) -> Option<Seq<char>>;

/// What deserializing a payload as `{"settings": {...}}` yields: the
/// settings as (key, compact JSON text of the value) pairs, or nothing when
/// the payload is malformed or not of that shape. The result depends on the
/// payload alone.
pub uninterp spec fn settings_of(payload: Seq<char>) -> Option<Seq<(Seq<char>, Seq<char>)>>;

/// Relies on `String::from_utf8`: it returns `Ok` exactly on valid UTF-8,
/// and the characters are a function of the bytes alone.
#[verifier::external_body]
fn decode_utf8(bytes: &Vec<u8>) -> (r: Option<Vec<char>>)
    ensures
        match r {
            Some(v) => utf8_chars(bytes@) == Some(v@),
            None => utf8_chars(bytes@) is None,
        },
{
    match String::from_utf8(bytes.clone()) {
        Ok(s) => Some(s.chars().collect()),
        Err(_) => None,
    }
}

/// Decodes one received byte chunk into characters; a chunk that is not
/// valid UTF-8 is discarded rather than treated as fatal.
pub fn chunk_to_chars(bytes: &Vec<u8>) -> (r: Option<Vec<char>>)
    ensures
        match r {
            Some(v) => utf8_chars(bytes@) == Some(v@),
            None => utf8_chars(bytes@) is None,
        },
{
    decode_utf8(bytes)
}

/// The view of decoded settings: each entry as (key, value text).
pub open spec fn entries_view(entries: Seq<(String, String)>) -> Seq<(Seq<char>, Seq<char>)> {
    entries.map_values(|p: (String, String)| (p.0@, p.1@))
}

/// Relies on `serde_json::from_str::<Value>`, `Value::get`,
/// `Value::as_object` and `Display for Value`: the payload parses to a JSON
/// document or fails deterministically; `get("settings")` is `Some` exactly
/// when the document is an object with that key; `as_object` is `Some`
/// exactly when that value is an object; `Display` writes each value as
/// compact JSON. The whole result is a function of the payload alone.
#[verifier::external_body]
fn parse_settings(payload: &Vec<char>) -> (r: Option<Vec<(String, String)>>)
    ensures
        match r {
            Some(v) => settings_of(payload@) == Some(entries_view(v@)),
            None => settings_of(payload@) is None,
        },
{
    let text: String = payload.iter().collect();
    let doc: serde_json::Value = match serde_json::from_str(&text) {
        Ok(d) => d,
        Err(_) => return None,
    };
    match doc.get("settings").and_then(serde_json::Value::as_object) {
        Some(obj) => Some(obj.iter().map(|(k, v)| (k.clone(), v.to_string())).collect()),
        None => None,
    }
}

/// A server-managed configuration document: an opaque, immutable mapping
/// from string keys to structured values. Each value is carried as its
/// compact JSON text. Updates replace the whole document, never merge.
#[derive(Debug)]
pub struct ServerConfig {
    /// The (key, value text) pairs of the `settings` mapping.
    pub settings: Vec<(String, String)>,
}

impl View for ServerConfig {
    type V = Seq<(Seq<char>, Seq<char>)>;

    open spec fn view(&self) -> Self::V {
        entries_view(self.settings@)
    }
}

impl Clone for ServerConfig {
    /// An independent copy with the same entries.
    fn clone(&self) -> (r: Self)
        ensures
            r@ == self@,
    {
        let mut settings: Vec<(String, String)> = Vec::new();
        let mut i: usize = 0;
        proof {
            assert(settings@ =~= self.settings@.subrange(0, 0));
        }
        while i < self.settings.len()
            invariant
                i <= self.settings@.len(),
                settings@ == self.settings@.subrange(0, i as int),
            decreases self.settings@.len() - i,
        {
            let kv = &self.settings[i];
            settings.push((kv.0.clone(), kv.1.clone()));
            i += 1;
            proof {
                assert(settings@.last() =~= self.settings@[i - 1]);
                assert(settings@ =~= self.settings@.subrange(0, i as int));
            }
        }
        proof {
            assert(self.settings@.subrange(0, i as int) =~= self.settings@);
        }
        ServerConfig { settings }
    }
}

/// Parses a data-frame payload into a configuration document. Malformed
/// syntax or a wrong shape yields a non-fatal decode failure; it never
/// affects the connection.
pub fn decode_config(payload: &Vec<char>) -> (r: Result<ServerConfig, ConfigError>)
    ensures
        match settings_of(payload@) {
            Some(s) => r matches Ok(c) && c@ == s,
            None => r matches Err(e) && e is JsonParse,
        },
{
    match parse_settings(payload) {
        Some(entries) => Ok(ServerConfig { settings: entries }),
        None => Err(ConfigError::JsonParse("malformed configuration payload".to_owned())),
    }
}

/// What one received byte chunk contributes: the settings of its decoded
/// data-frame payload, or nothing when the chunk is not valid UTF-8, is not
/// a data frame, or does not decode.
pub open spec fn chunk_config(bytes: Seq<u8>) -> Option<Seq<(Seq<char>, Seq<char>)>> {
    match utf8_chars(bytes) {
        Some(text) => if crate::frame::is_data_frame(text) {
            settings_of(crate::frame::data_payload(text))
        } else {
            None
        },
        None => None,
    }
}

/// Decoding is deterministic and side-effect-free: two decodes of the same
/// payload yield structurally equal configurations.
pub proof fn lemma_decode_deterministic(payload: Seq<char>, c1: ServerConfig, c2: ServerConfig)
    requires
        settings_of(payload) == Some(c1@),
        settings_of(payload) == Some(c2@),
    ensures
        c1@ == c2@,
{
}

} // verus!
