//! The game server's own settings as the manager presents them: the server
//! description (name, player limit, port, invite code) and the world
//! description (name, seed), with the defaults used when a file is missing
//! or a field is absent.
use vstd::prelude::*;
use crate::text::opt_chars;
use crate::text::{trim, trimmed, concat};
use crate::files::{
    json_has_at, json_object_at, json_parse_error, json_text_field, json_u64_field, parse_json,
};

verus! {

broadcast use vstd::string::group_string_axioms;

/// The managed server's main settings.
pub struct ServerConfig {
    pub server_name: String,
    pub max_players: u32,
    pub port: u16,
    pub invite_code: Option<String>,
    /// Settings the manager does not interpret, kept as they were read.
    pub extra: serde_json::Value,
}

/// The world's settings.
pub struct WorldConfig {
    pub world_name: String,
    pub seed: Option<String>,
    /// Settings the manager does not interpret, kept as they were read.
    pub extra: serde_json::Value,
}

/// `serde_json::Value::Object` of an empty `serde_json::Map`.
#[verifier::external_body]
fn empty_json_object() -> (r: serde_json::Value) {
    serde_json::Value::Object(serde_json::Map::new())
}

/// The settings shown when no server description can be found.
pub fn default_server_config() -> (r: ServerConfig)
    ensures
        r.server_name@ == "Windrose Server"@,
        r.max_players == 10,
        r.port == 7777,
        r.invite_code is None,
{
    ServerConfig {
        server_name: "Windrose Server".to_string(),
        max_players: 10,
        port: 7777,
        invite_code: None,
        extra: empty_json_object(),
    }
}

/// The settings shown when no world description can be found.
pub fn default_world_config() -> (r: WorldConfig)
    ensures
        r.world_name@ == "Windrose World"@,
        r.seed is None,
{
    WorldConfig { world_name: "Windrose World".to_string(), seed: None, extra: empty_json_object() }
}

/// The fields of a `ServerDescription_Persistent` section, as found: the
/// text of `ServerName` and `InviteCode`, and the unsigned values of
/// `MaxPlayerCount` and of the top-level `Port`.
pub struct ServerDescriptionFields {
    pub server_name: Option<String>,
    pub max_player_count: Option<u64>,
    pub port: Option<u64>,
    pub invite_code: Option<String>,
}

/// The invite code kept from a description: trimmed, and absent when empty.
pub open spec fn kept_invite_code(code: Option<Seq<char>>) -> Option<Seq<char>> {
    match code {
        Some(c) => if trim(c).len() == 0 {
            None
        } else {
            Some(trim(c))
        },
        None => None,
    }
}

/// The settings a server description gives: absent fields take their
/// defaults (name `Windrose Server`, 10 players, port 0 meaning "the
/// manager's port"); numbers are cut to the width of their field, as `as`
/// casts do.
pub fn server_config_from_description(fields: ServerDescriptionFields) -> (r: ServerConfig)
    ensures
        r.server_name@ == (match fields.server_name {
            Some(n) => n@,
            None => "Windrose Server"@,
        }),
        r.max_players == (match fields.max_player_count {
            Some(m) => m as u32,
            None => 10u32,
        }),
        r.port == (match fields.port {
            Some(p) => p as u16,
            None => 0u16,
        }),
        opt_chars(r.invite_code) == kept_invite_code(opt_chars(fields.invite_code)),
{
    let server_name = match fields.server_name {
        Some(n) => n,
        None => "Windrose Server".to_string(),
    };
    let max_players: u32 = match fields.max_player_count {
        Some(m) => m as u32,
        None => 10,
    };
    let port: u16 = match fields.port {
        Some(p) => p as u16,
        None => 0,
    };
    let invite_code = match fields.invite_code {
        Some(c) => {
            let t = trimmed(c.as_str());
            if t.as_str().is_empty() {
                None
            } else {
                Some(t)
            }
        },
        None => None,
    };
    ServerConfig { server_name, max_players, port, invite_code, extra: empty_json_object() }
}

/// The port shown for the server: the description's, or the manager's own
/// port when the description gives none (0).
pub fn effective_port(description_port: u16, manager_port: u16) -> (r: u16)
    ensures
        r == (if description_port == 0 {
            manager_port
        } else {
            description_port
        }),
{
    if description_port == 0 {
        manager_port
    } else {
        description_port
    }
}

/// The settings a world description gives: `WorldName` (default
/// `Windrose World`) and the `islandId` as seed.
pub fn world_config_from_description(world_name: Option<String>, island_id: Option<String>) -> (r:
    WorldConfig)
    ensures
        r.world_name@ == (match world_name {
            Some(n) => n@,
            None => "Windrose World"@,
        }),
        r.seed == island_id,
{
    let world_name = match world_name {
        Some(n) => n,
        None => "Windrose World".to_string(),
    };
    WorldConfig { world_name, seed: island_id, extra: empty_json_object() }
}

/// A configuration file as the manager reads it: the settings found in the
/// game's own description section, or, for a file without that section, the
/// whole parsed value, which holds the settings in the manager's own layout.
pub enum ParsedConfig<T> {
    Described(T),
    Plain(serde_json::Value),
}

/// The path of one key in a JSON document.
pub open spec fn key_path(a: Seq<char>) -> Seq<Seq<char>> {
    seq![a]
}

/// The path of a key inside a section of a JSON document.
pub open spec fn key_path2(a: Seq<char>, b: Seq<char>) -> Seq<Seq<char>> {
    seq![a, b]
}

/// The settings a `ServerDescription.json` text gives, as a spec: its
/// `ServerDescription_Persistent` section must be an object; `ServerName`,
/// `MaxPlayerCount` and `InviteCode` are read in it, `Port` at the top.
pub open spec fn server_described(c: ServerConfig, text: Seq<char>) -> bool {
    let sec = "ServerDescription_Persistent"@;
    &&& c.server_name@ == (match json_text_field(text, key_path2(sec, "ServerName"@)) {
        Some(n) => n,
        None => "Windrose Server"@,
    })
    &&& c.max_players == (match json_u64_field(text, key_path2(sec, "MaxPlayerCount"@)) {
        Some(m) => m as u32,
        None => 10u32,
    })
    &&& c.port == (match json_u64_field(text, key_path("Port"@)) {
        Some(p) => p as u16,
        None => 0u16,
    })
    &&& opt_chars(c.invite_code) == kept_invite_code(
        json_text_field(text, key_path2(sec, "InviteCode"@)),
    )
}

/// Reads the text of a server description file. Text that is not JSON is
/// refused with the parser's message; a `ServerDescription_Persistent`
/// section that is not an object is refused; a file with that section gives
/// the settings it describes, and one without it is handed back whole, to be
/// read in the manager's own layout.
pub fn server_config_from_text(raw: &str) -> (r: Result<ParsedConfig<ServerConfig>, String>)
    ensures
        match json_parse_error(raw@) {
            Some(d) => r matches Err(e) && e@ == "Failed to parse server config: "@ + d,
            None => if !json_has_at(raw@, key_path("ServerDescription_Persistent"@)) {
                r matches Ok(ParsedConfig::Plain(_))
            } else if !json_object_at(raw@, key_path("ServerDescription_Persistent"@)) {
                r matches Err(e) && e@ == "ServerDescription_Persistent must be an object"@
            } else {
                r matches Ok(ParsedConfig::Described(c)) && server_described(c, raw@)
            },
        },
{
    let doc = match parse_json(raw) {
        Ok(d) => d,
        Err(e) => return Err(concat("Failed to parse server config: ", e.as_str())),
    };
    let described = {
        let root = doc.root();
        let ghost sec = "ServerDescription_Persistent"@;
        assert(root.path().push(sec) =~= key_path(sec));
        assert(root.path().push("Port"@) =~= key_path("Port"@));
        match root.child("ServerDescription_Persistent") {
            Some(inner) => {
                assert(inner.path().push("ServerName"@) =~= key_path2(sec, "ServerName"@));
                assert(inner.path().push("MaxPlayerCount"@) =~= key_path2(sec, "MaxPlayerCount"@));
                assert(inner.path().push("InviteCode"@) =~= key_path2(sec, "InviteCode"@));
                if !inner.is_object() {
                    return Err("ServerDescription_Persistent must be an object".to_string());
                }
                let fields = ServerDescriptionFields {
                    server_name: inner.text_field("ServerName"),
                    max_player_count: inner.u64_field("MaxPlayerCount"),
                    port: root.u64_field("Port"),
                    invite_code: inner.text_field("InviteCode"),
                };
                Some(server_config_from_description(fields))
            },
            None => None,
        }
    };
    match described {
        Some(c) => Ok(ParsedConfig::Described(c)),
        None => Ok(ParsedConfig::Plain(doc.into_value())),
    }
}

/// The settings a `WorldDescription.json` text gives, as a spec: `WorldName`
/// and `islandId` are read in its `WorldDescription` section.
pub open spec fn world_described(c: WorldConfig, text: Seq<char>) -> bool {
    let sec = "WorldDescription"@;
    &&& c.world_name@ == (match json_text_field(text, key_path2(sec, "WorldName"@)) {
        Some(n) => n,
        None => "Windrose World"@,
    })
    &&& opt_chars(c.seed) == json_text_field(text, key_path2(sec, "islandId"@))
}

/// Reads the text of a world description file, as `server_config_from_text`
/// does with its `WorldDescription` section.
pub fn world_config_from_text(raw: &str) -> (r: Result<ParsedConfig<WorldConfig>, String>)
    ensures
        match json_parse_error(raw@) {
            Some(d) => r matches Err(e) && e@ == "Failed to parse world config: "@ + d,
            None => if !json_has_at(raw@, key_path("WorldDescription"@)) {
                r matches Ok(ParsedConfig::Plain(_))
            } else if !json_object_at(raw@, key_path("WorldDescription"@)) {
                r matches Err(e) && e@ == "WorldDescription must be an object"@
            } else {
                r matches Ok(ParsedConfig::Described(c)) && world_described(c, raw@)
            },
        },
{
    let doc = match parse_json(raw) {
        Ok(d) => d,
        Err(e) => return Err(concat("Failed to parse world config: ", e.as_str())),
    };
    let described = {
        let root = doc.root();
        let ghost sec = "WorldDescription"@;
        assert(root.path().push(sec) =~= key_path(sec));
        match root.child("WorldDescription") {
            Some(inner) => {
                assert(inner.path().push("WorldName"@) =~= key_path2(sec, "WorldName"@));
                assert(inner.path().push("islandId"@) =~= key_path2(sec, "islandId"@));
                if !inner.is_object() {
                    return Err("WorldDescription must be an object".to_string());
                }
                Some(world_config_from_description(inner.text_field("WorldName"), inner.text_field("islandId")))
            },
            None => None,
        }
    };
    match described {
        Some(c) => Ok(ParsedConfig::Described(c)),
        None => Ok(ParsedConfig::Plain(doc.into_value())),
    }
}

} // verus!
