//! The two settings tables: the client settings of the `[common]` section
//! and the proxies. What a request changes in them is decided here; the
//! database calls that carry it out stand outside the library.

use vstd::prelude::*;

use crate::response::Response;
use crate::text::same_text;

verus! {

/// One client setting, a row of the `client_setting` table.
pub struct Cfg {
    pub key: String,
    pub default_value: Option<String>,
    pub value: String,
    pub desc: String,
    pub options: Option<String>,
    pub remark: Option<String>,
    pub set_type: String,
}

/// One proxy, a row of the `proxy_setting` table. `base`, `local`, `slb` and
/// `proxy_type_value` hold the JSON text of the option groups.
pub struct ProxyTable {
    pub id: Option<String>,
    pub name: String,
    pub base: String,
    pub local: String,
    pub slb: String,
    pub proxy_type: String,
    pub proxy_type_value: String,
    pub enabled: bool,
}

/// How the `enabled` flag is stored in the table.
pub open spec fn enabled_spec(enabled: bool) -> Seq<char> {
    if enabled { "true"@ } else { "false"@ }
}

/// How a stored `enabled` column is read back: only `true` enables.
pub open spec fn parse_enabled_spec(stored: Seq<char>) -> bool {
    stored == "true"@
}

/// The id under which an edit or a toggle looks the proxy up: its own, or
/// `-1`, which no row has, when it came without one.
pub open spec fn lookup_id_spec(id: Option<String>) -> Seq<char> {
    match id {
        Some(i) => i@,
        None => "-1"@,
    }
}

/// The text stored for the `enabled` flag, as `enabled.to_string()` writes it.
pub fn enabled_text(enabled: bool) -> (s: &'static str)
    ensures
        s@ == enabled_spec(enabled),
{
    if enabled { "true" } else { "false" }
}

/// Reads a stored `enabled` column.
pub fn parse_enabled(stored: &str) -> (enabled: bool)
    ensures
        enabled == parse_enabled_spec(stored@),
{
    same_text(stored, "true")
}

/// What is written into the table is read back unchanged: the flag stored by
/// `enabled_text` is the flag that `parse_enabled` reads.
pub proof fn enabled_round_trip(enabled: bool)
    ensures
        parse_enabled_spec(enabled_spec(enabled)) == enabled,
{
    reveal_strlit("true");
    reveal_strlit("false");
    if !enabled {
        assert("false"@[0] != "true"@[0]);
    }
}

impl Cfg {
    /// The parameters of `update client_setting set value=?1 where key=?2`.
    pub fn update_params(&self) -> (params: Vec<String>)
        ensures
            params.deep_view() == seq![self.value@, self.key@],
    {
        let mut params = Vec::new();
        params.push(self.value.clone());
        params.push(self.key.clone());
        assert(params.deep_view() =~= seq![self.value@, self.key@]);
        params
    }
}

impl ProxyTable {
    /// The id used to look the proxy up.
    pub fn lookup_id(&self) -> (id: String)
        ensures
            id@ == lookup_id_spec(self.id),
    {
        match &self.id {
            Some(i) => i.clone(),
            None => "-1".to_owned(),
        }
    }

    /// The parameters of the insert of a new proxy under the id `id`: id,
    /// name, base, local, slb, proxy type, proxy type value, enabled.
    pub fn insert_params(&self, id: String) -> (params: Vec<String>)
        ensures
            params.deep_view() == seq![
                id@, self.name@, self.base@, self.local@, self.slb@,
                self.proxy_type@, self.proxy_type_value@, enabled_spec(self.enabled),
            ],
    {
        let ghost id_view = id@;
        let mut params = Vec::new();
        params.push(id);
        params.push(self.name.clone());
        params.push(self.base.clone());
        params.push(self.local.clone());
        params.push(self.slb.clone());
        params.push(self.proxy_type.clone());
        params.push(self.proxy_type_value.clone());
        params.push(enabled_text(self.enabled).to_owned());
        assert(params.deep_view() =~= seq![
            id_view, self.name@, self.base@, self.local@, self.slb@,
            self.proxy_type@, self.proxy_type_value@, enabled_spec(self.enabled),
        ]);
        params
    }

    /// The parameters of the insert of this proxy under a fresh random id.
    pub fn add_params(&self) -> (params: Vec<String>)
        ensures
            params@.len() == 8,
            is_proxy_id(params@[0]@),
            params.deep_view().drop_first() == seq![
                self.name@, self.base@, self.local@, self.slb@,
                self.proxy_type@, self.proxy_type_value@, enabled_spec(self.enabled),
            ],
    {
        let id = new_proxy_id();
        let params = self.insert_params(id);
        assert(params.deep_view().drop_first() =~= seq![
            self.name@, self.base@, self.local@, self.slb@,
            self.proxy_type@, self.proxy_type_value@, enabled_spec(self.enabled),
        ]);
        params
    }

    /// The parameters of the update of an edited proxy: name, base, local,
    /// slb, proxy type, proxy type value, then the id that selects the row.
    pub fn edit_params(&self) -> (params: Vec<String>)
        ensures
            params.deep_view() == seq![
                self.name@, self.base@, self.local@, self.slb@,
                self.proxy_type@, self.proxy_type_value@, lookup_id_spec(self.id),
            ],
    {
        let mut params = Vec::new();
        params.push(self.name.clone());
        params.push(self.base.clone());
        params.push(self.local.clone());
        params.push(self.slb.clone());
        params.push(self.proxy_type.clone());
        params.push(self.proxy_type_value.clone());
        params.push(self.lookup_id());
        assert(params.deep_view() =~= seq![
            self.name@, self.base@, self.local@, self.slb@,
            self.proxy_type@, self.proxy_type_value@, lookup_id_spec(self.id),
        ]);
        params
    }

    /// The parameters of the update that switches a proxy on or off: the new
    /// flag, then the id that selects the row.
    pub fn toggle_params(&self) -> (params: Vec<String>)
        ensures
            params.deep_view() == seq![enabled_spec(self.enabled), lookup_id_spec(self.id)],
    {
        let mut params = Vec::new();
        params.push(enabled_text(self.enabled).to_owned());
        params.push(self.lookup_id());
        assert(params.deep_view() =~= seq![enabled_spec(self.enabled), lookup_id_spec(self.id)]);
        params
    }
}

/// Whether `c` is a lower-case hexadecimal digit.
pub open spec fn is_lower_hex(c: char) -> bool {
    ('0' <= c && c <= '9') || ('a' <= c && c <= 'f')
}

/// A version-4 UUID in its hyphenated lower-case form: 36 characters,
/// hyphens at 8, 13, 18 and 23, lower-case hexadecimal digits elsewhere, the
/// version digit `4` at 14 and the variant digit (`8`, `9`, `a` or `b`) at 19.
pub open spec fn is_proxy_id(s: Seq<char>) -> bool {
    &&& s.len() == 36
    &&& forall|i: int|
        0 <= i < 36 ==> if i == 8 || i == 13 || i == 18 || i == 23 {
            s[i] == '-'
        } else {
            is_lower_hex(#[trigger] s[i])
        }
    &&& s[14] == '4'
    &&& (s[19] == '8' || s[19] == '9' || s[19] == 'a' || s[19] == 'b')
}

/// A fresh random id: `uuid::Uuid::new_v4().to_string()`. `new_v4` sets the
/// version bits to 4 and the variant bits to `10`, and the crate's `Display`
/// writes the hyphenated lower-case form; that is all that is claimed.
/// Which UUID comes back is left open, as it is random.
#[verifier::external_body]
fn new_proxy_id() -> (id: String)
    ensures
        is_proxy_id(id@),
{
    uuid::Uuid::new_v4().to_string()
}

/// What a write to the proxy table leads to: whether the frpc service is to
/// be restarted with the new configuration, and the reply to send after that.
pub struct WriteOutcome<'a> {
    pub restart: bool,
    pub reply: Response<'a, Option<String>>,
}

/// The outcome of a proxy insert, update or delete that changed `affected`
/// rows: exactly one row means success, a restart and the success reply; any
/// other count means the failure reply with `fail_msg`, and no restart.
pub fn proxy_write_outcome<'a>(affected: usize, fail_msg: Option<&'a str>) -> (out: WriteOutcome<'a>)
    ensures
        out.restart == (affected == 1),
        out.restart ==> out.reply.is_ok_of(None, None),
        !out.restart ==> out.reply.is_fail_of(None, fail_msg),
{
    if affected != 1 {
        WriteOutcome { restart: false, reply: Response::fail(None, fail_msg) }
    } else {
        WriteOutcome { restart: true, reply: Response::ok(None, None) }
    }
}

/// Why a settings update was refused.
pub enum SettingError {
    /// The update did not change exactly one row.
    UpdateFailed,
}

impl SettingError {
    /// The message reported for the error.
    pub fn message(&self) -> (msg: &'static str)
        ensures
            msg@ == "update failed"@,
    {
        "update failed"
    }
}

/// The outcome of `update client_setting` that changed `affected` rows: on
/// exactly one row the service is restarted and the reply is `ok`; otherwise
/// the update failed.
pub fn setting_update_outcome(affected: usize) -> (out: Result<&'static str, SettingError>)
    ensures
        affected == 1 <==> out is Ok,
        out matches Ok(r) ==> r@ == "ok"@,
{
    if affected != 1 {
        Err(SettingError::UpdateFailed)
    } else {
        Ok("ok")
    }
}

} // verus!
