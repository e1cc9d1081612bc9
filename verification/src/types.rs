//! The option groups of a proxy and the `key=value` lines that each of them
//! contributes to the frpc configuration.

use vstd::prelude::*;

verus! {

/// The line `key=value` for a field that is set, and the empty line for one
/// that is not (empty lines are dropped from the configuration later).
pub open spec fn field_line(key: Seq<char>, value: Option<String>) -> Seq<char> {
    match value {
        Some(v) => key + "="@ + v@,
        None => Seq::<char>::empty(),
    }
}

fn generate_string(key: &str, value: &Option<String>) -> (line: String)
    ensures
        line@ == field_line(key@, *value),
{
    match value {
        Some(v) => crate::text::concat3(key, "=", v.as_str()),
        None => String::new(),
    }
}

fn push_field(vec: &mut Vec<String>, key: &str, value: &Option<String>)
    ensures
        final(vec).deep_view() == old(vec).deep_view().push(field_line(key@, *value)),
{
    let line = generate_string(key, value);
    vec.push(line);
    assert(final(vec).deep_view() =~= old(vec).deep_view().push(field_line(key@, *value)));
}

/// A proxy's transport options: encryption, compression, PROXY protocol and bandwidth.
pub struct Base {
    pub use_encryption: Option<String>,
    pub use_compression: Option<String>,
    pub proxy_protocol_version: Option<String>,
    pub bandwidth_limit: Option<String>,
}

impl Base {
    /// The lines of these options, one per field, in declaration order.
    pub open spec fn lines(&self) -> Seq<Seq<char>> {
        seq![
            field_line("use_encryption"@, self.use_encryption),
            field_line("use_compression"@, self.use_compression),
            field_line("proxy_protocol_version"@, self.proxy_protocol_version),
            field_line("bandwidth_limit"@, self.bandwidth_limit),
        ]
    }

    /// Appends the lines of these options to `vec`, keeping what it held.
    pub fn insert_to_vec(&self, vec: &mut Vec<String>)
        ensures
            final(vec).deep_view() == old(vec).deep_view() + self.lines(),
    {
        push_field(vec, "use_encryption", &self.use_encryption);
        push_field(vec, "use_compression", &self.use_compression);
        push_field(vec, "proxy_protocol_version", &self.proxy_protocol_version);
        push_field(vec, "bandwidth_limit", &self.bandwidth_limit);
        assert(final(vec).deep_view() =~= old(vec).deep_view() + self.lines());
    }
}

/// Where a proxy forwards to: the local address and port, or a plugin with its parameters.
pub struct Local {
    pub local_ip: Option<String>,
    pub local_port: Option<String>,
    pub plugin: Option<String>,
    pub plugin_params: Option<String>,
}

impl Local {
    /// The lines of these options, one per field, in declaration order.
    pub open spec fn lines(&self) -> Seq<Seq<char>> {
        seq![
            field_line("local_ip"@, self.local_ip),
            field_line("local_port"@, self.local_port),
            field_line("plugin"@, self.plugin),
            field_line("plugin_params"@, self.plugin_params),
        ]
    }

    /// Appends the lines of these options to `vec`, keeping what it held.
    pub fn insert_to_vec(&self, vec: &mut Vec<String>)
        ensures
            final(vec).deep_view() == old(vec).deep_view() + self.lines(),
    {
        push_field(vec, "local_ip", &self.local_ip);
        push_field(vec, "local_port", &self.local_port);
        push_field(vec, "plugin", &self.plugin);
        push_field(vec, "plugin_params", &self.plugin_params);
        assert(final(vec).deep_view() =~= old(vec).deep_view() + self.lines());
    }
}

/// Load balancing of a proxy: its group and the health checks of its members.
pub struct Slb {
    pub group: Option<String>,
    pub group_key: Option<String>,
    pub health_check_type: Option<String>,
    pub health_check_timeout_s: Option<String>,
    pub health_check_max_failed: Option<String>,
    pub health_check_interval_s: Option<String>,
    pub health_check_url: Option<String>,
}

impl Slb {
    /// The lines of these options, one per field, in declaration order.
    pub open spec fn lines(&self) -> Seq<Seq<char>> {
        seq![
            field_line("group"@, self.group),
            field_line("group_key"@, self.group_key),
            field_line("health_check_type"@, self.health_check_type),
            field_line("health_check_timeout_s"@, self.health_check_timeout_s),
            field_line("health_check_max_failed"@, self.health_check_max_failed),
            field_line("health_check_interval_s"@, self.health_check_interval_s),
            field_line("health_check_url"@, self.health_check_url),
        ]
    }

    /// Appends the lines of these options to `vec`, keeping what it held.
    pub fn insert_to_vec(&self, vec: &mut Vec<String>)
        ensures
            final(vec).deep_view() == old(vec).deep_view() + self.lines(),
    {
        push_field(vec, "group", &self.group);
        push_field(vec, "group_key", &self.group_key);
        push_field(vec, "health_check_type", &self.health_check_type);
        push_field(vec, "health_check_timeout_s", &self.health_check_timeout_s);
        push_field(vec, "health_check_max_failed", &self.health_check_max_failed);
        push_field(vec, "health_check_interval_s", &self.health_check_interval_s);
        push_field(vec, "health_check_url", &self.health_check_url);
        assert(final(vec).deep_view() =~= old(vec).deep_view() + self.lines());
    }
}

/// Options of a `tcp` proxy.
pub struct Tcp {
    pub remote_port: Option<String>,
}

impl Tcp {
    /// The lines of these options, one per field, in declaration order.
    pub open spec fn lines(&self) -> Seq<Seq<char>> {
        seq![
            field_line("remote_port"@, self.remote_port),
        ]
    }

    /// Appends the lines of these options to `vec`, keeping what it held.
    pub fn insert_to_vec(&self, vec: &mut Vec<String>)
        ensures
            final(vec).deep_view() == old(vec).deep_view() + self.lines(),
    {
        push_field(vec, "remote_port", &self.remote_port);
        assert(final(vec).deep_view() =~= old(vec).deep_view() + self.lines());
    }
}

/// Options of a `udp` proxy.
pub struct Udp {
    pub remote_port: Option<String>,
}

impl Udp {
    /// The lines of these options, one per field, in declaration order.
    pub open spec fn lines(&self) -> Seq<Seq<char>> {
        seq![
            field_line("remote_port"@, self.remote_port),
        ]
    }

    /// Appends the lines of these options to `vec`, keeping what it held.
    pub fn insert_to_vec(&self, vec: &mut Vec<String>)
        ensures
            final(vec).deep_view() == old(vec).deep_view() + self.lines(),
    {
        push_field(vec, "remote_port", &self.remote_port);
        assert(final(vec).deep_view() =~= old(vec).deep_view() + self.lines());
    }
}

/// Options of an `http` proxy.
pub struct Http {
    pub custom_domains: Option<String>,
    pub subdomain: Option<String>,
    pub locations: Option<String>,
    pub route_by_http_user: Option<String>,
    pub http_user: Option<String>,
    pub http_pwd: Option<String>,
    pub host_header_rewrite: Option<String>,
    pub headers: Option<String>,
}

impl Http {
    /// The lines of these options, one per field, in declaration order.
    pub open spec fn lines(&self) -> Seq<Seq<char>> {
        seq![
            field_line("custom_domains"@, self.custom_domains),
            field_line("subdomain"@, self.subdomain),
            field_line("locations"@, self.locations),
            field_line("route_by_http_user"@, self.route_by_http_user),
            field_line("http_user"@, self.http_user),
            field_line("http_pwd"@, self.http_pwd),
            field_line("host_header_rewrite"@, self.host_header_rewrite),
            field_line("headers"@, self.headers),
        ]
    }

    /// Appends the lines of these options to `vec`, keeping what it held.
    pub fn insert_to_vec(&self, vec: &mut Vec<String>)
        ensures
            final(vec).deep_view() == old(vec).deep_view() + self.lines(),
    {
        push_field(vec, "custom_domains", &self.custom_domains);
        push_field(vec, "subdomain", &self.subdomain);
        push_field(vec, "locations", &self.locations);
        push_field(vec, "route_by_http_user", &self.route_by_http_user);
        push_field(vec, "http_user", &self.http_user);
        push_field(vec, "http_pwd", &self.http_pwd);
        push_field(vec, "host_header_rewrite", &self.host_header_rewrite);
        push_field(vec, "headers", &self.headers);
        assert(final(vec).deep_view() =~= old(vec).deep_view() + self.lines());
    }
}

/// Options of an `https` proxy.
pub struct Https {
    pub custom_domains: Option<String>,
    pub subdomain: Option<String>,
}

impl Https {
    /// The lines of these options, one per field, in declaration order.
    pub open spec fn lines(&self) -> Seq<Seq<char>> {
        seq![
            field_line("custom_domains"@, self.custom_domains),
            field_line("subdomain"@, self.subdomain),
        ]
    }

    /// Appends the lines of these options to `vec`, keeping what it held.
    pub fn insert_to_vec(&self, vec: &mut Vec<String>)
        ensures
            final(vec).deep_view() == old(vec).deep_view() + self.lines(),
    {
        push_field(vec, "custom_domains", &self.custom_domains);
        push_field(vec, "subdomain", &self.subdomain);
        assert(final(vec).deep_view() =~= old(vec).deep_view() + self.lines());
    }
}

/// Options of an `stcp` proxy.
pub struct Stcp {
    pub role: Option<String>,
    pub sk: Option<String>,
}

impl Stcp {
    /// The lines of these options, one per field, in declaration order.
    pub open spec fn lines(&self) -> Seq<Seq<char>> {
        seq![
            field_line("role"@, self.role),
            field_line("sk"@, self.sk),
        ]
    }

    /// Appends the lines of these options to `vec`, keeping what it held.
    pub fn insert_to_vec(&self, vec: &mut Vec<String>)
        ensures
            final(vec).deep_view() == old(vec).deep_view() + self.lines(),
    {
        push_field(vec, "role", &self.role);
        push_field(vec, "sk", &self.sk);
        assert(final(vec).deep_view() =~= old(vec).deep_view() + self.lines());
    }
}

/// Options of an `sudp` proxy.
pub struct Sudp {
    pub role: Option<String>,
    pub sk: Option<String>,
}

impl Sudp {
    /// The lines of these options, one per field, in declaration order.
    pub open spec fn lines(&self) -> Seq<Seq<char>> {
        seq![
            field_line("role"@, self.role),
            field_line("sk"@, self.sk),
        ]
    }

    /// Appends the lines of these options to `vec`, keeping what it held.
    pub fn insert_to_vec(&self, vec: &mut Vec<String>)
        ensures
            final(vec).deep_view() == old(vec).deep_view() + self.lines(),
    {
        push_field(vec, "role", &self.role);
        push_field(vec, "sk", &self.sk);
        assert(final(vec).deep_view() =~= old(vec).deep_view() + self.lines());
    }
}

/// Options of an `xtcp` proxy.
pub struct Xtcp {
    pub role: Option<String>,
    pub sk: Option<String>,
}

impl Xtcp {
    /// The lines of these options, one per field, in declaration order.
    pub open spec fn lines(&self) -> Seq<Seq<char>> {
        seq![
            field_line("role"@, self.role),
            field_line("sk"@, self.sk),
        ]
    }

    /// Appends the lines of these options to `vec`, keeping what it held.
    pub fn insert_to_vec(&self, vec: &mut Vec<String>)
        ensures
            final(vec).deep_view() == old(vec).deep_view() + self.lines(),
    {
        push_field(vec, "role", &self.role);
        push_field(vec, "sk", &self.sk);
        assert(final(vec).deep_view() =~= old(vec).deep_view() + self.lines());
    }
}

/// Options of a `tcpmux` proxy.
pub struct TcpMux {
    pub multiplexer: Option<String>,
    pub custom_domains: Option<String>,
    pub subdomain: Option<String>,
    pub route_by_http_user: Option<String>,
}

impl TcpMux {
    /// The lines of these options, one per field, in declaration order.
    pub open spec fn lines(&self) -> Seq<Seq<char>> {
        seq![
            field_line("multiplexer"@, self.multiplexer),
            field_line("custom_domains"@, self.custom_domains),
            field_line("subdomain"@, self.subdomain),
            field_line("route_by_http_user"@, self.route_by_http_user),
        ]
    }

    /// Appends the lines of these options to `vec`, keeping what it held.
    pub fn insert_to_vec(&self, vec: &mut Vec<String>)
        ensures
            final(vec).deep_view() == old(vec).deep_view() + self.lines(),
    {
        push_field(vec, "multiplexer", &self.multiplexer);
        push_field(vec, "custom_domains", &self.custom_domains);
        push_field(vec, "subdomain", &self.subdomain);
        push_field(vec, "route_by_http_user", &self.route_by_http_user);
        assert(final(vec).deep_view() =~= old(vec).deep_view() + self.lines());
    }
}

/// Marker for the option groups above.
pub trait InsertToVec {}

} // verus!

verus! {

/// Each option of `Base` gives its own line, in field order: `key=value`
/// for a set field, an empty line for an unset one.
pub proof fn base_lines_are_its_fields(x: Base)
    ensures
        x.lines().len() == 4,
        x.use_encryption matches Some(v) ==> x.lines()[0] == "use_encryption"@ + "="@ + v@,
        x.use_encryption is None ==> x.lines()[0].len() == 0,
        x.use_compression matches Some(v) ==> x.lines()[1] == "use_compression"@ + "="@ + v@,
        x.use_compression is None ==> x.lines()[1].len() == 0,
        x.proxy_protocol_version matches Some(v) ==> x.lines()[2] == "proxy_protocol_version"@ + "="@ + v@,
        x.proxy_protocol_version is None ==> x.lines()[2].len() == 0,
        x.bandwidth_limit matches Some(v) ==> x.lines()[3] == "bandwidth_limit"@ + "="@ + v@,
        x.bandwidth_limit is None ==> x.lines()[3].len() == 0,
{
}

/// Each option of `Local` gives its own line, in field order: `key=value`
/// for a set field, an empty line for an unset one.
pub proof fn local_lines_are_its_fields(x: Local)
    ensures
        x.lines().len() == 4,
        x.local_ip matches Some(v) ==> x.lines()[0] == "local_ip"@ + "="@ + v@,
        x.local_ip is None ==> x.lines()[0].len() == 0,
        x.local_port matches Some(v) ==> x.lines()[1] == "local_port"@ + "="@ + v@,
        x.local_port is None ==> x.lines()[1].len() == 0,
        x.plugin matches Some(v) ==> x.lines()[2] == "plugin"@ + "="@ + v@,
        x.plugin is None ==> x.lines()[2].len() == 0,
        x.plugin_params matches Some(v) ==> x.lines()[3] == "plugin_params"@ + "="@ + v@,
        x.plugin_params is None ==> x.lines()[3].len() == 0,
{
}

/// Each option of `Slb` gives its own line, in field order: `key=value`
/// for a set field, an empty line for an unset one.
pub proof fn slb_lines_are_its_fields(x: Slb)
    ensures
        x.lines().len() == 7,
        x.group matches Some(v) ==> x.lines()[0] == "group"@ + "="@ + v@,
        x.group is None ==> x.lines()[0].len() == 0,
        x.group_key matches Some(v) ==> x.lines()[1] == "group_key"@ + "="@ + v@,
        x.group_key is None ==> x.lines()[1].len() == 0,
        x.health_check_type matches Some(v) ==> x.lines()[2] == "health_check_type"@ + "="@ + v@,
        x.health_check_type is None ==> x.lines()[2].len() == 0,
        x.health_check_timeout_s matches Some(v) ==> x.lines()[3] == "health_check_timeout_s"@ + "="@ + v@,
        x.health_check_timeout_s is None ==> x.lines()[3].len() == 0,
        x.health_check_max_failed matches Some(v) ==> x.lines()[4] == "health_check_max_failed"@ + "="@ + v@,
        x.health_check_max_failed is None ==> x.lines()[4].len() == 0,
        x.health_check_interval_s matches Some(v) ==> x.lines()[5] == "health_check_interval_s"@ + "="@ + v@,
        x.health_check_interval_s is None ==> x.lines()[5].len() == 0,
        x.health_check_url matches Some(v) ==> x.lines()[6] == "health_check_url"@ + "="@ + v@,
        x.health_check_url is None ==> x.lines()[6].len() == 0,
{
}

/// Each option of `Tcp` gives its own line, in field order: `key=value`
/// for a set field, an empty line for an unset one.
pub proof fn tcp_lines_are_its_fields(x: Tcp)
    ensures
        x.lines().len() == 1,
        x.remote_port matches Some(v) ==> x.lines()[0] == "remote_port"@ + "="@ + v@,
        x.remote_port is None ==> x.lines()[0].len() == 0,
{
}

/// Each option of `Udp` gives its own line, in field order: `key=value`
/// for a set field, an empty line for an unset one.
pub proof fn udp_lines_are_its_fields(x: Udp)
    ensures
        x.lines().len() == 1,
        x.remote_port matches Some(v) ==> x.lines()[0] == "remote_port"@ + "="@ + v@,
        x.remote_port is None ==> x.lines()[0].len() == 0,
{
}

/// Each option of `Http` gives its own line, in field order: `key=value`
/// for a set field, an empty line for an unset one.
pub proof fn http_lines_are_its_fields(x: Http)
    ensures
        x.lines().len() == 8,
        x.custom_domains matches Some(v) ==> x.lines()[0] == "custom_domains"@ + "="@ + v@,
        x.custom_domains is None ==> x.lines()[0].len() == 0,
        x.subdomain matches Some(v) ==> x.lines()[1] == "subdomain"@ + "="@ + v@,
        x.subdomain is None ==> x.lines()[1].len() == 0,
        x.locations matches Some(v) ==> x.lines()[2] == "locations"@ + "="@ + v@,
        x.locations is None ==> x.lines()[2].len() == 0,
        x.route_by_http_user matches Some(v) ==> x.lines()[3] == "route_by_http_user"@ + "="@ + v@,
        x.route_by_http_user is None ==> x.lines()[3].len() == 0,
        x.http_user matches Some(v) ==> x.lines()[4] == "http_user"@ + "="@ + v@,
        x.http_user is None ==> x.lines()[4].len() == 0,
        x.http_pwd matches Some(v) ==> x.lines()[5] == "http_pwd"@ + "="@ + v@,
        x.http_pwd is None ==> x.lines()[5].len() == 0,
        x.host_header_rewrite matches Some(v) ==> x.lines()[6] == "host_header_rewrite"@ + "="@ + v@,
        x.host_header_rewrite is None ==> x.lines()[6].len() == 0,
        x.headers matches Some(v) ==> x.lines()[7] == "headers"@ + "="@ + v@,
        x.headers is None ==> x.lines()[7].len() == 0,
{
}

/// Each option of `Https` gives its own line, in field order: `key=value`
/// for a set field, an empty line for an unset one.
pub proof fn https_lines_are_its_fields(x: Https)
    ensures
        x.lines().len() == 2,
        x.custom_domains matches Some(v) ==> x.lines()[0] == "custom_domains"@ + "="@ + v@,
        x.custom_domains is None ==> x.lines()[0].len() == 0,
        x.subdomain matches Some(v) ==> x.lines()[1] == "subdomain"@ + "="@ + v@,
        x.subdomain is None ==> x.lines()[1].len() == 0,
{
}

/// Each option of `Stcp` gives its own line, in field order: `key=value`
/// for a set field, an empty line for an unset one.
pub proof fn stcp_lines_are_its_fields(x: Stcp)
    ensures
        x.lines().len() == 2,
        x.role matches Some(v) ==> x.lines()[0] == "role"@ + "="@ + v@,
        x.role is None ==> x.lines()[0].len() == 0,
        x.sk matches Some(v) ==> x.lines()[1] == "sk"@ + "="@ + v@,
        x.sk is None ==> x.lines()[1].len() == 0,
{
}

/// Each option of `Sudp` gives its own line, in field order: `key=value`
/// for a set field, an empty line for an unset one.
pub proof fn sudp_lines_are_its_fields(x: Sudp)
    ensures
        x.lines().len() == 2,
        x.role matches Some(v) ==> x.lines()[0] == "role"@ + "="@ + v@,
        x.role is None ==> x.lines()[0].len() == 0,
        x.sk matches Some(v) ==> x.lines()[1] == "sk"@ + "="@ + v@,
        x.sk is None ==> x.lines()[1].len() == 0,
{
}

/// Each option of `Xtcp` gives its own line, in field order: `key=value`
/// for a set field, an empty line for an unset one.
pub proof fn xtcp_lines_are_its_fields(x: Xtcp)
    ensures
        x.lines().len() == 2,
        x.role matches Some(v) ==> x.lines()[0] == "role"@ + "="@ + v@,
        x.role is None ==> x.lines()[0].len() == 0,
        x.sk matches Some(v) ==> x.lines()[1] == "sk"@ + "="@ + v@,
        x.sk is None ==> x.lines()[1].len() == 0,
{
}

/// Each option of `TcpMux` gives its own line, in field order: `key=value`
/// for a set field, an empty line for an unset one.
pub proof fn tcp_mux_lines_are_its_fields(x: TcpMux)
    ensures
        x.lines().len() == 4,
        x.multiplexer matches Some(v) ==> x.lines()[0] == "multiplexer"@ + "="@ + v@,
        x.multiplexer is None ==> x.lines()[0].len() == 0,
        x.custom_domains matches Some(v) ==> x.lines()[1] == "custom_domains"@ + "="@ + v@,
        x.custom_domains is None ==> x.lines()[1].len() == 0,
        x.subdomain matches Some(v) ==> x.lines()[2] == "subdomain"@ + "="@ + v@,
        x.subdomain is None ==> x.lines()[2].len() == 0,
        x.route_by_http_user matches Some(v) ==> x.lines()[3] == "route_by_http_user"@ + "="@ + v@,
        x.route_by_http_user is None ==> x.lines()[3].len() == 0,
{
}

} // verus!
