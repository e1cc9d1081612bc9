//! The frpc configuration written from the two settings tables, and the
//! version list read from the package manifest.

use vstd::prelude::*;

use crate::settings::Cfg;
use crate::text::{concat2, concat3, joined, join_lines, same_text};
use crate::types::{Base, Http, Https, Local, Slb, Stcp, Sudp, Tcp, TcpMux, Udp, Xtcp};

verus! {

/// The proxy types that carry options of their own.
#[derive(PartialEq, Eq, Structural, Clone, Copy, Debug)]
pub enum ProxyKind {
    Tcp,
    Udp,
    Http,
    Https,
    Stcp,
    Sudp,
    Xtcp,
    TcpMux,
}

/// The kind named by a proxy's `proxy_type`; `None` for any other type,
/// whose `proxy_type_value` is not read.
pub open spec fn kind_of(proxy_type: Seq<char>) -> Option<ProxyKind> {
    if proxy_type == "tcp"@ {
        Some(ProxyKind::Tcp)
    } else if proxy_type == "udp"@ {
        Some(ProxyKind::Udp)
    } else if proxy_type == "http"@ {
        Some(ProxyKind::Http)
    } else if proxy_type == "https"@ {
        Some(ProxyKind::Https)
    } else if proxy_type == "stcp"@ {
        Some(ProxyKind::Stcp)
    } else if proxy_type == "sudp"@ {
        Some(ProxyKind::Sudp)
    } else if proxy_type == "xtcp"@ {
        Some(ProxyKind::Xtcp)
    } else if proxy_type == "tcpmux"@ {
        Some(ProxyKind::TcpMux)
    } else {
        None
    }
}

/// The kind of options that `proxy_type_value` holds for a proxy of this type.
pub fn proxy_kind(proxy_type: &str) -> (kind: Option<ProxyKind>)
    ensures
        kind == kind_of(proxy_type@),
{
    if same_text(proxy_type, "tcp") {
        Some(ProxyKind::Tcp)
    } else if same_text(proxy_type, "udp") {
        Some(ProxyKind::Udp)
    } else if same_text(proxy_type, "http") {
        Some(ProxyKind::Http)
    } else if same_text(proxy_type, "https") {
        Some(ProxyKind::Https)
    } else if same_text(proxy_type, "stcp") {
        Some(ProxyKind::Stcp)
    } else if same_text(proxy_type, "sudp") {
        Some(ProxyKind::Sudp)
    } else if same_text(proxy_type, "xtcp") {
        Some(ProxyKind::Xtcp)
    } else if same_text(proxy_type, "tcpmux") {
        Some(ProxyKind::TcpMux)
    } else {
        None
    }
}

/// The type-specific options of a proxy, read from its `proxy_type_value`.
pub enum ProxyDetail {
    Tcp(Tcp),
    Udp(Udp),
    Http(Http),
    Https(Https),
    Stcp(Stcp),
    Sudp(Sudp),
    Xtcp(Xtcp),
    TcpMux(TcpMux),
    /// A proxy type without options of its own: nothing is read or written.
    Unsupported,
}

impl ProxyDetail {
    /// The kind of these options; `None` for `Unsupported`.
    pub open spec fn kind(&self) -> Option<ProxyKind> {
        match self {
            ProxyDetail::Tcp(_) => Some(ProxyKind::Tcp),
            ProxyDetail::Udp(_) => Some(ProxyKind::Udp),
            ProxyDetail::Http(_) => Some(ProxyKind::Http),
            ProxyDetail::Https(_) => Some(ProxyKind::Https),
            ProxyDetail::Stcp(_) => Some(ProxyKind::Stcp),
            ProxyDetail::Sudp(_) => Some(ProxyKind::Sudp),
            ProxyDetail::Xtcp(_) => Some(ProxyKind::Xtcp),
            ProxyDetail::TcpMux(_) => Some(ProxyKind::TcpMux),
            ProxyDetail::Unsupported => None,
        }
    }

    /// The lines of these options.
    pub open spec fn lines(&self) -> Seq<Seq<char>> {
        match self {
            ProxyDetail::Tcp(d) => d.lines(),
            ProxyDetail::Udp(d) => d.lines(),
            ProxyDetail::Http(d) => d.lines(),
            ProxyDetail::Https(d) => d.lines(),
            ProxyDetail::Stcp(d) => d.lines(),
            ProxyDetail::Sudp(d) => d.lines(),
            ProxyDetail::Xtcp(d) => d.lines(),
            ProxyDetail::TcpMux(d) => d.lines(),
            ProxyDetail::Unsupported => Seq::empty(),
        }
    }

    /// The kind of these options; `None` for `Unsupported`.
    pub fn detail_kind(&self) -> (kind: Option<ProxyKind>)
        ensures
            kind == self.kind(),
    {
        match self {
            ProxyDetail::Tcp(_) => Some(ProxyKind::Tcp),
            ProxyDetail::Udp(_) => Some(ProxyKind::Udp),
            ProxyDetail::Http(_) => Some(ProxyKind::Http),
            ProxyDetail::Https(_) => Some(ProxyKind::Https),
            ProxyDetail::Stcp(_) => Some(ProxyKind::Stcp),
            ProxyDetail::Sudp(_) => Some(ProxyKind::Sudp),
            ProxyDetail::Xtcp(_) => Some(ProxyKind::Xtcp),
            ProxyDetail::TcpMux(_) => Some(ProxyKind::TcpMux),
            ProxyDetail::Unsupported => None,
        }
    }

    /// Appends the lines of these options to `vec`, keeping what it held.
    pub fn insert_to_vec(&self, vec: &mut Vec<String>)
        ensures
            final(vec).deep_view() == old(vec).deep_view() + self.lines(),
    {
        match self {
            ProxyDetail::Tcp(d) => d.insert_to_vec(vec),
            ProxyDetail::Udp(d) => d.insert_to_vec(vec),
            ProxyDetail::Http(d) => d.insert_to_vec(vec),
            ProxyDetail::Https(d) => d.insert_to_vec(vec),
            ProxyDetail::Stcp(d) => d.insert_to_vec(vec),
            ProxyDetail::Sudp(d) => d.insert_to_vec(vec),
            ProxyDetail::Xtcp(d) => d.insert_to_vec(vec),
            ProxyDetail::TcpMux(d) => d.insert_to_vec(vec),
            ProxyDetail::Unsupported => {
                assert(old(vec).deep_view() + self.lines() =~= old(vec).deep_view());
            },
        }
    }
}

/// An enabled proxy with its option groups read: one section of the
/// configuration. In a consistent section (`is_consistent`), `detail` is of
/// the kind that `proxy_type` names; `ProxySection::new` builds only those.
pub struct ProxySection {
    pub name: String,
    pub proxy_type: String,
    pub base: Base,
    pub local: Local,
    pub slb: Slb,
    pub detail: ProxyDetail,
}

impl ProxySection {
    /// Whether the type-specific options are those that `proxy_type` names:
    /// the options of its kind, or none for a type without options.
    pub open spec fn is_consistent(&self) -> bool {
        self.detail.kind() == kind_of(self.proxy_type@)
    }

    /// The section of a proxy, where `detail` is of the kind that
    /// `proxy_type` names; `None` where it is not.
    pub fn new(name: String, proxy_type: String, base: Base, local: Local, slb: Slb, detail: ProxyDetail)
        -> (section: Option<ProxySection>)
        ensures
            section is Some <==> detail.kind() == kind_of(proxy_type@),
            section matches Some(p) ==> {
                &&& p.name == name
                &&& p.proxy_type == proxy_type
                &&& p.base == base
                &&& p.local == local
                &&& p.slb == slb
                &&& p.detail == detail
            },
    {
        let named = proxy_kind(proxy_type.as_str());
        let held = detail.detail_kind();
        let same = match (named, held) {
            (Some(a), Some(b)) => a == b,
            (None, None) => true,
            _ => false,
        };
        if same {
            Some(ProxySection { name, proxy_type, base, local, slb, detail })
        } else {
            None
        }
    }

    /// The lines of the section before empty ones are dropped: the header
    /// `[name]`, `type=...`, then the base, local, load-balancing and
    /// type-specific options.
    pub open spec fn lines(&self) -> Seq<Seq<char>> {
        seq!["["@ + self.name@ + "]"@, "type="@ + self.proxy_type@] + self.base.lines()
            + self.local.lines() + self.slb.lines() + self.detail.lines()
    }

    /// Appends the lines of the section to `vec`, keeping what it held.
    pub fn insert_to_vec(&self, vec: &mut Vec<String>)
        ensures
            final(vec).deep_view() == old(vec).deep_view() + self.lines(),
    {
        let ghost before = vec.deep_view();
        vec.push(concat3("[", self.name.as_str(), "]"));
        vec.push(concat2("type=", self.proxy_type.as_str()));
        proof {
            assert(vec.deep_view() =~= before + seq!["["@ + self.name@ + "]"@, "type="@ + self.proxy_type@]);
        }
        self.base.insert_to_vec(vec);
        self.local.insert_to_vec(vec);
        self.slb.insert_to_vec(vec);
        self.detail.insert_to_vec(vec);
        assert(vec.deep_view() =~= before + self.lines());
    }
}

/// The `key=value` lines of the client settings, in table order; a setting
/// whose value is empty gives no line.
pub open spec fn setting_lines(settings: Seq<Cfg>) -> Seq<Seq<char>>
    decreases settings.len(),
{
    if settings.len() == 0 {
        Seq::empty()
    } else {
        let rest = setting_lines(settings.drop_last());
        let c = settings.last();
        if c.value@.len() > 0 {
            rest.push(c.key@ + "="@ + c.value@)
        } else {
            rest
        }
    }
}

/// The lines of the proxy sections, in table order.
pub open spec fn section_lines(proxies: Seq<ProxySection>) -> Seq<Seq<char>>
    decreases proxies.len(),
{
    if proxies.len() == 0 {
        Seq::empty()
    } else {
        section_lines(proxies.drop_last()) + proxies.last().lines()
    }
}

/// Which lines are kept in the configuration: the non-empty ones.
pub open spec fn keep_line() -> spec_fn(Seq<char>) -> bool {
    |l: Seq<char>| l.len() > 0
}

/// The lines of the configuration: `[common]`, the settings, the proxy
/// sections, with the empty lines of unset options dropped.
pub open spec fn ini_lines_spec(settings: Seq<Cfg>, proxies: Seq<ProxySection>) -> Seq<Seq<char>> {
    (seq!["[common]"@] + setting_lines(settings) + section_lines(proxies)).filter(keep_line())
}

/// The text of the configuration file: the lines joined by line breaks. The
/// file kept in the data directory gets one more line, a line break, after
/// them; an exported copy does not.
pub open spec fn ini_text_spec(lines: Seq<Seq<char>>, export: bool) -> Seq<char> {
    if export {
        joined(lines, "\n"@)
    } else {
        joined(lines.push("\n"@), "\n"@)
    }
}

/// The lines of the frpc configuration for the client settings and the
/// enabled proxies, each section with the options its type names.
pub fn ini_lines(settings: &Vec<Cfg>, proxies: &Vec<ProxySection>) -> (lines: Vec<String>)
    requires
        forall|i: int| 0 <= i < proxies@.len() ==> (#[trigger] proxies@[i]).is_consistent(),
    ensures
        lines.deep_view() == ini_lines_spec(settings@, proxies@),
{
    let mut cfg_vec: Vec<String> = Vec::new();
    cfg_vec.push("[common]".to_owned());
    assert(cfg_vec.deep_view() =~= seq!["[common]"@] + setting_lines(settings@.take(0)));
    let n = settings.len();
    let mut i: usize = 0;
    while i < n
        invariant
            n == settings.len(),
            i <= n,
            cfg_vec.deep_view() == seq!["[common]"@] + setting_lines(settings@.take(i as int)),
        decreases n - i,
    {
        let ghost before = cfg_vec.deep_view();
        assert(settings@.take(i + 1).drop_last() =~= settings@.take(i as int));
        let c = &settings[i];
        if !c.value.as_str().is_empty() {
            cfg_vec.push(concat3(c.key.as_str(), "=", c.value.as_str()));
            assert(cfg_vec.deep_view() =~= before.push(c.key@ + "="@ + c.value@));
        }
        i = i + 1;
    }
    assert(settings@.take(n as int) =~= settings@);
    let ghost head = cfg_vec.deep_view();
    assert(head + section_lines(proxies@.take(0)) =~= head);
    let m = proxies.len();
    let mut j: usize = 0;
    while j < m
        invariant
            m == proxies.len(),
            j <= m,
            cfg_vec.deep_view() == head + section_lines(proxies@.take(j as int)),
        decreases m - j,
    {
        assert(proxies@.take(j + 1).drop_last() =~= proxies@.take(j as int));
        proxies[j].insert_to_vec(&mut cfg_vec);
        assert(cfg_vec.deep_view() =~= head + section_lines(proxies@.take(j + 1)));
        j = j + 1;
    }
    assert(proxies@.take(m as int) =~= proxies@);
    let ghost raw = cfg_vec.deep_view();
    let mut final_data: Vec<String> = Vec::new();
    let k_end = cfg_vec.len();
    let mut k: usize = 0;
    assert(raw.take(0).filter(keep_line()) =~= Seq::<Seq<char>>::empty());
    while k < k_end
        invariant
            k_end == cfg_vec.len(),
            raw == cfg_vec.deep_view(),
            raw.len() == k_end,
            k <= k_end,
            final_data.deep_view() == raw.take(k as int).filter(keep_line()),
        decreases k_end - k,
    {
        let ghost before = final_data.deep_view();
        assert(raw.take(k + 1) =~= raw.take(k as int).push(raw[k as int]));
        proof {
            raw.take(k as int).lemma_filter_push(raw[k as int], keep_line());
        }
        if !cfg_vec[k].as_str().is_empty() {
            final_data.push(cfg_vec[k].clone());
            assert(final_data.deep_view() =~= before.push(raw[k as int]));
        }
        k = k + 1;
    }
    assert(raw.take(k_end as int) =~= raw);
    final_data
}

/// The text of the configuration file made of `lines` (see `ini_text_spec`).
pub fn ini_text(lines: Vec<String>, export: bool) -> (text: String)
    ensures
        text@ == ini_text_spec(lines.deep_view(), export),
{
    let mut lines = lines;
    if export {
        join_lines(&lines, "\n")
    } else {
        let ghost before = lines.deep_view();
        lines.push("\n".to_owned());
        assert(lines.deep_view() =~= before.push("\n"@));
        join_lines(&lines, "\n")
    }
}

/// The frpc configuration file for the client settings and the enabled
/// proxies: for an export when `export`, else for the data directory.
pub fn ini_config_text(settings: &Vec<Cfg>, proxies: &Vec<ProxySection>, export: bool) -> (text: String)
    requires
        forall|i: int| 0 <= i < proxies@.len() ==> (#[trigger] proxies@[i]).is_consistent(),
    ensures
        text@ == ini_text_spec(ini_lines_spec(settings@, proxies@), export),
{
    let lines = ini_lines(settings, proxies);
    ini_text(lines, export)
}

/// Every line of the configuration holds something, and the first one opens
/// the `[common]` section.
pub proof fn ini_lines_shape(settings: Seq<Cfg>, proxies: Seq<ProxySection>)
    ensures
        ini_lines_spec(settings, proxies).len() > 0,
        ini_lines_spec(settings, proxies)[0] == "[common]"@,
        forall|i: int| 0 <= i < ini_lines_spec(settings, proxies).len()
            ==> (#[trigger] ini_lines_spec(settings, proxies)[i]).len() > 0,
{
    let rest = setting_lines(settings) + section_lines(proxies);
    let raw = seq!["[common]"@] + setting_lines(settings) + section_lines(proxies);
    assert(raw =~= seq!["[common]"@] + rest);
    reveal_strlit("[common]");
    assert("[common]"@.len() == 8);
    Seq::filter_distributes_over_add(seq!["[common]"@], rest, keep_line());
    seq!["[common]"@].lemma_filter_push("[common]"@, keep_line());
    assert(seq!["[common]"@] =~= Seq::<Seq<char>>::empty().push("[common]"@));
    Seq::<Seq<char>>::empty().lemma_filter_push("[common]"@, keep_line());
    assert(Seq::<Seq<char>>::empty().filter(keep_line()) =~= Seq::<Seq<char>>::empty());
    assert forall|i: int| 0 <= i < ini_lines_spec(settings, proxies).len()
        implies (#[trigger] ini_lines_spec(settings, proxies)[i]).len() > 0 by {
        raw.lemma_filter_pred(keep_line(), i);
    }
}

/// The file kept in the data directory is the exported file followed by two
/// line breaks: the pushed line break and the separator before it.
pub proof fn data_dir_text_extends_export(settings: Seq<Cfg>, proxies: Seq<ProxySection>)
    ensures
        ini_text_spec(ini_lines_spec(settings, proxies), false)
            == ini_text_spec(ini_lines_spec(settings, proxies), true) + "\n"@ + "\n"@,
{
    let lines = ini_lines_spec(settings, proxies);
    ini_lines_shape(settings, proxies);
    assert(lines.push("\n"@).drop_last() =~= lines);
    assert(lines.push("\n"@).last() == "\n"@);
}

/// A TOML value as the library reads it.
pub enum TomlItem {
    Text(String),
    Integer(i64),
    Boolean(bool),
    Array(Vec<TomlItem>),
    /// The entries of a table, in the order in which the parser hands them
    /// out (by key: the parser keeps its tables sorted).
    Table(Vec<(String, TomlItem)>),
    /// A float or a date-time: values that the library never reads.
    Other,
}

/// The value under `key` among `entries`: that of the first entry with it.
pub open spec fn entry_lookup(entries: Seq<(String, TomlItem)>, key: Seq<char>) -> Option<TomlItem>
    decreases entries.len(),
{
    if entries.len() == 0 {
        None
    } else if entries[0].0@ == key {
        Some(entries[0].1)
    } else {
        entry_lookup(entries.drop_first(), key)
    }
}

/// The value under `key` in a table; `None` for a missing key and for a
/// value that is no table.
pub open spec fn item_get(item: TomlItem, key: Seq<char>) -> Option<TomlItem> {
    match item {
        TomlItem::Table(entries) => entry_lookup(entries@, key),
        _ => None,
    }
}

/// Looks up `key` in a table.
pub fn item_lookup<'a>(item: &'a TomlItem, key: &str) -> (found: Option<&'a TomlItem>)
    ensures
        match found {
            Some(v) => item_get(*item, key@) == Some(*v),
            None => item_get(*item, key@) is None,
        },
{
    match item {
        TomlItem::Table(entries) => {
            let n = entries.len();
            let mut i: usize = 0;
            assert(entries@.skip(0) =~= entries@);
            while i < n
                invariant
                    n == entries@.len(),
                    *item == TomlItem::Table(*entries),
                    i <= n,
                    entry_lookup(entries@, key@) == entry_lookup(entries@.skip(i as int), key@),
                decreases n - i,
            {
                assert(entries@.skip(i as int).drop_first() =~= entries@.skip(i + 1));
                assert(entries@.skip(i as int)[0] == entries@[i as int]);
                if same_text(entries[i].0.as_str(), key) {
                    return Some(&entries[i].1);
                }
                i = i + 1;
            }
            None
        },
        _ => None,
    }
}

/// Why the version list could not be read from the manifest.
#[derive(PartialEq, Eq, Structural, Clone, Copy, Debug)]
pub enum VersionError {
    /// `package.version` is there but is no string.
    FrperVersion,
    /// `package.metadata` is there but has no `frp` entry.
    FrpVersion,
}

impl VersionError {
    /// The message reported for the error.
    pub fn message(&self) -> (msg: &'static str)
        ensures
            *self == VersionError::FrperVersion ==> msg@ == "can not parse frper version"@,
            *self == VersionError::FrpVersion ==> msg@ == "can not parse frp version"@,
    {
        match self {
            VersionError::FrperVersion => "can not parse frper version",
            VersionError::FrpVersion => "can not parse frp version",
        }
    }
}

/// The version of frper, from `package.version`: none where the key is
/// missing, an error where its value is no string.
pub open spec fn package_version(pkg: TomlItem) -> Result<Seq<Seq<char>>, VersionError> {
    match item_get(pkg, "version"@) {
        None => Ok(Seq::empty()),
        Some(TomlItem::Text(s)) => Ok(seq![s@]),
        Some(_) => Err(VersionError::FrperVersion),
    }
}

/// The version of frp, from `package.metadata.frp`: only the first entry of
/// that table is looked at, and it gives a version where its key is
/// `version` and its value a string. A missing `metadata` gives none, a
/// `metadata` without `frp` an error.
pub open spec fn frp_version(pkg: TomlItem) -> Result<Seq<Seq<char>>, VersionError> {
    match item_get(pkg, "metadata"@) {
        None => Ok(Seq::empty()),
        Some(meta) => match item_get(meta, "frp"@) {
            None => Err(VersionError::FrpVersion),
            Some(TomlItem::Table(entries)) => if entries@.len() > 0 && entries@[0].0@ == "version"@ {
                match entries@[0].1 {
                    TomlItem::Text(s) => Ok(seq![s@]),
                    _ => Ok(Seq::empty()),
                }
            } else {
                Ok(Seq::empty())
            },
            Some(_) => Ok(Seq::empty()),
        },
    }
}

/// The versions read from a manifest: nothing where it did not parse or has
/// no `package` table, else the frper version followed by the frp version,
/// each where it is there.
pub open spec fn manifest_versions(doc: Option<TomlItem>) -> Result<Seq<Seq<char>>, VersionError> {
    match doc {
        None => Ok(Seq::empty()),
        Some(root) => match item_get(root, "package"@) {
            None => Ok(Seq::empty()),
            Some(pkg) => match package_version(pkg) {
                Err(e) => Err(e),
                Ok(first) => match frp_version(pkg) {
                    Err(e) => Err(e),
                    Ok(second) => Ok(first + second),
                },
            },
        },
    }
}

/// Whether `r` is what `manifest_versions` gives for `doc`.
pub open spec fn versions_match(r: Result<Vec<String>, VersionError>, doc: Option<TomlItem>) -> bool {
    match r {
        Ok(v) => manifest_versions(doc) == Ok::<Seq<Seq<char>>, VersionError>(v.deep_view()),
        Err(e) => manifest_versions(doc) == Err::<Seq<Seq<char>>, VersionError>(e),
    }
}

/// Reads the versions of frper and frp from a parsed manifest.
pub fn versions_from_manifest(doc: &Option<TomlItem>) -> (r: Result<Vec<String>, VersionError>)
    ensures
        versions_match(r, *doc),
{
    let mut ver: Vec<String> = Vec::new();
    let root = match doc {
        Some(root) => root,
        None => {
            assert(ver.deep_view() =~= Seq::<Seq<char>>::empty());
            return Ok(ver);
        },
    };
    let pkg = match item_lookup(root, "package") {
        Some(pkg) => pkg,
        None => {
            assert(ver.deep_view() =~= Seq::<Seq<char>>::empty());
            return Ok(ver);
        },
    };
    match item_lookup(pkg, "version") {
        Some(TomlItem::Text(s)) => {
            ver.push(s.clone());
            assert(ver.deep_view() =~= seq![s@]);
        },
        Some(_) => {
            return Err(VersionError::FrperVersion);
        },
        None => {
            assert(ver.deep_view() =~= Seq::<Seq<char>>::empty());
        },
    }
    let ghost first = ver.deep_view();
    assert(package_version(*pkg) == Ok::<Seq<Seq<char>>, VersionError>(first));
    match item_lookup(pkg, "metadata") {
        Some(meta) => match item_lookup(meta, "frp") {
            Some(frp) => {
                if let TomlItem::Table(entries) = frp {
                    if entries.len() > 0 {
                        if same_text(entries[0].0.as_str(), "version") {
                            if let TomlItem::Text(v) = &entries[0].1 {
                                ver.push(v.clone());
                            }
                        }
                    }
                }
            },
            None => {
                return Err(VersionError::FrpVersion);
            },
        },
        None => {},
    }
    assert(ver.deep_view() =~= first + frp_version(*pkg)->Ok_0);
    Ok(ver)
}

/// The value of a manifest text as the TOML parser reads it, `None` where it
/// does not parse.
pub uninterp spec fn toml_document(text: Seq<char>) -> Option<TomlItem>;

#[verifier::external_type_specification]
#[verifier::external_body]
pub struct ExTomlValue(toml::Value);

/// Turns a value of the `toml` crate into the library's `TomlItem`, one
/// variant for one: floats and date-times become `Other`, and a table's
/// entries come in the order its iterator gives. Nothing is claimed of the
/// result here; `parse_toml` names the whole parse.
#[verifier::external_body]
fn toml_item(value: &toml::Value) -> TomlItem {
    match value {
        toml::Value::String(s) => TomlItem::Text(s.clone()),
        toml::Value::Integer(i) => TomlItem::Integer(*i),
        toml::Value::Boolean(b) => TomlItem::Boolean(*b),
        toml::Value::Array(a) => TomlItem::Array(a.iter().map(toml_item).collect()),
        toml::Value::Table(t) => TomlItem::Table(t.iter().map(|(k, v)| (k.clone(), toml_item(v))).collect()),
        toml::Value::Float(_) => TomlItem::Other,
        toml::Value::Datetime(_) => TomlItem::Other,
    }
}

/// Parses a TOML document: `text.parse::<toml::Value>()`, an error becoming
/// `None`. Claimed: the result is a function of the text alone, named
/// `toml_document`; what that function is, is not stated.
#[verifier::external_body]
fn parse_toml(text: &str) -> (doc: Option<TomlItem>)
    ensures
        doc == toml_document(text@),
{
    match text.parse::<toml::Value>() {
        Ok(v) => Some(toml_item(&v)),
        Err(_) => None,
    }
}

/// The versions of frper and of frp read from the package manifest `manifest`.
pub fn parse_cargo_toml(manifest: &str) -> (r: Result<Vec<String>, VersionError>)
    ensures
        versions_match(r, toml_document(manifest@)),
{
    let doc = parse_toml(manifest);
    versions_from_manifest(&doc)
}

} // verus!

verus! {

/// The section lines of two lists of proxies one after the other are those
/// of the first list followed by those of the second: every proxy keeps its
/// own section, in table order.
pub proof fn section_lines_concat(p: Seq<ProxySection>, q: Seq<ProxySection>)
    ensures
        section_lines(p + q) == section_lines(p) + section_lines(q),
    decreases q.len(),
{
    if q.len() == 0 {
        assert(p + q =~= p);
        assert(section_lines(p) + section_lines(q) =~= section_lines(p));
    } else {
        assert((p + q).drop_last() =~= p + q.drop_last());
        assert((p + q).last() == q.last());
        section_lines_concat(p, q.drop_last());
        assert(section_lines(p + q) =~= section_lines(p) + section_lines(q));
    }
}

/// A single proxy gives exactly the lines of its own section.
pub proof fn section_lines_single(x: ProxySection)
    ensures
        section_lines(seq![x]) == x.lines(),
{
    assert(seq![x].drop_last() =~= Seq::<ProxySection>::empty());
    assert(seq![x].last() == x);
    assert(section_lines(Seq::<ProxySection>::empty()) == Seq::<Seq<char>>::empty());
    assert(section_lines(seq![x]) == section_lines(seq![x].drop_last()) + x.lines());
    assert(Seq::<Seq<char>>::empty() + x.lines() =~= x.lines());
}

/// A section opens with its header `[name]` and its `type=...` line, and
/// then holds every line of its base, local, load-balancing and
/// type-specific options, and nothing more.
pub proof fn section_holds_its_options(x: ProxySection)
    ensures
        x.lines()[0] == "["@ + x.name@ + "]"@,
        x.lines()[1] == "type="@ + x.proxy_type@,
        x.lines().len() == 2 + x.base.lines().len() + x.local.lines().len() + x.slb.lines().len()
            + x.detail.lines().len(),
        forall|l: Seq<char>| x.base.lines().contains(l) ==> x.lines().contains(l),
        forall|l: Seq<char>| x.local.lines().contains(l) ==> x.lines().contains(l),
        forall|l: Seq<char>| x.slb.lines().contains(l) ==> x.lines().contains(l),
        forall|l: Seq<char>| x.detail.lines().contains(l) ==> x.lines().contains(l),
{
    let h = seq!["["@ + x.name@ + "]"@, "type="@ + x.proxy_type@];
    let b = x.base.lines();
    let lo = x.local.lines();
    let sl = x.slb.lines();
    let d = x.detail.lines();
    let all = x.lines();
    assert(all == h + b + lo + sl + d);
    assert forall|l: Seq<char>| b.contains(l) implies all.contains(l) by {
        let k = choose|k: int| 0 <= k < b.len() && b[k] == l;
        assert(all[2 + k] == l);
    }
    assert forall|l: Seq<char>| lo.contains(l) implies all.contains(l) by {
        let k = choose|k: int| 0 <= k < lo.len() && lo[k] == l;
        assert(all[2 + b.len() + k] == l);
    }
    assert forall|l: Seq<char>| sl.contains(l) implies all.contains(l) by {
        let k = choose|k: int| 0 <= k < sl.len() && sl[k] == l;
        assert(all[2 + b.len() + lo.len() + k] == l);
    }
    assert forall|l: Seq<char>| d.contains(l) implies all.contains(l) by {
        let k = choose|k: int| 0 <= k < d.len() && d[k] == l;
        assert(all[2 + b.len() + lo.len() + sl.len() + k] == l);
    }
}

/// Every line of the section of the `i`-th proxy is among the section
/// lines of the list.
pub proof fn section_lines_hold_each_proxy(p: Seq<ProxySection>, i: int, l: Seq<char>)
    requires
        0 <= i < p.len(),
        p[i].lines().contains(l),
    ensures
        section_lines(p).contains(l),
{
    let before = p.take(i);
    let rest = p.skip(i + 1);
    assert(p =~= before + seq![p[i]] + rest);
    section_lines_concat(before + seq![p[i]], rest);
    section_lines_concat(before, seq![p[i]]);
    section_lines_single(p[i]);
    let k = choose|k: int| 0 <= k < p[i].lines().len() && p[i].lines()[k] == l;
    let s = section_lines(p);
    assert(s == section_lines(before) + p[i].lines() + section_lines(rest));
    assert(s[section_lines(before).len() + k] == l);
}

/// Every setting with a value gives its `key=value` line among the setting
/// lines.
pub proof fn setting_lines_hold_each_setting(settings: Seq<Cfg>, j: int)
    requires
        0 <= j < settings.len(),
        settings[j].value@.len() > 0,
    ensures
        setting_lines(settings).contains(settings[j].key@ + "="@ + settings[j].value@),
    decreases settings.len(),
{
    let rest = settings.drop_last();
    let line = settings[j].key@ + "="@ + settings[j].value@;
    if j == settings.len() - 1 {
        assert(setting_lines(settings) == setting_lines(rest).push(line));
        assert(setting_lines(settings)[setting_lines(rest).len() as int] == line);
    } else {
        assert(rest[j] == settings[j]);
        setting_lines_hold_each_setting(rest, j);
        let k = choose|k: int| 0 <= k < setting_lines(rest).len() && setting_lines(rest)[k] == line;
        let c = settings.last();
        if c.value@.len() > 0 {
            assert(setting_lines(settings)[k] == line);
        }
    }
}

proof fn kept_in_ini(settings: Seq<Cfg>, proxies: Seq<ProxySection>, l: Seq<char>)
    requires
        (seq!["[common]"@] + setting_lines(settings) + section_lines(proxies)).contains(l),
        l.len() > 0,
    ensures
        ini_lines_spec(settings, proxies).contains(l),
{
    let raw = seq!["[common]"@] + setting_lines(settings) + section_lines(proxies);
    let k = choose|k: int| 0 <= k < raw.len() && raw[k] == l;
    raw.lemma_filter_contains(keep_line(), k);
}

/// The configuration holds, for every enabled proxy, its header `[name]`,
/// its `type=...` line and every non-empty line of its options; and for
/// every setting with a value, its `key=value` line.
pub proof fn ini_lines_hold_everything(settings: Seq<Cfg>, proxies: Seq<ProxySection>)
    ensures
        forall|i: int| 0 <= i < proxies.len() ==> ini_lines_spec(settings, proxies).contains(
            "["@ + (#[trigger] proxies[i]).name@ + "]"@),
        forall|i: int| 0 <= i < proxies.len() ==> ini_lines_spec(settings, proxies).contains(
            "type="@ + (#[trigger] proxies[i]).proxy_type@),
        forall|i: int, l: Seq<char>| 0 <= i < proxies.len() && (#[trigger] proxies[i]).lines().contains(l)
            && l.len() > 0 ==> #[trigger] ini_lines_spec(settings, proxies).contains(l),
        forall|j: int| 0 <= j < settings.len() && (#[trigger] settings[j]).value@.len() > 0
            ==> ini_lines_spec(settings, proxies).contains(settings[j].key@ + "="@ + settings[j].value@),
{
    let head = seq!["[common]"@];
    let sets = setting_lines(settings);
    let secs = section_lines(proxies);
    let raw = head + sets + secs;
    reveal_strlit("[");
    reveal_strlit("type=");
    assert("["@.len() == 1);
    assert("type="@.len() == 5);
    assert forall|i: int, l: Seq<char>| 0 <= i < proxies.len() && (#[trigger] proxies[i]).lines().contains(l)
        && l.len() > 0 implies #[trigger] ini_lines_spec(settings, proxies).contains(l) by {
        section_lines_hold_each_proxy(proxies, i, l);
        let k = choose|k: int| 0 <= k < secs.len() && secs[k] == l;
        assert(raw[1 + sets.len() + k] == l);
        kept_in_ini(settings, proxies, l);
    }
    assert forall|i: int| 0 <= i < proxies.len() implies ini_lines_spec(settings, proxies).contains(
        "["@ + (#[trigger] proxies[i]).name@ + "]"@) by {
        section_holds_its_options(proxies[i]);
        let l = "["@ + proxies[i].name@ + "]"@;
        assert(proxies[i].lines()[0] == l);
        assert(proxies[i].lines().contains(l));
        assert(l.len() > 0);
        section_lines_hold_each_proxy(proxies, i, l);
        let k = choose|k: int| 0 <= k < secs.len() && secs[k] == l;
        assert(raw[1 + sets.len() + k] == l);
        kept_in_ini(settings, proxies, l);
    }
    assert forall|i: int| 0 <= i < proxies.len() implies ini_lines_spec(settings, proxies).contains(
        "type="@ + (#[trigger] proxies[i]).proxy_type@) by {
        section_holds_its_options(proxies[i]);
        let l = "type="@ + proxies[i].proxy_type@;
        assert(proxies[i].lines()[1] == l);
        assert(proxies[i].lines().contains(l));
        assert(l.len() > 0);
        section_lines_hold_each_proxy(proxies, i, l);
        let k = choose|k: int| 0 <= k < secs.len() && secs[k] == l;
        assert(raw[1 + sets.len() + k] == l);
        kept_in_ini(settings, proxies, l);
    }
    assert forall|j: int| 0 <= j < settings.len() && (#[trigger] settings[j]).value@.len() > 0
        implies ini_lines_spec(settings, proxies).contains(settings[j].key@ + "="@ + settings[j].value@) by {
        let l = settings[j].key@ + "="@ + settings[j].value@;
        setting_lines_hold_each_setting(settings, j);
        let k = choose|k: int| 0 <= k < sets.len() && sets[k] == l;
        assert(raw[1 + k] == l);
        kept_in_ini(settings, proxies, l);
    }
}

} // verus!

verus! {

/// Looking a key up finds the value of the first entry that has it.
pub proof fn entry_lookup_finds_first(entries: Seq<(String, TomlItem)>, key: Seq<char>, i: int)
    requires
        0 <= i < entries.len(),
        entries[i].0@ == key,
        forall|j: int| 0 <= j < i ==> (#[trigger] entries[j]).0@ != key,
    ensures
        entry_lookup(entries, key) == Some(entries[i].1),
    decreases i,
{
    if i > 0 {
        let rest = entries.drop_first();
        assert(entries[0].0@ != key);
        assert forall|j: int| 0 <= j < i - 1 implies (#[trigger] rest[j]).0@ != key by {
            assert(rest[j] == entries[j + 1]);
        }
        assert(rest[i - 1] == entries[i]);
        entry_lookup_finds_first(rest, key, i - 1);
    }
}

/// Where `package.metadata.frp` is a table whose first entry is `version`
/// holding a string, that string is read as the frp version, whatever other
/// entries the table holds: it is the last of the versions, and follows the
/// frper version where `package.version` holds one.
pub proof fn frp_version_from_first_entry(
    root: TomlItem,
    pkg: TomlItem,
    meta: TomlItem,
    entries: Vec<(String, TomlItem)>,
    frp: String,
)
    requires
        item_get(root, "package"@) == Some(pkg),
        match item_get(pkg, "version"@) {
            None => true,
            Some(TomlItem::Text(_)) => true,
            Some(_) => false,
        },
        item_get(pkg, "metadata"@) == Some(meta),
        item_get(meta, "frp"@) == Some(TomlItem::Table(entries)),
        entries@.len() > 0,
        entries@[0].0@ == "version"@,
        entries@[0].1 == TomlItem::Text(frp),
    ensures
        manifest_versions(Some(root)) matches Ok(v) && v.len() > 0 && v.last() == frp@,
        match item_get(pkg, "version"@) {
            Some(TomlItem::Text(t)) => manifest_versions(Some(root)) == Ok::<Seq<Seq<char>>, VersionError>(
                seq![t@, frp@],
            ),
            _ => manifest_versions(Some(root)) == Ok::<Seq<Seq<char>>, VersionError>(seq![frp@]),
        },
{
    match item_get(pkg, "version"@) {
        Some(TomlItem::Text(t)) => {
            assert(seq![t@] + seq![frp@] =~= seq![t@, frp@]);
        },
        _ => {
            assert(Seq::<Seq<char>>::empty() + seq![frp@] =~= seq![frp@]);
        },
    }
}

/// Only the first entry of the `frp` table is looked at: where its key is
/// not `version`, no frp version is read, whatever the other entries hold.
pub proof fn frp_version_needs_first_entry(root: TomlItem, pkg: TomlItem, meta: TomlItem, entries: Vec<(String, TomlItem)>)
    requires
        item_get(root, "package"@) == Some(pkg),
        item_get(pkg, "metadata"@) == Some(meta),
        item_get(meta, "frp"@) == Some(TomlItem::Table(entries)),
        entries@.len() == 0 || entries@[0].0@ != "version"@,
    ensures
        manifest_versions(Some(root)) matches Ok(v) ==> v.len() <= 1,
{
}

} // verus!

verus! {

/// Each proxy type names the kind of the same name, and a section whose
/// options are of the variant its type names is consistent, so
/// `ProxySection::new` accepts it.
pub proof fn types_name_their_kinds()
    ensures
        kind_of("tcp"@) == Some(ProxyKind::Tcp),
        kind_of("udp"@) == Some(ProxyKind::Udp),
        kind_of("http"@) == Some(ProxyKind::Http),
        kind_of("https"@) == Some(ProxyKind::Https),
        kind_of("stcp"@) == Some(ProxyKind::Stcp),
        kind_of("sudp"@) == Some(ProxyKind::Sudp),
        kind_of("xtcp"@) == Some(ProxyKind::Xtcp),
        kind_of("tcpmux"@) == Some(ProxyKind::TcpMux),
        forall|x: ProxySection| x.proxy_type@ == "tcp"@ && x.detail is Tcp ==> #[trigger] x.is_consistent(),
        forall|x: ProxySection| x.proxy_type@ == "udp"@ && x.detail is Udp ==> #[trigger] x.is_consistent(),
        forall|x: ProxySection| x.proxy_type@ == "http"@ && x.detail is Http ==> #[trigger] x.is_consistent(),
        forall|x: ProxySection| x.proxy_type@ == "https"@ && x.detail is Https ==> #[trigger] x.is_consistent(),
        forall|x: ProxySection| x.proxy_type@ == "stcp"@ && x.detail is Stcp ==> #[trigger] x.is_consistent(),
        forall|x: ProxySection| x.proxy_type@ == "sudp"@ && x.detail is Sudp ==> #[trigger] x.is_consistent(),
        forall|x: ProxySection| x.proxy_type@ == "xtcp"@ && x.detail is Xtcp ==> #[trigger] x.is_consistent(),
        forall|x: ProxySection| x.proxy_type@ == "tcpmux"@ && x.detail is TcpMux ==> #[trigger] x.is_consistent(),
{
    reveal_strlit("tcp");
    assert("tcp"@.len() == 3);
    reveal_strlit("udp");
    assert("udp"@.len() == 3);
    reveal_strlit("http");
    assert("http"@.len() == 4);
    reveal_strlit("https");
    assert("https"@.len() == 5);
    reveal_strlit("stcp");
    assert("stcp"@.len() == 4);
    reveal_strlit("sudp");
    assert("sudp"@.len() == 4);
    reveal_strlit("xtcp");
    assert("xtcp"@.len() == 4);
    reveal_strlit("tcpmux");
    assert("tcpmux"@.len() == 6);
    assert("tcp"@[0] != "udp"@[0]);
    assert("http"@[0] != "stcp"@[0]);
    assert("http"@[0] != "sudp"@[0]);
    assert("http"@[0] != "xtcp"@[0]);
    assert("stcp"@[1] != "sudp"@[1]);
    assert("stcp"@[0] != "xtcp"@[0]);
    assert("sudp"@[0] != "xtcp"@[0]);
}

} // verus!
