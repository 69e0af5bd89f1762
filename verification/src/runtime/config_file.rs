//! Config file management for mihomo: the decisions about which files are
//! config files, how names resolve inside the config directory, the default
//! template, and the structural validation of a config document.
//!
//! Reading directories and files is done by the caller, which hands the
//! results in as plain values.

use vstd::prelude::*;
use vstd::multiset::Multiset;
use crate::error::{AppError, ErrorView};
use crate::sorting::{sort_by_key, sorted_by_key, Keyed};
use crate::text::{chars_of, concat, contains, contains_exec, owned, starts_with};
use crate::yaml::{emit_yaml, entry_value, lemma_entry_value_at, parse_yaml, tags_nonempty, yaml_as_sequence, yaml_emit, yaml_get, yaml_parse, Yaml, YamlValue};

verus! {

broadcast use vstd::seq_lib::group_to_multiset_ensures;

/// Metadata about a config file on disk.
#[derive(Debug)]
pub struct ConfigFileInfo {
    /// File name (e.g. `config.yaml`).
    pub name: String,
    /// Full path to the file.
    pub path: String,
    /// File size in bytes.
    pub size: u64,
    /// Last modification time (seconds since epoch).
    pub modified: Option<u64>,
}

/// Validation result for a mihomo config.
#[derive(Debug)]
pub struct ConfigValidation {
    /// Whether the config is valid.
    pub valid: bool,
    /// Human-readable warnings / errors.
    pub messages: Vec<String>,
}

impl ConfigValidation {
    /// The messages as character sequences.
    pub open spec fn message_seqs(&self) -> Seq<Seq<char>> {
        self.messages@.map_values(|m: String| m@)
    }
}

/// Manages mihomo config files in the config directory.
#[derive(Debug)]
pub struct ConfigFileManager {
    config_dir: String,
}

/// The text of the default config template.
pub open spec fn default_template_text() -> Seq<char> {
    "# mihomo (Clash.Meta) configuration\n# Generated by mihomo-tui\n\nmixed-port: 7890\nallow-lan: false\nbind-address: '*'\nmode: rule\nlog-level: info\nipv6: false\nexternal-controller: 127.0.0.1:9090\n# secret: \"\"\n\ndns:\n  enable: true\n  listen: 0.0.0.0:1053\n  enhanced-mode: fake-ip\n  fake-ip-range: 198.18.0.1/16\n  nameserver:\n    - https://dns.alidns.com/dns-query\n    - https://doh.pub/dns-query\n  fallback:\n    - https://dns.google/dns-query\n    - https://cloudflare-dns.com/dns-query\n\nproxies: []\n\nproxy-groups: []\n\nrules:\n  - GEOIP,LAN,DIRECT\n  - MATCH,DIRECT\n"@
}

/// Whether the document configures any listening port.
pub open spec fn has_any_port(v: YamlValue) -> bool {
    yaml_get(v, "port"@) is Some || yaml_get(v, "socks-port"@) is Some || yaml_get(v, "mixed-port"@) is Some
}

/// Whether the document has a `proxies` sequence with no entries.
pub open spec fn has_empty_proxies(v: YamlValue) -> bool {
    match yaml_get(v, "proxies"@) {
        Some(p) => match yaml_as_sequence(p) {
            Some(items) => items.len() == 0,
            None => false,
        },
        None => false,
    }
}

/// `m` when `cond` holds, nothing otherwise.
pub open spec fn message_if(cond: bool, m: Seq<char>) -> Seq<Seq<char>> {
    if cond { seq![m] } else { seq![] }
}

/// The messages that validating a parsed document produces, in order.
pub open spec fn validation_messages(v: YamlValue) -> Seq<Seq<char>> {
    message_if(!has_any_port(v), "No listening port configured (missing port/socks-port/mixed-port)"@)
        + message_if(has_empty_proxies(v), "'proxies' section is empty"@)
        + message_if(
            yaml_get(v, "proxy-groups"@) is None && yaml_get(v, "proxy-providers"@) is None,
            "No 'proxy-groups' or 'proxy-providers' section found"@,
        )
        + message_if(
            yaml_get(v, "rules"@) is None && yaml_get(v, "rule-providers"@) is None,
            "No 'rules' or 'rule-providers' section found"@,
        )
        + message_if(yaml_get(v, "dns"@) is None, "Warning: no 'dns' section configured"@)
}

/// The YAML tree of the settings the default template writes, in order.
pub open spec fn template_document() -> YamlValue {
    YamlValue::Mapping(seq![
        (YamlValue::Str("mixed-port"@), YamlValue::PosInt(7890)),
        (YamlValue::Str("allow-lan"@), YamlValue::Bool(false)),
        (YamlValue::Str("bind-address"@), YamlValue::Str("*"@)),
        (YamlValue::Str("mode"@), YamlValue::Str("rule"@)),
        (YamlValue::Str("log-level"@), YamlValue::Str("info"@)),
        (YamlValue::Str("ipv6"@), YamlValue::Bool(false)),
        (YamlValue::Str("external-controller"@), YamlValue::Str("127.0.0.1:9090"@)),
        (YamlValue::Str("dns"@), YamlValue::Mapping(seq![
            (YamlValue::Str("enable"@), YamlValue::Bool(true)),
            (YamlValue::Str("listen"@), YamlValue::Str("0.0.0.0:1053"@)),
            (YamlValue::Str("enhanced-mode"@), YamlValue::Str("fake-ip"@)),
            (YamlValue::Str("fake-ip-range"@), YamlValue::Str("198.18.0.1/16"@)),
            (YamlValue::Str("nameserver"@), YamlValue::Sequence(seq![YamlValue::Str("https://dns.alidns.com/dns-query"@), YamlValue::Str("https://doh.pub/dns-query"@)])),
            (YamlValue::Str("fallback"@), YamlValue::Sequence(seq![YamlValue::Str("https://dns.google/dns-query"@), YamlValue::Str("https://cloudflare-dns.com/dns-query"@)])),
        ])),
        (YamlValue::Str("proxies"@), YamlValue::Sequence(seq![])),
        (YamlValue::Str("proxy-groups"@), YamlValue::Sequence(seq![])),
        (YamlValue::Str("rules"@), YamlValue::Sequence(seq![YamlValue::Str("GEOIP,LAN,DIRECT"@), YamlValue::Str("MATCH,DIRECT"@)])),
    ])
}

/// The settings of the default template validate: it configures a port,
/// and the only note is that its `proxies` section is empty.
pub proof fn law_template_document_validates()
    ensures
        has_any_port(template_document()),
        validation_messages(template_document()) == seq!["'proxies' section is empty"@],
{
    reveal_strlit("mixed-port");
    reveal_strlit("allow-lan");
    reveal_strlit("bind-address");
    reveal_strlit("mode");
    reveal_strlit("log-level");
    reveal_strlit("ipv6");
    reveal_strlit("external-controller");
    reveal_strlit("dns");
    reveal_strlit("proxies");
    reveal_strlit("proxy-groups");
    reveal_strlit("rules");
    reveal_strlit("port");
    reveal_strlit("socks-port");
    reveal_strlit("proxy-providers");
    reveal_strlit("rule-providers");
    reveal_with_fuel(entry_value, 12);
    let doc = template_document();
    assert(yaml_get(doc, "mixed-port"@) is Some);
    assert(yaml_get(doc, "proxy-groups"@) is Some);
    assert(yaml_get(doc, "rules"@) is Some);
    assert(yaml_get(doc, "dns"@) is Some);
    let es = doc->Mapping_0;
    assert forall|i: int| 0 <= i < 8 implies #[trigger] es[i].0 != YamlValue::Str("proxies"@) by {
        assert(es[i].0->Str_0.len() != "proxies"@.len());
    }
    lemma_entry_value_at(es, "proxies"@, 8);
    assert(yaml_as_sequence(es[8].1) == Some(Seq::<YamlValue>::empty()));
    assert(has_empty_proxies(doc));
    assert(validation_messages(doc) =~= seq!["'proxies' section is empty"@]);
}

/// The message reported for a config that cannot be read or parsed.
pub open spec fn unreadable_message(name: Seq<char>) -> Seq<char> {
    "Cannot parse YAML: cannot parse YAML from config file: "@ + name
}

/// `Path::extension` of a file name: the part after the last `.`, when that
/// `.` is not the first character.
pub open spec fn extension_from(name: Seq<char>, k: int) -> Option<Seq<char>>
    decreases k,
{
    if k <= 0 || k > name.len() {
        None
    } else if name[k - 1] == '.' {
        if k - 1 == 0 {
            None
        } else {
            Some(name.subrange(k, name.len() as int))
        }
    } else {
        extension_from(name, k - 1)
    }
}

/// `Path::extension` of a file name.
pub open spec fn file_extension(name: Seq<char>) -> Option<Seq<char>> {
    extension_from(name, name.len() as int)
}

/// Whether a file name has a `.yaml` or `.yml` extension.
pub open spec fn is_config_name(name: Seq<char>) -> bool {
    file_extension(name) == Some("yaml"@) || file_extension(name) == Some("yml"@)
}

/// `Path::extension` of a file name, as characters.
pub fn file_extension_exec(name: &[char]) -> (r: Option<Vec<char>>)
    ensures
        r matches Some(e) ==> file_extension(name@) == Some(e@),
        r is None <==> file_extension(name@) is None,
{
    let n = name.len();
    let mut k: usize = n;
    while k > 0 && name[k - 1] != '.'
        invariant
            n == name@.len(),
            k <= n,
            extension_from(name@, k as int) == extension_from(name@, n as int),
        decreases k,
    {
        k = k - 1;
    }
    if k <= 1 {
        None
    } else {
        let mut e: Vec<char> = Vec::new();
        crate::text::push_range(&mut e, name, k, n);
        assert(e@ =~= name@.subrange(k as int, n as int));
        Some(e)
    }
}

/// Whether a file name has a `.yaml` or `.yml` extension.
pub fn is_config_name_exec(name: &str) -> (r: bool)
    ensures
        r == is_config_name(name@),
{
    let chars = chars_of(name);
    match file_extension_exec(chars.as_slice()) {
        Some(e) => {
            let yaml = chars_of("yaml");
            let yml = chars_of("yml");
            let a = crate::text::occurs_at_exec(e.as_slice(), yaml.as_slice(), 0) && e.len() == yaml.len();
            let b = crate::text::occurs_at_exec(e.as_slice(), yml.as_slice(), 0) && e.len() == yml.len();
            proof {
                if e.len() == yaml.len() {
                    assert(e@.subrange(0, yaml@.len() as int) =~= e@);
                }
                if e.len() == yml.len() {
                    assert(e@.subrange(0, yml@.len() as int) =~= e@);
                }
            }
            a || b
        },
        None => false,
    }
}

impl Keyed for ConfigFileInfo {
    open spec fn key(&self) -> Seq<char> {
        self.name@
    }

    fn key_str(&self) -> (r: &str) {
        self.name.as_str()
    }
}

/// The entries whose names are config file names, in their order.
pub open spec fn config_entries(entries: Seq<ConfigFileInfo>) -> Seq<ConfigFileInfo>
    decreases entries.len(),
{
    if entries.len() == 0 {
        seq![]
    } else if is_config_name(entries.last().name@) {
        config_entries(entries.drop_last()).push(entries.last())
    } else {
        config_entries(entries.drop_last())
    }
}

/// From the files of the config directory, the `.yaml` and `.yml` ones,
/// sorted by name.
pub fn select_configs(entries: Vec<ConfigFileInfo>) -> (r: Vec<ConfigFileInfo>)
    ensures
        sorted_by_key(r@),
        r@.to_multiset() == config_entries(entries@).to_multiset(),
{
    broadcast use vstd::multiset::group_multiset_axioms;
    let ghost orig = entries@;
    let mut entries = entries;
    let mut kept: Vec<ConfigFileInfo> = Vec::new();
    assert(kept@.to_multiset() =~= Multiset::empty());
    while entries.len() > 0
        invariant
            kept@.to_multiset().add(config_entries(entries@).to_multiset())
                == config_entries(orig).to_multiset(),
        decreases entries@.len(),
    {
        let ghost before = entries@;
        let e = entries.pop().unwrap();
        proof {
            assert(before.drop_last() =~= entries@);
            assert(before.last() == e);
        }
        if is_config_name_exec(e.name.as_str()) {
            kept.push(e);
            proof {
                assert(config_entries(before) == config_entries(entries@).push(e));
                            }
        } else {
            assert(config_entries(before) == config_entries(entries@));
        }
    }
    assert(config_entries(entries@) =~= Seq::<ConfigFileInfo>::empty());
    assert(config_entries(entries@).to_multiset() =~= Multiset::empty());
    sort_by_key(kept)
}


/// A name that is absolute: it starts with a path separator, or with a
/// drive (`C:`).
pub open spec fn absolute_name(name: Seq<char>) -> bool {
    (name.len() > 0 && (name[0] == '/' || name[0] == '\\')) || (name.len() > 1 && name[1] == ':')
}

/// The start of a Windows verbatim path, `\\?\`.
pub open spec fn verbatim_prefix() -> Seq<char> {
    seq!['\\', '\\', '?', '\\']
}

/// `path` is `dir`, then possibly a separator, then `name`.
pub open spec fn joined(path: Seq<char>, dir: Seq<char>, name: Seq<char>) -> bool {
    &&& path.len() >= dir.len() + name.len()
    &&& path.subrange(0, dir.len() as int) == dir
    &&& path.subrange(path.len() - name.len(), path.len() as int) == name
}

/// A name that, joined to the config directory, stays inside it: relative
/// and without `..`.
pub open spec fn stays_inside(name: Seq<char>) -> bool {
    !absolute_name(name) && !contains(name, ".."@)
}

impl ConfigFileManager {
    /// The config directory, as characters.
    pub closed spec fn dir(&self) -> Seq<char> {
        self.config_dir@
    }

    /// Create a new manager pointing at the mihomo config directory.
    pub fn new(config_dir: &str) -> (m: Self)
        ensures
            m.dir() == config_dir@,
    {
        ConfigFileManager { config_dir: config_dir.to_owned() }
    }

    /// Return the config directory path.
    pub fn config_dir(&self) -> (r: &str)
        ensures
            r@ == self.dir(),
    {
        self.config_dir.as_str()
    }

    /// Default minimal mihomo config template.
    pub fn default_template() -> (r: String)
        ensures
            r@ == default_template_text(),
    {
        owned("# mihomo (Clash.Meta) configuration\n# Generated by mihomo-tui\n\nmixed-port: 7890\nallow-lan: false\nbind-address: '*'\nmode: rule\nlog-level: info\nipv6: false\nexternal-controller: 127.0.0.1:9090\n# secret: \"\"\n\ndns:\n  enable: true\n  listen: 0.0.0.0:1053\n  enhanced-mode: fake-ip\n  fake-ip-range: 198.18.0.1/16\n  nameserver:\n    - https://dns.alidns.com/dns-query\n    - https://doh.pub/dns-query\n  fallback:\n    - https://dns.google/dns-query\n    - https://cloudflare-dns.com/dns-query\n\nproxies: []\n\nproxy-groups: []\n\nrules:\n  - GEOIP,LAN,DIRECT\n  - MATCH,DIRECT\n")
    }

    /// The content written for a new default config: the template. The
    /// caller writes it under `name` and reports the path.
    pub fn create_default_config(&self, name: &str) -> (r: Result<String, AppError>)
        ensures
            r is Ok <==> stays_inside(name@),
            r matches Ok(t) ==> t@ == default_template_text(),
            r matches Err(e) ==> e@ == ErrorView::Other("path traversal detected: "@ + name@),
    {
        match self.check_write_name(name) {
            Ok(()) => Ok(Self::default_template()),
            Err(e) => Err(e),
        }
    }

    /// Rejects names that could leave the config directory: those holding
    /// `..`, and absolute ones, which a join would put in place of the
    /// directory.
    fn check_write_name(&self, name: &str) -> (r: Result<(), AppError>)
        ensures
            r is Ok <==> stays_inside(name@),
            r matches Err(e) ==> e@ == ErrorView::Other("path traversal detected: "@ + name@),
    {
        let n = chars_of(name);
        let dots = chars_of("..");
        let absolute = (n.len() > 0 && (n[0] == '/' || n[0] == '\\')) || (n.len() > 1 && n[1] == ':');
        if absolute || contains_exec(n.as_slice(), dots.as_slice()) {
            Err(AppError::Other(concat("path traversal detected: ", name)))
        } else {
            Ok(())
        }
    }

    /// Resolve a path for writing: the config directory joined with `name`,
    /// unless `name` holds `..` or is absolute.
    pub fn resolve_path_for_write(&self, name: &str) -> (r: Result<String, AppError>)
        ensures
            r is Ok <==> stays_inside(name@),
            r matches Err(e) ==> e@ == ErrorView::Other("path traversal detected: "@ + name@),
            r matches Ok(p) ==> (!starts_with(self.dir(), verbatim_prefix()) ==> joined(p@, self.dir(), name@)),
    {
        match self.check_write_name(name) {
            Ok(()) => Ok(join_path(self.config_dir.as_str(), name)),
            Err(e) => Err(e),
        }
    }

    /// Resolve a config name to the path of an existing file in the config
    /// directory. `path` is the directory joined with `name`; `inside_dir`
    /// tells whether its canonical form lies inside the canonical directory,
    /// and `exists` whether the file exists.
    pub fn resolve_path(&self, name: &str, path: String, inside_dir: bool, exists: bool) -> (r: Result<String, AppError>)
        ensures
            r is Ok <==> inside_dir && exists,
            r matches Ok(p) ==> p@ == path@,
            !inside_dir ==> (r matches Err(e) && e@ == ErrorView::Other("path traversal detected: "@ + name@)),
            inside_dir && !exists ==> (r matches Err(e) && e@ == ErrorView::Other("config file not found: "@ + path@)),
    {
        if !inside_dir {
            return Err(AppError::Other(concat("path traversal detected: ", name)));
        }
        if !exists {
            return Err(AppError::Other(concat("config file not found: ", path.as_str())));
        }
        Ok(path)
    }

    /// Validate a config document that has been read (or failed to read).
    /// The result is always `Ok`; problems are reported as messages.
    pub fn validate_config(&self, name: &str, contents: Result<String, String>) -> (r: Result<ConfigValidation, AppError>)
        ensures
            r is Ok,
            r matches Ok(v) ==> {
                match contents {
                    Ok(text) => match yaml_parse(text@) {
                        Some(doc) => v.valid == has_any_port(doc) && v.message_seqs() == validation_messages(doc),
                        None => !v.valid && v.message_seqs() == seq![unreadable_message(name@)],
                    },
                    Err(e) => !v.valid && v.message_seqs() == seq!["Cannot parse YAML: "@ + e@],
                }
            },
    {
        let unreadable = || -> (v: ConfigValidation)
            ensures
                !v.valid && v.message_seqs() == seq![unreadable_message(name@)],
        {
            let mut messages: Vec<String> = Vec::new();
            messages.push(concat("Cannot parse YAML: cannot parse YAML from config file: ", name));
            assert(messages@.map_values(|m: String| m@) =~= seq![unreadable_message(name@)]);
            ConfigValidation { valid: false, messages }
        };
        match contents {
            Ok(text) => match parse_yaml(text.as_str()) {
                Ok(doc) => Ok(validate_document(&doc)),
                Err(_) => Ok(unreadable()),
            },
            Err(e) => {
                let mut messages: Vec<String> = Vec::new();
                messages.push(concat("Cannot parse YAML: ", e.as_str()));
                assert(messages@.map_values(|m: String| m@) =~= seq!["Cannot parse YAML: "@ + e@]);
                Ok(ConfigValidation { valid: false, messages })
            },
        }
    }

    /// The YAML document of a config file, from what reading it gave: the
    /// read's error as it is, or the parser's document.
    pub fn config_document(name: &str, contents: Result<String, String>) -> (r: Result<Yaml, AppError>)
        ensures
            contents matches Err(e) ==> (r matches Err(x) && x@ == ErrorView::Other(e@)),
            contents matches Ok(t) ==> (r is Ok <==> yaml_parse(t@) is Some),
            contents matches Ok(t) && yaml_parse(t@) is None ==> (r matches Err(x)
                && x@ == ErrorView::Other("cannot parse YAML from config file: "@ + name@)),
            r matches Ok(v) ==> (contents matches Ok(t) && yaml_parse(t@) == Some(v@) && tags_nonempty(v@)),
    {
        match contents {
            Err(e) => Err(AppError::Other(e)),
            Ok(text) => match parse_yaml(text.as_str()) {
                Ok(doc) => Ok(doc),
                Err(_) => Err(AppError::Other(concat("cannot parse YAML from config file: ", name))),
            },
        }
    }

    /// The text a YAML document is written as, through `serde_yaml`; a
    /// document with an empty tag, which `serde_yaml` cannot hold, or one
    /// the emitter refuses, is an error.
    pub fn config_text(value: &Yaml) -> (r: Result<String, AppError>)
        ensures
            r matches Ok(t) ==> tags_nonempty(value@) && yaml_emit(value@) == Some(t@),
            r is Err <==> !tags_nonempty(value@) || yaml_emit(value@) is None,
            r matches Err(x) ==> x@ == ErrorView::Other("cannot serialize config to YAML"@),
    {
        if !value.tags_are_nonempty() {
            return Err(AppError::Other(owned("cannot serialize config to YAML")));
        }
        match emit_yaml(value) {
            Some(t) => Ok(t),
            None => Err(AppError::Other(owned("cannot serialize config to YAML"))),
        }
    }
}

/// `Path::join` as text: the directory with `name` adjoined. The separator
/// depends on the platform and is left unsaid. What `PathBuf::push`'s
/// documentation gives on every platform is stated: a relative name is
/// appended after the directory, which stays as it is; an absolute one
/// would replace the directory, and on Windows a directory with a verbatim
/// prefix (`\\?\`) normalizes the name, so neither case is stated.
/// `to_string_lossy` changes nothing in text that came from `&str`.
#[verifier::external_body]
fn join_path(dir: &str, name: &str) -> (r: String)
    ensures
        !absolute_name(name@) && !starts_with(dir@, verbatim_prefix()) ==> joined(r@, dir@, name@),
{
    std::path::Path::new(dir).join(name).to_string_lossy().into_owned()
}

/// Appends `m` to the messages when `cond` holds.
fn push_message_if(messages: &mut Vec<String>, cond: bool, m: &str)
    ensures
        final(messages)@.map_values(|x: String| x@) == old(messages)@.map_values(|x: String| x@)
            + message_if(cond, m@),
{
    let ghost before = messages@.map_values(|x: String| x@);
    if cond {
        messages.push(owned(m));
    }
    assert(messages@.map_values(|x: String| x@) =~= before + message_if(cond, m@));
}

/// Checks a parsed config document for the top-level keys mihomo needs.
pub fn validate_document(doc: &Yaml) -> (v: ConfigValidation)
    ensures
        v.valid == has_any_port(doc@),
        v.message_seqs() == validation_messages(doc@),
{
    let mut messages: Vec<String> = Vec::new();
    let has_port = doc.has_key("port") || doc.has_key("socks-port") || doc.has_key("mixed-port");
    push_message_if(&mut messages, !has_port, "No listening port configured (missing port/socks-port/mixed-port)");
    let empty_proxies = match doc.get("proxies") {
        Some(p) => match p.as_sequence() {
            Some(items) => items.len() == 0,
            None => false,
        },
        None => false,
    };
    push_message_if(&mut messages, empty_proxies, "'proxies' section is empty");
    let no_groups = !doc.has_key("proxy-groups") && !doc.has_key("proxy-providers");
    push_message_if(&mut messages, no_groups, "No 'proxy-groups' or 'proxy-providers' section found");
    let no_rules = !doc.has_key("rules") && !doc.has_key("rule-providers");
    push_message_if(&mut messages, no_rules, "No 'rules' or 'rule-providers' section found");
    let no_dns = !doc.has_key("dns");
    push_message_if(&mut messages, no_dns, "Warning: no 'dns' section configured");
    ConfigValidation { valid: has_port, messages }
}

} // verus!
