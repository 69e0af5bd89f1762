//! Application configuration: defaults, overlaid by the on-disk config file,
//! overlaid by the command line.

use vstd::prelude::*;
use crate::cli::CliArgs;
use crate::error::{AppError, ErrorView};
use crate::text::{concat, owned};
use crate::yaml::{parse_yaml, yaml_bool_at, yaml_parse, yaml_str_at, yaml_u64_at, Yaml, YamlValue};

verus! {

/// Runtime configuration for the TUI application.
#[derive(Debug)]
pub struct AppConfig {
    /// Scheme (`http` or `https`).
    pub api_scheme: String,
    /// Host:port of the mihomo external controller.
    pub api_addr: String,
    /// Base URL derived from scheme + api_addr.
    pub api_base_url: String,
    /// Bearer token (the `secret` field from mihomo config).
    pub api_secret: String,
    /// mihomo working / config directory.
    pub mihomo_config_dir: String,
    /// Directory where mihomo-tui stores its own state.
    pub app_config_dir: String,
    /// UI tick interval in milliseconds.
    pub tick_rate_ms: u64,
    /// Whether to use a light colour theme.
    pub light_theme: bool,
    /// Log level filter.
    pub log_level: String,
    /// Optional file path to write logs to.
    pub log_file: Option<String>,
}

/// An [`AppConfig`] with its texts as character sequences.
pub struct AppConfigView {
    pub api_scheme: Seq<char>,
    pub api_addr: Seq<char>,
    pub api_base_url: Seq<char>,
    pub api_secret: Seq<char>,
    pub mihomo_config_dir: Seq<char>,
    pub app_config_dir: Seq<char>,
    pub tick_rate_ms: u64,
    pub light_theme: bool,
    pub log_level: Seq<char>,
    pub log_file: Option<Seq<char>>,
}

impl View for AppConfig {
    type V = AppConfigView;

    open spec fn view(&self) -> AppConfigView {
        AppConfigView {
            api_scheme: self.api_scheme@,
            api_addr: self.api_addr@,
            api_base_url: self.api_base_url@,
            api_secret: self.api_secret@,
            mihomo_config_dir: self.mihomo_config_dir@,
            app_config_dir: self.app_config_dir@,
            tick_rate_ms: self.tick_rate_ms,
            light_theme: self.light_theme,
            log_level: self.log_level@,
            log_file: match self.log_file {
                Some(f) => Some(f@),
                None => None,
            },
        }
    }
}

/// `{scheme}://{addr}`.
pub open spec fn base_url_of(scheme: Seq<char>, addr: Seq<char>) -> Seq<char> {
    scheme + "://"@ + addr
}

/// The base URL is the scheme and address it is derived from.
pub open spec fn base_url_consistent(c: AppConfigView) -> bool {
    c.api_base_url == base_url_of(c.api_scheme, c.api_addr)
}

/// The configuration with the values the file sets, and the base URL
/// derived again.
pub open spec fn overlay_file(c: AppConfigView, doc: YamlValue) -> AppConfigView {
    let addr = match yaml_str_at(doc, "api_addr"@) { Some(v) => v, None => c.api_addr };
    let scheme = match yaml_str_at(doc, "api_scheme"@) { Some(v) => v, None => c.api_scheme };
    AppConfigView {
        api_addr: addr,
        api_secret: match yaml_str_at(doc, "api_secret"@) { Some(v) => v, None => c.api_secret },
        api_scheme: scheme,
        tick_rate_ms: match yaml_u64_at(doc, "tick_rate_ms"@) { Some(v) => v, None => c.tick_rate_ms },
        light_theme: match yaml_bool_at(doc, "light_theme"@) { Some(v) => v, None => c.light_theme },
        log_level: match yaml_str_at(doc, "log_level"@) { Some(v) => v, None => c.log_level },
        mihomo_config_dir: match yaml_str_at(doc, "mihomo_config_dir"@) { Some(v) => v, None => c.mihomo_config_dir },
        log_file: match yaml_str_at(doc, "log_file"@) { Some(v) => Some(v), None => c.log_file },
        api_base_url: base_url_of(scheme, addr),
        ..c
    }
}

/// The scheme the command line asks for.
pub open spec fn cli_scheme(use_https: bool) -> Seq<char> {
    if use_https { "https"@ } else { "http"@ }
}

/// The configuration with the command line's values.
pub open spec fn overlay_cli(c: AppConfigView, cli: &CliArgs) -> AppConfigView {
    AppConfigView {
        api_addr: cli.api_addr@,
        api_scheme: cli_scheme(cli.use_https),
        api_base_url: base_url_of(cli_scheme(cli.use_https), cli.api_addr@),
        api_secret: cli.secret@,
        light_theme: cli.light_theme,
        tick_rate_ms: cli.tick_rate,
        log_level: cli.log_level@,
        log_file: match cli.log_file {
            Some(f) => Some(f@),
            None => c.log_file,
        },
        mihomo_config_dir: match cli.config_dir {
            Some(d) => d@,
            None => c.mihomo_config_dir,
        },
        ..c
    }
}

/// `{scheme}://{addr}`.
fn base_url(scheme: &str, addr: &str) -> (r: String)
    ensures
        r@ == base_url_of(scheme@, addr@),
{
    let a = concat(scheme, "://");
    concat(a.as_str(), addr)
}

/// The text of a YAML string value, or the current text.
fn str_or_keep(doc: &Yaml, key: &str, current: String) -> (r: String)
    ensures
        r@ == (match yaml_str_at(doc@, key@) { Some(v) => v, None => current@ }),
{
    match doc.str_at(key) {
        Some(v) => owned(v),
        None => current,
    }
}

impl AppConfig {
    /// The defaults, with the platform's directories: `app_config_dir` for
    /// mihomo-tui's own state and `mihomo_config_dir` for mihomo's.
    pub fn default_in(app_config_dir: &str, mihomo_config_dir: &str) -> (c: Self)
        ensures
            c@.api_scheme == "http"@,
            c@.api_addr == "127.0.0.1:9090"@,
            c@.api_base_url == base_url_of("http"@, "127.0.0.1:9090"@),
            c@.api_secret == Seq::<char>::empty(),
            c@.mihomo_config_dir == mihomo_config_dir@,
            c@.app_config_dir == app_config_dir@,
            c@.tick_rate_ms == 100,
            !c@.light_theme,
            c@.log_level == "warn"@,
            c@.log_file is None,
    {
        let api_scheme = owned("http");
        let api_addr = owned("127.0.0.1:9090");
        let api_base_url = base_url(api_scheme.as_str(), api_addr.as_str());
        AppConfig {
            api_scheme,
            api_addr,
            api_base_url,
            api_secret: String::new(),
            mihomo_config_dir: owned(mihomo_config_dir),
            app_config_dir: owned(app_config_dir),
            tick_rate_ms: 100,
            light_theme: false,
            log_level: owned("warn"),
            log_file: None,
        }
    }

    /// Overlay the values of a parsed config file.
    pub fn apply_file(&mut self, doc: &Yaml)
        ensures
            final(self)@ == overlay_file(old(self)@, doc@),
    {
        let mut addr = String::new();
        std::mem::swap(&mut addr, &mut self.api_addr);
        self.api_addr = str_or_keep(doc, "api_addr", addr);
        let mut secret = String::new();
        std::mem::swap(&mut secret, &mut self.api_secret);
        self.api_secret = str_or_keep(doc, "api_secret", secret);
        let mut scheme = String::new();
        std::mem::swap(&mut scheme, &mut self.api_scheme);
        self.api_scheme = str_or_keep(doc, "api_scheme", scheme);
        if let Some(v) = doc.u64_at("tick_rate_ms") {
            self.tick_rate_ms = v;
        }
        if let Some(v) = doc.bool_at("light_theme") {
            self.light_theme = v;
        }
        let mut level = String::new();
        std::mem::swap(&mut level, &mut self.log_level);
        self.log_level = str_or_keep(doc, "log_level", level);
        let mut dir = String::new();
        std::mem::swap(&mut dir, &mut self.mihomo_config_dir);
        self.mihomo_config_dir = str_or_keep(doc, "mihomo_config_dir", dir);
        if let Some(v) = doc.str_at("log_file") {
            self.log_file = Some(owned(v));
        }
        self.api_base_url = base_url(self.api_scheme.as_str(), self.api_addr.as_str());
    }

    /// Load values from the config file at `path` on top of the current
    /// config; `contents` is what reading the file gave (its text, or the
    /// read error's message).
    pub fn load_from_file(cfg: &mut Self, path: &str, contents: Result<String, String>) -> (r: Result<(), AppError>)
        ensures
            contents matches Err(e) ==> (r matches Err(x) && x@ == ErrorView::Config("cannot read "@ + path@ + ": "@ + e@))
                && final(cfg)@ == old(cfg)@,
            contents matches Ok(t) ==> match yaml_parse(t@) {
                Some(doc) => r is Ok && final(cfg)@ == overlay_file(old(cfg)@, doc),
                None => r matches Err(x) && x matches AppError::Config(m)
                    && (exists|e: Seq<char>| m@ == "parse error in "@ + path@ + ": "@ + e)
                    && final(cfg)@ == old(cfg)@,
            },
    {
        match contents {
            Err(e) => {
                let a = concat("cannot read ", path);
                let b = concat(a.as_str(), ": ");
                Err(AppError::Config(concat(b.as_str(), e.as_str())))
            },
            Ok(text) => match parse_yaml(text.as_str()) {
                Ok(doc) => {
                    cfg.apply_file(&doc);
                    Ok(())
                },
                Err(e) => {
                    let a = concat("parse error in ", path);
                    let b = concat(a.as_str(), ": ");
                    let m = concat(b.as_str(), e.as_str());
                    assert(m@ == "parse error in "@ + path@ + ": "@ + e@);
                    Err(AppError::Config(m))
                },
            },
        }
    }

    /// Overlay the command-line arguments (the highest precedence).
    pub fn apply_cli(&mut self, cli: &CliArgs)
        ensures
            final(self)@ == overlay_cli(old(self)@, cli),
    {
        self.api_addr = owned(cli.api_addr.as_str());
        self.api_scheme = if cli.use_https { owned("https") } else { owned("http") };
        self.api_base_url = base_url(self.api_scheme.as_str(), self.api_addr.as_str());
        self.api_secret = owned(cli.secret.as_str());
        self.light_theme = cli.light_theme;
        self.tick_rate_ms = cli.tick_rate;
        self.log_level = owned(cli.log_level.as_str());
        if let Some(f) = &cli.log_file {
            self.log_file = Some(owned(f.as_str()));
        }
        if let Some(dir) = &cli.config_dir {
            self.mihomo_config_dir = owned(dir.as_str());
        }
    }

    /// Build the final config from the defaults, the config file when there
    /// is one (its path and what reading it gave), and the command line.
    pub fn from_cli(cli: &CliArgs, defaults: AppConfig, file: Option<(String, Result<String, String>)>) -> (r: Result<Self, AppError>)
        ensures
            file is None ==> (r matches Ok(c) && c@ == overlay_cli(defaults@, cli)),
            file matches Some((path, Err(e))) ==> (r matches Err(x)
                && x@ == ErrorView::Config("cannot read "@ + path@ + ": "@ + e@)),
            file matches Some((path, Ok(t))) ==> match yaml_parse(t@) {
                Some(doc) => r matches Ok(c) && c@ == overlay_cli(overlay_file(defaults@, doc), cli),
                None => r matches Err(x) && x matches AppError::Config(m)
                    && exists|e: Seq<char>| m@ == "parse error in "@ + path@ + ": "@ + e,
            },
    {
        let mut cfg = defaults;
        if let Some((path, contents)) = file {
            match Self::load_from_file(&mut cfg, path.as_str(), contents) {
                Ok(()) => {},
                Err(e) => {
                    return Err(e);
                },
            }
        }
        cfg.apply_cli(cli);
        Ok(cfg)
    }
}

/// Whatever the file held, the command line decides the address, scheme,
/// secret, theme, tick rate and log settings, and the base URL is the
/// scheme and address.
pub proof fn law_cli_takes_precedence(c: AppConfigView, cli: &CliArgs)
    ensures
        overlay_cli(c, cli).api_addr == cli.api_addr@,
        overlay_cli(c, cli).api_secret == cli.secret@,
        overlay_cli(c, cli).tick_rate_ms == cli.tick_rate,
        overlay_cli(c, cli).light_theme == cli.light_theme,
        overlay_cli(c, cli).log_level == cli.log_level@,
        base_url_consistent(overlay_cli(c, cli)),
        cli.config_dir is None ==> overlay_cli(c, cli).mihomo_config_dir == c.mihomo_config_dir,
        cli.log_file is None ==> overlay_cli(c, cli).log_file == c.log_file,
{
}

/// After a file overlay the base URL again matches the scheme and address.
pub proof fn law_file_keeps_base_url_consistent(c: AppConfigView, doc: YamlValue)
    ensures
        base_url_consistent(overlay_file(c, doc)),
{
}

} // verus!
