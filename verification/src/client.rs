//! Client configuration and the session lifecycle discipline.
//!
//! A native session is created from a [`ClientConfig`], used from a
//! [`Client`] handle, and released exactly once by a close operation.
//! The native pointer itself lives outside the library; what is kept
//! here is everything that can be decided from plain values: which
//! settings the configuration asks for, whether the required fields are
//! present, and - through [`Client::step`] - which native call, if any,
//! each requested operation may issue given the open/closed state of
//! the handle.

use vstd::prelude::*;

use crate::error::{parse_error_of, Error, TrResult};

verus! {

/// Configuration for the torrent client made using a builder pattern.
pub struct ClientConfig {
    /// The name of the client application
    pub app_name: Option<String>,
    /// The path to the configuration directory
    pub config_dir: Option<String>,
    /// The path to the download directory
    pub download_dir: Option<String>,
    /// Whether or not to use UTP
    pub use_utp: bool,
    /// What level of logging to use.
    pub log_level: i64,
    /// Is RPC enabled?
    pub rpc_enabled: bool,
    /// The URL the RPC will serve on
    pub rpc_url: Option<String>,
    /// The port the RPC will serve on
    pub rpc_port: Option<String>,
}

impl ClientConfig {
    /// A configuration is complete when the three required fields -
    /// application name, configuration directory and download
    /// directory - are all set.
    pub open spec fn spec_complete(&self) -> bool {
        &&& self.app_name is Some
        &&& self.config_dir is Some
        &&& self.download_dir is Some
    }

    /// Create a new ClientConfig
    pub fn new() -> (c: Self)
        ensures
            c.app_name is None,
            c.config_dir is None,
            c.download_dir is None,
            c.use_utp == true,
            c.log_level == 1,
            c.rpc_enabled == false,
            c.rpc_url is None,
            c.rpc_port is None,
    {
        Self {
            app_name: None,
            config_dir: None,
            download_dir: None,
            use_utp: true,
            log_level: 1,
            rpc_enabled: false,
            rpc_url: None,
            rpc_port: None,
        }
    }

    /// Set the application's name. Must be set.
    pub fn app_name(self, name: &str) -> (c: Self)
        ensures
            c.app_name matches Some(n) && n@ == name@,
            c.config_dir == self.config_dir,
            c.download_dir == self.download_dir,
            c.use_utp == self.use_utp,
            c.log_level == self.log_level,
            c.rpc_enabled == self.rpc_enabled,
            c.rpc_url == self.rpc_url,
            c.rpc_port == self.rpc_port,
    {
        Self { app_name: Some(name.to_owned()), ..self }
    }

    /// Set the configuration directory path. Must be set.
    ///
    /// The path is stored as given; it is resolved against the file
    /// system only when the native session is initialized.
    pub fn config_dir(self, dir: &str) -> (c: Self)
        ensures
            c.config_dir matches Some(d) && d@ == dir@,
            c.app_name == self.app_name,
            c.download_dir == self.download_dir,
            c.use_utp == self.use_utp,
            c.log_level == self.log_level,
            c.rpc_enabled == self.rpc_enabled,
            c.rpc_url == self.rpc_url,
            c.rpc_port == self.rpc_port,
    {
        Self { config_dir: Some(dir.to_owned()), ..self }
    }

    /// Set the download directory path. Must be set.
    ///
    /// The path is stored as given; it is resolved against the file
    /// system only when the native session is initialized.
    pub fn download_dir(self, dir: &str) -> (c: Self)
        ensures
            c.download_dir matches Some(d) && d@ == dir@,
            c.app_name == self.app_name,
            c.config_dir == self.config_dir,
            c.use_utp == self.use_utp,
            c.log_level == self.log_level,
            c.rpc_enabled == self.rpc_enabled,
            c.rpc_url == self.rpc_url,
            c.rpc_port == self.rpc_port,
    {
        Self { download_dir: Some(dir.to_owned()), ..self }
    }

    /// Toggle using UTP. Defaults to `true`.
    pub fn use_utp(self, utp: bool) -> (c: Self)
        ensures
            c.use_utp == utp,
            c.app_name == self.app_name,
            c.config_dir == self.config_dir,
            c.download_dir == self.download_dir,
            c.log_level == self.log_level,
            c.rpc_enabled == self.rpc_enabled,
            c.rpc_url == self.rpc_url,
            c.rpc_port == self.rpc_port,
    {
        Self { use_utp: utp, ..self }
    }

    /// Set the log level.
    ///
    /// - 0: No logging
    /// - 1: Errors
    /// - 2: Info
    /// - 3: Debug
    /// - 4: Everything
    ///
    /// Defaults to 1
    pub fn log_level(self, level: i64) -> (c: Self)
        ensures
            c.log_level == level,
            c.app_name == self.app_name,
            c.config_dir == self.config_dir,
            c.download_dir == self.download_dir,
            c.use_utp == self.use_utp,
            c.rpc_enabled == self.rpc_enabled,
            c.rpc_url == self.rpc_url,
            c.rpc_port == self.rpc_port,
    {
        Self { log_level: level, ..self }
    }

    /// Toggle the RPC server. Defaults to `false`.
    pub fn rpc_enabled(self, rpc: bool) -> (c: Self)
        ensures
            c.rpc_enabled == rpc,
            c.app_name == self.app_name,
            c.config_dir == self.config_dir,
            c.download_dir == self.download_dir,
            c.use_utp == self.use_utp,
            c.log_level == self.log_level,
            c.rpc_url == self.rpc_url,
            c.rpc_port == self.rpc_port,
    {
        Self { rpc_enabled: rpc, ..self }
    }

    /// Set the URL the RPC server will serve on.
    pub fn rpc_url(self, rpc_url: String) -> (c: Self)
        ensures
            c.rpc_url matches Some(u) && u@ == rpc_url@,
            c.app_name == self.app_name,
            c.config_dir == self.config_dir,
            c.download_dir == self.download_dir,
            c.use_utp == self.use_utp,
            c.log_level == self.log_level,
            c.rpc_enabled == self.rpc_enabled,
            c.rpc_port == self.rpc_port,
    {
        Self { rpc_url: Some(rpc_url), ..self }
    }

    /// Set the port the RPC server will serve on.
    pub fn rpc_port(self, rpc_port: String) -> (c: Self)
        ensures
            c.rpc_port matches Some(p) && p@ == rpc_port@,
            c.app_name == self.app_name,
            c.config_dir == self.config_dir,
            c.download_dir == self.download_dir,
            c.use_utp == self.use_utp,
            c.log_level == self.log_level,
            c.rpc_enabled == self.rpc_enabled,
            c.rpc_url == self.rpc_url,
    {
        Self { rpc_port: Some(rpc_port), ..self }
    }

    /// Whether the three required fields are all set.
    ///
    /// A configuration that is not complete is rejected before any
    /// native call is made.
    pub fn is_complete(&self) -> (b: bool)
        ensures
            b == self.spec_complete(),
    {
        self.app_name.is_some() && self.config_dir.is_some() && self.download_dir.is_some()
    }

    /// The settings this configuration asks the native session to load,
    /// in the order they are written into the native settings
    /// dictionary.
    pub fn settings(&self) -> (v: Vec<Setting>)
        ensures
            settings_match(*self, v@),
    {
        let mut v: Vec<Setting> = Vec::new();
        match &self.download_dir {
            Some(d) => {
                v.push(Setting { key: SettingKey::DownloadDir, value: SettingValue::Text(d.clone()) });
            },
            None => {},
        }
        v.push(Setting { key: SettingKey::UtpEnabled, value: SettingValue::Flag(self.use_utp) });
        v.push(Setting { key: SettingKey::MessageLevel, value: SettingValue::Number(self.log_level) });
        v.push(Setting { key: SettingKey::RpcEnabled, value: SettingValue::Flag(self.rpc_enabled) });
        if self.rpc_enabled {
            match &self.rpc_url {
                Some(url) => {
                    v.push(Setting { key: SettingKey::RpcUrl, value: SettingValue::Text(url.clone()) });
                },
                None => {},
            }
            match &self.rpc_port {
                Some(port) => {
                    v.push(Setting { key: SettingKey::RpcPort, value: SettingValue::Text(port.clone()) });
                },
                None => {},
            }
        }
        v
    }
}

/// A key of the native settings dictionary.
#[derive(Clone, Copy, Debug, PartialEq, Eq, Structural)]
pub enum SettingKey {
    DownloadDir,
    UtpEnabled,
    MessageLevel,
    RpcEnabled,
    RpcUrl,
    RpcPort,
}

/// A value to write under a settings key.
#[derive(Clone, Debug)]
pub enum SettingValue {
    Text(String),
    Number(i64),
    Flag(bool),
}

/// One entry of the native settings dictionary.
#[derive(Clone, Debug)]
pub struct Setting {
    pub key: SettingKey,
    pub value: SettingValue,
}

/// The exact settings sequence a configuration stands for: the download
/// directory when one is set, then the UTP toggle, the log level and
/// the RPC toggle, then - only when RPC is enabled - the RPC URL and
/// port that are set.
pub open spec fn settings_match(c: ClientConfig, s: Seq<Setting>) -> bool {
    let k: int = if c.download_dir is Some {
        1
    } else {
        0
    };
    let u: int = if c.rpc_enabled && c.rpc_url is Some {
        1
    } else {
        0
    };
    let p: int = if c.rpc_enabled && c.rpc_port is Some {
        1
    } else {
        0
    };
    &&& s.len() == k + 3 + u + p
    &&& c.download_dir is Some ==> s[0].key is DownloadDir
    &&& c.download_dir matches Some(d) ==> (s[0].value matches SettingValue::Text(t) && t@ == d@)
    &&& s[k].key is UtpEnabled
    &&& s[k].value matches SettingValue::Flag(b) && b == c.use_utp
    &&& s[k + 1].key is MessageLevel
    &&& s[k + 1].value matches SettingValue::Number(n) && n == c.log_level
    &&& s[k + 2].key is RpcEnabled
    &&& s[k + 2].value matches SettingValue::Flag(b) && b == c.rpc_enabled
    &&& u == 1 ==> s[k + 3].key is RpcUrl
    &&& u == 1 ==> (c.rpc_url matches Some(url) ==> (s[k + 3].value matches SettingValue::Text(t)
        && t@ == url@))
    &&& p == 1 ==> s[k + 3 + u].key is RpcPort
    &&& p == 1 ==> (c.rpc_port matches Some(port) ==> (s[k + 3 + u].value matches SettingValue::Text(
        t,
    ) && t@ == port@))
}

/// An operation requested on a session handle.
#[derive(Clone, Copy, Debug, PartialEq, Eq, Structural)]
pub enum SessionEvent {
    /// Add a torrent from a metainfo file.
    AddFile,
    /// Add a torrent from a magnet link.
    AddMagnet,
    /// Close the session.
    Close,
}

/// What a requested operation may do, given the handle's state.
#[derive(Clone, Copy, Debug, PartialEq, Eq, Structural)]
pub enum SessionAction {
    /// Issue the native add-from-file call.
    NativeAddFile,
    /// Issue the native add-from-magnet call.
    NativeAddMagnet,
    /// Issue the native session-close call.
    NativeClose,
    /// The handle is closed: the operation is misuse and must be
    /// reported, not forwarded to the native engine.
    RejectClosed,
    /// The handle is already closed and the event is a repeated close:
    /// a silent no-op.
    Ignore,
}

/// The handle state after an event: a close closes the handle, and
/// nothing reopens it.
pub open spec fn step_state(closed: bool, e: SessionEvent) -> bool {
    match e {
        SessionEvent::Close => true,
        _ => closed,
    }
}

/// What an event is allowed to do: on an open handle every operation
/// reaches the native engine; on a closed handle a repeated close is
/// ignored and anything else is rejected as misuse.
pub open spec fn step_action(closed: bool, e: SessionEvent) -> SessionAction {
    if closed {
        match e {
            SessionEvent::Close => SessionAction::Ignore,
            _ => SessionAction::RejectClosed,
        }
    } else {
        match e {
            SessionEvent::AddFile => SessionAction::NativeAddFile,
            SessionEvent::AddMagnet => SessionAction::NativeAddMagnet,
            SessionEvent::Close => SessionAction::NativeClose,
        }
    }
}

/// Interface into the major functions of the native engine, including
/// adding and removing torrents.
///
/// The `Client` does not keep track of the created torrents itself.
/// This handle carries the open/closed state of the session; the native
/// session pointer it stands for is held by the caller, who may issue a
/// native call only when [`Client::step`] answers with the matching
/// action.
pub struct Client {
    /// Whether the session has been closed.
    pub closed: bool,
}

impl Client {
    /// Creates a new `Client` for an initialized session.
    ///
    /// Takes a `ClientConfig` with the populated options; the three
    /// required fields must be set (an incomplete configuration is
    /// rejected by [`ClientConfig::is_complete`] before any native call
    /// is made).
    pub fn new(config: ClientConfig) -> (c: Self)
        requires
            config.spec_complete(),
        ensures
            !c.closed,
    {
        Self { closed: false }
    }

    /// Whether the session is still open.
    pub fn is_open(&self) -> (b: bool)
        ensures
            b == !self.closed,
    {
        !self.closed
    }

    /// Decide what a requested operation may do, and advance the
    /// handle's state.
    pub fn step(&mut self, e: SessionEvent) -> (a: SessionAction)
        ensures
            final(self).closed == step_state(old(self).closed, e),
            a == step_action(old(self).closed, e),
    {
        let was_closed = self.closed;
        match e {
            SessionEvent::Close => {
                self.closed = true;
                if was_closed {
                    SessionAction::Ignore
                } else {
                    SessionAction::NativeClose
                }
            },
            SessionEvent::AddFile => {
                if was_closed {
                    SessionAction::RejectClosed
                } else {
                    SessionAction::NativeAddFile
                }
            },
            SessionEvent::AddMagnet => {
                if was_closed {
                    SessionAction::RejectClosed
                } else {
                    SessionAction::NativeAddMagnet
                }
            },
        }
    }

    /// Gracefully close the client, ending the session.
    ///
    /// Closing twice is a silent no-op. The result says whether the
    /// native session must now be released: it is `true` exactly on the
    /// first close, so the underlying release happens exactly once.
    pub fn close(&mut self) -> (release: bool)
        ensures
            final(self).closed,
            release == !old(self).closed,
    {
        let a = self.step(SessionEvent::Close);
        match a {
            SessionAction::NativeClose => true,
            _ => false,
        }
    }

    /// Interpret the two native codes of an add operation: the result
    /// of feeding the source to the constructor, then the parse result
    /// of instantiating the torrent.
    ///
    /// A source the constructor refuses is an unknown failure; the
    /// parse result is translated through the error taxonomy, so a
    /// duplicate submission is distinguished from a parse failure.
    pub fn interpret_add(set_code: i32, new_code: i32) -> (r: TrResult<()>)
        ensures
            r == add_outcome(set_code as int, new_code as int),
    {
        if set_code != 0 {
            Err(Error::Unknown)
        } else {
            Error::from(new_code).to_result()
        }
    }
}

/// The outcome of an add operation, from the two native codes it
/// produces.
pub open spec fn add_outcome(set_code: int, new_code: int) -> TrResult<()> {
    if set_code != 0 {
        TrResult::<()>::Err(Error::Unknown)
    } else if parse_error_of(new_code) == Error::NoError {
        TrResult::<()>::Ok(())
    } else {
        TrResult::<()>::Err(parse_error_of(new_code))
    }
}

/// A resubmission of an already-tracked torrent is reported by the
/// native engine with its dedicated parse code, and the adapter keeps
/// the distinction: exactly that code becomes `ParseDuplicate`, so a
/// duplicate is never confused with `ParseErr` or `Unknown`.
pub proof fn lemma_duplicate_distinct(new_code: int)
    ensures
        (add_outcome(0, new_code) == TrResult::<()>::Err(Error::ParseDuplicate)) <==> new_code == 2,
{
}

/// Once a session is closed, every further event is handled
/// deterministically and without a native call: a repeated close is
/// ignored, any other operation is rejected as misuse, and the handle
/// stays closed.
pub proof fn lemma_closed_rejects_all(e: SessionEvent)
    ensures
        step_state(true, e) == true,
        step_action(true, e) == (if e is Close {
            SessionAction::Ignore
        } else {
            SessionAction::RejectClosed
        }),
{
}

/// Whether a sequence of events contains a close request.
pub open spec fn has_close(es: Seq<SessionEvent>) -> bool
    decreases es.len(),
{
    if es.len() == 0 {
        false
    } else {
        es[0] is Close || has_close(es.subrange(1, es.len() as int))
    }
}

/// How many native session releases a sequence of events issues,
/// starting from the given handle state.
pub open spec fn release_count(closed: bool, es: Seq<SessionEvent>) -> nat
    decreases es.len(),
{
    if es.len() == 0 {
        0
    } else {
        (if step_action(closed, es[0]) is NativeClose {
            1nat
        } else {
            0nat
        }) + release_count(step_state(closed, es[0]), es.subrange(1, es.len() as int))
    }
}

/// However close requests are interleaved with other operations - in
/// particular when several holders of the same handle race to close it
/// - the native session is released at most once; starting from an open
/// handle it is released exactly once when some close is requested, and
/// a closed handle is never released again.
pub proof fn lemma_single_release(closed: bool, es: Seq<SessionEvent>)
    ensures
        release_count(closed, es) <= 1,
        closed ==> release_count(closed, es) == 0,
        !closed ==> (release_count(closed, es) == 1 <==> has_close(es)),
    decreases es.len(),
{
    if es.len() > 0 {
        lemma_single_release(step_state(closed, es[0]), es.subrange(1, es.len() as int));
    }
}

} // verus!
