//! The records of the daemon's control API and their mathematical views.

use vstd::prelude::*;
use vstd::string::StringExecFns;

verus! {

/// The daemon-wide routing mode.
#[derive(Clone, Copy, Debug, PartialEq, Eq, Structural)]
pub enum Mode {
    Rule,
    Global,
    Direct,
}

/// Whether two string slices hold the same text.
pub fn same_text(a: &str, b: &str) -> (r: bool)
    ensures
        r == (a@ == b@),
{
    let left = String::from_str(a);
    let right = String::from_str(b);
    left == right
}

impl Mode {
    /// The word that stands for the mode on the wire.
    pub open spec fn wire_name(self) -> Seq<char> {
        match self {
            Mode::Rule => "rule"@,
            Mode::Global => "global"@,
            Mode::Direct => "direct"@,
        }
    }

    /// The mode that a wire word stands for, if any.
    pub open spec fn from_wire(text: Seq<char>) -> Option<Mode> {
        if text == "rule"@ {
            Some(Mode::Rule)
        } else if text == "global"@ {
            Some(Mode::Global)
        } else if text == "direct"@ {
            Some(Mode::Direct)
        } else {
            None
        }
    }

    /// The word that stands for the mode on the wire.
    pub fn as_str(self) -> (r: &'static str)
        ensures
            r@ == self.wire_name(),
    {
        match self {
            Mode::Rule => "rule",
            Mode::Global => "global",
            Mode::Direct => "direct",
        }
    }

    /// The mode that a wire word stands for, if any.
    pub fn parse(text: &str) -> (r: Option<Mode>)
        ensures
            r == Mode::from_wire(text@),
    {
        if same_text(text, "rule") {
            Some(Mode::Rule)
        } else if same_text(text, "global") {
            Some(Mode::Global)
        } else if same_text(text, "direct") {
            Some(Mode::Direct)
        } else {
            None
        }
    }

    /// Reading back the wire word of a mode gives that mode.
    pub proof fn lemma_wire_round_trip(mode: Mode)
        ensures
            Mode::from_wire(mode.wire_name()) == Some(mode),
    {
        reveal_strlit("rule");
        reveal_strlit("global");
        reveal_strlit("direct");
        assert("rule"@.len() == 4);
        assert("global"@.len() == 6);
        assert("direct"@.len() == 6);
        assert("global"@[0] == 'g');
        assert("direct"@[0] == 'd');
    }
}

/// One sample of a proxy's measured delay.
#[derive(Debug, PartialEq, Eq)]
pub struct DelayHistory {
    pub time: String,
    pub delay: i32,
}

/// A delay sample as a mathematical value.
pub struct DelayHistoryView {
    pub time: Seq<char>,
    pub delay: i32,
}

impl DeepView for DelayHistory {
    type V = DelayHistoryView;

    open spec fn deep_view(&self) -> DelayHistoryView {
        DelayHistoryView { time: self.time@, delay: self.delay }
    }
}

impl Clone for DelayHistory {
    fn clone(&self) -> (r: Self)
        ensures
            r.deep_view() == self.deep_view(),
    {
        DelayHistory { time: self.time.clone(), delay: self.delay }
    }
}

/// A proxy node or proxy group as the daemon reported it.
#[derive(Debug, PartialEq, Eq)]
pub struct Proxy {
    /// The name, which is also the key of the proxy in a snapshot.
    pub name: String,
    /// The kind of node or group (`Selector`, `URLTest`, `Direct`, ...).
    pub proxy_type: String,
    /// The names of the members, for a group.
    pub all: Vec<String>,
    /// The member that is active, for a group.
    pub now: Option<String>,
    /// The delay samples.
    pub history: Vec<DelayHistory>,
}

/// A proxy as a mathematical value.
pub struct ProxyView {
    pub name: Seq<char>,
    pub proxy_type: Seq<char>,
    pub all: Seq<Seq<char>>,
    pub now: Option<Seq<char>>,
    pub history: Seq<DelayHistoryView>,
}

impl DeepView for Proxy {
    type V = ProxyView;

    open spec fn deep_view(&self) -> ProxyView {
        ProxyView {
            name: self.name@,
            proxy_type: self.proxy_type@,
            all: self.all.deep_view(),
            now: self.now.deep_view(),
            history: self.history.deep_view(),
        }
    }
}

/// A copy of a list of names.
pub fn clone_names(names: &Vec<String>) -> (r: Vec<String>)
    ensures
        r.deep_view() == names.deep_view(),
{
    let mut out: Vec<String> = Vec::new();
    let mut i: usize = 0;
    while i < names.len()
        invariant
            i <= names.len(),
            out.len() == i,
            forall|k: int| 0 <= k < i ==> out[k]@ == names[k]@,
        decreases names.len() - i,
    {
        out.push(names[i].clone());
        i += 1;
    }
    assert(out.deep_view() =~= names.deep_view());
    out
}

/// A copy of a list of delay samples.
fn clone_history(history: &Vec<DelayHistory>) -> (r: Vec<DelayHistory>)
    ensures
        r.deep_view() == history.deep_view(),
{
    let mut out: Vec<DelayHistory> = Vec::new();
    let mut i: usize = 0;
    while i < history.len()
        invariant
            i <= history.len(),
            out.len() == i,
            forall|k: int| 0 <= k < i ==> out[k].deep_view() == history[k].deep_view(),
        decreases history.len() - i,
    {
        out.push(history[i].clone());
        i += 1;
    }
    assert(out.deep_view() =~= history.deep_view());
    out
}

impl Clone for Proxy {
    fn clone(&self) -> (r: Self)
        ensures
            r.deep_view() == self.deep_view(),
    {
        let now = match &self.now {
            Some(name) => Some(name.clone()),
            None => None,
        };
        Proxy {
            name: self.name.clone(),
            proxy_type: self.proxy_type.clone(),
            all: clone_names(&self.all),
            now,
            history: clone_history(&self.history),
        }
    }
}

/// The measured delay of a proxy, in milliseconds.
#[derive(Clone, Debug, PartialEq, Eq)]
pub struct DelayResponse {
    pub delay: i32,
}

/// The memory that the daemon uses and the limit that the system sets, in
/// bytes.
#[derive(Clone, Debug, PartialEq, Eq)]
pub struct MemoryResponse {
    pub inuse: i64,
    pub oslimit: i64,
}

/// Where a connection comes from and where it goes.
#[derive(Clone, Debug, PartialEq, Eq)]
pub struct Metadata {
    pub network: String,
    pub metadata_type: String,
    pub source_ip: String,
    pub destination_ip: String,
    pub destination_port: u16,
    pub host: String,
}

/// One connection that the daemon carries.
#[derive(Clone, Debug, PartialEq, Eq)]
pub struct Connection {
    pub id: String,
    pub metadata: Metadata,
    /// Bytes sent.
    pub upload: i64,
    /// Bytes received.
    pub download: i64,
    /// When the connection began.
    pub start: String,
    /// The proxies that the connection runs through.
    pub chains: Vec<String>,
    /// The rule that matched.
    pub rule: String,
}

/// The connections of the daemon and its traffic totals at one moment.
#[derive(Clone, Debug, PartialEq, Eq)]
pub struct ConnectionsResponse {
    pub download_total: i64,
    pub upload_total: i64,
    pub connections: Vec<Connection>,
}

/// The part of the daemon's configuration that the client reads.
#[derive(Clone, Debug, PartialEq, Eq)]
pub struct ConfigResponse {
    pub external_controller: Option<String>,
    pub secret: Option<String>,
    pub mode: Option<Mode>,
}

} // verus!
