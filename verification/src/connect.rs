//! The decisions taken while a connection opens: the compatibility probe's
//! handling of its rows and errors, and the check of the session's
//! read-only state.

use vstd::prelude::*;
use crate::types::str_equal;
use crate::dat::pairs_view;
use crate::text::{decimal, push_decimal, push_str_chars, string_from_chars};

verus! {

/// The error codes that a compatibility probe may fail with and still be
/// ignored: an undefined table or column, a missing privilege, or an
/// unsupported feature.
pub open spec fn ignorable_probe_code(code: Seq<char>) -> bool {
    ||| code == "42P01"@
    ||| code == "42703"@
    ||| code == "42501"@
    ||| code == "0A000"@
}

/// Whether a failed probe query, with the SQLSTATE `code` of its database
/// error if it has one, is ignored rather than failing the connection.
pub fn should_ignore_kingbase_probe_error(code: Option<&str>) -> (r: bool)
    ensures
        r == (code matches Some(c) && ignorable_probe_code(c@)),
{
    match code {
        Some(c) => str_equal(c, "42P01") || str_equal(c, "42703") || str_equal(c, "42501")
            || str_equal(c, "0A000"),
        None => false,
    }
}

/// The query of the compatibility probe: the server settings that decide
/// the compatibility mode and its options.
pub open spec fn compatibility_query_sql() -> Seq<char> {
    "SELECT name, setting
FROM pg_settings
WHERE name = 'database_mode'
   OR name = 'ora_input_emptystr_isnull'
   OR name = 'enable_unpaired_comment'
   OR name = 'sql_mode'
   OR name = 'kdb_flashback.db_recyclebin'"@
}

/// The text of the compatibility probe's query.
pub fn compatibility_query() -> (r: &'static str)
    ensures
        r@ == compatibility_query_sql(),
{
    "SELECT name, setting
FROM pg_settings
WHERE name = 'database_mode'
   OR name = 'ora_input_emptystr_isnull'
   OR name = 'enable_unpaired_comment'
   OR name = 'sql_mode'
   OR name = 'kdb_flashback.db_recyclebin'"
}

/// The text of the query that reads whether the session is read-only,
/// sent where the target session attributes are not `Any`.
pub fn read_only_query() -> (r: &'static str)
    ensures
        r@ == "SHOW transaction_read_only"@,
{
    "SHOW transaction_read_only"
}

/// The server settings that the compatibility probe has read, by name.
pub struct ProbeSettings {
    entries: Vec<(String, String)>,
}

/// Whether no name occurs twice in `s`.
pub open spec fn names_unique(s: Seq<(Seq<char>, Seq<char>)>) -> bool {
    forall|i: int, j: int| 0 <= i < j < s.len() ==> #[trigger] s[i].0 != #[trigger] s[j].0
}

/// The settings of `s` by name.
pub open spec fn settings_map(s: Seq<(Seq<char>, Seq<char>)>) -> Map<Seq<char>, Seq<char>> {
    Map::new(
        |k: Seq<char>| exists|i: int| 0 <= i < s.len() && #[trigger] s[i].0 == k,
        |k: Seq<char>| s[choose|i: int| 0 <= i < s.len() && #[trigger] s[i].0 == k].1,
    )
}

proof fn lemma_settings_index(s: Seq<(Seq<char>, Seq<char>)>, i: int)
    requires
        names_unique(s),
        0 <= i < s.len(),
    ensures
        settings_map(s).contains_key(s[i].0),
        settings_map(s)[s[i].0] == s[i].1,
{
    let j = choose|j: int| 0 <= j < s.len() && #[trigger] s[j].0 == s[i].0;
    if j != i {
        if j < i {
            assert(s[j].0 != s[i].0);
        } else {
            assert(s[i].0 != s[j].0);
        }
    }
}

impl ProbeSettings {
    /// The settings as name and value pairs, in the order they were first
    /// read.
    pub closed spec fn pairs(&self) -> Seq<(Seq<char>, Seq<char>)> {
        pairs_view(self.entries@)
    }

    /// No name occurs twice.
    pub open spec fn wf(&self) -> bool {
        names_unique(self.pairs())
    }

    /// The settings by name.
    pub open spec fn map(&self) -> Map<Seq<char>, Seq<char>> {
        settings_map(self.pairs())
    }

    /// No settings.
    pub fn new() -> (r: ProbeSettings)
        ensures
            r.wf(),
            r.map() == Map::<Seq<char>, Seq<char>>::empty(),
    {
        let r = ProbeSettings { entries: Vec::new() };
        assert(r.pairs() =~= Seq::<(Seq<char>, Seq<char>)>::empty());
        assert(r.map() =~= Map::<Seq<char>, Seq<char>>::empty());
        r
    }

    /// Sets `name` to `value`, in place of the value it had.
    pub fn insert(&mut self, name: String, value: String)
        requires
            old(self).wf(),
        ensures
            final(self).wf(),
            final(self).map() == old(self).map().insert(name@, value@),
    {
        let ghost s = self.pairs();
        let ghost k = name@;
        let ghost v = value@;
        let n = self.entries.len();
        let mut i: usize = 0;
        while i < n
            invariant
                i <= n == self.entries.len(),
                self.pairs() == s,
                old(self).pairs() == s,
                names_unique(s),
                k == name@,
                v == value@,
                forall|j: int| 0 <= j < i ==> #[trigger] s[j].0 != k,
            decreases n - i,
        {
            proof {
                assert(s[i as int] == (self.entries@[i as int].0@, self.entries@[i as int].1@));
            }
            if self.entries[i].0 == name {
                let ghost before = self.entries@;
                self.entries.set(i, (name, value));
                proof {
                    assert(self.entries@ == before.update(i as int, (name, value)));
                }
                proof {
                    let t = s.update(i as int, (k, v));
                    assert(self.pairs() =~= t);
                    assert forall|a: int, b: int| 0 <= a < b < t.len() implies #[trigger] t[a].0 != #[trigger] t[b].0 by {
                        assert(s[a].0 != s[b].0);
                    }
                    assert forall|key: Seq<char>| #[trigger] settings_map(t).contains_key(key) == settings_map(s).insert(k, v).contains_key(key) by {
                        if settings_map(t).contains_key(key) {
                            let j = choose|j: int| 0 <= j < t.len() && #[trigger] t[j].0 == key;
                            assert(s[j].0 == key);
                        }
                        if settings_map(s).contains_key(key) {
                            let j = choose|j: int| 0 <= j < s.len() && #[trigger] s[j].0 == key;
                            assert(t[j].0 == key);
                        }
                        if key == k {
                            assert(t[i as int].0 == key);
                        }
                    }
                    assert forall|key: Seq<char>| #[trigger] settings_map(t).contains_key(key) implies settings_map(t)[key] == settings_map(s).insert(k, v)[key] by {
                        let j = choose|j: int| 0 <= j < t.len() && #[trigger] t[j].0 == key;
                        lemma_settings_index(t, j);
                        if j != i {
                            lemma_settings_index(s, j);
                            if j < i {
                                assert(t[j].0 != t[i as int].0);
                            } else {
                                assert(t[i as int].0 != t[j].0);
                            }
                        }
                    }
                    assert(settings_map(t) =~= settings_map(s).insert(k, v));
                }
                return;
            }
            i = i + 1;
        }
        self.entries.push((name, value));
        proof {
            let t = s.push((k, v));
            assert(self.pairs() =~= t);
            assert forall|a: int, b: int| 0 <= a < b < t.len() implies #[trigger] t[a].0 != #[trigger] t[b].0 by {
                if b < s.len() {
                    assert(s[a].0 != s[b].0);
                } else {
                    assert(s[a].0 != k);
                }
            }
            assert forall|key: Seq<char>| #[trigger] settings_map(t).contains_key(key) == settings_map(s).insert(k, v).contains_key(key) by {
                if settings_map(t).contains_key(key) {
                    let j = choose|j: int| 0 <= j < t.len() && #[trigger] t[j].0 == key;
                    if j < s.len() {
                        assert(s[j].0 == key);
                    }
                }
                if settings_map(s).contains_key(key) {
                    let j = choose|j: int| 0 <= j < s.len() && #[trigger] s[j].0 == key;
                    assert(t[j].0 == key);
                }
                if key == k {
                    assert(t[s.len() as int].0 == key);
                }
            }
            assert forall|key: Seq<char>| #[trigger] settings_map(t).contains_key(key) implies settings_map(t)[key] == settings_map(s).insert(k, v)[key] by {
                let j = choose|j: int| 0 <= j < t.len() && #[trigger] t[j].0 == key;
                lemma_settings_index(t, j);
                if j < s.len() {
                    lemma_settings_index(s, j);
                }
            }
            assert(settings_map(t) =~= settings_map(s).insert(k, v));
        }
    }

    /// The settings as name and value pairs.
    pub fn into_pairs(self) -> (r: Vec<(String, String)>)
        ensures
            pairs_view(r@) == self.pairs(),
    {
        self.entries
    }
}

/// What the compatibility probe received next.
pub enum ProbeEvent {
    /// A row, with its setting's name and value where they are not `NULL`.
    Row { name: Option<String>, setting: Option<String> },
    /// A message other than a row.
    Other,
    /// The end of the rows.
    End,
    /// The probe failed, with the SQLSTATE code of its database error if it
    /// has one.
    Failed { code: Option<String> },
}

/// What the connection does after a probe event.
#[derive(Debug, Copy, Clone, PartialEq, Eq, Structural)]
pub enum ProbeStep {
    /// Waits for the next event.
    Continue,
    /// Hands the settings read to the client.
    Finished,
    /// Keeps the default compatibility mode and goes on.
    Ignored,
    /// Fails the connection with the probe's error.
    Failed,
}

/// Takes one probe event: a row with both a name and a value records that
/// setting; the end hands the settings over; a failure is ignored where its
/// code allows it, and fails the connection otherwise.
pub fn probe_step(settings: &mut ProbeSettings, event: ProbeEvent) -> (r: ProbeStep)
    requires
        old(settings).wf(),
    ensures
        final(settings).wf(),
        match event {
            ProbeEvent::Row { name: Some(n), setting: Some(s) } => r == ProbeStep::Continue
                && final(settings).map() == old(settings).map().insert(n@, s@),
            ProbeEvent::Row { .. } => r == ProbeStep::Continue && *final(settings) == *old(settings),
            ProbeEvent::Other => r == ProbeStep::Continue && *final(settings) == *old(settings),
            ProbeEvent::End => r == ProbeStep::Finished && *final(settings) == *old(settings),
            ProbeEvent::Failed { code } => *final(settings) == *old(settings) && r == (if code matches Some(c)
                && ignorable_probe_code(c@) {
                ProbeStep::Ignored
            } else {
                ProbeStep::Failed
            }),
        },
{
    match event {
        ProbeEvent::Row { name: Some(n), setting: Some(s) } => {
            settings.insert(n, s);
            ProbeStep::Continue
        },
        ProbeEvent::Row { .. } => ProbeStep::Continue,
        ProbeEvent::Other => ProbeStep::Continue,
        ProbeEvent::End => ProbeStep::Finished,
        ProbeEvent::Failed { code } => {
            let ignore = match &code {
                Some(c) => should_ignore_kingbase_probe_error(Some(c.as_str())),
                None => should_ignore_kingbase_probe_error(None),
            };
            if ignore {
                ProbeStep::Ignored
            } else {
                ProbeStep::Failed
            }
        },
    }
}

/// The kind of session that a connection asks for.
#[derive(Debug, Copy, Clone, PartialEq, Eq, Structural)]
pub enum TargetSessionAttrs {
    /// No particular kind.
    Any,
    /// A session that allows writes.
    ReadWrite,
    /// A read-only session.
    ReadOnly,
}

/// The verdict on a session, from its `transaction_read_only` setting.
#[derive(Debug, Copy, Clone, PartialEq, Eq, Structural)]
pub enum SessionVerdict {
    /// The session is of the kind asked for.
    Accepted,
    /// A writable session was asked for and the database does not allow
    /// writes.
    DoesNotAllowWrites,
    /// A read-only session was asked for and the database is not read only.
    NotReadOnly,
}

/// Whether a session whose `transaction_read_only` reads `read_only` is of
/// the kind `attrs` asks for.
pub fn session_verdict(attrs: TargetSessionAttrs, read_only: Option<&str>) -> (r: SessionVerdict)
    ensures
        r == (if read_only matches Some(v) && v@ == "on"@ && attrs == TargetSessionAttrs::ReadWrite {
            SessionVerdict::DoesNotAllowWrites
        } else if read_only matches Some(v) && v@ == "off"@ && attrs == TargetSessionAttrs::ReadOnly {
            SessionVerdict::NotReadOnly
        } else {
            SessionVerdict::Accepted
        }),
{
    match read_only {
        Some(v) => {
            if str_equal(v, "on") && attrs == TargetSessionAttrs::ReadWrite {
                SessionVerdict::DoesNotAllowWrites
            } else if str_equal(v, "off") && attrs == TargetSessionAttrs::ReadOnly {
                SessionVerdict::NotReadOnly
            } else {
                SessionVerdict::Accepted
            }
        },
        None => SessionVerdict::Accepted,
    }
}

/// Whether a connection asks the server for its `transaction_read_only`
/// setting after the start: only where a kind of session other than `Any`
/// is asked for.
pub fn checks_read_only(attrs: TargetSessionAttrs) -> (r: bool)
    ensures
        r == (attrs != TargetSessionAttrs::Any),
{
    match attrs {
        TargetSessionAttrs::Any => false,
        TargetSessionAttrs::ReadWrite | TargetSessionAttrs::ReadOnly => true,
    }
}

/// The kind of the I/O error that refuses a connection.
#[derive(Debug, Copy, Clone, PartialEq, Eq, Structural)]
pub enum RefusalKind {
    /// The session may not be used as asked: `io::ErrorKind::PermissionDenied`.
    PermissionDenied,
}

/// The error that refuses a session: its kind and message.
#[derive(Debug, PartialEq, Eq)]
pub struct SessionRefusal {
    pub kind: RefusalKind,
    pub message: String,
}

impl Clone for SessionRefusal {
    /// A copy with the same kind and message.
    fn clone(&self) -> (r: Self)
        ensures
            r.kind == self.kind,
            r.message@ == self.message@,
    {
        SessionRefusal { kind: self.kind, message: self.message.clone() }
    }
}

/// The message of the refusal of a session with the verdict `v`, if it is
/// refused.
pub open spec fn refusal_message(v: SessionVerdict) -> Option<Seq<char>> {
    match v {
        SessionVerdict::Accepted => None,
        SessionVerdict::DoesNotAllowWrites => Some("database does not allow writes"@),
        SessionVerdict::NotReadOnly => Some("database is not read only"@),
    }
}

/// The connection error for a session with the verdict `v`: none for an
/// accepted session, else a `PermissionDenied` error whose message says
/// why.
pub fn session_refusal(v: SessionVerdict) -> (r: Option<SessionRefusal>)
    ensures
        match refusal_message(v) {
            None => r is None,
            Some(m) => r matches Some(e) && e.kind == RefusalKind::PermissionDenied && e.message@ == m,
        },
{
    match v {
        SessionVerdict::Accepted => None,
        SessionVerdict::DoesNotAllowWrites => Some(
            SessionRefusal {
                kind: RefusalKind::PermissionDenied,
                message: "database does not allow writes".to_owned(),
            },
        ),
        SessionVerdict::NotReadOnly => Some(
            SessionRefusal { kind: RefusalKind::PermissionDenied, message: "database is not read only".to_owned() },
        ),
    }
}

/// A host named in a connection's configuration.
#[derive(Debug, PartialEq, Eq)]
pub enum HostSpec {
    /// A host name or address reached over TCP.
    Tcp(String),
    /// The directory of a Unix socket.
    Unix(String),
}

impl Clone for HostSpec {
    /// A copy of the same host.
    fn clone(&self) -> (r: Self)
        ensures
            r@ == self@,
    {
        match self {
            HostSpec::Tcp(h) => HostSpec::Tcp(h.clone()),
            HostSpec::Unix(p) => HostSpec::Unix(p.clone()),
        }
    }
}

/// The mathematical value of a [`HostSpec`].
pub enum HostView {
    Tcp(Seq<char>),
    Unix(Seq<char>),
}

impl View for HostSpec {
    type V = HostView;

    open spec fn view(&self) -> HostView {
        match self {
            HostSpec::Tcp(h) => HostView::Tcp(h@),
            HostSpec::Unix(p) => HostView::Unix(p@),
        }
    }
}

/// The message of a configuration that names as many hosts as host
/// addresses in neither way.
pub open spec fn host_count_message(hosts: nat, hostaddrs: nat) -> Seq<char> {
    "number of hosts ("@ + decimal(hosts) + ") is different from number of hostaddrs ("@ + decimal(
        hostaddrs,
    ) + ")"@
}

/// Checks how many hosts, host addresses and ports a configuration names,
/// and gives the number of hosts to try: hosts or addresses must be named,
/// as many of each where both are, and either at most one port or one per
/// host.
pub fn host_count(hosts: usize, hostaddrs: usize, ports: usize) -> (r: Result<usize, String>)
    ensures
        hosts == 0 && hostaddrs == 0 ==> (r matches Err(m) && m@ == "both host and hostaddr are missing"@),
        hosts != 0 && hostaddrs != 0 && hosts != hostaddrs ==> (r matches Err(m) && m@ == host_count_message(
            hosts as nat,
            hostaddrs as nat,
        )),
        (hosts != 0 || hostaddrs != 0) && (hosts == 0 || hostaddrs == 0 || hosts == hostaddrs) ==> {
            let n = if hosts >= hostaddrs {
                hosts
            } else {
                hostaddrs
            };
            if ports > 1 && ports != n {
                r matches Err(m) && m@ == "invalid number of ports"@
            } else {
                r == Ok::<usize, String>(n)
            }
        },
{
    if hosts == 0 && hostaddrs == 0 {
        return Err("both host and hostaddr are missing".to_owned());
    }
    if hosts != 0 && hostaddrs != 0 && hosts != hostaddrs {
        let mut v: Vec<char> = Vec::new();
        push_str_chars(&mut v, "number of hosts (");
        push_decimal(&mut v, hosts as u64);
        push_str_chars(&mut v, ") is different from number of hostaddrs (");
        push_decimal(&mut v, hostaddrs as u64);
        push_str_chars(&mut v, ")");
        return Err(string_from_chars(&v));
    }
    let n = if hosts >= hostaddrs {
        hosts
    } else {
        hostaddrs
    };
    if ports > 1 && ports != n {
        return Err("invalid number of ports".to_owned());
    }
    Ok(n)
}

/// The port of the host at `i`: its own, else the first one named, else
/// 5432.
pub open spec fn port_of(ports: Seq<u16>, i: int) -> u16 {
    if 0 <= i < ports.len() {
        ports[i]
    } else if ports.len() > 0 {
        ports[0]
    } else {
        5432
    }
}

/// Where a connection attempt goes: the host to reach, the name that TLS
/// checks the server's certificate against, and the port.
#[derive(Debug, PartialEq, Eq)]
pub struct ConnectTarget {
    pub addr: HostSpec,
    pub hostname: Option<String>,
    pub port: u16,
}

impl Clone for ConnectTarget {
    /// A copy of the same target.
    fn clone(&self) -> (r: Self)
        ensures
            r.addr@ == self.addr@,
            r.hostname.is_some() == self.hostname.is_some(),
            self.hostname matches Some(h) ==> r.hostname matches Some(g) && g@ == h@,
            r.port == self.port,
    {
        let hostname = match &self.hostname {
            Some(h) => Some(h.clone()),
            None => None,
        };
        ConnectTarget { addr: self.addr.clone(), hostname, port: self.port }
    }
}

/// The attempt for the host at `i`: it goes to the host address at `i`
/// where there is one, else to the host itself; TLS checks the name of a
/// TCP host at `i`.
pub fn connect_target(hosts: &[HostSpec], hostaddrs: &[String], ports: &[u16], i: usize) -> (r: ConnectTarget)
    requires
        i < hosts.len() || i < hostaddrs.len(),
    ensures
        r.addr@ == (if i < hostaddrs.len() {
            HostView::Tcp(hostaddrs@[i as int]@)
        } else {
            hosts@[i as int]@
        }),
        r.hostname == (if i < hosts.len() && hosts@[i as int] is Tcp {
            Some(hosts@[i as int]->Tcp_0)
        } else {
            None
        }),
        r.port == port_of(ports@, i as int),
{
    let port = if i < ports.len() {
        ports[i]
    } else if ports.len() > 0 {
        ports[0]
    } else {
        5432
    };
    let hostname = if i < hosts.len() {
        match &hosts[i] {
            HostSpec::Tcp(h) => Some(h.clone()),
            HostSpec::Unix(_) => None,
        }
    } else {
        None
    };
    let addr = if i < hostaddrs.len() {
        HostSpec::Tcp(hostaddrs[i].clone())
    } else {
        match &hosts[i] {
            HostSpec::Tcp(h) => HostSpec::Tcp(h.clone()),
            HostSpec::Unix(p) => HostSpec::Unix(p.clone()),
        }
    };
    ConnectTarget { addr, hostname, port }
}

} // verus!
