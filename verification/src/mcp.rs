//! The servers that offer more tools, and how they are reached.

use crate::paths::{join, path_join};
use crate::text::{
    chars_to_string, clone_string, extend_chars, extend_str, join_strings, opt_string_views,
    opt_view, spec_join, spec_trim, str_chars, string_views, trim,
};
use vstd::prelude::*;

verus! {

/// A server that is started as a command.
#[derive(Debug, Clone)]
pub struct McpServer {
    pub name: String,
    pub command: Vec<String>,
}

impl McpServer {
    pub fn new(name: String, command: Vec<String>) -> (server: McpServer)
        ensures
            server.name@ == name@,
            string_views(server.command@) == string_views(command@),
    {
        McpServer { name, command }
    }
}

/// A name with its value.
#[derive(Debug, Clone)]
pub struct NamedValue {
    pub name: String,
    pub value: String,
}

/// How one server is reached: as a command with its arguments and
/// environment, or at an address with its headers.
#[derive(Debug, Clone)]
pub struct McpServerConfig {
    pub command: Option<String>,
    pub args: Option<Vec<String>>,
    pub env: Option<Vec<NamedValue>>,
    pub url: Option<String>,
    pub bearer_token_env_var: Option<String>,
    pub http_headers: Option<Vec<NamedValue>>,
    pub timeout_sec: Option<u64>,
}

/// The part of a server's settings that says how it is reached.
pub struct ServerView {
    pub command: Option<Seq<char>>,
    pub args: Option<Seq<Seq<char>>>,
    pub url: Option<Seq<char>>,
}

impl View for McpServerConfig {
    type V = ServerView;

    open spec fn view(&self) -> ServerView {
        ServerView {
            command: opt_view(self.command),
            args: opt_string_views(self.args),
            url: opt_view(self.url),
        }
    }
}

impl Default for McpServerConfig {
    fn default() -> (out: McpServerConfig)
        ensures
            out@ == (ServerView { command: None, args: None, url: None }),
            out.env is None,
            out.bearer_token_env_var is None,
            out.http_headers is None,
            out.timeout_sec is None,
    {
        McpServerConfig {
            command: None,
            args: None,
            env: None,
            url: None,
            bearer_token_env_var: None,
            http_headers: None,
            timeout_sec: None,
        }
    }
}

/// A server under its name.
#[derive(Debug, Clone)]
pub struct McpServerEntry {
    pub name: String,
    pub server: McpServerConfig,
}

pub struct EntryView {
    pub name: Seq<char>,
    pub server: ServerView,
}

impl View for McpServerEntry {
    type V = EntryView;

    open spec fn view(&self) -> EntryView {
        EntryView { name: self.name@, server: self.server@ }
    }
}

pub open spec fn entry_views(entries: Seq<McpServerEntry>) -> Seq<EntryView> {
    Seq::new(entries.len(), |i: int| entries[i]@)
}

/// The servers that are known, each under its name.
#[derive(Debug, Clone)]
pub struct McpConfig {
    pub mcp_servers: Vec<McpServerEntry>,
}

impl View for McpConfig {
    type V = Seq<EntryView>;

    open spec fn view(&self) -> Seq<EntryView> {
        entry_views(self.mcp_servers@)
    }
}

impl Default for McpConfig {
    fn default() -> (out: McpConfig)
        ensures
            out@.len() == 0,
    {
        McpConfig { mcp_servers: Vec::new() }
    }
}

/// The settings of a server that is started as the given command line:
/// the first word is the command, the rest its arguments. There are no
/// settings for an empty command line.
pub open spec fn spec_stdio_server(command: Seq<Seq<char>>) -> Option<ServerView> {
    if command.len() == 0 {
        None
    } else {
        Some(
            ServerView {
                command: Some(command[0]),
                args: if command.len() == 1 {
                    None
                } else {
                    Some(command.subrange(1, command.len() as int))
                },
                url: None,
            },
        )
    }
}

pub open spec fn opt_server_view(server: Option<McpServerConfig>) -> Option<ServerView> {
    match server {
        Some(s) => Some(s@),
        None => None,
    }
}

/// The settings of a server that is started as the given command line.
pub fn stdio_server(command: &Vec<String>) -> (server: Option<McpServerConfig>)
    ensures
        opt_server_view(server) == spec_stdio_server(string_views(command@)),
        server matches Some(s) ==> s.env is None && s.bearer_token_env_var is None
            && s.http_headers is None && s.timeout_sec is None,
{
    if command.len() == 0 {
        return None;
    }
    let mut args: Vec<String> = Vec::new();
    let mut i: usize = 1;
    assert(string_views(args@) =~= string_views(command@).subrange(1, 1));
    while i < command.len()
        invariant
            1 <= i <= command.len(),
            string_views(args@) == string_views(command@).subrange(1, i as int),
        decreases command.len() - i,
    {
        let arg = clone_string(&command[i]);
        proof {
            crate::text::lemma_string_views_push(args@, arg);
        }
        args.push(arg);
        assert(string_views(args@) =~= string_views(command@).subrange(1, i + 1));
        i += 1;
    }
    let first = clone_string(&command[0]);
    assert(string_views(command@)[0] == command@[0]@);
    Some(
        McpServerConfig {
            command: Some(first),
            args: if args.len() == 0 {
                None
            } else {
                Some(args)
            },
            env: None,
            url: None,
            bearer_token_env_var: None,
            http_headers: None,
            timeout_sec: None,
        },
    )
}

/// How a server is reached, in one line: `http` and its address, or
/// `stdio` and its command line, or `unknown`.
pub open spec fn spec_server_summary(server: ServerView) -> Seq<char> {
    match server.url {
        Some(url) => "http "@ + url,
        None => match server.command {
            Some(command) => {
                let args = match server.args {
                    Some(args) => spec_join(args, seq![' ']),
                    None => Seq::empty(),
                };
                if args.len() == 0 {
                    "stdio "@ + command
                } else {
                    "stdio "@ + command + seq![' '] + args
                }
            },
            None => "unknown"@,
        },
    }
}

pub fn server_summary(server: &McpServerConfig) -> (out: Vec<char>)
    ensures
        out@ == spec_server_summary(server@),
{
    match &server.url {
        Some(url) => {
            let mut out = str_chars("http ");
            extend_str(&mut out, url.as_str());
            out
        },
        None => match &server.command {
            Some(command) => {
                proof {
                    reveal_strlit(" ");
                    assert(" "@ =~= seq![' ']);
                }
                let args = match &server.args {
                    Some(args) => join_strings(args, " "),
                    None => Vec::new(),
                };
                let mut out = str_chars("stdio ");
                extend_str(&mut out, command.as_str());
                if args.len() > 0 {
                    out.push(' ');
                    extend_chars(&mut out, &args);
                }
                assert(out@ =~= spec_server_summary(server@));
                out
            },
            None => str_chars("unknown"),
        },
    }
}

/// The line that lists a server: its name, then how it is reached.
pub open spec fn spec_server_line(entry: EntryView) -> Seq<char> {
    entry.name + seq![' '] + spec_trim(spec_server_summary(entry.server))
}

/// The list of the servers, one per line, or a note that there are none.
pub open spec fn spec_list_mcp_servers(entries: Seq<EntryView>) -> Seq<char> {
    if entries.len() == 0 {
        "no mcp servers"@
    } else {
        spec_join(Seq::new(entries.len(), |i: int| spec_server_line(entries[i])), seq!['\n'])
    }
}

/// The list of the servers, one per line.
pub fn list_mcp_servers(config: &McpConfig) -> (out: String)
    ensures
        out@ == spec_list_mcp_servers(config@),
{
    if config.mcp_servers.len() == 0 {
        return "no mcp servers".to_owned();
    }
    let mut rows: Vec<Vec<char>> = Vec::new();
    let mut i: usize = 0;
    while i < config.mcp_servers.len()
        invariant
            i <= config.mcp_servers.len(),
            crate::text::row_views(rows@) == Seq::new(
                i as nat,
                |k: int| spec_server_line(config@[k]),
            ),
        decreases config.mcp_servers.len() - i,
    {
        let entry = &config.mcp_servers[i];
        let mut line = str_chars(entry.name.as_str());
        line.push(' ');
        let summary = trim(&server_summary(&entry.server));
        extend_chars(&mut line, &summary);
        assert(line@ =~= spec_server_line(config@[i as int]));
        proof {
            crate::text::lemma_row_views_push(rows@, line);
        }
        rows.push(line);
        assert(crate::text::row_views(rows@) =~= Seq::new(
            (i + 1) as nat,
            |k: int| spec_server_line(config@[k]),
        ));
        i += 1;
    }
    let mut sep: Vec<char> = Vec::new();
    sep.push('\n');
    assert(sep@ =~= seq!['\n']);
    chars_to_string(&crate::text::join_rows(&rows, &sep))
}

/// Where the servers are written down.
#[derive(Debug, Clone, Copy)]
pub struct McpStore;

impl McpStore {
    /// The file of the servers, under the directory the program runs in.
    pub fn default_path() -> (path: String)
        ensures
            path@ == path_join(path_join("."@, ".tengu"@), "mcp.toml"@),
    {
        let dir = join(".", ".tengu");
        join(dir.as_str(), "mcp.toml")
    }
}

/// Whether the servers stand in the order of their names, each name once.
pub open spec fn names_ascend(entries: Seq<EntryView>) -> bool {
    forall|i: int, j: int|
        0 <= i < j < entries.len() ==> crate::text::lex_lt(
            (#[trigger] entries[i]).name,
            (#[trigger] entries[j]).name,
        )
}

/// The index of the first server at or after `from` whose name does not
/// come before `name`, or the number of servers where there is none.
pub open spec fn spec_slot(entries: Seq<EntryView>, name: Seq<char>, from: int) -> int
    decreases entries.len() - from,
{
    if from < 0 || from >= entries.len() {
        entries.len() as int
    } else if crate::text::lex_lt(entries[from].name, name) {
        spec_slot(entries, name, from + 1)
    } else {
        from
    }
}

pub proof fn lemma_slot(entries: Seq<EntryView>, name: Seq<char>, from: int)
    requires
        0 <= from <= entries.len(),
    ensures
        from <= spec_slot(entries, name, from) <= entries.len(),
        forall|k: int|
            from <= k < spec_slot(entries, name, from) ==> crate::text::lex_lt(
                (#[trigger] entries[k]).name,
                name,
            ),
        spec_slot(entries, name, from) < entries.len() ==> !crate::text::lex_lt(
            entries[spec_slot(entries, name, from)].name,
            name,
        ),
    decreases entries.len() - from,
{
    if from < entries.len() && crate::text::lex_lt(entries[from].name, name) {
        lemma_slot(entries, name, from + 1);
    }
}

/// Whether a server of that name is known.
pub open spec fn spec_has_server(entries: Seq<EntryView>, name: Seq<char>) -> bool {
    let at = spec_slot(entries, name, 0);
    0 <= at < entries.len() && entries[at].name == name
}

/// The server of that name.
pub open spec fn spec_get_server(entries: Seq<EntryView>, name: Seq<char>) -> Option<ServerView> {
    if spec_has_server(entries, name) {
        Some(entries[spec_slot(entries, name, 0)].server)
    } else {
        None
    }
}

/// The servers with one put under its name: in the place of the server
/// that had the name, or else where the name belongs in the order.
pub open spec fn spec_insert_server(entries: Seq<EntryView>, entry: EntryView) -> Seq<EntryView> {
    let at = spec_slot(entries, entry.name, 0);
    if spec_has_server(entries, entry.name) {
        entries.update(at, entry)
    } else {
        entries.insert(at, entry)
    }
}

/// The servers without the one of that name.
pub open spec fn spec_remove_server(entries: Seq<EntryView>, name: Seq<char>) -> Seq<EntryView> {
    if spec_has_server(entries, name) {
        entries.remove(spec_slot(entries, name, 0))
    } else {
        entries
    }
}

/// Among servers in the order of their names, the server of a name is
/// found at the slot of the name and nowhere else.
pub proof fn lemma_slot_finds_name(entries: Seq<EntryView>, name: Seq<char>, k: int)
    requires
        names_ascend(entries),
        0 <= k < entries.len(),
        entries[k].name == name,
    ensures
        spec_slot(entries, name, 0) == k,
{
    lemma_slot(entries, name, 0);
    let at = spec_slot(entries, name, 0);
    if at < k {
        assert(crate::text::lex_lt(entries[at].name, entries[k].name));
    } else if at > k {
        assert(crate::text::lex_lt(entries[k].name, name));
    }
}

/// Putting a server under a name keeps the order of the names.
pub proof fn lemma_insert_keeps_order(entries: Seq<EntryView>, entry: EntryView)
    requires
        names_ascend(entries),
    ensures
        names_ascend(spec_insert_server(entries, entry)),
        spec_get_server(spec_insert_server(entries, entry), entry.name) == Some(entry.server),
{
    lemma_slot(entries, entry.name, 0);
    let at = spec_slot(entries, entry.name, 0);
    let after = spec_insert_server(entries, entry);
    if spec_has_server(entries, entry.name) {
        assert forall|i: int, j: int| 0 <= i < j < after.len() implies crate::text::lex_lt(
            (#[trigger] after[i]).name,
            (#[trigger] after[j]).name,
        ) by {
            assert(after[i].name == entries[i].name);
            assert(after[j].name == entries[j].name);
        }
        assert(after[at].name == entry.name);
        lemma_slot_finds_name(after, entry.name, at);
    } else {
        assert forall|i: int, j: int| 0 <= i < j < after.len() implies crate::text::lex_lt(
            (#[trigger] after[i]).name,
            (#[trigger] after[j]).name,
        ) by {
            if j < at {
                assert(after[i] == entries[i] && after[j] == entries[j]);
            } else if j == at {
                assert(after[i] == entries[i]);
            } else if i == at {
                assert(after[j] == entries[j - 1]);
                crate::text::lemma_lex_total(entry.name, entries[at].name);
                if j - 1 > at {
                    assert(crate::text::lex_lt(entries[at].name, entries[j - 1].name));
                    crate::text::lemma_lex_transitive(
                        entry.name,
                        entries[at].name,
                        entries[j - 1].name,
                    );
                }
            } else if i < at {
                assert(after[i] == entries[i] && after[j] == entries[j - 1]);
                assert(crate::text::lex_lt(entries[i].name, entries[j - 1].name));
            } else {
                assert(after[i] == entries[i - 1] && after[j] == entries[j - 1]);
            }
        }
        assert(after[at] == entry);
        lemma_slot_finds_name(after, entry.name, at);
    }
}

/// Taking a server away keeps the order of the names, and the name is
/// then not known.
pub proof fn lemma_remove_keeps_order(entries: Seq<EntryView>, name: Seq<char>)
    requires
        names_ascend(entries),
    ensures
        names_ascend(spec_remove_server(entries, name)),
        !spec_has_server(spec_remove_server(entries, name), name),
{
    lemma_slot(entries, name, 0);
    let at = spec_slot(entries, name, 0);
    let after = spec_remove_server(entries, name);
    if spec_has_server(entries, name) {
        assert forall|i: int, j: int| 0 <= i < j < after.len() implies crate::text::lex_lt(
            (#[trigger] after[i]).name,
            (#[trigger] after[j]).name,
        ) by {
            let oi = if i < at {
                i
            } else {
                i + 1
            };
            let oj = if j < at {
                j
            } else {
                j + 1
            };
            assert(after[i] == entries[oi] && after[j] == entries[oj]);
        }
        lemma_slot(after, name, 0);
        let now = spec_slot(after, name, 0);
        if now < after.len() && after[now].name == name {
            let orig = if now < at {
                now
            } else {
                now + 1
            };
            assert(after[now] == entries[orig]);
            lemma_slot_finds_name(entries, name, orig);
        }
    }
}

impl McpConfig {
    /// Whether no server is known.
    pub fn is_empty(&self) -> (b: bool)
        ensures
            b == (self@.len() == 0),
    {
        self.mcp_servers.len() == 0
    }

    fn slot(&self, name: &str) -> (at: usize)
        ensures
            at == spec_slot(self@, name@, 0),
            at <= self.mcp_servers.len(),
    {
        let mut i: usize = 0;
        while i < self.mcp_servers.len()
            invariant
                i <= self.mcp_servers.len(),
                spec_slot(self@, name@, 0) == spec_slot(self@, name@, i as int),
            decreases self.mcp_servers.len() - i,
        {
            assert(self@[i as int] == self.mcp_servers@[i as int]@);
            let candidate = self.mcp_servers[i].name.as_str();
            let before = crate::text::text_le(candidate, name) && !crate::text::chars_eq_str(
                &str_chars(candidate),
                name,
            );
            if !before {
                return i;
            }
            i += 1;
        }
        i
    }

    fn has_at(&self, at: usize, name: &str) -> (b: bool)
        requires
            at == spec_slot(self@, name@, 0),
        ensures
            b == spec_has_server(self@, name@),
    {
        if at < self.mcp_servers.len() {
            assert(self@[at as int] == self.mcp_servers@[at as int]@);
            crate::text::chars_eq_str(&str_chars(self.mcp_servers[at].name.as_str()), name)
        } else {
            false
        }
    }

    /// The server of that name.
    pub fn get(&self, name: &str) -> (server: Option<&McpServerConfig>)
        ensures
            (match server {
                Some(s) => Some(s@),
                None => None,
            }) == spec_get_server(self@, name@),
    {
        let at = self.slot(name);
        if self.has_at(at, name) {
            assert(self@[at as int] == self.mcp_servers@[at as int]@);
            Some(&self.mcp_servers[at].server)
        } else {
            None
        }
    }

    /// Puts a server under its name, in the place of the one that had the
    /// name before, if any.
    pub fn insert(&mut self, name: String, server: McpServerConfig)
        ensures
            final(self)@ == spec_insert_server(
                old(self)@,
                EntryView { name: name@, server: server@ },
            ),
    {
        let at = self.slot(name.as_str());
        let known = self.has_at(at, name.as_str());
        let entry = McpServerEntry { name, server };
        if known {
            self.mcp_servers.set(at, entry);
            assert(self@ =~= old(self)@.update(at as int, entry@));
        } else {
            self.mcp_servers.insert(at, entry);
            assert(self@ =~= old(self)@.insert(at as int, entry@));
        }
    }

    /// Takes the server of that name away and hands it back, if there is
    /// one.
    pub fn remove(&mut self, name: &str) -> (server: Option<McpServerConfig>)
        ensures
            final(self)@ == spec_remove_server(old(self)@, name@),
            opt_server_view(server) == spec_get_server(old(self)@, name@),
    {
        let at = self.slot(name);
        if self.has_at(at, name) {
            assert(self@[at as int] == self.mcp_servers@[at as int]@);
            let entry = self.mcp_servers.remove(at);
            assert(self@ =~= old(self)@.remove(at as int));
            Some(entry.server)
        } else {
            None
        }
    }
}

} // verus!
