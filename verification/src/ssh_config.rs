//! The hosts named in an OpenSSH client configuration.

use crate::storage::{home_of, home_or_here, Location, LocationView};
use crate::text::{
    contains_ignoring_case, contains_text, copy_opt_text, has_substring, is_empty_text, join_from,
    joined, lines_of, lowercase, opt_text, parse_u16, parsed_u16, split_lines, split_words, text_is,
    texts, to_lower, words_of,
};
use vstd::prelude::*;
use vstd::string::*;

verus! {

/// A host of the configuration, with what the configuration says of it.
#[derive(Debug)]
pub struct SshHost {
    pub name: String,
    pub hostname: Option<String>,
    pub user: Option<String>,
    pub port: Option<u16>,
}

/// The mathematical value of an [`SshHost`].
pub struct SshHostView {
    pub name: Seq<char>,
    pub hostname: Option<Seq<char>>,
    pub user: Option<Seq<char>>,
    pub port: Option<u16>,
}

impl View for SshHost {
    type V = SshHostView;

    open spec fn view(&self) -> SshHostView {
        SshHostView {
            name: self.name@,
            hostname: opt_text(self.hostname),
            user: opt_text(self.user),
            port: self.port,
        }
    }
}

impl SshHostView {
    /// The host as a list of suggestions shows it.
    pub open spec fn display_name(self) -> Seq<char> {
        match (self.user, self.hostname) {
            (Some(user), Some(hostname)) => user + "@"@ + hostname + " ("@ + self.name + ")"@,
            (Some(user), None) => user + "@"@ + self.name,
            (None, Some(hostname)) => hostname + " ("@ + self.name + ")"@,
            (None, None) => self.name,
        }
    }

    /// What `ssh` is given to reach the host.
    pub open spec fn connection_string(self) -> Seq<char> {
        match self.user {
            Some(user) => user + "@"@ + self.name,
            None => self.name,
        }
    }

    /// The query, already in lower case, occurs in the lower-case form of
    /// the host's name, host name or user.
    pub open spec fn matches(self, query_lower: Seq<char>) -> bool {
        ||| has_substring(lowercase(self.name), query_lower)
        ||| (self.hostname matches Some(h) && has_substring(lowercase(h), query_lower))
        ||| (self.user matches Some(u) && has_substring(lowercase(u), query_lower))
    }
}

/// The values of a list of hosts.
pub open spec fn host_views(hosts: Seq<SshHost>) -> Seq<SshHostView> {
    hosts.map_values(|h: SshHost| h@)
}

/// The hosts that a query selects: all of them for the empty query, else
/// those that match it without regard to case, in their order.
pub open spec fn filtered_hosts(hosts: Seq<SshHostView>, query: Seq<char>) -> Seq<SshHostView> {
    if query.len() == 0 {
        hosts
    } else {
        hosts.filter(|h: SshHostView| h.matches(lowercase(query)))
    }
}

impl Clone for SshHost {
    fn clone(&self) -> (r: SshHost)
        ensures
            r@ == self@,
    {
        SshHost {
            name: self.name.clone(),
            hostname: copy_opt_text(&self.hostname),
            user: copy_opt_text(&self.user),
            port: self.port,
        }
    }
}

impl SshHost {
    pub fn display_name(&self) -> (r: String)
        ensures
            r@ == self@.display_name(),
    {
        match &self.user {
            Some(user) => match &self.hostname {
                Some(hostname) => {
                    let mut out = user.clone();
                    out.append("@");
                    out.append(hostname.as_str());
                    out.append(" (");
                    out.append(self.name.as_str());
                    out.append(")");
                    out
                },
                None => {
                    let mut out = user.clone();
                    out.append("@");
                    out.append(self.name.as_str());
                    out
                },
            },
            None => match &self.hostname {
                Some(hostname) => {
                    let mut out = hostname.clone();
                    out.append(" (");
                    out.append(self.name.as_str());
                    out.append(")");
                    out
                },
                None => self.name.clone(),
            },
        }
    }

    pub fn connection_string(&self) -> (r: String)
        ensures
            r@ == self@.connection_string(),
    {
        match &self.user {
            Some(user) => {
                let mut out = user.clone();
                out.append("@");
                out.append(self.name.as_str());
                out
            },
            None => self.name.clone(),
        }
    }

    /// Whether a query, already in lower case, selects the host.
    pub fn matches(&self, query_lower: &str) -> (b: bool)
        ensures
            b == self@.matches(query_lower@),
    {
        if contains_ignoring_case(self.name.as_str(), query_lower) {
            return true;
        }
        let by_hostname = match &self.hostname {
            Some(h) => contains_ignoring_case(h.as_str(), query_lower),
            None => false,
        };
        if by_hostname {
            return true;
        }
        match &self.user {
            Some(u) => contains_ignoring_case(u.as_str(), query_lower),
            None => false,
        }
    }
}

/// A copy of a list of hosts.
pub fn copy_hosts(hosts: &[SshHost]) -> (r: Vec<SshHost>)
    ensures
        host_views(r@) == host_views(hosts@),
{
    let mut out: Vec<SshHost> = Vec::new();
    let mut i: usize = 0;
    while i < hosts.len()
        invariant
            i <= hosts.len(),
            out@.len() == i,
            forall|k: int| 0 <= k < i ==> out@[k]@ == hosts@[k]@,
        decreases hosts.len() - i,
    {
        out.push(hosts[i].clone());
        i += 1;
    }
    assert(host_views(out@) =~= host_views(hosts@));
    out
}

/// The hosts that `query` selects.
pub fn filter_hosts(hosts: &[SshHost], query: &str) -> (r: Vec<SshHost>)
    ensures
        host_views(r@) == filtered_hosts(host_views(hosts@), query@),
{
    if is_empty_text(query) {
        return copy_hosts(hosts);
    }
    let query_lower = to_lower(query);
    let ghost all = host_views(hosts@);
    let ghost pred = |h: SshHostView| h.matches(lowercase(query@));
    let mut out: Vec<SshHost> = Vec::new();
    let mut i: usize = 0;
    assert(host_views(out@) =~= all.take(0).filter(pred));
    while i < hosts.len()
        invariant
            i <= hosts.len(),
            all == host_views(hosts@),
            query_lower@ == lowercase(query@),
            pred == |h: SshHostView| h.matches(lowercase(query@)),
            host_views(out@) == all.take(i as int).filter(pred),
        decreases hosts.len() - i,
    {
        let host = &hosts[i];
        proof {
            assert(all.take(i + 1) =~= all.take(i as int).push(host@));
            all.take(i as int).lemma_filter_push(host@, pred);
        }
        if host.matches(query_lower.as_str()) {
            let ghost before = out@;
            out.push(host.clone());
            assert(host_views(out@) =~= host_views(before).push(host@));
        }
        i += 1;
    }
    assert(all.take(hosts.len() as int) =~= all);
    out
}

/// Where the reading of a configuration stands: the hosts that are
/// complete, and the host whose block is being read.
pub struct ParseState {
    pub hosts: Seq<SshHostView>,
    pub current: Option<SshHostView>,
}

/// A line that says nothing: no words, or a first word that opens a
/// comment.
pub open spec fn is_silent(words: Seq<Seq<char>>) -> bool {
    words.len() == 0 || (words[0].len() > 0 && words[0][0] == '#')
}

/// A host name with a wildcard stands for a pattern, not for a host.
pub open spec fn is_pattern(name: Seq<char>) -> bool {
    has_substring(name, "*"@) || has_substring(name, "?"@)
}

/// The host that a `Host` line opens, if it opens one: the line must name
/// a host, and the name must not be a pattern.
pub open spec fn opened_host(words: Seq<Seq<char>>) -> Option<SshHostView> {
    if words.len() > 1 {
        let name = joined(words.subrange(1, words.len() as int), " "@);
        if is_pattern(name) {
            None
        } else {
            Some(SshHostView { name, hostname: None, user: None, port: None })
        }
    } else {
        None
    }
}

/// The hosts with the host that was being read added at the end.
pub open spec fn closed(state: ParseState) -> Seq<SshHostView> {
    match state.current {
        Some(host) => state.hosts.push(host),
        None => state.hosts,
    }
}

/// What the host being read becomes by a line that sets one of its fields.
/// Key words count without regard to case; a line without a value, or with
/// a key word that is not known, changes nothing. A port that is no
/// 16-bit number leaves the host without a port.
pub open spec fn with_field(host: SshHostView, key: Seq<char>, words: Seq<Seq<char>>) -> SshHostView {
    if words.len() <= 1 {
        host
    } else if key == "hostname"@ {
        SshHostView { hostname: Some(words[1]), ..host }
    } else if key == "user"@ {
        SshHostView { user: Some(words[1]), ..host }
    } else if key == "port"@ {
        SshHostView { port: parsed_u16(words[1]), ..host }
    } else {
        host
    }
}

/// The state after one more line.
pub open spec fn after_line(state: ParseState, line: Seq<char>) -> ParseState {
    let words = words_of(line);
    if is_silent(words) {
        state
    } else {
        let key = lowercase(words[0]);
        if key == "host"@ {
            ParseState { hosts: closed(state), current: opened_host(words) }
        } else {
            match state.current {
                Some(host) => ParseState { current: Some(with_field(host, key, words)), ..state },
                None => state,
            }
        }
    }
}

/// The state after the first `n` lines.
pub open spec fn after_lines(lines: Seq<Seq<char>>, n: nat) -> ParseState
    decreases n,
{
    if n == 0 {
        ParseState { hosts: Seq::empty(), current: None }
    } else {
        after_line(after_lines(lines, (n - 1) as nat), lines[n - 1])
    }
}

/// The hosts that a configuration names.
pub open spec fn parsed_hosts(content: Seq<char>) -> Seq<SshHostView> {
    closed(after_lines(split_lines(content), split_lines(content).len()))
}

/// The value of an optional host.
pub open spec fn opt_host_view(host: Option<SshHost>) -> Option<SshHostView> {
    match host {
        Some(h) => Some(h@),
        None => None,
    }
}

/// Whether the first word of a line makes the line silent.
fn opens_comment(word: &String) -> (b: bool)
    ensures
        b == (word@.len() > 0 && word@[0] == '#'),
{
    if word.as_str().unicode_len() > 0 {
        word.as_str().get_char(0) == '#'
    } else {
        false
    }
}

/// The host that a `Host` line opens.
fn open_host(words: &Vec<String>) -> (r: Option<SshHost>)
    ensures
        opt_host_view(r) == opened_host(texts(words@)),
{
    if words.len() > 1 {
        let name = join_from(words, 1, " ");
        if contains_text(name.as_str(), "*") || contains_text(name.as_str(), "?") {
            None
        } else {
            Some(SshHost { name, hostname: None, user: None, port: None })
        }
    } else {
        None
    }
}

/// Sets the field that a line speaks of.
fn set_field(host: SshHost, key: &String, words: &Vec<String>) -> (r: SshHost)
    ensures
        r@ == with_field(host@, key@, texts(words@)),
{
    let mut host = host;
    if words.len() > 1 {
        assert(texts(words@)[1] == words@[1]@);
        if text_is(key, "hostname") {
            host.hostname = Some(words[1].clone());
        } else if text_is(key, "user") {
            host.user = Some(words[1].clone());
        } else if text_is(key, "port") {
            host.port = parse_u16(words[1].as_str());
        }
    }
    host
}

/// Reads the hosts out of the text of an OpenSSH client configuration.
///
/// A `Host` line opens a host and closes the one before it; `HostName`,
/// `User` and `Port` lines fill in the host that is open. Blank lines,
/// comments and other key words are passed over, and so are `Host` lines
/// whose name is a pattern.
pub fn parse_ssh_config(content: &str) -> (r: Vec<SshHost>)
    ensures
        host_views(r@) == parsed_hosts(content@),
{
    let lines = lines_of(content);
    let ghost all = texts(lines@);
    let mut hosts: Vec<SshHost> = Vec::new();
    let mut current: Option<SshHost> = None;
    let mut i: usize = 0;
    assert(host_views(hosts@) =~= Seq::empty());
    while i < lines.len()
        invariant
            i <= lines.len(),
            all == texts(lines@),
            all == split_lines(content@),
            host_views(hosts@) == after_lines(all, i as nat).hosts,
            opt_host_view(current) == after_lines(all, i as nat).current,
        decreases lines.len() - i,
    {
        let words = split_words(lines[i].as_str());
        assert(all[i as int] == lines@[i as int]@);
        let silent = if words.len() == 0 {
            true
        } else {
            assert(texts(words@)[0] == words@[0]@);
            opens_comment(&words[0])
        };
        if !silent {
            let key = to_lower(words[0].as_str());
            if text_is(&key, "host") {
                match current {
                    Some(host) => {
                        let ghost before = hosts@;
                        hosts.push(host);
                        assert(host_views(hosts@) =~= host_views(before).push(host@));
                    },
                    None => {},
                }
                current = open_host(&words);
            } else {
                current = match current {
                    Some(host) => Some(set_field(host, &key, &words)),
                    None => None,
                };
            }
        }
        i += 1;
    }
    match current {
        Some(host) => {
            let ghost before = hosts@;
            hosts.push(host);
            assert(host_views(hosts@) =~= host_views(before).push(host@));
        },
        None => {},
    }
    hosts
}

/// Where the client configuration of OpenSSH lies: in `.ssh/config` under
/// the home directory.
pub fn get_ssh_config_path(home: Option<String>) -> (r: Location)
    ensures
        r@ == (LocationView { base: home_or_here(home), below: seq![".ssh"@, "config"@] }),
{
    let mut below: Vec<String> = Vec::new();
    below.push(String::from_str(".ssh"));
    below.push(String::from_str("config"));
    let r = Location { base: home_of(home), below };
    assert(r@.below =~= seq![".ssh"@, "config"@]);
    r
}

} // verus!
