//! Actions: consumers of a fully-resolved placeholder map. Each trigger
//! renders the action's templates into an `Invocation`, the complete
//! description of the one side-effectful operation the host performs.

use crate::config;
use crate::placeholder::PlaceholderMap;
use crate::process::ProcessConfig;
use crate::text;
use crate::Error;
use std::sync::Arc;
use vstd::prelude::*;

verus! {

/// The side effect one action trigger asks for, templates rendered.
#[derive(Debug)]
pub enum Payload {
    /// A disabled action: nothing but a debug note.
    Nothing,
    /// A log line at the configured level.
    LogLine { level: config::LogLevel, text: String },
    /// An HTTP request; any status outside 2xx counts as a failure.
    HttpRequest {
        method: config::HttpMethod,
        url: String,
        headers: Vec<(String, String)>,
        body: String,
    },
    /// A mail over SMTP.
    EmailMessage {
        from: String,
        to: String,
        reply_to: Option<String>,
        subject: String,
        body: String,
        smtp_server: String,
        smtp_port: Option<u16>,
        smtp_security: config::SmtpSecurity,
        username: String,
        password: String,
    },
    /// A child process run; a non-zero exit or a signal counts as a
    /// failure.
    ProcessRun {
        path: String,
        arguments: Vec<String>,
        environment: Vec<(String, String)>,
        working_directory: Option<String>,
        uid: Option<u32>,
        gid: Option<u32>,
        stdout_max: u32,
        stderr_max: u32,
    },
}

/// One action trigger, ready for the host to perform: the action's name,
/// the placeholder map it saw, its timeout in seconds and its payload.
#[derive(Debug)]
pub struct Invocation {
    pub action_name: String,
    pub placeholders: PlaceholderMap,
    pub timeout: u32,
    pub payload: Payload,
}

/// A log action.
#[derive(Debug)]
pub struct Log {
    pub level: config::LogLevel,
    pub template: String,
}

/// A webhook action; the headers already carry the default `User-Agent`.
#[derive(Debug)]
pub struct Webhook {
    pub url: String,
    pub method: config::HttpMethod,
    pub headers: Vec<(String, String)>,
    pub body: String,
}

/// An email action.
#[derive(Debug)]
pub struct Email {
    pub from: String,
    pub to: String,
    pub reply_to: Option<String>,
    pub subject: String,
    pub body: String,
    pub smtp_server: String,
    pub smtp_port: Option<u16>,
    pub smtp_security: config::SmtpSecurity,
    pub username: String,
    pub password: String,
}

/// A child-process action.
#[derive(Debug)]
pub struct Process {
    pub process_config: ProcessConfig,
}

/// The concrete kinds of action.
#[derive(Debug)]
pub enum ActionKind {
    Disabled,
    Log(Log),
    Webhook(Webhook),
    Email(Email),
    Process(Process),
}

/// An action with its name, configured placeholders and timeout. The
/// name and placeholders are layered over every incoming map before the
/// kind renders its templates.
#[derive(Debug)]
pub struct ActionBase {
    pub name: String,
    pub placeholders: PlaceholderMap,
    pub timeout: u32,
    pub kind: ActionKind,
}

impl ActionBase {
    /// An action base; an empty name is rejected.
    pub fn new(name: String, placeholders: PlaceholderMap, timeout: u32, kind: ActionKind) -> (r:
        Result<Self, Error>)
        ensures
            r is Ok <==> name@.len() != 0,
            r matches Ok(a) ==> a.name == name && a.placeholders == placeholders && a.timeout
                == timeout && a.kind == kind,
            r matches Err(e) ==> e.0@ == "'name' cannot be empty."@,
    {
        if name.as_str().is_empty() {
            Err(Error(String::from_str("'name' cannot be empty.")))
        } else {
            Ok(ActionBase { name, placeholders, timeout, kind })
        }
    }

    /// The map an action sees: the caller's map, then `action_name`, then
    /// the action's own placeholders (which win on common keys).
    pub open spec fn spec_seen(self, p: Map<Seq<char>, Seq<char>>) -> Map<Seq<char>, Seq<char>> {
        p.insert("action_name"@, self.name@).union_prefer_right(self.placeholders@)
    }

    /// Whether a payload is the one this action renders under a map.
    pub open spec fn spec_payload_ok(self, p: Map<Seq<char>, Seq<char>>, payload: Payload) -> bool {
        match self.kind {
            ActionKind::Disabled => payload is Nothing,
            ActionKind::Log(l) => payload matches Payload::LogLine { level, text } && level
                == l.level && text@ == text::spec_render(l.template@, p),
            ActionKind::Webhook(w) => payload matches Payload::HttpRequest {
                method,
                url,
                headers,
                body,
            } && method == w.method && url@ == text::spec_render(w.url@, p) && body@
                == text::spec_render(w.body@, p) && headers@.len() == w.headers@.len() && (forall|
                i: int,
            |
                0 <= i < headers@.len() ==> (#[trigger] headers@[i]).0@ == w.headers@[i].0@
                    && headers@[i].1@ == text::spec_render(w.headers@[i].1@, p)),
            ActionKind::Email(e) => payload matches Payload::EmailMessage {
                from,
                to,
                reply_to,
                subject,
                body,
                smtp_server,
                smtp_port,
                smtp_security,
                username,
                password,
            } && from@ == e.from@ && to@ == e.to@ && (match (reply_to, e.reply_to) {
                (Some(a), Some(b)) => a@ == b@,
                (None, None) => true,
                _ => false,
            }) && subject@ == text::spec_render(e.subject@, p) && body@ == text::spec_render(
                e.body@,
                p,
            ) && smtp_server@ == e.smtp_server@ && smtp_port == e.smtp_port && smtp_security
                == e.smtp_security && username@ == e.username@ && password@ == e.password@,
            ActionKind::Process(pr) => payload matches Payload::ProcessRun {
                path,
                arguments,
                environment,
                working_directory,
                uid,
                gid,
                stdout_max,
                stderr_max,
            } && path@ == pr.process_config.path@ && arguments@.len()
                == pr.process_config.arguments@.len() && (forall|i: int|
                0 <= i < arguments@.len() ==> (#[trigger] arguments@[i])@ == text::spec_render(
                    pr.process_config.arguments@[i]@,
                    p,
                )) && crate::process::spec_env_rendered(
                pr.process_config.environment_variables@,
                p,
                environment@,
            ) && (
            match (working_directory, pr.process_config.working_directory) {
                (Some(a), Some(b)) => a@ == b@,
                (None, None) => true,
                _ => false,
            }) && uid == pr.process_config.uid && gid == pr.process_config.gid && stdout_max
                == pr.process_config.stdout_max && stderr_max == pr.process_config.stderr_max,
        }
    }

    /// Layers the action's name and placeholders over the incoming map
    /// and renders the action's templates.
    pub fn trigger(&self, placeholders: PlaceholderMap) -> (r: Invocation)
        ensures
            r.action_name@ == self.name@,
            r.timeout == self.timeout,
            r.placeholders@ == self.spec_seen(placeholders@),
            self.spec_payload_ok(r.placeholders@, r.payload),
    {
        let mut p = placeholders;
        p.insert(String::from_str("action_name"), self.name.clone());
        p.merge(&self.placeholders);
        let payload = match &self.kind {
            ActionKind::Disabled => Payload::Nothing,
            ActionKind::Log(l) => Payload::LogLine {
                level: l.level,
                text: text::render(l.template.as_str(), &p),
            },
            ActionKind::Webhook(w) => {
                let n = w.headers.len();
                let mut headers: Vec<(String, String)> = Vec::new();
                for i in 0..n
                    invariant
                        n == w.headers@.len(),
                        headers@.len() == i,
                        forall|j: int|
                            0 <= j < i ==> (#[trigger] headers@[j]).0@ == w.headers@[j].0@
                                && headers@[j].1@ == text::spec_render(w.headers@[j].1@, p@),
                {
                    let name = w.headers[i].0.clone();
                    let value = text::render(w.headers[i].1.as_str(), &p);
                    headers.push((name, value));
                }
                Payload::HttpRequest {
                    method: w.method,
                    url: text::render(w.url.as_str(), &p),
                    headers,
                    body: text::render(w.body.as_str(), &p),
                }
            },
            ActionKind::Email(e) => Payload::EmailMessage {
                from: e.from.clone(),
                to: e.to.clone(),
                reply_to: match &e.reply_to {
                    Some(x) => Some(x.clone()),
                    None => None,
                },
                subject: text::render(e.subject.as_str(), &p),
                body: text::render(e.body.as_str(), &p),
                smtp_server: e.smtp_server.clone(),
                smtp_port: e.smtp_port,
                smtp_security: e.smtp_security,
                username: e.username.clone(),
                password: e.password.clone(),
            },
            ActionKind::Process(pr) => {
                let (arguments, environment) = pr.process_config.render_command(&p);
                Payload::ProcessRun {
                    path: pr.process_config.path.clone(),
                    arguments,
                    environment,
                    working_directory: match &pr.process_config.working_directory {
                        Some(x) => Some(x.clone()),
                        None => None,
                    },
                    uid: pr.process_config.uid,
                    gid: pr.process_config.gid,
                    stdout_max: pr.process_config.stdout_max,
                    stderr_max: pr.process_config.stderr_max,
                }
            },
        };
        Invocation { action_name: self.name.clone(), placeholders: p, timeout: self.timeout, payload }
    }
}

/// Relies on `std::sync::Arc::clone`: the clone is a handle to the very
/// same action.
#[verifier::external_body]
pub fn arc_clone(a: &Arc<ActionBase>) -> (r: Arc<ActionBase>)
    ensures
        r == *a,
{
    Arc::clone(a)
}

/// Whether the `lettre` crate accepts a mailbox address; a fixed
/// function of the text alone.
pub uninterp spec fn email_ok(s: Seq<char>) -> bool;

/// Relies on `lettre::message::Mailbox`'s `FromStr`: whether the text
/// parses as a mailbox address.
#[verifier::external_body]
fn email_address_ok(s: &str) -> (r: bool)
    ensures
        r == email_ok(s@),
{
    <lettre::message::Mailbox as std::str::FromStr>::from_str(s).is_ok()
}

/// The characters an HTTP header name may hold: the token characters of
/// the HTTP grammar.
pub open spec fn is_header_name_char(c: char) -> bool {
    ('a' <= c && c <= 'z') || ('A' <= c && c <= 'Z') || ('0' <= c && c <= '9') || c == '!' || c
        == '#' || c == '$' || c == '%' || c == '&' || c == '\'' || c == '*' || c == '+' || c == '-'
        || c == '.' || c == '^' || c == '_' || c == '`' || c == '|' || c == '~'
}

pub open spec fn spec_valid_header_name(s: Seq<char>) -> bool {
    s.len() > 0 && forall|i: int| 0 <= i < s.len() ==> is_header_name_char(#[trigger] s[i])
}

/// The characters an HTTP header value may hold: visible characters,
/// the space and the horizontal tab.
pub open spec fn is_header_value_char(c: char) -> bool {
    (' ' <= c && c as int <= 126) || c == '\t'
}

pub open spec fn spec_valid_header_value(s: Seq<char>) -> bool {
    forall|i: int| 0 <= i < s.len() ==> is_header_value_char(#[trigger] s[i])
}

/// The runtime header list a webhook gets: every entry is a configured
/// binding or the default `User-Agent`, and a `User-Agent` is always
/// there.
pub open spec fn spec_built_headers(
    cfg: Map<Seq<char>, Seq<char>>,
    hs: Seq<(String, String)>,
) -> bool {
    (forall|i: int|
        0 <= i < hs.len() ==> (cfg.contains_key((#[trigger] hs[i]).0@) && cfg[hs[i].0@]
            == hs[i].1@) || (hs[i].0@ == "User-Agent"@ && hs[i].1@ == "MinMon/v0.1.0"@)) && (exists|
        i: int,
    | 0 <= i < hs.len() && (#[trigger] hs[i]).0@ == "User-Agent"@)
}

/// Every header binding of a webhook's configuration is usable: a
/// token name and a visible-character value.
pub open spec fn spec_headers_ok(m: Map<Seq<char>, Seq<char>>) -> bool {
    forall|k: Seq<char>|
        m.contains_key(k) ==> spec_valid_header_name(k) && spec_valid_header_value(#[trigger] m[k])
}

/// Whether an action's configuration passes every construction check.
/// A disabled action only needs a name; the kind-specific checks are
/// the template, header, address and path validations below.
pub open spec fn spec_action_config_ok(c: config::Action) -> bool {
    c.name@.len() != 0 && (c.disable || (match c.type_ {
        config::ActionType::Log(l) => l.template@.len() != 0,
        config::ActionType::Webhook(w) => spec_headers_ok(w.headers@),
        config::ActionType::Email(e) => e.subject@.len() != 0 && e.body@.len() != 0
            && e.smtp_server@.len() != 0 && e.username@.len() != 0 && e.password@.len() != 0
            && email_ok(e.from@) && email_ok(e.to@) && (e.reply_to matches Some(rt) ==> email_ok(
            rt@,
        )),
        config::ActionType::Process(p) => crate::process::spec_file_name(p.process_config.path@)
            is Some,
    }))
}

fn valid_header_name(s: &str) -> (r: bool)
    ensures
        r == spec_valid_header_name(s@),
{
    let n = s.unicode_len();
    if n == 0 {
        return false;
    }
    for i in 0..n
        invariant
            n == s@.len(),
            n > 0,
            forall|j: int| 0 <= j < i ==> is_header_name_char(#[trigger] s@[j]),
    {
        let c = s.get_char(i);
        let ok = (c >= 'a' && c <= 'z') || (c >= 'A' && c <= 'Z') || (c >= '0' && c <= '9') || c
            == '!' || c == '#' || c == '$' || c == '%' || c == '&' || c == '\'' || c == '*' || c
            == '+' || c == '-' || c == '.' || c == '^' || c == '_' || c == '`' || c == '|' || c
            == '~';
        if !ok {
            return false;
        }
    }
    true
}

fn valid_header_value(s: &str) -> (r: bool)
    ensures
        r == spec_valid_header_value(s@),
{
    let n = s.unicode_len();
    for i in 0..n
        invariant
            n == s@.len(),
            forall|j: int| 0 <= j < i ==> is_header_value_char(#[trigger] s@[j]),
    {
        let c = s.get_char(i);
        let ok = (c >= ' ' && c as u32 <= 126) || c == '\t';
        if !ok {
            return false;
        }
    }
    true
}

/// A registry of named actions with unique names.
#[derive(Debug)]
pub struct ActionMap {
    entries: Vec<(String, Arc<ActionBase>)>,
}

impl ActionMap {
    /// The registry's bindings, in insertion order.
    pub closed spec fn entries(&self) -> Seq<(String, Arc<ActionBase>)> {
        self.entries@
    }

    pub open spec fn spec_contains(&self, name: Seq<char>) -> bool {
        exists|i: int| 0 <= i < self.entries().len() && (#[trigger] self.entries()[i]).0@ == name
    }

    /// Whether `a` is the registry's action under `name`.
    pub open spec fn spec_binds(&self, name: Seq<char>, a: ActionBase) -> bool {
        exists|i: int|
            0 <= i < self.entries().len() && (#[trigger] self.entries()[i]).0@ == name
                && *self.entries()[i].1 == a
    }

    pub open spec fn wf(&self) -> bool {
        forall|i: int, j: int|
            0 <= i < j < self.entries().len() ==> (#[trigger] self.entries()[i]).0@ != (
            #[trigger] self.entries()[j]).0@
    }

    /// An empty registry.
    pub fn new() -> (r: Self)
        ensures
            r.wf(),
            r.entries().len() == 0,
    {
        ActionMap { entries: Vec::new() }
    }

    /// Whether the registry holds an action under `name`.
    pub fn contains_key(&self, name: &str) -> (r: bool)
        ensures
            r == self.spec_contains(name@),
    {
        let n = self.entries.len();
        for i in 0..n
            invariant
                n == self.entries@.len(),
                forall|j: int| 0 <= j < i ==> (#[trigger] self.entries@[j]).0@ != name@,
        {
            if text::str_eq(self.entries[i].0.as_str(), name) {
                proof {
                    assert((self.entries()[i as int]).0@ == name@);
                }
                return true;
            }
        }
        false
    }

    /// Adds a binding; the caller has ruled the name out as a
    /// duplicate.
    pub fn insert(&mut self, name: String, action: Arc<ActionBase>)
        requires
            old(self).wf(),
            !old(self).spec_contains(name@),
        ensures
            final(self).wf(),
            final(self).entries() == old(self).entries().push((name, action)),
            forall|k: Seq<char>| #[trigger]
                final(self).spec_contains(k) <==> (old(self).spec_contains(k) || k == name@),
            final(self).spec_binds(name@, *action),
    {
        let ghost s0 = self.entries@;
        let ghost moved_name = name@;
        self.entries.push((name, action));
        proof {
            assert(s0 == old(self).entries());
            assert forall|i: int| 0 <= i < s0.len() implies (#[trigger] s0[i]).0@
                != moved_name by {
                if s0[i].0@ == moved_name {
                    assert(0 <= i < old(self).entries().len() && (#[trigger] old(
                        self,
                    ).entries()[i]).0@ == moved_name);
                    assert(old(self).spec_contains(moved_name));
                }
            }
            let s1 = self.entries@;
            assert forall|i: int, j: int| 0 <= i < j < s1.len() implies (#[trigger] s1[i]).0@ != (
            #[trigger] s1[j]).0@ by {
                if j < s1.len() - 1 {
                    assert(s1[i] == s0[i] && s1[j] == s0[j]);
                } else {
                    assert(s1[i] == s0[i]);
                    assert(s1[j].0@ == moved_name);
                }
            }
            assert forall|k: Seq<char>| #[trigger] self.spec_contains(k) implies (old(
            self,
            ).spec_contains(k) || k == moved_name) by {
                let i = choose|i: int|
                    0 <= i < self.entries().len() && (#[trigger] self.entries()[i]).0@ == k;
                if i < s1.len() - 1 {
                    assert(s1[i] == s0[i]);
                    assert((old(self).entries()[i]).0@ == k);
                }
            }
            assert forall|k: Seq<char>| old(self).spec_contains(k) || k
                == moved_name implies #[trigger] self.spec_contains(k) by {
                if old(self).spec_contains(k) {
                    let i = choose|i: int|
                        0 <= i < s0.len() && (#[trigger] old(self).entries()[i]).0@ == k;
                    assert((self.entries()[i]).0@ == k);
                } else {
                    assert((self.entries()[s1.len() - 1]).0@ == k);
                }
            }
            let ghost idx = s1.len() - 1;
            assert((self.entries()[idx as int]).0@ == moved_name);
            assert(self.spec_binds(moved_name, *(self.entries()[idx as int].1)));
        }
    }

    /// The action under `name`, shared.
    pub fn get(&self, name: &str) -> (r: Option<Arc<ActionBase>>)
        ensures
            r is Some <==> self.spec_contains(name@),
            r matches Some(a) ==> self.spec_binds(name@, *a),
    {
        let n = self.entries.len();
        for i in 0..n
            invariant
                n == self.entries@.len(),
                forall|j: int| 0 <= j < i ==> (#[trigger] self.entries@[j]).0@ != name@,
        {
            if text::str_eq(self.entries[i].0.as_str(), name) {
                let a = arc_clone(&self.entries[i].1);
                proof {
                    assert((self.entries()[i as int]).0@ == name@ && *self.entries()[
                        i as int].1 == *a);
                }
                return Some(a);
            }
        }
        None
    }
}

/// Looks an action up by name for an alarm or report event to hold; an
/// empty name and an unknown name are rejected.
pub fn get_action(action: &String, actions: &ActionMap) -> (r: Result<Arc<ActionBase>, Error>)
    ensures
        r is Ok <==> (action@.len() != 0 && actions.spec_contains(action@)),
        r matches Ok(a) ==> actions.spec_binds(action@, *a),
        r matches Err(e) ==> e.0@ == (if action@.len() == 0 {
            "'name' cannot be empty."@
        } else {
            "Action '"@ + action@ + "' not found."@
        }),
{
    if action.as_str().is_empty() {
        Err(Error(String::from_str("'name' cannot be empty.")))
    } else {
        match actions.get(action.as_str()) {
            Some(a) => Ok(a),
            None => {
                let mut msg = String::from_str("Action '");
                msg.append(action.as_str());
                msg.append("' not found.");
                Err(Error(msg))
            },
        }
    }
}

/// Builds one action from its configuration: a disabled action becomes
/// a no-op that keeps its name; otherwise the kind-specific fields are
/// validated. The webhook headers gain the default `User-Agent` when
/// none is configured.
pub fn from_action_config(action_config: &config::Action) -> (r: Result<Arc<ActionBase>, Error>)
    ensures
        r is Ok <==> spec_action_config_ok(*action_config),
        r matches Ok(a) ==> a.name@ == action_config.name@ && a.timeout == action_config.timeout
            && a.placeholders@ == action_config.placeholders@ && (action_config.disable ==> a.kind
            is Disabled),
        r matches Ok(a) ==> action_config.disable || (match action_config.type_ {
            config::ActionType::Log(l) => a.kind matches ActionKind::Log(al) && al.level == l.level
                && al.template@ == l.template@,
            config::ActionType::Webhook(w) => a.kind matches ActionKind::Webhook(aw) && aw.url@
                == w.url@ && aw.method == w.method && aw.body@ == w.body@ && spec_built_headers(
                w.headers@,
                aw.headers@,
            ),
            config::ActionType::Email(e) => a.kind matches ActionKind::Email(ae) && ae.from@
                == e.from@ && ae.to@ == e.to@ && (match (ae.reply_to, e.reply_to) {
                (Some(x), Some(y)) => x@ == y@,
                (None, None) => true,
                _ => false,
            }) && ae.subject@ == e.subject@ && ae.body@ == e.body@ && ae.smtp_server@
                == e.smtp_server@ && ae.smtp_port == e.smtp_port && ae.smtp_security
                == e.smtp_security && ae.username@ == e.username@ && ae.password@ == e.password@,
            config::ActionType::Process(p) => a.kind matches ActionKind::Process(ap)
                && ap.process_config.path@ == p.process_config.path@
                && ap.process_config.arguments@.len() == p.process_config.arguments@.len() && (
            forall|i: int|
                0 <= i < ap.process_config.arguments@.len() ==> (
                #[trigger] ap.process_config.arguments@[i])@ == p.process_config.arguments@[i]@)
                && ap.process_config.environment_variables@
                == p.process_config.environment_variables@,
        }),
{
    if action_config.disable {
        let a = ActionBase::new(
            action_config.name.clone(),
            action_config.placeholders.duplicate(),
            action_config.timeout,
            ActionKind::Disabled,
        );
        return match a {
            Ok(a) => Ok(Arc::new(a)),
            Err(e) => Err(e),
        };
    }
    let kind = match &action_config.type_ {
        config::ActionType::Log(l) => {
            if l.template.as_str().is_empty() {
                return Err(Error(String::from_str("'template' cannot be empty.")));
            }
            ActionKind::Log(Log { level: l.level, template: l.template.clone() })
        },
        config::ActionType::Webhook(w) => {
            let headers = match build_headers(&w.headers) {
                Ok(hs) => hs,
                Err(e) => {
                    return Err(e);
                },
            };
            ActionKind::Webhook(
                Webhook {
                    url: w.url.clone(),
                    method: w.method,
                    headers,
                    body: w.body.clone(),
                },
            )
        },
        config::ActionType::Email(e) => {
            if e.subject.as_str().is_empty() {
                return Err(Error(String::from_str("'subject' cannot be empty.")));
            }
            if e.body.as_str().is_empty() {
                return Err(Error(String::from_str("'body' cannot be empty.")));
            }
            if e.smtp_server.as_str().is_empty() {
                return Err(Error(String::from_str("'smtp_server' cannot be empty.")));
            }
            if e.username.as_str().is_empty() {
                return Err(Error(String::from_str("'username' cannot be empty.")));
            }
            if e.password.as_str().is_empty() {
                return Err(Error(String::from_str("'password' cannot be empty.")));
            }
            if !email_address_ok(e.from.as_str()) {
                return Err(Error(String::from_str("Invalid sender email address.")));
            }
            if !email_address_ok(e.to.as_str()) {
                return Err(Error(String::from_str("Invalid recipient email address.")));
            }
            let reply_to = match &e.reply_to {
                Some(rt) => {
                    if !email_address_ok(rt.as_str()) {
                        return Err(Error(String::from_str("Invalid reply-to email address.")));
                    }
                    Some(rt.clone())
                },
                None => None,
            };
            ActionKind::Email(
                Email {
                    from: e.from.clone(),
                    to: e.to.clone(),
                    reply_to,
                    subject: e.subject.clone(),
                    body: e.body.clone(),
                    smtp_server: e.smtp_server.clone(),
                    smtp_port: e.smtp_port,
                    smtp_security: e.smtp_security,
                    username: e.username.clone(),
                    password: e.password.clone(),
                },
            )
        },
        config::ActionType::Process(p) => {
            let pc = match config_process(&p.process_config) {
                Ok(pc) => pc,
                Err(e) => {
                    return Err(e);
                },
            };
            ActionKind::Process(Process { process_config: pc })
        },
    };
    match ActionBase::new(
        action_config.name.clone(),
        action_config.placeholders.duplicate(),
        action_config.timeout,
        kind,
    ) {
        Ok(a) => Ok(Arc::new(a)),
        Err(e) => Err(e),
    }
}

/// Validates a webhook's configured headers and adds the default
/// `User-Agent` where none is configured.
fn build_headers(headers_cfg: &PlaceholderMap) -> (r: Result<Vec<(String, String)>, Error>)
    ensures
        r is Ok <==> spec_headers_ok(headers_cfg@),
        r matches Ok(hs) ==> spec_built_headers(headers_cfg@, hs@),
        r matches Err(e) ==> (e.0@ == "Could not parse header name."@ || e.0@
            == "Could not parse header value."@),
{
    let pairs = headers_cfg.pairs();
    let m = pairs.len();
    let mut headers: Vec<(String, String)> = Vec::new();
    let mut has_user_agent = false;
    let mut i: usize = 0;
    while i < m
        invariant
            m == pairs@.len(),
            i <= m,
            pairs@.len() == headers_cfg@.len(),
            forall|j: int|
                0 <= j < pairs@.len() ==> headers_cfg@.contains_key((#[trigger] pairs@[j]).0@)
                    && headers_cfg@[pairs@[j].0@] == pairs@[j].1@,
            forall|k: Seq<char>|
                headers_cfg@.contains_key(k) ==> exists|j: int|
                    0 <= j < pairs@.len() && (#[trigger] pairs@[j]).0@ == k,
            forall|j: int|
                0 <= j < i ==> spec_valid_header_name((#[trigger] pairs@[j]).0@)
                    && spec_valid_header_value(pairs@[j].1@),
            headers@.len() == i,
            forall|j: int|
                0 <= j < i ==> (#[trigger] headers@[j]).0@ == pairs@[j].0@ && headers@[j].1@
                    == pairs@[j].1@,
            has_user_agent <==> exists|j: int|
                0 <= j < i && (#[trigger] pairs@[j]).0@ == "User-Agent"@,
        decreases m - i,
    {
        if !valid_header_name(pairs[i].0.as_str()) {
            proof {
                assert(headers_cfg@.contains_key(pairs@[i as int].0@));
                assert(!spec_headers_ok(headers_cfg@));
            }
            return Err(Error(String::from_str("Could not parse header name.")));
        }
        if !valid_header_value(pairs[i].1.as_str()) {
            proof {
                assert(headers_cfg@.contains_key(pairs@[i as int].0@));
                assert(headers_cfg@[pairs@[i as int].0@] == pairs@[i as int].1@);
                assert(!spec_headers_ok(headers_cfg@));
            }
            return Err(Error(String::from_str("Could not parse header value.")));
        }
        if text::str_eq(pairs[i].0.as_str(), "User-Agent") {
            has_user_agent = true;
        }
        headers.push((pairs[i].0.clone(), pairs[i].1.clone()));
        i = i + 1;
    }
    let ghost with_defaults = headers@;
    if !has_user_agent {
        headers.push((String::from_str("User-Agent"), crate::user_agent()));
    }
    proof {
        if has_user_agent {
            let j = choose|j: int| 0 <= j < m && (#[trigger] pairs@[j]).0@ == "User-Agent"@;
            assert((headers@[j]).0@ == "User-Agent"@);
        } else {
            assert((headers@[headers@.len() - 1]).0@ == "User-Agent"@);
        }
    }
    proof {
        assert forall|k: Seq<char>| headers_cfg@.contains_key(k) implies spec_valid_header_name(
            k,
        ) && spec_valid_header_value(#[trigger] headers_cfg@[k]) by {
            let j = choose|j: int| 0 <= j < pairs@.len() && (#[trigger] pairs@[j]).0@ == k;
            assert(spec_valid_header_name(pairs@[j].0@));
            assert(spec_valid_header_value(pairs@[j].1@));
        }
    }
    Ok(headers)
}

/// Builds the runtime process description out of its configuration.
pub fn config_process(p: &config::ProcessConfig) -> (r: Result<ProcessConfig, Error>)
    ensures
        r is Ok <==> crate::process::spec_file_name(p.path@) is Some,
        r matches Ok(c) ==> c.path@ == p.path@ && c.stdout_max == p.stdout_max && c.stderr_max
            == p.stderr_max && c.uid == p.uid && c.gid == p.gid && c.environment_variables@
            == p.environment_variables@ && c.arguments@.len() == p.arguments@.len() && (forall|
            i: int,
        |
            0 <= i < c.arguments@.len() ==> (#[trigger] c.arguments@[i])@ == p.arguments@[i]@) && (
        match (c.working_directory, p.working_directory) {
            (Some(a), Some(b)) => a@ == b@,
            (None, None) => true,
            _ => false,
        }),
{
    let mut arguments: Vec<String> = Vec::new();
    let n = p.arguments.len();
    for i in 0..n
        invariant
            n == p.arguments@.len(),
            arguments@.len() == i,
            forall|j: int| 0 <= j < i ==> (#[trigger] arguments@[j])@ == p.arguments@[j]@,
    {
        arguments.push(p.arguments[i].clone());
    }
    let working_directory = match &p.working_directory {
        Some(w) => Some(w.clone()),
        None => None,
    };
    ProcessConfig::new(
        p.path.clone(),
        arguments,
        p.environment_variables.duplicate(),
        working_directory,
        p.uid,
        p.gid,
        p.stdout_max,
        p.stderr_max,
    )
}

} // verus!
