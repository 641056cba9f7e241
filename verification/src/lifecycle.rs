//! Session-lifecycle resolution: given the caller's intent (explicit name,
//! index, create/resurrect flags) and a snapshot of the external session
//! registry (live names, resurrectable names, saved layout), decide whether
//! to attach to an existing session, create a new one, or resurrect one from
//! its saved layout; and re-derive that decision when a detach asks for a
//! reconnect.
//!
//! Names are compared by their UTF-8 bytes; a requested name may also select
//! a session as a unique prefix.

use vstd::prelude::*;
use crate::bytestr::bytes_eq;
use crate::bytestr::bytes_starts_with;
use crate::bytestr::chars_bytes;
use crate::bytestr::is_prefix_of;

verus! {

/// Two names spell the same UTF-8 bytes.
pub open spec fn same_name(a: Seq<char>, b: Seq<char>) -> bool {
    chars_bytes(a) == chars_bytes(b)
}

/// `n` is one of the names in `names`.
pub open spec fn name_in(names: Seq<String>, n: Seq<char>) -> bool {
    exists|i: int| 0 <= i < names.len() && same_name(names[i]@, n)
}

/// The two lists hold the same names in the same order.
pub open spec fn same_names(a: Seq<String>, b: Seq<String>) -> bool {
    a.len() == b.len() && forall|k: int| 0 <= k < a.len() ==> same_name(a[k]@, b[k]@)
}

proof fn lemma_name_in_extend(names: Seq<String>, k: int, w: Seq<char>)
    requires
        0 <= k < names.len(),
    ensures
        name_in(names.take(k + 1), w) == (name_in(names.take(k), w) || same_name(names[k]@, w)),
{
    let pre = names.take(k);
    let cur = names.take(k + 1);
    if name_in(cur, w) {
        let i = choose|i: int| 0 <= i < cur.len() && same_name(cur[i]@, w);
        if i < k {
            assert(pre[i] == cur[i]);
            assert(name_in(pre, w));
        } else {
            assert(cur[k] == names[k]);
        }
    }
    if name_in(pre, w) {
        let i = choose|i: int| 0 <= i < pre.len() && same_name(pre[i]@, w);
        assert(cur[i] == pre[i]);
        assert(name_in(cur, w));
    }
    if same_name(names[k]@, w) {
        assert(cur[k] == names[k]);
        assert(name_in(cur, w));
    }
}

/// Whether `name` is one of the session names in `names`, compared byte for
/// byte. This is the registry's existence test applied to a snapshot.
pub fn session_exists(name: &str, names: &Vec<String>) -> (r: bool)
    ensures
        r == name_in(names@, name@),
{
    let mut i: usize = 0;
    while i < names.len()
        invariant
            i <= names@.len(),
            !name_in(names@.take(i as int), name@),
        decreases names@.len() - i,
    {
        if bytes_eq(names[i].as_str().as_bytes(), name.as_bytes()) {
            proof {
                assert(same_name(names@[i as int]@, name@));
            }
            return true;
        }
        proof {
            lemma_name_in_extend(names@, i as int, name@);
        }
        i += 1;
    }
    proof {
        assert(names@.take(names@.len() as int) =~= names@);
    }
    false
}

/// How a requested name relates to the registered session names.
#[derive(Clone, Debug, PartialEq)]
pub enum SessionNameMatch {
    /// The requested name is itself a session name.
    Exact(String),
    /// Exactly one session name starts with the requested name.
    UniquePrefix(String),
    /// Several session names start with the requested name.
    AmbiguousPrefix(Vec<String>),
    /// No session name starts with the requested name.
    NoMatch,
}

/// The session names that start with the requested bytes, in registry order.
pub open spec fn prefix_matches(names: Seq<String>, wanted: Seq<char>) -> Seq<String> {
    names.filter(|n: String| is_prefix_of(chars_bytes(wanted), chars_bytes(n@)))
}

/// Resolves a requested name against the session names: an exact name wins,
/// then a unique prefix; several prefix matches are ambiguous and none is no
/// match.
pub fn match_session_name(names: &Vec<String>, wanted: &str) -> (m: SessionNameMatch)
    ensures
        name_in(names@, wanted@) ==> (m matches SessionNameMatch::Exact(s) && s@ == wanted@),
        !name_in(names@, wanted@) && prefix_matches(names@, wanted@).len() == 1 ==> (
        m matches SessionNameMatch::UniquePrefix(s) && s@ == prefix_matches(
            names@,
            wanted@,
        )[0]@),
        !name_in(names@, wanted@) && prefix_matches(names@, wanted@).len() >= 2 ==> (
        m matches SessionNameMatch::AmbiguousPrefix(v) && same_names(
            v@,
            prefix_matches(names@, wanted@),
        )),
        !name_in(names@, wanted@) && prefix_matches(names@, wanted@).len() == 0 ==> m is NoMatch,
{
    let ghost pred = |n: String| is_prefix_of(chars_bytes(wanted@), chars_bytes(n@));
    let mut matched: Vec<String> = Vec::new();
    let mut exact: bool = false;
    let mut i: usize = 0;
    proof {
        assert(names@.take(0).filter(pred) =~= Seq::<String>::empty());
        assert(!name_in(names@.take(0), wanted@));
    }
    while i < names.len()
        invariant
            i <= names@.len(),
            pred == (|n: String| is_prefix_of(chars_bytes(wanted@), chars_bytes(n@))),
            exact == name_in(names@.take(i as int), wanted@),
            matched@.len() == names@.take(i as int).filter(pred).len(),
            forall|k: int|
                0 <= k < matched@.len() ==> matched@[k]@ == names@.take(i as int).filter(
                    pred,
                )[k]@,
        decreases names@.len() - i,
    {
        let ghost prev = names@.take(i as int);
        let name_bytes = names[i].as_str().as_bytes();
        if bytes_eq(name_bytes, wanted.as_bytes()) {
            exact = true;
            proof {
                assert(same_name(names@[i as int]@, wanted@));
            }
        }
        if bytes_starts_with(name_bytes, wanted.as_bytes()) {
            matched.push(names[i].clone());
        }
        i += 1;
        proof {
            let cur = names@.take(i as int);
            assert(cur.drop_last() =~= prev);
            assert(cur.last() == names@[i - 1]);
            reveal_with_fuel(Seq::filter, 2);
            assert(cur.filter(pred) == if pred(names@[i - 1]) {
                prev.filter(pred).push(names@[i - 1])
            } else {
                prev.filter(pred)
            });
            lemma_name_in_extend(names@, i - 1, wanted@);
        }
    }
    proof {
        assert(names@.take(names@.len() as int) =~= names@);
    }
    if exact {
        SessionNameMatch::Exact(wanted.to_owned())
    } else if matched.len() == 1 {
        SessionNameMatch::UniquePrefix(matched[0].clone())
    } else if matched.len() >= 2 {
        SessionNameMatch::AmbiguousPrefix(matched)
    } else {
        SessionNameMatch::NoMatch
    }
}

/// Options carried to an attached client; the fields the lifecycle logic
/// reads from the caller's configuration.
#[derive(Clone, Debug, PartialEq)]
pub struct ClientOptions {
    /// A session name fixed by configuration, if any.
    pub session_name: Option<String>,
    /// Whether configuration asks to attach to that fixed session.
    pub attach_to_session: Option<bool>,
}

/// A saved layout of a dead session, reduced to what resurrection reads: the
/// override applied to the layout's commands. `Some(false)` marks them to
/// run immediately rather than suspended.
#[derive(Clone, Copy, Debug, PartialEq, Eq, Structural)]
pub struct SavedLayout {
    pub start_suspended_override: Option<bool>,
}

/// The override applied to a resurrected layout: when the caller forces the
/// saved commands to run, every command is marked to start immediately.
pub open spec fn spec_apply_force_run(l: SavedLayout, force_run_commands: bool) -> SavedLayout {
    if force_run_commands {
        SavedLayout { start_suspended_override: Some(false) }
    } else {
        l
    }
}

/// The decision of the lifecycle resolver: what the local client run is
/// started with.
#[derive(Clone, Debug, PartialEq)]
pub enum ClientInfo {
    /// Attach to the named live session.
    Attach(String, ClientOptions),
    /// Create a session under the given name.
    New(String),
    /// Restart the named dead session from its saved layout.
    Resurrect(String, SavedLayout),
}

/// Why lifecycle resolution failed; each is reported to the user and ends
/// the affected client run only.
#[derive(Clone, Debug, PartialEq)]
pub enum ResolveError {
    /// No live session exists and creation was not requested.
    NoActiveSessions,
    /// No session has the requested index; the live sessions are listed.
    NoSessionIndexed { index: usize, sessions: Vec<String> },
    /// Several sessions start with the requested prefix.
    AmbiguousPrefix(Vec<String>),
    /// No session matches the requested name.
    NoMatchingSession(String),
    /// Several live sessions exist and none was singled out.
    MultipleActiveSessions,
    /// The requested name is the session this client already runs inside.
    NestedSessionAttach(String),
    /// Every generated name candidate collided with an existing session.
    NameGenerationExhausted,
    /// No target session name was given where one is needed.
    NoTargetSpecified,
}

impl ResolveError {
    /// A short description of the error class, for display by the caller.
    pub fn kind_message(&self) -> (m: &'static str)
        ensures
            m@.len() > 0,
    {
        proof {
            reveal_strlit("no active sessions found");
            reveal_strlit("no session indexed by this index");
            reveal_strlit("ambiguous selection: multiple session names match");
            reveal_strlit("no session with this name found");
            reveal_strlit("please specify the session to attach to");
            reveal_strlit("cannot nest a session in itself");
            reveal_strlit("failed to generate a unique session name");
            reveal_strlit("please specify the target session");
        }
        match self {
            ResolveError::NoActiveSessions => "no active sessions found",
            ResolveError::NoSessionIndexed { .. } => "no session indexed by this index",
            ResolveError::AmbiguousPrefix(_) => "ambiguous selection: multiple session names match",
            ResolveError::NoMatchingSession(_) => "no session with this name found",
            ResolveError::MultipleActiveSessions => "please specify the session to attach to",
            ResolveError::NestedSessionAttach(_) => "cannot nest a session in itself",
            ResolveError::NameGenerationExhausted => "failed to generate a unique session name",
            ResolveError::NoTargetSpecified => "please specify the target session",
        }
    }
}

/// The cap on how many generated name candidates are tried.
pub const NAME_CANDIDATE_CAP: usize = 1000;

/// A candidate name can be used: it collides with no live and no dead
/// session.
pub open spec fn name_available(c: Seq<char>, live: Seq<String>, dead: Seq<String>) -> bool {
    !name_in(live, c) && !name_in(dead, c)
}

/// How many of the candidates are considered: at most the cap.
pub open spec fn candidate_cap(n: nat) -> nat {
    if n > NAME_CANDIDATE_CAP {
        NAME_CANDIDATE_CAP as nat
    } else {
        n
    }
}

/// The first usable candidate at or after position `i`, within the cap.
pub open spec fn spec_first_available(
    candidates: Seq<String>,
    live: Seq<String>,
    dead: Seq<String>,
    i: int,
) -> Option<String>
    decreases candidate_cap(candidates.len()) - i
        when i >= 0
{
    if i < 0 || i >= candidate_cap(candidates.len()) {
        None
    } else if name_available(candidates[i]@, live, dead) {
        Some(candidates[i])
    } else {
        spec_first_available(candidates, live, dead, i + 1)
    }
}

/// Picks the first of the candidate names (up to the cap) that no live and
/// no dead session already uses; the pick is never a used name.
pub fn pick_unique_session_name(
    candidates: &Vec<String>,
    live: &Vec<String>,
    dead: &Vec<String>,
) -> (r: Option<String>)
    ensures
        r == spec_first_available(candidates@, live@, dead@, 0),
        r matches Some(n) ==> name_available(n@, live@, dead@),
{
    let cap: usize = if candidates.len() > NAME_CANDIDATE_CAP {
        NAME_CANDIDATE_CAP
    } else {
        candidates.len()
    };
    let mut i: usize = 0;
    while i < cap
        invariant
            0 <= i <= cap,
            cap == candidate_cap(candidates@.len()),
            spec_first_available(candidates@, live@, dead@, 0) == spec_first_available(
                candidates@,
                live@,
                dead@,
                i as int,
            ),
        decreases cap - i,
    {
        let c = &candidates[i];
        let live_hit = session_exists(c.as_str(), live);
        let dead_hit = session_exists(c.as_str(), dead);
        if !live_hit && !dead_hit {
            return Some(c.clone());
        }
        i += 1;
    }
    None
}

/// Picks a unique session name or reports that every candidate collided,
/// which the caller treats as fatal to this client run.
pub fn generate_unique_session_name(
    candidates: &Vec<String>,
    live: &Vec<String>,
    dead: &Vec<String>,
) -> (r: Result<String, ResolveError>)
    ensures
        spec_first_available(candidates@, live@, dead@, 0) matches Some(n) ==> r == Ok::<
            String,
            ResolveError,
        >(n),
        spec_first_available(candidates@, live@, dead@, 0) is None ==> r == Err::<
            String,
            ResolveError,
        >(ResolveError::NameGenerationExhausted),
{
    match pick_unique_session_name(candidates, live, dead) {
        Some(n) => Ok(n),
        None => Err(ResolveError::NameGenerationExhausted),
    }
}

/// What resolution promises when it must create a session under a freshly
/// generated name: the first usable candidate, or the exhaustion error.
pub open spec fn is_new_unique(
    r: Result<ClientInfo, ResolveError>,
    candidates: Seq<String>,
    live: Seq<String>,
    dead: Seq<String>,
) -> bool {
    match spec_first_available(candidates, live, dead, 0) {
        Some(n) => r == Ok::<ClientInfo, ResolveError>(ClientInfo::New(n)),
        None => r == Err::<ClientInfo, ResolveError>(ResolveError::NameGenerationExhausted),
    }
}

/// The result attaches to the named session with the given options.
pub open spec fn is_attach(
    r: Result<ClientInfo, ResolveError>,
    name: Seq<char>,
    options: ClientOptions,
) -> bool {
    r matches Ok(ClientInfo::Attach(s, o)) && s@ == name && o == options
}

/// The result creates a session under the given name.
pub open spec fn is_new(r: Result<ClientInfo, ResolveError>, name: Seq<char>) -> bool {
    r matches Ok(ClientInfo::New(s)) && s@ == name
}

/// The result resurrects the named session from the given layout.
pub open spec fn is_resurrect(
    r: Result<ClientInfo, ResolveError>,
    name: Seq<char>,
    layout: SavedLayout,
) -> bool {
    r matches Ok(ClientInfo::Resurrect(s, l)) && s@ == name && l == layout
}

/// What index-based resolution promises: the session at the index, sorted by
/// modification time; past the end, a new session when creation is allowed,
/// otherwise the listing error.
pub open spec fn indexed_post(
    r: Result<ClientInfo, ResolveError>,
    sessions: Seq<String>,
    options: ClientOptions,
    index: usize,
    create: bool,
    candidates: Seq<String>,
    dead: Seq<String>,
) -> bool {
    &&& index < sessions.len() ==> is_attach(r, sessions[index as int]@, options)
    &&& index >= sessions.len() && create ==> is_new_unique(r, candidates, sessions, dead)
    &&& index >= sessions.len() && !create ==> (r matches Err(ResolveError::NoSessionIndexed {
        index: i,
        sessions: s,
    }) && i == index && same_names(s@, sessions))
}

/// Selects the session with the requested index from the sessions sorted by
/// modification time, or falls back to creation / the listing error.
pub fn find_indexed_session(
    sessions: &Vec<String>,
    options: ClientOptions,
    index: usize,
    create: bool,
    candidates: &Vec<String>,
    dead: &Vec<String>,
) -> (r: Result<ClientInfo, ResolveError>)
    ensures
        indexed_post(r, sessions@, options, index, create, candidates@, dead@),
{
    if index < sessions.len() {
        Ok(ClientInfo::Attach(sessions[index].clone(), options))
    } else if create {
        match generate_unique_session_name(candidates, sessions, dead) {
            Ok(n) => Ok(ClientInfo::New(n)),
            Err(e) => Err(e),
        }
    } else {
        Err(ResolveError::NoSessionIndexed { index, sessions: sessions.clone() })
    }
}

/// What resolution by index promises at the outer level, where an empty
/// registry without creation is its own error.
pub open spec fn attach_by_index_post(
    r: Result<ClientInfo, ResolveError>,
    sessions: Seq<String>,
    options: ClientOptions,
    index: usize,
    create: bool,
    candidates: Seq<String>,
    dead: Seq<String>,
) -> bool {
    &&& sessions.len() == 0 && create ==> is_new_unique(r, candidates, sessions, dead)
    &&& sessions.len() == 0 && !create ==> r == Err::<ClientInfo, ResolveError>(
        ResolveError::NoActiveSessions,
    )
    &&& sessions.len() > 0 ==> indexed_post(r, sessions, options, index, create, candidates, dead)
}

/// Resolution when an explicit index is requested; the requested session
/// name is ignored in that case.
pub fn attach_with_session_index(
    sessions: &Vec<String>,
    options: ClientOptions,
    index: usize,
    create: bool,
    candidates: &Vec<String>,
    dead: &Vec<String>,
) -> (r: Result<ClientInfo, ResolveError>)
    ensures
        attach_by_index_post(r, sessions@, options, index, create, candidates@, dead@),
{
    if sessions.len() == 0 {
        if create {
            match generate_unique_session_name(candidates, sessions, dead) {
                Ok(n) => Ok(ClientInfo::New(n)),
                Err(e) => Err(e),
            }
        } else {
            Err(ResolveError::NoActiveSessions)
        }
    } else {
        find_indexed_session(sessions, options, index, create, candidates, dead)
    }
}

/// What resolution by name promises, clause by clause. With a requested name
/// and creation allowed, an existing session is attached and a missing one
/// created under that very name. Without creation the name must match a
/// session, exactly or as a unique prefix; ambiguity and absence are errors.
/// With no requested name, a single live session is attached, none is
/// created only when allowed, and several are an error.
pub open spec fn attach_by_name_post(
    r: Result<ClientInfo, ResolveError>,
    session_name: Option<String>,
    options: ClientOptions,
    create: bool,
    live: Seq<String>,
    candidates: Seq<String>,
    dead: Seq<String>,
) -> bool {
    match session_name {
        Some(n) => {
            &&& (create && name_in(live, n@) ==> is_attach(r, n@, options))
            &&& (create && !name_in(live, n@) ==> is_new(r, n@))
            &&& (!create && name_in(live, n@) ==> is_attach(r, n@, options))
            &&& (!create && !name_in(live, n@) && prefix_matches(live, n@).len() == 1
                ==> is_attach(r, prefix_matches(live, n@)[0]@, options))
            &&& (!create && !name_in(live, n@) && prefix_matches(live, n@).len() >= 2 ==> (
            r matches Err(ResolveError::AmbiguousPrefix(v)) && same_names(
                v@,
                prefix_matches(live, n@),
            )))
            &&& (!create && !name_in(live, n@) && prefix_matches(live, n@).len() == 0 ==> (
            r matches Err(ResolveError::NoMatchingSession(m)) && m@ == n@))
        },
        None => {
            &&& (live.len() == 1 ==> is_attach(r, live[0]@, options))
            &&& (live.len() == 0 && create ==> is_new_unique(r, candidates, live, dead))
            &&& (live.len() == 0 && !create ==> r == Err::<ClientInfo, ResolveError>(
                ResolveError::NoActiveSessions,
            ))
            &&& (live.len() > 1 ==> r == Err::<ClientInfo, ResolveError>(
                ResolveError::MultipleActiveSessions,
            ))
        },
    }
}

/// Resolution by requested name, or by the live sessions alone when no name
/// was requested.
pub fn attach_with_session_name(
    session_name: Option<String>,
    options: ClientOptions,
    create: bool,
    live: &Vec<String>,
    candidates: &Vec<String>,
    dead: &Vec<String>,
) -> (r: Result<ClientInfo, ResolveError>)
    ensures
        attach_by_name_post(r, session_name, options, create, live@, candidates@, dead@),
{
    match session_name {
        Some(name) => {
            if create {
                if session_exists(name.as_str(), live) {
                    Ok(ClientInfo::Attach(name, options))
                } else {
                    Ok(ClientInfo::New(name))
                }
            } else {
                let exists = session_exists(name.as_str(), live);
                match match_session_name(live, name.as_str()) {
                    SessionNameMatch::Exact(s) => {
                        proof {
                            assert(exists);
                        }
                        Ok(ClientInfo::Attach(s, options))
                    },
                    SessionNameMatch::UniquePrefix(s) => Ok(ClientInfo::Attach(s, options)),
                    SessionNameMatch::AmbiguousPrefix(v) => Err(ResolveError::AmbiguousPrefix(v)),
                    SessionNameMatch::NoMatch => Err(ResolveError::NoMatchingSession(name)),
                }
            }
        },
        None => {
            if live.len() == 1 {
                Ok(ClientInfo::Attach(live[0].clone(), options))
            } else if live.len() == 0 {
                if create {
                    match generate_unique_session_name(candidates, live, dead) {
                        Ok(n) => Ok(ClientInfo::New(n)),
                        Err(e) => Err(e),
                    }
                } else {
                    Err(ResolveError::NoActiveSessions)
                }
            } else {
                Err(ResolveError::MultipleActiveSessions)
            }
        },
    }
}

/// The attach subcommand of the caller's intent.
#[derive(Clone, Debug, PartialEq)]
pub struct AttachCommand {
    /// The requested session name, if any.
    pub session_name: Option<String>,
    /// Create the session when it does not exist.
    pub create: bool,
    /// Run a resurrected layout's commands immediately.
    pub force_run_commands: bool,
    /// Select a session by position in the most-recently-modified order.
    pub index: Option<usize>,
    /// Options given with the subcommand, overriding the configured ones.
    pub options: Option<ClientOptions>,
}

/// The options that apply to an attach subcommand: the ones given with the
/// subcommand, or else the configured ones.
pub open spec fn spec_effective_options(
    cmd_options: Option<ClientOptions>,
    base: ClientOptions,
) -> ClientOptions {
    match cmd_options {
        Some(o) => o,
        None => base,
    }
}

/// What resolving an attach subcommand promises. An explicit index wins and
/// ignores the name. Otherwise a requested name with a saved layout and no
/// live session of that name is resurrected — resurrection takes precedence
/// over creation — with the force-run override applied; every other shape is
/// resolved by name.
pub open spec fn resolve_attach_post(
    r: Result<ClientInfo, ResolveError>,
    cmd: AttachCommand,
    base_options: ClientOptions,
    live: Seq<String>,
    live_by_mtime: Seq<String>,
    saved_layout: Option<SavedLayout>,
    candidates: Seq<String>,
    dead: Seq<String>,
) -> bool {
    let eff = spec_effective_options(cmd.options, base_options);
    match cmd.index {
        Some(idx) => attach_by_index_post(
            r,
            live_by_mtime,
            eff,
            idx,
            cmd.create,
            candidates,
            dead,
        ),
        None => {
            let resurrects = cmd.session_name matches Some(n) && saved_layout is Some && !name_in(
                live,
                n@,
            );
            &&& (match (cmd.session_name, saved_layout) {
                (Some(n), Some(l)) => !name_in(live, n@) ==> is_resurrect(
                    r,
                    n@,
                    spec_apply_force_run(l, cmd.force_run_commands),
                ),
                _ => true,
            })
            &&& (!resurrects ==> attach_by_name_post(
                r,
                cmd.session_name,
                eff,
                cmd.create,
                live,
                candidates,
                dead,
            ))
        },
    }
}

/// Resolves an attach subcommand against the registry snapshot: the live
/// session names, the same names sorted by modification time, the saved
/// layout of the requested name (if any), the name-generator candidates and
/// the dead session names.
pub fn resolve_attach(
    cmd: AttachCommand,
    base_options: ClientOptions,
    live: &Vec<String>,
    live_by_mtime: &Vec<String>,
    saved_layout: Option<SavedLayout>,
    candidates: &Vec<String>,
    dead: &Vec<String>,
) -> (r: Result<ClientInfo, ResolveError>)
    ensures
        resolve_attach_post(
            r,
            cmd,
            base_options,
            live@,
            live_by_mtime@,
            saved_layout,
            candidates@,
            dead@,
        ),
{
    let eff = match cmd.options {
        Some(o) => o,
        None => base_options,
    };
    match cmd.index {
        Some(idx) => attach_with_session_index(
            live_by_mtime,
            eff,
            idx,
            cmd.create,
            candidates,
            dead,
        ),
        None => {
            let exists = match &cmd.session_name {
                Some(n) => session_exists(n.as_str(), live),
                None => false,
            };
            match (cmd.session_name, saved_layout) {
                (Some(n), Some(l)) => {
                    if !exists {
                        let layout = if cmd.force_run_commands {
                            SavedLayout { start_suspended_override: Some(false) }
                        } else {
                            l
                        };
                        Ok(ClientInfo::Resurrect(n, layout))
                    } else {
                        attach_with_session_name(Some(n), eff, cmd.create, live, candidates, dead)
                    }
                },
                (name, _) => attach_with_session_name(
                    name,
                    eff,
                    cmd.create,
                    live,
                    candidates,
                    dead,
                ),
            }
        },
    }
}

/// Which layout the local client run is started with.
#[derive(Clone, Copy, Debug, PartialEq, Eq, Structural)]
pub enum LayoutChoice {
    /// Attaching to a live session brings no layout of its own.
    NoLayout,
    /// A new session starts from the configured base layout.
    BaseLayout,
    /// A resurrected session starts from its saved layout.
    Resurrected(SavedLayout),
}

/// The layout choice that belongs to a resolved client decision.
pub open spec fn spec_layout_for(c: ClientInfo) -> LayoutChoice {
    match c {
        ClientInfo::Attach(_, _) => LayoutChoice::NoLayout,
        ClientInfo::New(_) => LayoutChoice::BaseLayout,
        ClientInfo::Resurrect(_, l) => LayoutChoice::Resurrected(l),
    }
}

/// A resolved start: the client decision and the layout it runs with.
#[derive(Clone, Debug, PartialEq)]
pub struct StartPlan {
    pub client: ClientInfo,
    pub layout: LayoutChoice,
}

/// The caller's intent, as the command line and configuration state it.
#[derive(Clone, Debug, PartialEq)]
pub struct CliIntent {
    /// The attach subcommand, when one was given.
    pub command: Option<AttachCommand>,
    /// A plain session-name argument: start a new session under this name.
    pub session: Option<String>,
    /// The configured client options.
    pub options: ClientOptions,
}

/// The client decision inside a start plan, with errors passed through.
pub open spec fn client_result(r: Result<StartPlan, ResolveError>) -> Result<
    ClientInfo,
    ResolveError,
> {
    match r {
        Ok(p) => Ok(p.client),
        Err(e) => Err(e),
    }
}

/// The configured session name equals the session this process already runs
/// inside.
pub open spec fn is_nested(env_session_name: Option<String>, sn: Seq<char>) -> bool {
    env_session_name matches Some(e) && same_name(e@, sn)
}

/// What one round of start resolution promises, following the intent: an
/// attach subcommand is resolved as such; a plain session argument names a
/// new session; a configured session name is refused when it would nest the
/// current session, attached to when configuration asks for that, and
/// otherwise created; with nothing given, a fresh unique name is created.
/// The plan's layout always matches its client decision.
pub open spec fn resolve_start_post(
    r: Result<StartPlan, ResolveError>,
    intent: CliIntent,
    env_session_name: Option<String>,
    live: Seq<String>,
    live_by_mtime: Seq<String>,
    saved_layout: Option<SavedLayout>,
    candidates: Seq<String>,
    dead: Seq<String>,
) -> bool {
    &&& (r matches Ok(p) ==> p.layout == spec_layout_for(p.client))
    &&& (match intent.command {
        Some(cmd) => resolve_attach_post(
            client_result(r),
            cmd,
            intent.options,
            live,
            live_by_mtime,
            saved_layout,
            candidates,
            dead,
        ),
        None => match intent.session {
            Some(s) => is_new(client_result(r), s@),
            None => match intent.options.session_name {
                Some(sn) => {
                    &&& (is_nested(env_session_name, sn@) ==> (client_result(
                        r,
                    ) matches Err(ResolveError::NestedSessionAttach(m)) && m@ == sn@))
                    &&& (!is_nested(env_session_name, sn@) && intent.options.attach_to_session
                        == Some(true) ==> attach_by_name_post(
                        client_result(r),
                        intent.options.session_name,
                        intent.options,
                        true,
                        live,
                        candidates,
                        dead,
                    ))
                    &&& (!is_nested(env_session_name, sn@) && intent.options.attach_to_session
                        != Some(true) ==> is_new(client_result(r), sn@))
                },
                None => is_new_unique(client_result(r), candidates, live, dead),
            },
        },
    })
}

/// One round of start resolution: from the caller's intent, the session this
/// process runs inside (if any), and the registry snapshot, decide what the
/// local client run is started with.
pub fn resolve_start(
    intent: CliIntent,
    env_session_name: Option<String>,
    live: &Vec<String>,
    live_by_mtime: &Vec<String>,
    saved_layout: Option<SavedLayout>,
    candidates: &Vec<String>,
    dead: &Vec<String>,
) -> (r: Result<StartPlan, ResolveError>)
    ensures
        resolve_start_post(
            r,
            intent,
            env_session_name,
            live@,
            live_by_mtime@,
            saved_layout,
            candidates@,
            dead@,
        ),
{
    let client = match intent.command {
        Some(cmd) => resolve_attach(
            cmd,
            intent.options,
            live,
            live_by_mtime,
            saved_layout,
            candidates,
            dead,
        ),
        None => {
            match intent.session {
                Some(s) => Ok(ClientInfo::New(s)),
                None => {
                    match intent.options.session_name {
                        Some(sn) => {
                            let nested = match &env_session_name {
                                Some(e) => bytes_eq(e.as_str().as_bytes(), sn.as_str().as_bytes()),
                                None => false,
                            };
                            if nested {
                                Err(ResolveError::NestedSessionAttach(sn))
                            } else if matches!(intent.options.attach_to_session, Some(true)) {
                                let options = ClientOptions {
                                    session_name: Some(sn),
                                    attach_to_session: intent.options.attach_to_session,
                                };
                                attach_with_session_name(
                                    options.session_name.clone(),
                                    options,
                                    true,
                                    live,
                                    candidates,
                                    dead,
                                )
                            } else {
                                Ok(ClientInfo::New(sn))
                            }
                        },
                        None => {
                            match generate_unique_session_name(candidates, live, dead) {
                                Ok(n) => Ok(ClientInfo::New(n)),
                                Err(e) => Err(e),
                            }
                        },
                    }
                },
            }
        },
    };
    match client {
        Ok(c) => {
            let layout = match &c {
                ClientInfo::Attach(_, _) => LayoutChoice::NoLayout,
                ClientInfo::New(_) => LayoutChoice::BaseLayout,
                ClientInfo::Resurrect(_, l) => LayoutChoice::Resurrected(*l),
            };
            Ok(StartPlan { client: c, layout })
        },
        Err(e) => Err(e),
    }
}

/// What the local client run hands back when the user detaches in order to
/// reattach: the target session (if one was picked) and the focus to carry
/// forward. `None` from the run ends the connection's client loop instead.
#[derive(Clone, Debug, PartialEq)]
pub struct ReconnectRequest {
    /// The session to reattach to; none clears any prior session affinity.
    pub name: Option<String>,
    /// The tab to focus after the reattach.
    pub tab_position: Option<usize>,
    /// The pane to focus after the reattach, and whether it is a plugin.
    pub pane_id: Option<(u32, bool)>,
}

/// Rewrites the caller's intent for the next resolution round after a
/// detach-to-reattach: a named target becomes an attach subcommand that may
/// create the session; an unnamed one clears the prior session affinity.
pub fn apply_reconnect(intent: CliIntent, reconnect: &ReconnectRequest) -> (r: CliIntent)
    ensures
        reconnect.name matches Some(n) ==> {
            &&& r.command matches Some(c) && c.session_name matches Some(m) && m@ == n@
                && c.create && !c.force_run_commands && c.index is None && c.options is None
            &&& r.session == intent.session
            &&& r.options == intent.options
        },
        reconnect.name is None ==> {
            &&& r.command is None
            &&& r.session is None
            &&& r.options == (ClientOptions {
                session_name: intent.options.session_name,
                attach_to_session: None,
            })
        },
{
    match &reconnect.name {
        Some(n) => CliIntent {
            command: Some(
                AttachCommand {
                    session_name: Some(n.clone()),
                    create: true,
                    force_run_commands: false,
                    index: None,
                    options: None,
                },
            ),
            session: intent.session,
            options: intent.options,
        },
        None => CliIntent {
            command: None,
            session: None,
            options: ClientOptions {
                session_name: intent.options.session_name,
                attach_to_session: None,
            },
        },
    }
}

/// Picks the session an action is sent to: the single live session (which a
/// requested name must then equal), a requested name among many, or the
/// session this process runs inside; anything else is ambiguous or empty.
pub fn resolve_action_target(
    live: &Vec<String>,
    requested: Option<String>,
    env_session_name: Option<String>,
) -> (r: Result<String, ResolveError>)
    ensures
        live@.len() == 0 ==> r == Err::<String, ResolveError>(ResolveError::NoActiveSessions),
        live@.len() == 1 ==> match requested {
            Some(rq) => {
                &&& (same_name(rq@, live@[0]@) ==> (r matches Ok(s) && s@ == live@[0]@))
                &&& (!same_name(rq@, live@[0]@) ==> (r matches Err(
                    ResolveError::NoMatchingSession(m),
                ) && m@ == rq@))
            },
            None => r matches Ok(s) && s@ == live@[0]@,
        },
        live@.len() > 1 ==> match requested {
            Some(rq) => {
                &&& (name_in(live@, rq@) ==> (r matches Ok(s) && s@ == rq@))
                &&& (!name_in(live@, rq@) ==> (r matches Err(ResolveError::NoMatchingSession(m))
                    && m@ == rq@))
            },
            None => match env_session_name {
                Some(e) => r matches Ok(s) && s@ == e@,
                None => r == Err::<String, ResolveError>(ResolveError::MultipleActiveSessions),
            },
        },
{
    if live.len() == 0 {
        Err(ResolveError::NoActiveSessions)
    } else if live.len() == 1 {
        match requested {
            Some(rq) => {
                if bytes_eq(rq.as_str().as_bytes(), live[0].as_str().as_bytes()) {
                    Ok(live[0].clone())
                } else {
                    Err(ResolveError::NoMatchingSession(rq))
                }
            },
            None => Ok(live[0].clone()),
        }
    } else {
        match requested {
            Some(rq) => {
                if session_exists(rq.as_str(), live) {
                    Ok(rq)
                } else {
                    Err(ResolveError::NoMatchingSession(rq))
                }
            },
            None => match env_session_name {
                Some(e) => Ok(e),
                None => Err(ResolveError::MultipleActiveSessions),
            },
        }
    }
}

/// Kills every live session, or reports that none exists.
pub fn plan_kill_all(live: &Vec<String>) -> (r: Result<Vec<String>, ResolveError>)
    ensures
        live@.len() == 0 ==> r == Err::<Vec<String>, ResolveError>(ResolveError::NoActiveSessions),
        live@.len() > 0 ==> (r matches Ok(v) && same_names(v@, live@)),
{
    if live.len() == 0 {
        Err(ResolveError::NoActiveSessions)
    } else {
        Ok(live.clone())
    }
}

/// The dead sessions that a delete-all touches: all of them under force,
/// otherwise only those no live session still uses.
pub open spec fn deletable(resurrectable: Seq<String>, live: Seq<String>, force: bool) -> Seq<
    String,
> {
    if force {
        resurrectable
    } else {
        resurrectable.filter(|n: String| !name_in(live, n@))
    }
}

/// Selects the dead sessions a delete-all removes.
pub fn plan_delete_all(resurrectable: &Vec<String>, live: &Vec<String>, force: bool) -> (r: Vec<
    String,
>)
    ensures
        same_names(r@, deletable(resurrectable@, live@, force)),
{
    if force {
        return resurrectable.clone();
    }
    let ghost pred = |n: String| !name_in(live@, n@);
    let mut out: Vec<String> = Vec::new();
    let mut i: usize = 0;
    proof {
        assert(resurrectable@.take(0).filter(pred) =~= Seq::<String>::empty());
    }
    while i < resurrectable.len()
        invariant
            i <= resurrectable@.len(),
            pred == (|n: String| !name_in(live@, n@)),
            out@.len() == resurrectable@.take(i as int).filter(pred).len(),
            forall|k: int|
                0 <= k < out@.len() ==> out@[k]@ == resurrectable@.take(i as int).filter(
                    pred,
                )[k]@,
        decreases resurrectable@.len() - i,
    {
        let ghost prev = resurrectable@.take(i as int);
        if !session_exists(resurrectable[i].as_str(), live) {
            out.push(resurrectable[i].clone());
        }
        i += 1;
        proof {
            let cur = resurrectable@.take(i as int);
            assert(cur.drop_last() =~= prev);
            assert(cur.last() == resurrectable@[i - 1]);
            reveal_with_fuel(Seq::filter, 2);
        }
    }
    proof {
        assert(resurrectable@.take(resurrectable@.len() as int) =~= resurrectable@);
    }
    out
}

/// The session name the local engine is started under: the explicit
/// session argument wins, then the name this process already runs inside,
/// and otherwise a freshly generated unique name.
pub fn choose_server_session_name(
    opts_session: Option<String>,
    env_session_name: Option<String>,
    candidates: &Vec<String>,
    live: &Vec<String>,
    dead: &Vec<String>,
) -> (r: Result<String, ResolveError>)
    ensures
        opts_session matches Some(s) ==> r == Ok::<String, ResolveError>(s),
        opts_session is None ==> match env_session_name {
            Some(e) => r == Ok::<String, ResolveError>(e),
            None => true,
        },
        opts_session is None && env_session_name is None ==> match spec_first_available(
            candidates@,
            live@,
            dead@,
            0,
        ) {
            Some(n) => r == Ok::<String, ResolveError>(n),
            None => r == Err::<String, ResolveError>(ResolveError::NameGenerationExhausted),
        },
{
    match opts_session {
        Some(s) => Ok(s),
        None => match env_session_name {
            Some(e) => Ok(e),
            None => generate_unique_session_name(candidates, live, dead),
        },
    }
}

/// Requires an explicit target session name, as the kill and delete commands
/// do.
pub fn require_target_session(target: Option<String>) -> (r: Result<String, ResolveError>)
    ensures
        target matches Some(t) ==> r == Ok::<String, ResolveError>(t),
        target is None ==> r == Err::<String, ResolveError>(ResolveError::NoTargetSpecified),
{
    match target {
        Some(t) => Ok(t),
        None => Err(ResolveError::NoTargetSpecified),
    }
}

} // verus!
