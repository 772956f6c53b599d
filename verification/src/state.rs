//! What the application remembers between requests about inspection: which
//! servers are being inspected, and the messages captured for each server.

use vstd::prelude::*;
use crate::config::{McpConfig, McpConfigView};
use crate::inspector::{messages_of, InspectorMessage, InspectorMessageView};
use crate::keyed::{distinct_keys, has_key, lemma_map_empty, lemma_map_entry, lemma_map_push,
    lemma_map_remove, lemma_map_update, map_of};
use crate::text::same_text;

verus! {

/// State of an inspection session.
#[derive(Debug, Clone)]
pub struct InspectorSessionState {
    pub server_name: String,
    pub is_active: bool,
}

/// The sessions of a list, by server name, each with whether it is active.
pub open spec fn session_entries(sessions: Seq<InspectorSessionState>) -> Seq<(Seq<char>, bool)> {
    Seq::new(sessions.len(), |i: int| (sessions[i].server_name@, sessions[i].is_active))
}

/// The inspection sessions, at most one for a server.
pub struct InspectorSessions {
    sessions: Vec<InspectorSessionState>,
}

impl InspectorSessions {
    #[verifier::type_invariant]
    spec fn well_formed(self) -> bool {
        distinct_keys(session_entries(self.sessions@))
    }

    /// For each inspected server, whether its session is active.
    pub closed spec fn active(&self) -> Map<Seq<char>, bool> {
        map_of(session_entries(self.sessions@))
    }

    /// No sessions.
    pub fn new() -> (table: Self)
        ensures
            table.active() == Map::<Seq<char>, bool>::empty(),
    {
        let table = InspectorSessions { sessions: Vec::new() };
        proof {
            lemma_map_empty(session_entries(table.sessions@));
        }
        table
    }

    /// Index of the session of `server_name`, if there is one.
    fn position(&self, server_name: &str) -> (found: Option<usize>)
        ensures
            match found {
                Some(i) => i < self.sessions@.len() && self.sessions@[i as int].server_name@
                    == server_name@,
                None => !has_key(session_entries(self.sessions@), server_name@),
            },
    {
        let mut i: usize = 0;
        while i < self.sessions.len()
            invariant
                i <= self.sessions@.len(),
                forall|k: int| 0 <= k < i ==> self.sessions@[k].server_name@ != server_name@,
            decreases self.sessions@.len() - i,
        {
            if same_text(self.sessions[i].server_name.as_str(), server_name) {
                return Some(i);
            }
            i += 1;
        }
        assert forall|k: int| 0 <= k < self.sessions@.len() implies (#[trigger] session_entries(
            self.sessions@,
        )[k]).0 != server_name@ by {}
        None
    }

    /// Puts a session for `server_name` in place, in the given state,
    /// whether or not the server had one.
    fn put(&mut self, server_name: &str, is_active: bool)
        ensures
            final(self).active() == old(self).active().insert(server_name@, is_active),
    {
        proof {
            use_type_invariant(&*self);
        }
        let found = self.position(server_name);
        let mut sessions: Vec<InspectorSessionState> = Vec::new();
        proof {
            lemma_map_empty(session_entries(sessions@));
        }
        core::mem::swap(&mut self.sessions, &mut sessions);
        let ghost before = session_entries(sessions@);
        let session = InspectorSessionState { server_name: server_name.to_owned(), is_active };
        match found {
            Some(i) => {
                proof {
                    lemma_map_update(before, i as int, is_active);
                }
                sessions.set(i, session);
                assert(session_entries(sessions@) =~= before.update(
                    i as int,
                    (server_name@, is_active),
                ));
            },
            None => {
                proof {
                    lemma_map_push(before, server_name@, is_active);
                }
                sessions.push(session);
                assert(session_entries(sessions@) =~= before.push((server_name@, is_active)));
            },
        }
        core::mem::swap(&mut self.sessions, &mut sessions);
    }

    /// Begins a session for `server_name`: the server has an active session
    /// afterwards, whatever it had before.
    pub fn start(&mut self, server_name: &str) -> (session: InspectorSessionState)
        ensures
            final(self).active() == old(self).active().insert(server_name@, true),
            session.server_name@ == server_name@,
            session.is_active,
    {
        self.put(server_name, true);
        InspectorSessionState { server_name: server_name.to_owned(), is_active: true }
    }

    /// Ends the session of `server_name`: it stays on record as inactive. A
    /// server without a session is left without one.
    pub fn stop(&mut self, server_name: &str)
        ensures
            final(self).active() == if old(self).active().dom().contains(server_name@) {
                old(self).active().insert(server_name@, false)
            } else {
                old(self).active()
            },
    {
        let found = self.position(server_name);
        proof {
            if let Some(i) = found {
                assert(session_entries(self.sessions@)[i as int].0 == server_name@);
            }
        }
        if found.is_some() {
            self.put(server_name, false);
        }
    }

    /// Whether `server_name` has a session, and whether that session is active.
    pub fn status(&self, server_name: &str) -> (status: Option<bool>)
        ensures
            status == if self.active().dom().contains(server_name@) {
                Some(self.active()[server_name@])
            } else {
                None
            },
    {
        proof {
            use_type_invariant(self);
        }
        match self.position(server_name) {
            Some(i) => {
                proof {
                    lemma_map_entry(session_entries(self.sessions@), i as int);
                }
                Some(self.sessions[i].is_active)
            },
            None => None,
        }
    }
}

/// The captured messages of a list, by server name.
pub open spec fn message_entries(lists: Seq<(String, Vec<InspectorMessage>)>) -> Seq<
    (Seq<char>, Seq<InspectorMessageView>),
> {
    Seq::new(lists.len(), |i: int| (lists[i].0@, messages_of(lists[i].1@)))
}

/// The messages that a page shows: those from `offset` on, `limit` at most.
pub open spec fn page_of(messages: Seq<InspectorMessageView>, limit: int, offset: int) -> Seq<
    InspectorMessageView,
> {
    if offset >= messages.len() {
        Seq::empty()
    } else if offset + limit >= messages.len() {
        messages.skip(offset)
    } else {
        messages.subrange(offset, offset + limit)
    }
}

/// The range of a page that is asked for with an optional limit and an
/// optional offset: 100 messages from the first on, unless told otherwise.
pub open spec fn page_range(limit: Option<usize>, offset: Option<usize>) -> (int, int) {
    (
        match limit {
            Some(n) => n as int,
            None => 100,
        },
        match offset {
            Some(n) => n as int,
            None => 0,
        },
    )
}

/// One page of `messages`.
pub fn paginate(messages: &Vec<InspectorMessage>, limit: Option<usize>, offset: Option<usize>) -> (page:
    Vec<InspectorMessage>)
    ensures
        messages_of(page@) == page_of(
            messages_of(messages@),
            page_range(limit, offset).0,
            page_range(limit, offset).1,
        ),
{
    let limit: usize = match limit {
        Some(n) => n,
        None => 100,
    };
    let offset: usize = match offset {
        Some(n) => n,
        None => 0,
    };
    let mut page: Vec<InspectorMessage> = Vec::new();
    if offset >= messages.len() {
        assert(messages_of(page@) =~= Seq::<InspectorMessageView>::empty());
        return page;
    }
    let end: usize = if limit >= messages.len() - offset {
        messages.len()
    } else {
        offset + limit
    };
    let mut i: usize = offset;
    while i < end
        invariant
            offset <= i <= end <= messages@.len(),
            page@.len() == i - offset,
            forall|k: int| 0 <= k < page@.len() ==> page@[k]@ == messages@[offset + k]@,
        decreases end - i,
    {
        page.push(messages[i].duplicate());
        i += 1;
    }
    assert(messages_of(page@) =~= messages_of(messages@).subrange(offset as int, end as int));
    page
}

/// The captured messages, server by server, in the order of their capture.
pub struct InspectorMessages {
    lists: Vec<(String, Vec<InspectorMessage>)>,
}

impl InspectorMessages {
    #[verifier::type_invariant]
    spec fn well_formed(self) -> bool {
        distinct_keys(message_entries(self.lists@))
    }

    /// The messages captured for each server that has any on record.
    pub closed spec fn captured(&self) -> Map<Seq<char>, Seq<InspectorMessageView>> {
        map_of(message_entries(self.lists@))
    }

    /// The messages captured for `server_name`; none for a server that is not
    /// on record.
    pub open spec fn of(&self, server_name: Seq<char>) -> Seq<InspectorMessageView> {
        if self.captured().dom().contains(server_name) {
            self.captured()[server_name]
        } else {
            Seq::empty()
        }
    }

    /// No messages.
    pub fn new() -> (store: Self)
        ensures
            store.captured() == Map::<Seq<char>, Seq<InspectorMessageView>>::empty(),
    {
        let store = InspectorMessages { lists: Vec::new() };
        proof {
            lemma_map_empty(message_entries(store.lists@));
        }
        store
    }

    /// Index of the list of `server_name`, if there is one.
    fn position(&self, server_name: &str) -> (found: Option<usize>)
        ensures
            match found {
                Some(i) => i < self.lists@.len() && self.lists@[i as int].0@ == server_name@,
                None => !has_key(message_entries(self.lists@), server_name@),
            },
    {
        let mut i: usize = 0;
        while i < self.lists.len()
            invariant
                i <= self.lists@.len(),
                forall|k: int| 0 <= k < i ==> self.lists@[k].0@ != server_name@,
            decreases self.lists@.len() - i,
        {
            if same_text(self.lists[i].0.as_str(), server_name) {
                return Some(i);
            }
            i += 1;
        }
        assert forall|k: int| 0 <= k < self.lists@.len() implies (#[trigger] message_entries(
            self.lists@,
        )[k]).0 != server_name@ by {}
        None
    }

    /// Records `message` as the latest one captured for `server_name`.
    pub fn add_inspector_message(&mut self, server_name: &str, message: InspectorMessage)
        ensures
            final(self).captured() == old(self).captured().insert(
                server_name@,
                old(self).of(server_name@).push(message@),
            ),
    {
        proof {
            use_type_invariant(&*self);
        }
        let found = self.position(server_name);
        let mut lists: Vec<(String, Vec<InspectorMessage>)> = Vec::new();
        proof {
            lemma_map_empty(message_entries(lists@));
        }
        core::mem::swap(&mut self.lists, &mut lists);
        let ghost before = message_entries(lists@);
        match found {
            Some(i) => {
                proof {
                    lemma_map_entry(before, i as int);
                }
                let (name, mut list) = lists.remove(i);
                let ghost earlier = messages_of(list@);
                list.push(message);
                assert(messages_of(list@) =~= earlier.push(message@));
                proof {
                    lemma_map_update(before, i as int, messages_of(list@));
                }
                lists.insert(i, (name, list));
                assert(message_entries(lists@) =~= before.update(
                    i as int,
                    (server_name@, earlier.push(message@)),
                ));
            },
            None => {
                let mut list: Vec<InspectorMessage> = Vec::new();
                list.push(message);
                assert(messages_of(list@) =~= Seq::<InspectorMessageView>::empty().push(message@));
                proof {
                    lemma_map_push(before, server_name@, messages_of(list@));
                }
                lists.push((server_name.to_owned(), list));
                assert(message_entries(lists@) =~= before.push(
                    (server_name@, messages_of(list@)),
                ));
            },
        }
        core::mem::swap(&mut self.lists, &mut lists);
    }

    /// The messages captured for `server_name`, oldest first.
    pub fn get_inspector_messages(&self, server_name: &str) -> (messages: Vec<InspectorMessage>)
        ensures
            messages_of(messages@) == self.of(server_name@),
    {
        proof {
            use_type_invariant(self);
        }
        match self.position(server_name) {
            Some(i) => {
                proof {
                    lemma_map_entry(message_entries(self.lists@), i as int);
                }
                let page = paginate(&self.lists[i].1, Some(self.lists[i].1.len()), None);
                assert(messages_of(self.lists@[i as int].1@).skip(0) =~= messages_of(
                    self.lists@[i as int].1@,
                ));
                page
            },
            None => {
                let messages: Vec<InspectorMessage> = Vec::new();
                assert(messages_of(messages@) =~= Seq::<InspectorMessageView>::empty());
                messages
            },
        }
    }

    /// Forgets the messages captured for `server_name`.
    pub fn clear_inspector_messages(&mut self, server_name: &str)
        ensures
            final(self).captured() == old(self).captured().remove(server_name@),
    {
        proof {
            use_type_invariant(&*self);
        }
        match self.position(server_name) {
            Some(i) => {
                let mut lists: Vec<(String, Vec<InspectorMessage>)> = Vec::new();
                proof {
                    lemma_map_empty(message_entries(lists@));
                }
                core::mem::swap(&mut self.lists, &mut lists);
                proof {
                    let before = message_entries(lists@);
                    lemma_map_entry(before, i as int);
                    lemma_map_remove(before, i as int);
                    assert(message_entries(lists@.remove(i as int)) =~= before.remove(i as int));
                }
                let _ = lists.remove(i);
                core::mem::swap(&mut self.lists, &mut lists);
            },
            None => {
                assert(self.captured().remove(server_name@) =~= self.captured());
            },
        }
    }
}

/// What the application holds in memory: the configuration as it was last
/// read or written, the inspection sessions, and the captured messages.
pub struct AppState {
    config_cache: Option<McpConfig>,
    inspector_sessions: InspectorSessions,
    inspector_messages: InspectorMessages,
}

impl AppState {
    /// The cached configuration, if one is cached.
    pub closed spec fn cached(&self) -> Option<McpConfigView> {
        match self.config_cache {
            Some(config) => Some(config@),
            None => None,
        }
    }

    /// For each inspected server, whether its session is active.
    pub closed spec fn sessions(&self) -> Map<Seq<char>, bool> {
        self.inspector_sessions.active()
    }

    /// The messages captured for `server_name`.
    pub closed spec fn messages(&self, server_name: Seq<char>) -> Seq<InspectorMessageView> {
        self.inspector_messages.of(server_name)
    }

    /// A state with nothing cached, no session and no message.
    pub fn new() -> (state: Self)
        ensures
            state.cached() is None,
            state.sessions() == Map::<Seq<char>, bool>::empty(),
            forall|name: Seq<char>| (#[trigger] state.messages(name)).len() == 0,
    {
        AppState {
            config_cache: None,
            inspector_sessions: InspectorSessions::new(),
            inspector_messages: InspectorMessages::new(),
        }
    }

    /// A copy of the cached configuration; `None` where the configuration
    /// has to be read first.
    pub fn get_config(&self) -> (config: Option<McpConfig>)
        ensures
            match config {
                Some(copy) => self.cached() == Some(copy@),
                None => self.cached() is None,
            },
    {
        match &self.config_cache {
            Some(config) => Some(config.duplicate()),
            None => None,
        }
    }

    /// Caches `config`, which was just read or written.
    pub fn set_config(&mut self, config: McpConfig)
        ensures
            final(self).cached() == Some(config@),
            final(self).sessions() == old(self).sessions(),
            forall|name: Seq<char>| final(self).messages(name) == old(self).messages(name),
    {
        self.config_cache = Some(config);
    }

    /// Forgets the cached configuration, so that it is read anew.
    pub fn invalidate_cache(&mut self)
        ensures
            final(self).cached() is None,
            final(self).sessions() == old(self).sessions(),
            forall|name: Seq<char>| final(self).messages(name) == old(self).messages(name),
    {
        self.config_cache = None;
    }

    /// Begins an inspection session for `server_name`.
    pub fn start_inspector(&mut self, server_name: &str) -> (session: InspectorSessionState)
        ensures
            final(self).sessions() == old(self).sessions().insert(server_name@, true),
            final(self).cached() == old(self).cached(),
            forall|name: Seq<char>| final(self).messages(name) == old(self).messages(name),
            session.server_name@ == server_name@,
            session.is_active,
    {
        self.inspector_sessions.start(server_name)
    }

    /// Ends the inspection session of `server_name`, if it has one.
    pub fn stop_inspector(&mut self, server_name: &str)
        ensures
            final(self).sessions() == if old(self).sessions().dom().contains(server_name@) {
                old(self).sessions().insert(server_name@, false)
            } else {
                old(self).sessions()
            },
            final(self).cached() == old(self).cached(),
            forall|name: Seq<char>| final(self).messages(name) == old(self).messages(name),
    {
        self.inspector_sessions.stop(server_name)
    }

    /// Records `message` as the latest one captured for `server_name`.
    pub fn add_inspector_message(&mut self, server_name: &str, message: InspectorMessage)
        ensures
            final(self).messages(server_name@) == old(self).messages(server_name@).push(message@),
            forall|name: Seq<char>|
                name != server_name@ ==> final(self).messages(name) == old(self).messages(name),
            final(self).cached() == old(self).cached(),
            final(self).sessions() == old(self).sessions(),
    {
        self.inspector_messages.add_inspector_message(server_name, message)
    }

    /// The messages captured for `server_name`, oldest first.
    pub fn get_inspector_messages(&self, server_name: &str) -> (messages: Vec<InspectorMessage>)
        ensures
            messages_of(messages@) == self.messages(server_name@),
    {
        self.inspector_messages.get_inspector_messages(server_name)
    }

    /// Forgets the messages captured for `server_name`.
    pub fn clear_inspector_messages(&mut self, server_name: &str)
        ensures
            final(self).messages(server_name@).len() == 0,
            forall|name: Seq<char>|
                name != server_name@ ==> final(self).messages(name) == old(self).messages(name),
            final(self).cached() == old(self).cached(),
            final(self).sessions() == old(self).sessions(),
    {
        self.inspector_messages.clear_inspector_messages(server_name)
    }
}

impl Default for AppState {
    fn default() -> (state: Self)
        ensures
            state.cached() is None,
            state.sessions() == Map::<Seq<char>, bool>::empty(),
    {
        AppState::new()
    }
}

} // verus!
